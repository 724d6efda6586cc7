//! What holds of the service as a whole, proved from the rules of
//! authentication, of the handlers and of the table.

use vstd::prelude::*;
use vstd::utf8::encode_utf8;
use crate::query::RECENT_LIMIT;
use crate::reading::Measurement;
use crate::reading::ReadingView;
use crate::response::ResponseView;
use crate::service::listed;
use crate::service::posted;
use crate::store::TableView;

verus! {

/// A reading submitted with the configured key is stored and is the first
/// one that the next query serves: with the submitted values, the creation
/// time of the insert, and an identifier above that of every row stored
/// before. This is what happens whenever storage is able to take the row,
/// that is, the table exists and an identifier is left.
pub proof fn lemma_accepted_reading_is_served_first(
    secret: Seq<char>,
    table: TableView,
    payload: ReadingView,
    now: Seq<char>,
)
    requires
        table.wf(),
        secret.len() > 0,
        table.can_insert(),
    ensures
        ({
            let (after, response) = posted(Some(secret), table, Some(encode_utf8(secret)), payload, now);
            &&& response == ResponseView::Success
            &&& after.wf()
            &&& after.rows.len() == table.rows.len() + 1
            &&& listed(after).len() >= 1
            &&& listed(after)[0] == ReadingView::stored(
                table.next_id() as i64,
                now,
                payload.values,
            )
            &&& forall|i: int|
                0 <= i < table.rows.len() ==> (#[trigger] table.rows[i]).id->0 < listed(
                    after,
                )[0].id->0
        }),
{
    let after = table.insert(payload.values, now);
    assert(after.rows.len() == table.rows.len() + 1);
    assert forall|i: int| 0 <= i < after.rows.len() implies {
        &&& (#[trigger] after.rows[i]).is_stored()
        &&& 1 <= after.rows[i].id->0 <= after.last_id
    } by {
        if i < table.rows.len() {
            assert(after.rows[i] == table.rows[i]);
        }
    }
    assert forall|i: int, j: int| 0 <= i < j < after.rows.len() implies (
    #[trigger] after.rows[i]).id->0 < (#[trigger] after.rows[j]).id->0 by {
        assert(after.rows[i] == table.rows[i]);
        if j < table.rows.len() {
            assert(after.rows[j] == table.rows[j]);
        }
    }
}

/// A request that does not present the configured key, or presents none,
/// writes nothing. It is answered as unauthorized; only where the server has
/// no key at all is it answered as a misconfiguration of the server instead.
pub proof fn lemma_wrong_credential_writes_nothing(
    secret: Option<Seq<char>>,
    table: TableView,
    credential: Option<Seq<u8>>,
    payload: ReadingView,
    now: Seq<char>,
)
    requires
        secret is None || credential != Some(encode_utf8(secret->0)),
    ensures
        posted(secret, table, credential, payload, now).0 == table,
        secret is Some && secret->0.len() > 0 ==> posted(
            secret,
            table,
            credential,
            payload,
            now,
        ).1 == ResponseView::Unauthorized,
        secret is None || secret->0.len() == 0 ==> posted(
            secret,
            table,
            credential,
            payload,
            now,
        ).1 == ResponseView::Misconfigured,
{
}

/// With no key configured, or an empty one, every ingestion request is
/// answered as a misconfiguration of the server and writes nothing,
/// whatever credential it presents.
pub proof fn lemma_unset_secret_rejects_every_request(
    secret: Option<Seq<char>>,
    table: TableView,
    credential: Option<Seq<u8>>,
    payload: ReadingView,
    now: Seq<char>,
)
    requires
        secret is None || secret->0.len() == 0,
    ensures
        posted(secret, table, credential, payload, now) == (table, ResponseView::Misconfigured),
{
}

/// A query serves at most a hundred rows, in strictly descending order of
/// identifier, and they are the most recently inserted ones: every row left
/// out is older than every row served.
pub proof fn lemma_listing_is_bounded_and_descending(table: TableView)
    requires
        table.wf(),
    ensures
        listed(table).len() <= 100,
        listed(table).len() <= table.rows.len(),
        forall|i: int, j: int|
            0 <= i < j < listed(table).len() ==> (#[trigger] listed(table)[i]).id->0 > (
            #[trigger] listed(table)[j]).id->0,
        forall|i: int, k: int|
            0 <= i < listed(table).len() && 0 <= k < table.rows.len() - listed(table).len()
                ==> (#[trigger] table.rows[k]).id->0 < (#[trigger] listed(table)[i]).id->0,
{
    let list = listed(table);
    let n = table.rows.len() as int;
    assert(RECENT_LIMIT == 100);
    assert forall|i: int, j: int| 0 <= i < j < list.len() implies (#[trigger] list[i]).id->0 > (
    #[trigger] list[j]).id->0 by {
        assert(list[i] == table.rows[n - 1 - i]);
        assert(list[j] == table.rows[n - 1 - j]);
    }
    assert forall|i: int, k: int|
        0 <= i < list.len() && 0 <= k < table.rows.len() - list.len() implies (
    #[trigger] table.rows[k]).id->0 < (#[trigger] list[i]).id->0 by {
        assert(list[i] == table.rows[n - 1 - i]);
    }
}

/// Creating the table is idempotent: a second run changes nothing, and no
/// run touches the rows that are already stored.
pub proof fn lemma_table_creation_is_idempotent(table: TableView)
    requires
        table.wf(),
    ensures
        table.ensure_created().wf(),
        table.ensure_created().rows == table.rows,
        table.ensure_created().last_id == table.last_id,
        table.ensure_created().ensure_created() == table.ensure_created(),
        listed(table.ensure_created().ensure_created()) == listed(table.ensure_created()),
{
}

/// Identifiers never repeat: two different rows of the table carry
/// different identifiers.
pub proof fn lemma_identifiers_are_unique(table: TableView, i: int, j: int)
    requires
        table.wf(),
        0 <= i < table.rows.len(),
        0 <= j < table.rows.len(),
        i != j,
    ensures
        table.rows[i].id != table.rows[j].id,
{
    if i < j {
        assert(table.rows[i].id->0 < table.rows[j].id->0);
    } else {
        assert(table.rows[j].id->0 < table.rows[i].id->0);
    }
}

/// The values of a stored row are those that were submitted, whatever
/// identifier or time the submission itself carried.
pub proof fn lemma_submitted_identity_is_ignored(
    table: TableView,
    values: Measurement,
    id: Option<i64>,
    timestamp: Option<Seq<char>>,
    secret: Seq<char>,
    now: Seq<char>,
)
    requires
        secret.len() > 0,
    ensures
        posted(
            Some(secret),
            table,
            Some(encode_utf8(secret)),
            ReadingView { id, timestamp, values },
            now,
        ) == posted(
            Some(secret),
            table,
            Some(encode_utf8(secret)),
            ReadingView { id: None, timestamp: None, values },
            now,
        ),
{
}

} // verus!
