//! The two endpoints over a table in memory: the whole round trip of a
//! request, with storage included.

use vstd::prelude::*;
use crate::auth::credential_bytes;
use crate::auth::AuthGate;
use crate::guarantees::lemma_listing_is_bounded_and_descending;
use crate::ingest::add_reading;
use crate::ingest::conclude_add_reading;
use crate::ingest::ingestion_for;
use crate::ingest::Ingestion;
use crate::ingest::IngestionView;
use crate::query::get_readings;
use crate::query::RECENT_LIMIT;
use crate::reading::views;
use crate::reading::Reading;
use crate::reading::ReadingView;
use crate::response::Response;
use crate::response::ResponseView;
use crate::store::ReadingTable;
use crate::store::TableView;

verus! {

/// The table and the answer after one ingestion request.
///
/// A rejected request leaves the table as it was. An accepted one adds
/// exactly one row, or, where storage refuses, adds nothing and answers with
/// storage's description of the failure.
pub open spec fn posted(
    secret: Option<Seq<char>>,
    table: TableView,
    credential: Option<Seq<u8>>,
    payload: ReadingView,
    now: Seq<char>,
) -> (TableView, ResponseView) {
    match ingestion_for(secret, credential, payload) {
        IngestionView::Reject(response) => (table, response),
        IngestionView::Insert(values) => if table.can_insert() {
            (table.insert(values, now), ResponseView::Success)
        } else {
            (table, ResponseView::StorageFailure(table.insert_error().text()))
        },
    }
}

/// What a viewer is served: the newest rows first, at most
/// [`RECENT_LIMIT`] of them, and nothing at all where the table cannot be
/// read.
pub open spec fn listed(table: TableView) -> Seq<ReadingView> {
    if table.created {
        table.recent(RECENT_LIMIT as nat)
    } else {
        Seq::empty()
    }
}

/// Serves one ingestion request against `table`. `now` is the creation time
/// that a stored row gets.
pub fn post_reading(
    gate: &AuthGate,
    table: &mut ReadingTable,
    credential: Option<&[u8]>,
    payload: &Reading,
    now: String,
) -> (response: Response)
    requires
        old(table)@.wf(),
    ensures
        final(table)@.wf(),
        (final(table)@, response@) == posted(
            gate@,
            old(table)@,
            credential_bytes(credential),
            payload@,
            now@,
        ),
{
    match add_reading(gate, credential, payload) {
        Ingestion::Reject(response) => response,
        Ingestion::Insert(values) => {
            let outcome = match table.insert(values, now) {
                Ok(_) => Ok(()),
                Err(error) => Err(error.describe()),
            };
            conclude_add_reading(outcome)
        },
    }
}

/// Serves one query against `table`. No credential is asked for.
pub fn list_readings(table: &ReadingTable) -> (list: Vec<Reading>)
    requires
        table@.wf(),
    ensures
        views(list@) == listed(table@),
        list@.len() <= RECENT_LIMIT,
        forall|i: int, j: int|
            0 <= i < j < list@.len() ==> (#[trigger] list@[i])@.id->0 > (#[trigger] list@[j])@.id->0,
{
    let list = get_readings(table.recent(RECENT_LIMIT));
    proof {
        assert(views(list@) =~= listed(table@));
        lemma_listing_is_bounded_and_descending(table@);
        assert forall|i: int, j: int| 0 <= i < j < list@.len() implies (#[trigger] list@[i])@.id->0
            > (#[trigger] list@[j])@.id->0 by {
            assert(views(list@)[i] == list@[i]@);
            assert(views(list@)[j] == list@[j]@);
        }
    }
    list
}

} // verus!
