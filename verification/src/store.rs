//! The readings table: what every storage backend has to keep.
//!
//! [`TableView`] states the persistence rules on plain sequences, and
//! [`ReadingTable`] is a table held in memory that follows them. A database
//! behind the service is expected to behave as this table does.

use vstd::prelude::*;
use crate::reading::views;
use crate::reading::Measurement;
use crate::reading::Reading;
use crate::reading::ReadingView;

verus! {

/// Why the table refused an operation.
#[derive(Clone, Copy, Debug, PartialEq, Eq, Structural)]
pub enum StoreError {
    /// The table was never created.
    TableMissing,
    /// Every identifier has been handed out.
    IdentifiersExhausted,
}

/// Mathematical value of the table.
pub struct TableView {
    /// Whether the table exists.
    pub created: bool,
    /// The rows, oldest first.
    pub rows: Seq<ReadingView>,
    /// The highest identifier handed out so far, 0 before the first insert.
    pub last_id: int,
}

impl TableView {
    /// The rules that hold of the table at all times: every row carries an
    /// identifier and a creation time, identifiers are positive, never above
    /// the last one handed out, and strictly increasing in insertion order;
    /// a table that does not exist has no rows.
    pub open spec fn wf(self) -> bool {
        &&& 0 <= self.last_id <= i64::MAX
        &&& (!self.created ==> self.rows.len() == 0)
        &&& forall|i: int|
            0 <= i < self.rows.len() ==> {
                &&& (#[trigger] self.rows[i]).is_stored()
                &&& 1 <= self.rows[i].id->0 <= self.last_id
            }
        &&& forall|i: int, j: int|
            0 <= i < j < self.rows.len() ==> (#[trigger] self.rows[i]).id->0 < (
            #[trigger] self.rows[j]).id->0
    }

    /// Storage in which the table has not been created yet.
    pub open spec fn absent() -> TableView {
        TableView { created: false, rows: Seq::empty(), last_id: 0 }
    }

    /// The table after "create if it does not exist": it exists, and the
    /// rows it held are untouched.
    pub open spec fn ensure_created(self) -> TableView {
        TableView { created: true, ..self }
    }

    /// Whether an insert will succeed.
    pub open spec fn can_insert(self) -> bool {
        self.created && self.last_id < i64::MAX
    }

    /// Why an insert fails, where it does.
    pub open spec fn insert_error(self) -> StoreError {
        if !self.created {
            StoreError::TableMissing
        } else {
            StoreError::IdentifiersExhausted
        }
    }

    /// The identifier that the next insert assigns.
    pub open spec fn next_id(self) -> int {
        self.last_id + 1
    }

    /// The table after one insert of `values` at time `timestamp`: one new
    /// row at the end, under the next identifier.
    pub open spec fn insert(self, values: Measurement, timestamp: Seq<char>) -> TableView {
        TableView {
            created: self.created,
            rows: self.rows.push(ReadingView::stored(self.next_id() as i64, timestamp, values)),
            last_id: self.next_id(),
        }
    }

    /// How many rows a fetch of at most `limit` rows returns.
    pub open spec fn recent_len(self, limit: nat) -> nat {
        if limit < self.rows.len() {
            limit
        } else {
            self.rows.len()
        }
    }

    /// The `limit` most recently inserted rows, newest first.
    pub open spec fn recent(self, limit: nat) -> Seq<ReadingView> {
        Seq::new(self.recent_len(limit), |i: int| self.rows[self.rows.len() - 1 - i])
    }
}

impl StoreError {
    /// The description of the error.
    pub open spec fn text(self) -> Seq<char> {
        match self {
            StoreError::TableMissing => "no such table: readings"@,
            StoreError::IdentifiersExhausted => "identifiers exhausted for table readings"@,
        }
    }

    /// The description of the error, as storage words it.
    pub fn describe(&self) -> (text: String)
        ensures
            text@ == self.text(),
    {
        match self {
            StoreError::TableMissing => "no such table: readings".to_owned(),
            StoreError::IdentifiersExhausted => "identifiers exhausted for table readings".to_owned(),
        }
    }
}

/// A readings table held in memory.
#[derive(Clone, Debug)]
pub struct ReadingTable {
    created: bool,
    rows: Vec<Reading>,
    last_id: i64,
}

impl View for ReadingTable {
    type V = TableView;

    closed spec fn view(&self) -> TableView {
        TableView { created: self.created, rows: views(self.rows@), last_id: self.last_id as int }
    }
}

impl ReadingTable {
    /// Storage in which the table does not exist yet.
    pub fn new() -> (table: ReadingTable)
        ensures
            table@ == TableView::absent(),
            table@.wf(),
    {
        let table = ReadingTable { created: false, rows: Vec::new(), last_id: 0 };
        assert(table@.rows =~= Seq::empty());
        table
    }

    /// Storage in which the table does not exist yet and whose identifiers
    /// continue after `last_id`; a negative `last_id` counts as zero.
    pub fn starting_after(last_id: i64) -> (table: ReadingTable)
        ensures
            table@ == (TableView {
                last_id: if last_id < 0 {
                    0
                } else {
                    last_id as int
                },
                ..TableView::absent()
            }),
            table@.wf(),
    {
        let last_id: i64 = if last_id < 0 {
            0
        } else {
            last_id
        };
        let table = ReadingTable { created: false, rows: Vec::new(), last_id };
        assert(table@.rows =~= Seq::empty());
        table
    }

    /// Creates the table if it does not exist. Safe to run at every start:
    /// rows that are already there stay as they are.
    pub fn create_if_absent(&mut self)
        requires
            old(self)@.wf(),
        ensures
            final(self)@ == old(self)@.ensure_created(),
            final(self)@.wf(),
    {
        self.created = true;
    }

    /// Stores `values` as one new row created at `timestamp` and returns the
    /// identifier it was given. On an error nothing is written.
    pub fn insert(&mut self, values: Measurement, timestamp: String) -> (outcome: Result<
        i64,
        StoreError,
    >)
        requires
            old(self)@.wf(),
        ensures
            final(self)@.wf(),
            match outcome {
                Ok(id) => {
                    &&& old(self)@.can_insert()
                    &&& id == old(self)@.next_id()
                    &&& final(self)@ == old(self)@.insert(values, timestamp@)
                },
                Err(error) => {
                    &&& !old(self)@.can_insert()
                    &&& error == old(self)@.insert_error()
                    &&& final(self)@ == old(self)@
                },
            },
    {
        if !self.created {
            return Err(StoreError::TableMissing);
        }
        if self.last_id == i64::MAX {
            return Err(StoreError::IdentifiersExhausted);
        }
        let id: i64 = self.last_id + 1;
        let row = Reading::stored(id, timestamp, values);
        self.rows.push(row);
        self.last_id = id;
        proof {
            assert(final(self)@.rows =~= old(self)@.insert(values, timestamp@).rows);
        }
        Ok(id)
    }

    /// Fetches at most `limit` rows, the most recently inserted first.
    pub fn recent(&self, limit: usize) -> (outcome: Result<Vec<Reading>, StoreError>)
        requires
            self@.wf(),
        ensures
            match outcome {
                Ok(list) => self@.created && views(list@) == self@.recent(limit as nat),
                Err(error) => !self@.created && error == StoreError::TableMissing,
            },
    {
        if !self.created {
            return Err(StoreError::TableMissing);
        }
        let n: usize = self.rows.len();
        let count: usize = if limit < n {
            limit
        } else {
            n
        };
        let mut list: Vec<Reading> = Vec::new();
        let mut k: usize = 0;
        while k < count
            invariant
                n == self.rows@.len(),
                k <= count <= n,
                list@.len() == k,
                forall|j: int| 0 <= j < k ==> (#[trigger] list@[j])@ == self.rows@[n - 1 - j]@,
            decreases count - k,
        {
            list.push(self.rows[n - 1 - k].duplicate());
            k += 1;
        }
        proof {
            assert(views(list@) =~= self@.recent(limit as nat));
        }
        Ok(list)
    }

    /// The number of rows in the table.
    pub fn row_count(&self) -> (n: usize)
        ensures
            n == self@.rows.len(),
    {
        self.rows.len()
    }
}

} // verus!
