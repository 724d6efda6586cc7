//! The two storage backends and the statements that the service sends them.

use vstd::prelude::*;
use vstd::string::StrSliceExecFns;

verus! {

/// The kind of database behind the service.
#[derive(Clone, Copy, Debug, PartialEq, Eq, Structural)]
pub enum Backend {
    /// A database engine embedded in the process, kept in a single file.
    Embedded,
    /// A database server reached over the network.
    Networked,
}

/// The backend that a connection target names by its scheme, if any.
pub open spec fn backend_of(target: Seq<char>) -> Option<Backend> {
    if "sqlite:"@.is_prefix_of(target) {
        Some(Backend::Embedded)
    } else if "postgres:"@.is_prefix_of(target) || "postgresql:"@.is_prefix_of(target) {
        Some(Backend::Networked)
    } else {
        None
    }
}

/// The statement that creates the readings table where it does not exist.
pub open spec fn schema_text(backend: Backend) -> Seq<char> {
    match backend {
        Backend::Embedded =>
            "CREATE TABLE IF NOT EXISTS readings (id INTEGER PRIMARY KEY AUTOINCREMENT, timestamp TEXT NOT NULL DEFAULT (strftime('%Y-%m-%dT%H:%M:%SZ', 'now')), eco2 INTEGER NOT NULL DEFAULT 0, ech2o INTEGER NOT NULL DEFAULT 0, tvoc INTEGER NOT NULL DEFAULT 0, pm2_5 INTEGER NOT NULL DEFAULT 0, pm10 INTEGER NOT NULL DEFAULT 0, temperature REAL NOT NULL DEFAULT 0, humidity REAL NOT NULL DEFAULT 0)"@,
        Backend::Networked =>
            "CREATE TABLE IF NOT EXISTS readings (id BIGSERIAL PRIMARY KEY, timestamp TEXT NOT NULL DEFAULT to_char(now() AT TIME ZONE 'UTC', 'YYYY-MM-DD\"T\"HH24:MI:SS\"Z\"'), eco2 INTEGER NOT NULL DEFAULT 0, ech2o INTEGER NOT NULL DEFAULT 0, tvoc INTEGER NOT NULL DEFAULT 0, pm2_5 INTEGER NOT NULL DEFAULT 0, pm10 INTEGER NOT NULL DEFAULT 0, temperature REAL NOT NULL DEFAULT 0, humidity REAL NOT NULL DEFAULT 0)"@,
    }
}

/// The statement that stores one reading; its seven parameters are the
/// measured values in the order of the columns it names.
pub open spec fn insert_text() -> Seq<char> {
    "INSERT INTO readings (eco2, ech2o, tvoc, pm2_5, pm10, temperature, humidity) VALUES ($1, $2, $3, $4, $5, $6, $7)"@
}

/// The statement that fetches the newest readings; its one parameter is how
/// many to fetch.
pub open spec fn recent_text() -> Seq<char> {
    "SELECT id, timestamp, eco2, ech2o, tvoc, pm2_5, pm10, temperature, humidity FROM readings ORDER BY id DESC LIMIT $1"@
}

/// Whether `text` begins with `prefix`.
pub fn starts_with(text: &str, prefix: &str) -> (found: bool)
    ensures
        found == prefix@.is_prefix_of(text@),
{
    let n: usize = prefix.unicode_len();
    let m: usize = text.unicode_len();
    if m < n {
        return false;
    }
    let mut i: usize = 0;
    while i < n
        invariant
            n == prefix@.len(),
            m == text@.len(),
            n <= m,
            i <= n,
            forall|k: int| 0 <= k < i ==> text@[k] == prefix@[k],
        decreases n - i,
    {
        if text.get_char(i) != prefix.get_char(i) {
            assert(text@.subrange(0, n as int)[i as int] != prefix@[i as int]);
            return false;
        }
        i += 1;
    }
    assert(text@.subrange(0, n as int) =~= prefix@);
    true
}

impl Backend {
    /// Picks the backend for a connection target: `sqlite:` names the
    /// embedded engine, `postgres:` and `postgresql:` name the networked one,
    /// and any other target names none.
    pub fn for_target(target: &str) -> (backend: Option<Backend>)
        ensures
            backend == backend_of(target@),
    {
        if starts_with(target, "sqlite:") {
            Some(Backend::Embedded)
        } else if starts_with(target, "postgres:") || starts_with(target, "postgresql:") {
            Some(Backend::Networked)
        } else {
            None
        }
    }

    /// The statement that creates the readings table if it does not exist:
    /// an automatically assigned `id` as primary key, a `timestamp` that
    /// defaults to the time of the insert as ISO-8601 text, and the seven
    /// measured values, none of them nullable.
    pub fn schema_statement(&self) -> (statement: &'static str)
        ensures
            statement@ == schema_text(*self),
    {
        match self {
            Backend::Embedded =>
                "CREATE TABLE IF NOT EXISTS readings (id INTEGER PRIMARY KEY AUTOINCREMENT, timestamp TEXT NOT NULL DEFAULT (strftime('%Y-%m-%dT%H:%M:%SZ', 'now')), eco2 INTEGER NOT NULL DEFAULT 0, ech2o INTEGER NOT NULL DEFAULT 0, tvoc INTEGER NOT NULL DEFAULT 0, pm2_5 INTEGER NOT NULL DEFAULT 0, pm10 INTEGER NOT NULL DEFAULT 0, temperature REAL NOT NULL DEFAULT 0, humidity REAL NOT NULL DEFAULT 0)",
            Backend::Networked =>
                "CREATE TABLE IF NOT EXISTS readings (id BIGSERIAL PRIMARY KEY, timestamp TEXT NOT NULL DEFAULT to_char(now() AT TIME ZONE 'UTC', 'YYYY-MM-DD\"T\"HH24:MI:SS\"Z\"'), eco2 INTEGER NOT NULL DEFAULT 0, ech2o INTEGER NOT NULL DEFAULT 0, tvoc INTEGER NOT NULL DEFAULT 0, pm2_5 INTEGER NOT NULL DEFAULT 0, pm10 INTEGER NOT NULL DEFAULT 0, temperature REAL NOT NULL DEFAULT 0, humidity REAL NOT NULL DEFAULT 0)",
        }
    }

    /// The statement that stores one reading, the same for both backends.
    pub fn insert_statement(&self) -> (statement: &'static str)
        ensures
            statement@ == insert_text(),
    {
        "INSERT INTO readings (eco2, ech2o, tvoc, pm2_5, pm10, temperature, humidity) VALUES ($1, $2, $3, $4, $5, $6, $7)"
    }

    /// The statement that fetches the newest readings, the same for both
    /// backends.
    pub fn recent_statement(&self) -> (statement: &'static str)
        ensures
            statement@ == recent_text(),
    {
        "SELECT id, timestamp, eco2, ech2o, tvoc, pm2_5, pm10, temperature, humidity FROM readings ORDER BY id DESC LIMIT $1"
    }
}

} // verus!
