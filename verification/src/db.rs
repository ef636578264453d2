//! The storage side of the history: the SQL text, the values that go into and come out of a
//! row, the data directory, and the matching of stored commands during a search.
use vstd::prelude::*;
use crate::model::HistoryEntry;
use crate::search::{fuzzy_matches, is_fuzzy_subsequence};
use crate::text::{join_path, join_path_exec, opt_bytes, push_str, string_of};
use vstd::string::StringSliceAdditionalSpecFns;
use crate::time::{four_digit_year, parse_rfc3339, parsed_rfc3339, rfc3339, to_rfc3339, Timestamp};

verus! {

/// Why a value cannot go into or come out of the database.
#[derive(Debug)]
pub enum DbError {
    /// The local data directory is unknown.
    NoDataDirectory,
    /// A duration too large for the database's 64-bit signed integers.
    DurationTooLarge(u64),
    /// A stored duration below zero (column 4).
    NegativeDuration(i64),
    /// A stored time that is not an RFC 3339 time within `chrono`'s range (column 5).
    BadTimestamp(String),
}

/// The SQL that creates the history table when it is missing.
pub open spec fn schema_sql() -> Seq<char> {
    "\n        CREATE TABLE IF NOT EXISTS history (\n            id INTEGER PRIMARY KEY AUTOINCREMENT,\n            command TEXT NOT NULL,\n            cwd TEXT NOT NULL,\n            exit_code INTEGER NOT NULL,\n            duration_ms INTEGER NOT NULL,\n            timestamp TEXT NOT NULL\n        );\n        "@
}

/// The SQL that creates the history table when it is missing.
pub fn schema() -> (res: &'static str)
    ensures
        res@ == schema_sql(),
{
    "\n        CREATE TABLE IF NOT EXISTS history (\n            id INTEGER PRIMARY KEY AUTOINCREMENT,\n            command TEXT NOT NULL,\n            cwd TEXT NOT NULL,\n            exit_code INTEGER NOT NULL,\n            duration_ms INTEGER NOT NULL,\n            timestamp TEXT NOT NULL\n        );\n        "
}

/// The SQL that stores one entry, with parameters command, cwd, exit code, duration, time.
pub fn insert_sql() -> (res: &'static str)
    ensures
        res@ == "INSERT INTO \n        history (command, cwd, exit_code, duration_ms, timestamp) \n        VALUES (?1, ?2, ?3, ?4, ?5)\n        "@,
{
    "INSERT INTO \n        history (command, cwd, exit_code, duration_ms, timestamp) \n        VALUES (?1, ?2, ?3, ?4, ?5)\n        "
}

/// The SQL that asks whether an entry with the same command, cwd and time is stored.
pub fn exists_sql() -> (res: &'static str)
    ensures
        res@ == "\n        SELECT EXISTS(\n            SELECT 1\n            FROM history\n            WHERE command = ?1\n              AND cwd = ?2\n              AND timestamp = ?3\n        )\n        "@,
{
    "\n        SELECT EXISTS(\n            SELECT 1\n            FROM history\n            WHERE command = ?1\n              AND cwd = ?2\n              AND timestamp = ?3\n        )\n        "
}

/// The search SQL: all columns of the history, only failed commands (a nonzero exit code) when
/// `failed_only`, only those run in the directory bound to `?1` when `has_cwd_filter`, newest
/// first.
pub open spec fn search_sql(failed_only: bool, has_cwd_filter: bool) -> Seq<char> {
    let head = if failed_only {
        "\n        SELECT id, command, cwd, exit_code, duration_ms, timestamp\n        FROM history\n        WHERE exit_code != 0\n        "@
    } else {
        "\n        SELECT id, command, cwd, exit_code, duration_ms, timestamp\n        FROM history\n        WHERE 1 = 1\n        "@
    };
    let filter = if has_cwd_filter {
        " AND cwd = ?1"@
    } else {
        Seq::empty()
    };
    head + filter + " ORDER BY id DESC"@
}

/// The directory filter of a search: asking for one inserts ` AND cwd = ?1` just before the
/// closing ` ORDER BY id DESC` of the same search without it, whether or not only failed
/// commands are asked for; without one, the SQL holds no such filter there.
pub proof fn lemma_search_sql_cwd_filter(failed_only: bool)
    ensures
        exists|prefix: Seq<char>|
            #![trigger prefix + " ORDER BY id DESC"@]
            {
                &&& search_sql(failed_only, false) == prefix + " ORDER BY id DESC"@
                &&& search_sql(failed_only, true) == prefix + " AND cwd = ?1"@ + " ORDER BY id DESC"@
            },
{
    let prefix = if failed_only {
        "\n        SELECT id, command, cwd, exit_code, duration_ms, timestamp\n        FROM history\n        WHERE exit_code != 0\n        "@
    } else {
        "\n        SELECT id, command, cwd, exit_code, duration_ms, timestamp\n        FROM history\n        WHERE 1 = 1\n        "@
    };
    assert(search_sql(failed_only, false) == prefix + " ORDER BY id DESC"@);
    assert(search_sql(failed_only, true) == prefix + " AND cwd = ?1"@ + " ORDER BY id DESC"@);
}

/// The failed-only filter of a search: asking for it puts `WHERE exit_code != 0` (only nonzero
/// exit codes) where the search without it has `WHERE 1 = 1` (every row), all else equal,
/// whether or not a directory filter is asked for.
pub proof fn lemma_search_sql_failed_filter(has_cwd_filter: bool)
    ensures
        exists|before: Seq<char>, after: Seq<char>|
            #![trigger before + "WHERE 1 = 1"@ + after]
            {
                &&& search_sql(true, has_cwd_filter) == before + "WHERE exit_code != 0"@ + after
                &&& search_sql(false, has_cwd_filter) == before + "WHERE 1 = 1"@ + after
            },
{
    let before = "\n        SELECT id, command, cwd, exit_code, duration_ms, timestamp\n        FROM history\n        "@;
    let filter = if has_cwd_filter {
        " AND cwd = ?1"@
    } else {
        Seq::empty()
    };
    let after = "\n        "@ + filter + " ORDER BY id DESC"@;
    reveal_strlit("\n        SELECT id, command, cwd, exit_code, duration_ms, timestamp\n        FROM history\n        WHERE exit_code != 0\n        ");
    reveal_strlit("\n        SELECT id, command, cwd, exit_code, duration_ms, timestamp\n        FROM history\n        WHERE 1 = 1\n        ");
    reveal_strlit("\n        SELECT id, command, cwd, exit_code, duration_ms, timestamp\n        FROM history\n        ");
    reveal_strlit("WHERE exit_code != 0");
    reveal_strlit("WHERE 1 = 1");
    reveal_strlit("\n        ");
    assert("\n        SELECT id, command, cwd, exit_code, duration_ms, timestamp\n        FROM history\n        WHERE exit_code != 0\n        "@
        =~= before + "WHERE exit_code != 0"@ + "\n        "@);
    assert("\n        SELECT id, command, cwd, exit_code, duration_ms, timestamp\n        FROM history\n        WHERE 1 = 1\n        "@
        =~= before + "WHERE 1 = 1"@ + "\n        "@);
    assert(search_sql(true, has_cwd_filter) =~= before + "WHERE exit_code != 0"@ + after);
    assert(search_sql(false, has_cwd_filter) =~= before + "WHERE 1 = 1"@ + after);
}

/// The SQL of a search (see `search_sql`).
pub fn build_search_query(failed_only: bool, has_cwd_filter: bool) -> (res: String)
    ensures
        res@ == search_sql(failed_only, has_cwd_filter),
{
    let mut v: Vec<char> = Vec::new();
    if failed_only {
        push_str(
            &mut v,
            "\n        SELECT id, command, cwd, exit_code, duration_ms, timestamp\n        FROM history\n        WHERE exit_code != 0\n        ",
        );
    } else {
        push_str(
            &mut v,
            "\n        SELECT id, command, cwd, exit_code, duration_ms, timestamp\n        FROM history\n        WHERE 1 = 1\n        ",
        );
    }
    let ghost head = v@;
    if has_cwd_filter {
        push_str(&mut v, " AND cwd = ?1");
    } else {
        assert(v@ == head + Seq::<char>::empty());
    }
    push_str(&mut v, " ORDER BY id DESC");
    string_of(&v)
}

/// The values of one stored row, as the database gives them.
#[derive(Debug)]
pub struct RawHistoryRow {
    pub id: Option<i64>,
    pub command: String,
    pub cwd: String,
    pub exit_code: i32,
    pub duration_ms: i64,
    pub timestamp: String,
}

/// The time that a stored time text reads as, when it is one `chrono` represents.
pub open spec fn stored_time(text: Seq<char>) -> Option<Timestamp> {
    checked_time(parsed_rfc3339(text))
}

/// `e` carries the values of the stored row `row`, its time read back from the stored text.
pub open spec fn entry_of_row(e: HistoryEntry, row: RawHistoryRow) -> bool {
    &&& e.id == row.id
    &&& e.command@ == row.command@
    &&& e.cwd@ == row.cwd@
    &&& e.exit_code == row.exit_code
    &&& e.duration_ms == row.duration_ms
    &&& Some(e.timestamp) == stored_time(row.timestamp@)
    &&& e.wf()
}

/// The time that the parse of a stored time text gave, when it is one `chrono` represents.
pub open spec fn checked_time(parsed: Option<(i64, u32)>) -> Option<Timestamp> {
    match parsed {
        Some((s, n)) => if (Timestamp { secs: s, nanos: n }).valid() {
            Some(Timestamp { secs: s, nanos: n })
        } else {
            None
        },
        None => None,
    }
}

/// The entry of a stored row, given what reading its time text gave (`parsed`): a negative
/// duration is refused first, then a time that did not read or lies out of `chrono`'s range;
/// otherwise every value is carried over.
pub fn entry_from_row(row: RawHistoryRow, parsed: Option<(i64, u32)>) -> (res: Result<HistoryEntry, DbError>)
    ensures
        row.duration_ms < 0 ==> (res matches Err(DbError::NegativeDuration(d)) && d == row.duration_ms),
        row.duration_ms >= 0 && checked_time(parsed) is None ==> (res matches Err(
            DbError::BadTimestamp(t),
        ) && t@ == row.timestamp@),
        row.duration_ms >= 0 && checked_time(parsed) is Some ==> (res matches Ok(e) && {
            &&& e.id == row.id
            &&& e.command@ == row.command@
            &&& e.cwd@ == row.cwd@
            &&& e.exit_code == row.exit_code
            &&& e.duration_ms == row.duration_ms
            &&& Some(e.timestamp) == checked_time(parsed)
            &&& e.wf()
        }),
{
    if row.duration_ms < 0 {
        return Err(DbError::NegativeDuration(row.duration_ms));
    }
    let timestamp = match parsed {
        Some((s, n)) => {
            let t = Timestamp { secs: s, nanos: n };
            if t.is_valid() {
                t
            } else {
                return Err(DbError::BadTimestamp(row.timestamp));
            }
        },
        None => {
            return Err(DbError::BadTimestamp(row.timestamp));
        },
    };
    Ok(
        HistoryEntry {
            id: row.id,
            command: row.command,
            cwd: row.cwd,
            exit_code: row.exit_code,
            duration_ms: row.duration_ms as u64,
            timestamp,
        },
    )
}

/// The entry that a stored row holds: a negative duration is refused first, then a time that
/// does not read as an RFC 3339 time in `chrono`'s range; otherwise every value is carried over.
pub fn map_history_entry(row: RawHistoryRow) -> (res: Result<HistoryEntry, DbError>)
    ensures
        row.duration_ms < 0 ==> (res matches Err(DbError::NegativeDuration(d)) && d == row.duration_ms),
        row.duration_ms >= 0 && stored_time(row.timestamp@) is None ==> (res matches Err(
            DbError::BadTimestamp(t),
        ) && t@ == row.timestamp@),
        row.duration_ms >= 0 && stored_time(row.timestamp@) is Some ==> (res matches Ok(e)
            && entry_of_row(e, row)),
        row.duration_ms >= 0 ==> (res is Ok <==> parsed_rfc3339(row.timestamp@) is Some),
        res matches Ok(e) ==> parsed_rfc3339(row.timestamp@) == Some((e.timestamp.secs, e.timestamp.nanos)),
{
    let parsed = parse_rfc3339(row.timestamp.as_str());
    entry_from_row(row, parsed)
}

/// The values that storing an entry binds: command, cwd, exit code, duration, time.
#[derive(Debug)]
pub struct InsertParams {
    pub command: String,
    pub cwd: String,
    pub exit_code: i32,
    pub duration_ms: i64,
    pub timestamp: String,
}

/// `p` holds the values that store `entry`: its command, cwd, exit code and duration, and the
/// RFC 3339 text of its time, which reads back as that time when its year has four digits.
pub open spec fn stores(entry: HistoryEntry, p: InsertParams) -> bool {
    &&& p.command@ == entry.command@
    &&& p.cwd@ == entry.cwd@
    &&& p.exit_code == entry.exit_code
    &&& p.duration_ms == entry.duration_ms
    &&& p.timestamp@ == rfc3339(entry.timestamp.secs, entry.timestamp.nanos)
    &&& four_digit_year(entry.timestamp) ==> stored_time(p.timestamp@) == Some(entry.timestamp)
}

/// The stored row `row` holds the values `p` (under whatever id the database gave it).
pub open spec fn row_holds(row: RawHistoryRow, p: InsertParams) -> bool {
    &&& row.command@ == p.command@
    &&& row.cwd@ == p.cwd@
    &&& row.exit_code == p.exit_code
    &&& row.duration_ms == p.duration_ms
    &&& row.timestamp@ == p.timestamp@
}

/// Reading back what was stored: a row that holds the values storing `entry` (whose time has a
/// four-digit year) reads back, by `map_history_entry`, as an entry with the same command, cwd,
/// exit code, duration and time.
pub proof fn lemma_stored_entry_reads_back(entry: HistoryEntry, p: InsertParams, row: RawHistoryRow)
    requires
        entry.wf(),
        four_digit_year(entry.timestamp),
        stores(entry, p),
        row_holds(row, p),
    ensures
        row.duration_ms >= 0,
        stored_time(row.timestamp@) == Some(entry.timestamp),
        forall|e: HistoryEntry| #[trigger] entry_of_row(e, row) ==> {
            &&& e.command@ == entry.command@
            &&& e.cwd@ == entry.cwd@
            &&& e.exit_code == entry.exit_code
            &&& e.duration_ms == entry.duration_ms
            &&& e.timestamp == entry.timestamp
        },
{
}

/// The values that store `entry`; a duration above `i64::MAX` milliseconds is refused. For a
/// time with a four-digit year, the stored time text reads back as the entry's time, so a row
/// holding these values reads back as the entry (see `map_history_entry`).
pub fn insert_params(entry: &HistoryEntry) -> (res: Result<InsertParams, DbError>)
    requires
        entry.wf(),
    ensures
        entry.duration_ms > i64::MAX ==> (res matches Err(DbError::DurationTooLarge(d)) && d == entry.duration_ms),
        entry.duration_ms <= i64::MAX ==> (res matches Ok(p) && stores(*entry, p)),
{
    if entry.duration_ms > 9223372036854775807u64 {
        return Err(DbError::DurationTooLarge(entry.duration_ms));
    }
    Ok(
        InsertParams {
            command: entry.command.clone(),
            cwd: entry.cwd.clone(),
            exit_code: entry.exit_code,
            duration_ms: entry.duration_ms as i64,
            timestamp: to_rfc3339(&entry.timestamp),
        },
    )
}

/// The values that identify a stored entry for the duplicate check: command, cwd and the
/// RFC 3339 text of its time.
pub fn exists_params(entry: &HistoryEntry) -> (res: (String, String, String))
    requires
        entry.wf(),
    ensures
        res.0@ == entry.command@,
        res.1@ == entry.cwd@,
        res.2@ == rfc3339(entry.timestamp.secs, entry.timestamp.nanos),
{
    (entry.command.clone(), entry.cwd.clone(), to_rfc3339(&entry.timestamp))
}

/// Keeps `entry` when its command fuzzily matches `keyword`; returns whether the search is then
/// complete, that is, whether a `limit` is set and the kept entries have reached it.
pub fn push_if_fuzzy_match(
    entries: &mut Vec<HistoryEntry>,
    keyword: &str,
    entry: HistoryEntry,
    limit: Option<usize>,
) -> (done: bool)
    ensures
        fuzzy_matches(keyword@, entry.command@) ==> {
            &&& final(entries)@ == old(entries)@.push(entry)
            &&& done == (limit matches Some(max) && final(entries)@.len() >= max)
        },
        !fuzzy_matches(keyword@, entry.command@) ==> final(entries)@ == old(entries)@ && !done,
{
    if is_fuzzy_subsequence(keyword, entry.command.as_str()) {
        entries.push(entry);
        if let Some(max) = limit {
            return entries.len() >= max;
        }
    }
    false
}

/// One row of a search: reads the entry it holds (or fails as `map_history_entry` does) and
/// keeps it when it matches; returns whether the search is complete.
pub fn search_step(
    entries: &mut Vec<HistoryEntry>,
    keyword: &str,
    row: RawHistoryRow,
    limit: Option<usize>,
) -> (res: Result<bool, DbError>)
    ensures
        row.duration_ms < 0 || stored_time(row.timestamp@) is None ==> res is Err && final(entries)@
            == old(entries)@,
        row.duration_ms >= 0 && stored_time(row.timestamp@) is Some ==> (res matches Ok(done) && (
        exists|e: HistoryEntry|
            #[trigger] entry_of_row(e, row) && if fuzzy_matches(keyword@, row.command@) {
                &&& final(entries)@ == old(entries)@.push(e)
                &&& done == (limit matches Some(max) && final(entries)@.len() >= max)
            } else {
                final(entries)@ == old(entries)@ && !done
            })),
{
    let ghost r = row;
    match map_history_entry(row) {
        Ok(entry) => {
            let ghost e = entry;
            let ghost before = entries@;
            let done = push_if_fuzzy_match(entries, keyword, entry, limit);
            assert(entry_of_row(e, r));
            Ok(done)
        },
        Err(e) => Err(e),
    }
}

/// The local data directory (`dirs::data_local_dir`), as the bytes of its path; `None` where it
/// is unknown. Nothing is promised of which directory it is: it comes from the process's
/// environment variables.
#[verifier::external_body]
fn data_local_dir() -> (res: Option<Vec<u8>>)
{
    match dirs::data_local_dir() {
        Some(p) => Some(p.into_os_string().into_encoded_bytes()),
        None => None,
    }
}

/// `res` is the data directory of this tool when the local data directory is `base`:
/// `ratuin` under it, or `NoDataDirectory` when it is unknown.
pub open spec fn data_dir_result(base: Option<Seq<u8>>, res: Result<Vec<u8>, DbError>) -> bool {
    match base {
        Some(b) => res matches Ok(p) && p@ == join_path(b, "ratuin".spec_bytes()),
        None => res matches Err(e) && e is NoDataDirectory,
    }
}

/// The directory of this tool's data under the local data directory `base` (the bytes of its
/// path): `ratuin` there; fails when `base` is unknown.
pub fn data_dir_in(base: Option<Vec<u8>>) -> (res: Result<Vec<u8>, DbError>)
    ensures
        data_dir_result(opt_bytes(base), res),
{
    match base {
        Some(b) => Ok(join_path_exec(b.as_slice(), "ratuin")),
        None => Err(DbError::NoDataDirectory),
    }
}

/// The directory of this tool's data: `ratuin` under the local data directory, which the
/// process's environment decides. (Creating it is left to the caller.)
pub fn data_dir_path() -> (res: Result<Vec<u8>, DbError>)
    ensures
        exists|base: Option<Seq<u8>>| #[trigger] data_dir_result(base, res),
{
    let base = data_local_dir();
    let ghost b = opt_bytes(base);
    let res = data_dir_in(base);
    assert(data_dir_result(b, res));
    res
}

/// The database file in the data directory `data_dir` (the bytes of its path): `history.db` there.
pub fn db_path(data_dir: &[u8]) -> (res: Vec<u8>)
    ensures
        res@ == join_path(data_dir@, "history.db".spec_bytes()),
{
    join_path_exec(data_dir, "history.db")
}

} // verus!
