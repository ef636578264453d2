//! Reading the history files of bash, zsh and fish into records.
use vstd::prelude::*;
use crate::number::{all_digits, parse_i64, parse_i64_exec, parse_u64, parse_u64_exec};
use crate::text::{
    chars_of, has_prefix, index_of, index_of_exec, lines, split_lines, starts_with, string_of,
    sub_chars, trim, trim_chars,
};
use crate::time::{parse_unix_timestamp, unix_timestamp, Timestamp};

verus! {

/// One command read from a history file, with its time and duration where the file gives them.
#[derive(Debug)]
pub struct ImportRecord {
    pub command: String,
    pub timestamp: Option<Timestamp>,
    pub duration_ms: u64,
}

/// The contents of an `ImportRecord`.
pub struct RecordSpec {
    pub command: Seq<char>,
    pub timestamp: Option<Timestamp>,
    pub duration_ms: u64,
}

impl View for ImportRecord {
    type V = RecordSpec;

    open spec fn view(&self) -> RecordSpec {
        RecordSpec { command: self.command@, timestamp: self.timestamp, duration_ms: self.duration_ms }
    }
}

pub open spec fn records_view(v: Seq<ImportRecord>) -> Seq<RecordSpec> {
    v.map_values(|r: ImportRecord| r@)
}

pub open spec fn rec(command: Seq<char>, timestamp: Option<Timestamp>, duration_ms: u64) -> RecordSpec {
    RecordSpec { command, timestamp, duration_ms }
}

/// The time that a decimal text of Unix seconds gives, when it is a number in `chrono`'s range.
pub open spec fn unix_time_of(text: Seq<char>) -> Option<Timestamp> {
    match parse_i64(text) {
        Some(v) => unix_timestamp(v as int),
        None => None,
    }
}

// ---------------------------------------------------------------- bash

/// A bash timestamp line: `#` then only ASCII digits (after trimming), forming an `i64`.
/// Gives the time it announces (`None` when out of `chrono`'s range); `None` for other lines.
pub open spec fn bash_marker(line: Seq<char>) -> Option<Option<Timestamp>> {
    let t = trim(line);
    let digits = t.drop_first();
    if t.len() > 1 && t[0] == '#' && all_digits(digits) && parse_i64(digits) is Some {
        Some(unix_time_of(digits))
    } else {
        None
    }
}

/// Records of the remaining bash lines `ls`, with `pending` the time announced last: every line
/// but a timestamp line becomes a command, untrimmed, and takes the pending time, which it uses up.
pub open spec fn bash_records(ls: Seq<Seq<char>>, pending: Option<Timestamp>) -> Seq<RecordSpec>
    decreases ls.len(),
{
    if ls.len() == 0 {
        seq![]
    } else {
        match bash_marker(ls[0]) {
            Some(ts) => bash_records(ls.drop_first(), ts),
            None => seq![rec(ls[0], pending, 0)] + bash_records(ls.drop_first(), None),
        }
    }
}

/// The records of a bash history file.
pub open spec fn bash_history(content: Seq<char>) -> Seq<RecordSpec> {
    bash_records(lines(content), None)
}

fn bash_marker_exec(line: &Vec<char>) -> (res: Option<Option<Timestamp>>)
    ensures
        res == bash_marker(line@),
{
    let t = trim_chars(line);
    if t.len() > 1 && t[0] == '#' {
        let digits = sub_chars(&t, 1, t.len());
        assert(digits@ == t@.drop_first());
        let mut all = true;
        let mut i: usize = 0;
        while i < digits.len()
            invariant
                i <= digits@.len(),
                all == (forall|j: int| 0 <= j < i ==> crate::number::is_digit(#[trigger] digits@[j])),
            decreases digits@.len() - i,
        {
            if !('0' <= digits[i] && digits[i] <= '9') {
                all = false;
            }
            i = i + 1;
        }
        if all {
            match parse_i64_exec(&digits) {
                Some(v) => {
                    return Some(parse_unix_timestamp(v));
                },
                None => {
                    return None;
                },
            }
        }
    }
    None
}

/// Parses a bash history: each line is a command, except `#<seconds>` lines, which give the
/// time of the command on the next line.
pub fn parse_bash_history(content: &str) -> (res: Vec<ImportRecord>)
    ensures
        records_view(res@) == bash_history(content@),
{
    let ls = split_lines(&chars_of(content));
    let ghost lsv = ls.deep_view();
    let mut records: Vec<ImportRecord> = Vec::new();
    let mut pending: Option<Timestamp> = None;
    let mut i: usize = 0;
    assert(lsv.skip(0) == lsv);
    while i < ls.len()
        invariant
            lsv == ls.deep_view(),
            lsv == lines(content@),
            i <= ls@.len(),
            records_view(records@) + bash_records(lsv.skip(i as int), pending) == bash_history(
                content@,
            ),
        decreases ls@.len() - i,
    {
        let ghost rest = lsv.skip(i as int);
        assert(rest[0] == ls@[i as int]@);
        assert(rest.drop_first() == lsv.skip(i + 1));
        match bash_marker_exec(&ls[i]) {
            Some(ts) => {
                pending = ts;
            },
            None => {
                let ghost before = records_view(records@);
                records.push(
                    ImportRecord { command: string_of(&ls[i]), timestamp: pending, duration_ms: 0 },
                );
                proof {
                    assert(records_view(records@) == before.push(rec(lsv[i as int], pending, 0)));
                    assert(before + (seq![rec(lsv[i as int], pending, 0)] + bash_records(
                        lsv.skip(i + 1),
                        None,
                    )) == before.push(rec(lsv[i as int], pending, 0)) + bash_records(
                        lsv.skip(i + 1),
                        None,
                    ));
                }
                pending = None;
            },
        }
        i = i + 1;
    }
    assert(bash_records(lsv.skip(i as int), pending) == Seq::<RecordSpec>::empty());
    assert(records_view(records@) + Seq::<RecordSpec>::empty() == records_view(records@));
    records
}

} // verus!

verus! {

// ---------------------------------------------------------------- zsh

/// `u64::saturating_mul(1000)`: seconds as milliseconds, `u64::MAX` where that overflows.
pub open spec fn millis_of(seconds: u64) -> u64 {
    if seconds * 1000 <= u64::MAX {
        (seconds * 1000) as u64
    } else {
        u64::MAX
    }
}

/// The record of one zsh history line. An extended line `": <start>:<seconds>;<command>"`
/// gives the command after the first `';'`, the time from `<start>` and the duration from
/// `<seconds>` (each only where it is a number; 0 ms where there is none); any other line is
/// a command of its own.
pub open spec fn zsh_record(line: Seq<char>) -> RecordSpec {
    let rest = line.skip(2);
    let k = index_of(rest, ';');
    if has_prefix(line, seq![':', ' ']) && k < rest.len() {
        let meta = rest.take(k);
        let command = rest.skip(k + 1);
        let p = index_of(meta, ':');
        let first = meta.take(p);
        let after = meta.skip(p + 1);
        let second = after.take(index_of(after, ':'));
        let duration = if p < meta.len() {
            match parse_u64(second) {
                Some(s) => millis_of(s),
                None => 0,
            }
        } else {
            0
        };
        rec(command, unix_time_of(first), duration)
    } else {
        rec(line, None, 0)
    }
}

/// The records of a zsh history file: one per line.
pub open spec fn zsh_history(content: Seq<char>) -> Seq<RecordSpec> {
    lines(content).map_values(|l: Seq<char>| zsh_record(l))
}

fn unix_time_of_exec(text: &Vec<char>) -> (res: Option<Timestamp>)
    ensures
        res == unix_time_of(text@),
{
    match parse_i64_exec(text) {
        Some(v) => parse_unix_timestamp(v),
        None => None,
    }
}

fn zsh_record_exec(line: &Vec<char>) -> (res: ImportRecord)
    ensures
        res@ == zsh_record(line@),
{
    let colon_space = vec![':', ' '];
    assert(colon_space@ == seq![':', ' ']);
    if starts_with(line, &colon_space) {
        let rest = sub_chars(line, 2, line.len());
        assert(rest@ == line@.skip(2));
        let k = index_of_exec(&rest, ';');
        if k < rest.len() {
            let meta = sub_chars(&rest, 0, k);
            let command = sub_chars(&rest, k + 1, rest.len());
            assert(meta@ == rest@.take(k as int));
            assert(command@ == rest@.skip(k + 1));
            proof {
                crate::text::lemma_index_of_bounds(meta@, ':');
            }
            let p = index_of_exec(&meta, ':');
            let first = sub_chars(&meta, 0, p);
            assert(first@ == meta@.take(p as int));
            let timestamp = unix_time_of_exec(&first);
            let mut duration: u64 = 0;
            if p < meta.len() {
                let after = sub_chars(&meta, p + 1, meta.len());
                assert(after@ == meta@.skip(p + 1));
                proof {
                    crate::text::lemma_index_of_bounds(after@, ':');
                }
                let q = index_of_exec(&after, ':');
                let second = sub_chars(&after, 0, q);
                assert(second@ == after@.take(q as int));
                match parse_u64_exec(&second) {
                    Some(s) => {
                        duration = match s.checked_mul(1000) {
                            Some(m) => m,
                            None => u64::MAX,
                        };
                    },
                    None => {},
                }
            }
            return ImportRecord { command: string_of(&command), timestamp, duration_ms: duration };
        }
    }
    ImportRecord { command: string_of(line), timestamp: None, duration_ms: 0 }
}

/// Parses a zsh history: extended lines `": <start>:<seconds>;<command>"` give time and
/// duration; every other line is a command as it stands.
pub fn parse_zsh_history(content: &str) -> (res: Vec<ImportRecord>)
    ensures
        records_view(res@) == zsh_history(content@),
{
    let ls = split_lines(&chars_of(content));
    let ghost lsv = ls.deep_view();
    let mut records: Vec<ImportRecord> = Vec::new();
    for i in 0..ls.len()
        invariant
            lsv == ls.deep_view(),
            lsv == lines(content@),
            records_view(records@) == lsv.take(i as int).map_values(|l: Seq<char>| zsh_record(l)),
    {
        let r = zsh_record_exec(&ls[i]);
        let ghost before = records_view(records@);
        records.push(r);
        proof {
            assert(lsv[i as int] == ls@[i as int]@);
            assert(records_view(records@) == before.push(zsh_record(lsv[i as int])));
            assert(lsv.take(i + 1).map_values(|l: Seq<char>| zsh_record(l)) == lsv.take(
                i as int,
            ).map_values(|l: Seq<char>| zsh_record(l)).push(zsh_record(lsv[i as int])));
        }
    }
    assert(lsv.take(ls@.len() as int) == lsv);
    records
}

// ---------------------------------------------------------------- fish

pub open spec fn opt_chars(o: &Option<Vec<char>>) -> Option<Seq<char>> {
    match o {
        Some(c) => Some(c@),
        None => None,
    }
}

/// The record that a pending fish command makes, if there is one.
pub open spec fn fish_flush(command: Option<Seq<char>>, ts: Option<Timestamp>) -> Seq<RecordSpec> {
    match command {
        Some(c) => seq![rec(c, ts, 0)],
        None => seq![],
    }
}

/// Records of the remaining fish lines `ls`, with the command read last (not yet emitted) and
/// its time. A `- cmd: <command>` line (after trimming) emits the pending command and starts a
/// new one, without a time; a `when: <seconds>` line sets the pending time (to none where it is
/// not a number in range); other lines are ignored; the last command is emitted at the end.
pub open spec fn fish_records(
    ls: Seq<Seq<char>>,
    command: Option<Seq<char>>,
    ts: Option<Timestamp>,
) -> Seq<RecordSpec>
    decreases ls.len(),
{
    if ls.len() == 0 {
        fish_flush(command, ts)
    } else {
        let t = trim(ls[0]);
        if has_prefix(t, seq!['-', ' ', 'c', 'm', 'd', ':', ' ']) {
            fish_flush(command, ts) + fish_records(ls.drop_first(), Some(t.skip(7)), None)
        } else if has_prefix(t, seq!['w', 'h', 'e', 'n', ':', ' ']) {
            fish_records(ls.drop_first(), command, unix_time_of(t.skip(6)))
        } else {
            fish_records(ls.drop_first(), command, ts)
        }
    }
}

/// The records of a fish history file.
pub open spec fn fish_history(content: Seq<char>) -> Seq<RecordSpec> {
    fish_records(lines(content), None, None)
}

fn fish_flush_exec(records: &mut Vec<ImportRecord>, command: Option<Vec<char>>, ts: Option<Timestamp>)
    ensures
        records_view(final(records)@) == records_view(old(records)@) + fish_flush(
            opt_chars(&command),
            ts,
        ),
{
    let ghost before = records_view(records@);
    match command {
        Some(c) => {
            records.push(ImportRecord { command: string_of(&c), timestamp: ts, duration_ms: 0 });
            assert(records_view(records@) == before.push(rec(c@, ts, 0)));
        },
        None => {
            assert(before + Seq::<RecordSpec>::empty() == before);
        },
    }
}

/// Parses a fish history: `- cmd: <command>` entries, each with the time of the `when: <seconds>`
/// line that follows it, if any.
pub fn parse_fish_history(content: &str) -> (res: Vec<ImportRecord>)
    ensures
        records_view(res@) == fish_history(content@),
{
    let ls = split_lines(&chars_of(content));
    let ghost lsv = ls.deep_view();
    let cmd_prefix = vec!['-', ' ', 'c', 'm', 'd', ':', ' '];
    let when_prefix = vec!['w', 'h', 'e', 'n', ':', ' '];
    assert(cmd_prefix@ == seq!['-', ' ', 'c', 'm', 'd', ':', ' ']);
    assert(when_prefix@ == seq!['w', 'h', 'e', 'n', ':', ' ']);
    let mut records: Vec<ImportRecord> = Vec::new();
    let mut command: Option<Vec<char>> = None;
    let mut ts: Option<Timestamp> = None;
    let mut i: usize = 0;
    assert(lsv.skip(0) == lsv);
    while i < ls.len()
        invariant
            lsv == ls.deep_view(),
            lsv == lines(content@),
            i <= ls@.len(),
            cmd_prefix@ == seq!['-', ' ', 'c', 'm', 'd', ':', ' '],
            when_prefix@ == seq!['w', 'h', 'e', 'n', ':', ' '],
            records_view(records@) + fish_records(
                lsv.skip(i as int),
                opt_chars(&command),
                ts,
            ) == fish_history(content@),
        decreases ls@.len() - i,
    {
        let ghost rest = lsv.skip(i as int);
        let ghost cv = opt_chars(&command);
        assert(rest[0] == ls@[i as int]@);
        assert(rest.drop_first() == lsv.skip(i + 1));
        let t = trim_chars(&ls[i]);
        if starts_with(&t, &cmd_prefix) {
            let ghost before = records_view(records@);
            let ghost old_ts = ts;
            fish_flush_exec(&mut records, command, ts);
            let c = sub_chars(&t, 7, t.len());
            assert(c@ == t@.skip(7));
            command = Some(c);
            ts = None;
            proof {
                let tail = fish_records(lsv.skip(i + 1), Some(t@.skip(7)), None);
                assert(fish_records(rest, cv, old_ts) == fish_flush(cv, old_ts) + tail);
                assert(before + (fish_flush(cv, old_ts) + tail) == (before + fish_flush(cv, old_ts))
                    + tail);
            }
        } else if starts_with(&t, &when_prefix) {
            let v = sub_chars(&t, 6, t.len());
            assert(v@ == t@.skip(6));
            ts = unix_time_of_exec(&v);
        }
        i = i + 1;
    }
    fish_flush_exec(&mut records, command, ts);
    records
}

} // verus!

verus! {

/// The record's time, where it has one, is one `chrono` represents.
pub open spec fn time_ok(r: RecordSpec) -> bool {
    r.timestamp matches Some(t) ==> t.valid()
}

/// Every time the records carry is one `chrono` represents.
pub open spec fn times_ok(rs: Seq<RecordSpec>) -> bool {
    forall|i: int| 0 <= i < rs.len() ==> time_ok(#[trigger] rs[i])
}

proof fn lemma_unix_valid(text: Seq<char>)
    ensures
        unix_time_of(text) matches Some(t) ==> t.valid(),
{
}

proof fn lemma_times_ok_concat(a: Seq<RecordSpec>, b: Seq<RecordSpec>)
    requires
        times_ok(a),
        times_ok(b),
    ensures
        times_ok(a + b),
{
    assert forall|i: int| 0 <= i < (a + b).len() implies time_ok(#[trigger] (a + b)[i]) by {
        if i < a.len() {
            assert((a + b)[i] == a[i]);
        } else {
            assert((a + b)[i] == b[i - a.len()]);
        }
    }
}

/// The number of lines that are not bash timestamp lines.
pub open spec fn bash_command_lines(ls: Seq<Seq<char>>) -> nat
    decreases ls.len(),
{
    if ls.len() == 0 {
        0
    } else if bash_marker(ls[0]) is Some {
        bash_command_lines(ls.drop_first())
    } else {
        1 + bash_command_lines(ls.drop_first())
    }
}

proof fn lemma_bash_records(ls: Seq<Seq<char>>, pending: Option<Timestamp>)
    requires
        pending matches Some(t) ==> t.valid(),
    ensures
        bash_records(ls, pending).len() == bash_command_lines(ls),
        times_ok(bash_records(ls, pending)),
    decreases ls.len(),
{
    if ls.len() > 0 {
        match bash_marker(ls[0]) {
            Some(ts) => {
                let t = trim(ls[0]);
                lemma_unix_valid(t.drop_first());
                lemma_bash_records(ls.drop_first(), ts);
            },
            None => {
                lemma_bash_records(ls.drop_first(), None);
                let head = seq![rec(ls[0], pending, 0)];
                assert(times_ok(head));
                lemma_times_ok_concat(head, bash_records(ls.drop_first(), None));
            },
        }
    }
}

/// A bash history gives one record per line that is not a timestamp line, each with a time
/// that `chrono` represents, where it has one.
pub proof fn lemma_bash_history(content: Seq<char>)
    ensures
        bash_history(content).len() == bash_command_lines(lines(content)),
        times_ok(bash_history(content)),
{
    lemma_bash_records(lines(content), None);
}

/// A zsh history gives exactly one record per line, each with a time that `chrono`
/// represents, where it has one.
pub proof fn lemma_zsh_history(content: Seq<char>)
    ensures
        zsh_history(content).len() == lines(content).len(),
        times_ok(zsh_history(content)),
{
    let rs = zsh_history(content);
    assert forall|i: int| 0 <= i < rs.len() implies time_ok(#[trigger] rs[i]) by {
        let line = lines(content)[i];
        let rest = line.skip(2);
        let meta = rest.take(index_of(rest, ';'));
        lemma_unix_valid(meta.take(index_of(meta, ':')));
    }
}

/// The number of lines that, trimmed, start a fish entry (`- cmd: `).
pub open spec fn fish_command_lines(ls: Seq<Seq<char>>) -> nat
    decreases ls.len(),
{
    if ls.len() == 0 {
        0
    } else if has_prefix(trim(ls[0]), seq!['-', ' ', 'c', 'm', 'd', ':', ' ']) {
        1 + fish_command_lines(ls.drop_first())
    } else {
        fish_command_lines(ls.drop_first())
    }
}

proof fn lemma_fish_records(ls: Seq<Seq<char>>, command: Option<Seq<char>>, ts: Option<Timestamp>)
    requires
        ts matches Some(t) ==> t.valid(),
    ensures
        fish_records(ls, command, ts).len() == fish_command_lines(ls) + (if command is Some {
            1nat
        } else {
            0nat
        }),
        times_ok(fish_records(ls, command, ts)),
    decreases ls.len(),
{
    if ls.len() == 0 {
        assert(times_ok(fish_flush(command, ts)));
    } else {
        let t = trim(ls[0]);
        if has_prefix(t, seq!['-', ' ', 'c', 'm', 'd', ':', ' ']) {
            lemma_fish_records(ls.drop_first(), Some(t.skip(7)), None);
            assert(times_ok(fish_flush(command, ts)));
            lemma_times_ok_concat(
                fish_flush(command, ts),
                fish_records(ls.drop_first(), Some(t.skip(7)), None),
            );
        } else if has_prefix(t, seq!['w', 'h', 'e', 'n', ':', ' ']) {
            lemma_unix_valid(t.skip(6));
            lemma_fish_records(ls.drop_first(), command, unix_time_of(t.skip(6)));
        } else {
            lemma_fish_records(ls.drop_first(), command, ts);
        }
    }
}

/// A fish history gives one record per `- cmd: ` line, each with a time that `chrono`
/// represents, where it has one.
pub proof fn lemma_fish_history(content: Seq<char>)
    ensures
        fish_history(content).len() == fish_command_lines(lines(content)),
        times_ok(fish_history(content)),
{
    lemma_fish_records(lines(content), None, None);
}

/// A line of a fish history that, trimmed, neither starts an entry (`- cmd: `) nor gives its
/// time (`when: `), such as a `paths:` line or one of its items.
pub open spec fn fish_other_line(line: Seq<char>) -> bool {
    &&& !has_prefix(trim(line), seq!['-', ' ', 'c', 'm', 'd', ':', ' '])
    &&& !has_prefix(trim(line), seq!['w', 'h', 'e', 'n', ':', ' '])
}

/// Lines other than `- cmd: ` and `when: ` lines change nothing: inserting one anywhere in a fish
/// history leaves its records, commands and times, as they were. So each entry keeps the time of
/// the last `when: ` line between its `- cmd: ` line and the next one.
pub proof fn lemma_fish_ignores_other_lines(
    ls: Seq<Seq<char>>,
    i: int,
    line: Seq<char>,
    command: Option<Seq<char>>,
    ts: Option<Timestamp>,
)
    requires
        0 <= i <= ls.len(),
        fish_other_line(line),
    ensures
        fish_records(ls.insert(i, line), command, ts) == fish_records(ls, command, ts),
    decreases ls.len(),
{
    let big = ls.insert(i, line);
    if i == 0 {
        assert(big[0] == line);
        assert(big.drop_first() =~= ls);
    } else {
        assert(big[0] == ls[0]);
        assert(big.drop_first() =~= ls.drop_first().insert(i - 1, line));
        let t = trim(ls[0]);
        if has_prefix(t, seq!['-', ' ', 'c', 'm', 'd', ':', ' ']) {
            lemma_fish_ignores_other_lines(ls.drop_first(), i - 1, line, Some(t.skip(7)), None);
        } else if has_prefix(t, seq!['w', 'h', 'e', 'n', ':', ' ']) {
            lemma_fish_ignores_other_lines(ls.drop_first(), i - 1, line, command, unix_time_of(t.skip(6)));
        } else {
            lemma_fish_ignores_other_lines(ls.drop_first(), i - 1, line, command, ts);
        }
    }
}

} // verus!
