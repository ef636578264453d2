//! A recorded shell command and the text that describes it.
use vstd::prelude::*;
use crate::number::{decimal, decimal_i64, decimal_u64, signed_decimal};
use crate::text::{push_chars, push_spaces, push_str, spaces, string_of};
use crate::time::{datetime_text, format_datetime, now, seconds_between, seconds_since, Timestamp};

verus! {

/// One command of the history, as stored: `id` is `None` until the database assigns one.
#[derive(Debug)]
pub struct HistoryEntry {
    pub id: Option<i64>,
    pub command: String,
    pub cwd: String,
    pub exit_code: i32,
    pub duration_ms: u64,
    pub timestamp: Timestamp,
}

/// `"[id] "` for a stored entry, `"None "` for one without an id.
pub open spec fn id_text(id: Option<i64>) -> Seq<char> {
    match id {
        Some(n) => seq!['['] + signed_decimal(n as int) + seq![']', ' '],
        None => seq!['N', 'o', 'n', 'e', ' '],
    }
}

/// How long ago something happened, given the seconds elapsed since (a negative count is 0):
/// in seconds below a minute, in minutes below an hour, in hours below a day, else in days.
pub open spec fn relative_text(elapsed: int) -> Seq<char> {
    let s = if elapsed < 0 {
        0
    } else {
        elapsed
    };
    if s < 60 {
        decimal(s as nat) + seq!['s', ' ', 'a', 'g', 'o']
    } else if s < 3600 {
        decimal((s / 60) as nat) + seq!['m', ' ', 'a', 'g', 'o']
    } else if s < 86400 {
        decimal((s / 3600) as nat) + seq!['h', ' ', 'a', 'g', 'o']
    } else {
        decimal((s / 86400) as nat) + seq!['d', ' ', 'a', 'g', 'o']
    }
}

/// The text that describes an entry over five lines: id and command; the working directory;
/// exit code and duration; the time it ran; and how long ago that was.
pub open spec fn entry_text(
    id: Option<i64>,
    command: Seq<char>,
    cwd: Seq<char>,
    exit_code: i32,
    duration: Seq<char>,
    time: Seq<char>,
    passed: Seq<char>,
) -> Seq<char> {
    let indent = spaces(id_text(id).len());
    id_text(id) + command + seq!['\n'] + indent + "cwd: "@ + cwd + seq!['\n'] + indent
        + "exit code: "@ + signed_decimal(exit_code as int) + ", duration: "@ + duration + seq![
        '\n',
    ] + indent + "time: "@ + time + seq!['\n'] + indent + "executed: "@ + passed
}

fn suffix_ago(v: &mut Vec<char>, unit: char)
    ensures
        final(v)@ == old(v)@ + seq![unit, ' ', 'a', 'g', 'o'],
{
    v.push(unit);
    v.push(' ');
    v.push('a');
    v.push('g');
    v.push('o');
}

/// How long ago an event was, from the whole seconds elapsed since it: `"42s ago"`,
/// `"5m ago"`, `"3h ago"`, `"12d ago"`; a negative count reads as `"0s ago"`.
pub fn elapsed_text(elapsed: i64) -> (res: String)
    ensures
        res@ == relative_text(elapsed as int),
{
    let s: u64 = if elapsed < 0 {
        0
    } else {
        elapsed as u64
    };
    let mut v: Vec<char>;
    if s < 60 {
        v = decimal_u64(s);
        suffix_ago(&mut v, 's');
    } else if s < 3600 {
        v = decimal_u64(s / 60);
        suffix_ago(&mut v, 'm');
    } else if s < 86400 {
        v = decimal_u64(s / 3600);
        suffix_ago(&mut v, 'h');
    } else {
        v = decimal_u64(s / 86400);
        suffix_ago(&mut v, 'd');
    }
    string_of(&v)
}

/// How long before `now` the time `t` was, as text.
pub open spec fn passed_text(now: Timestamp, t: Timestamp) -> Seq<char> {
    relative_text(seconds_between(now.secs, now.nanos, t.secs, t.nanos))
}

/// How long before `now` the time `timestamp` was: `elapsed_text` of the whole seconds between.
pub fn relative_time_at(timestamp: &Timestamp, now: &Timestamp) -> (res: String)
    requires
        timestamp.valid(),
        now.valid(),
    ensures
        res@ == passed_text(*now, *timestamp),
{
    let elapsed = seconds_since(now, timestamp);
    elapsed_text(elapsed)
}

/// How long ago the time `timestamp` was, measured against the time at the moment of the call.
pub fn relative_time_text(timestamp: &Timestamp) -> (res: String)
    requires
        timestamp.valid(),
    ensures
        exists|now: Timestamp| now.valid() && res@ == #[trigger] passed_text(now, *timestamp),
{
    let t = now();
    let res = relative_time_at(timestamp, &t);
    assert(t.valid() && res@ == passed_text(t, *timestamp));
    res
}

impl HistoryEntry {
    /// The entry's time is one that `chrono` can represent.
    pub open spec fn wf(&self) -> bool {
        self.timestamp.valid()
    }

    /// `"[id] "`, or `"None "` before the entry has an id.
    pub fn display_id(&self) -> (res: String)
        ensures
            res@ == id_text(self.id),
    {
        let mut v: Vec<char> = Vec::new();
        match self.id {
            Some(n) => {
                v.push('[');
                let d = decimal_i64(n);
                push_chars(&mut v, &d);
                v.push(']');
                v.push(' ');
                assert(v@ == seq!['['] + signed_decimal(n as int) + seq![']', ' ']);
            },
            None => {
                v.push('N');
                v.push('o');
                v.push('n');
                v.push('e');
                v.push(' ');
                assert(v@ == seq!['N', 'o', 'n', 'e', ' ']);
            },
        }
        string_of(&v)
    }

    /// The entry's time as `"%Y-%m-%d %H:%M:%S"`.
    pub fn formatted_time(&self) -> (res: String)
        requires
            self.wf(),
        ensures
            res@ == datetime_text(self.timestamp.secs, self.timestamp.nanos),
    {
        format_datetime(&self.timestamp)
    }

    /// How long before `now` the entry ran.
    pub open spec fn passed_at(&self, now: Timestamp) -> Seq<char> {
        passed_text(now, self.timestamp)
    }

    /// How long before `now` the entry ran (`passed_at`).
    pub fn time_passed_at(&self, now: &Timestamp) -> (res: String)
        requires
            self.wf(),
            now.valid(),
        ensures
            res@ == self.passed_at(*now),
    {
        relative_time_at(&self.timestamp, now)
    }

    /// How long ago the entry ran, measured against the time at the moment of the call.
    pub fn time_passed(&self) -> (res: String)
        requires
            self.wf(),
        ensures
            exists|now: Timestamp| now.valid() && res@ == #[trigger] self.passed_at(now),
    {
        let t = now();
        let res = self.time_passed_at(&t);
        assert(t.valid() && res@ == self.passed_at(t));
        res
    }

    /// The five-line description of the entry, with the duration text and the
    /// "how long ago" text given.
    pub fn describe_with(&self, duration: &str, passed: &str) -> (res: String)
        requires
            self.wf(),
        ensures
            res@ == entry_text(
                self.id,
                self.command@,
                self.cwd@,
                self.exit_code,
                duration@,
                datetime_text(self.timestamp.secs, self.timestamp.nanos),
                passed@,
            ),
    {
        let id_part = self.display_id();
        let n = id_part.as_str().unicode_len();
        let ghost indent = spaces(id_text(self.id).len());
        let mut v: Vec<char> = Vec::new();
        push_str(&mut v, id_part.as_str());
        push_str(&mut v, self.command.as_str());
        v.push('\n');
        push_spaces(&mut v, n);
        push_str(&mut v, "cwd: ");
        push_str(&mut v, self.cwd.as_str());
        v.push('\n');
        push_spaces(&mut v, n);
        push_str(&mut v, "exit code: ");
        let code = decimal_i64(self.exit_code as i64);
        push_chars(&mut v, &code);
        push_str(&mut v, ", duration: ");
        push_str(&mut v, duration);
        v.push('\n');
        push_spaces(&mut v, n);
        push_str(&mut v, "time: ");
        let time = self.formatted_time();
        push_str(&mut v, time.as_str());
        v.push('\n');
        push_spaces(&mut v, n);
        push_str(&mut v, "executed: ");
        push_str(&mut v, passed);
        string_of(&v)
    }

    /// The five-line description of the entry (the text the history shows for it), with the
    /// duration text given and the "how long ago" part measured at the moment of the call.
    pub fn describe(&self, duration: &str) -> (res: String)
        requires
            self.wf(),
        ensures
            exists|t: Timestamp|
                t.valid() && res@ == #[trigger] entry_text(
                    self.id,
                    self.command@,
                    self.cwd@,
                    self.exit_code,
                    duration@,
                    datetime_text(self.timestamp.secs, self.timestamp.nanos),
                    self.passed_at(t),
                ),
    {
        let t = now();
        let passed = self.time_passed_at(&t);
        self.describe_with(duration, passed.as_str())
    }
}

/// An entry's "how long ago" text and the relative time of its timestamp agree when both are
/// measured against the same current time.
pub proof fn lemma_time_passed_is_relative_time(e: HistoryEntry, now: Timestamp)
    ensures
        e.passed_at(now) == passed_text(now, e.timestamp),
{
}

} // verus!
