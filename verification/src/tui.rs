//! The state of the interactive search and how each key changes it.
use vstd::prelude::*;
use crate::model::HistoryEntry;
use crate::number::{decimal, decimal_u64};
use crate::text::{chars_of, opt_view, push_str, string_of, to_string, trim, trim_chars};

verus! {

/// What the interactive search is asked to start with.
#[derive(Debug)]
pub struct TuiRequest {
    pub keyword: Option<String>,
    pub cwd: Option<String>,
    pub limit: Option<usize>,
    pub failed_only: bool,
    pub reverse_mode: bool,
}

/// The state of the interactive search. In reverse mode the query is shown and typed reversed
/// and the results are listed oldest first.
#[derive(Debug)]
pub struct AppState {
    pub query: String,
    pub cwd: Option<String>,
    pub limit: Option<usize>,
    pub failed_only: bool,
    pub entries: Vec<HistoryEntry>,
    pub selected: usize,
    pub should_exit: bool,
    pub selected_command: Option<String>,
    pub execute_selected: bool,
    pub status: String,
    pub reverse_mode: bool,
}

/// The keys that the interactive search reacts to.
#[derive(Clone, Copy, Debug, PartialEq, Eq, Structural)]
pub enum Key {
    Esc,
    CtrlC,
    Enter,
    Tab,
    Up,
    Down,
    Backspace,
    CtrlU,
    /// A character typed without modifier, or with Shift only.
    Char(char),
    /// Anything else.
    Other,
}

/// The selection after moving up among `n` results: from the first round to the last
/// (without results it stays).
pub open spec fn prev_index(selected: int, n: int) -> int {
    if n == 0 {
        selected
    } else if selected == 0 {
        n - 1
    } else {
        selected - 1
    }
}

/// The selection after moving down among `n` results: from the last round to the first
/// (without results it stays).
pub open spec fn next_index(selected: int, n: int) -> int {
    if n == 0 {
        selected
    } else {
        (selected + 1) % n
    }
}

/// The status line after a search that found `n` entries.
pub open spec fn status_text(n: nat) -> Seq<char> {
    if n == 0 {
        "No results"@
    } else {
        decimal(n) + " results"@
    }
}

/// The directory filter of a request: its value trimmed, dropped when that is empty.
pub open spec fn cwd_filter(cwd: Option<Seq<char>>) -> Option<Seq<char>> {
    match cwd {
        Some(c) => if trim(c).len() == 0 {
            None
        } else {
            Some(trim(c))
        },
        None => None,
    }
}

/// A directory filter: the value trimmed, or none when that is empty.
pub fn trimmed_filter(cwd: &Option<String>) -> (res: Option<String>)
    ensures
        opt_view(res) == cwd_filter(opt_view(*cwd)),
{
    match cwd {
        Some(c) => {
            let t = trim_chars(&chars_of(c.as_str()));
            if t.len() == 0 {
                None
            } else {
                Some(string_of(&t))
            }
        },
        None => None,
    }
}

/// The characters of `s` in reverse order.
pub fn reversed(s: &str) -> (res: String)
    ensures
        res@ == s@.reverse(),
{
    let cs = chars_of(s);
    let mut v: Vec<char> = Vec::new();
    let mut i = cs.len();
    while i > 0
        invariant
            i <= cs@.len(),
            v@.len() == cs@.len() - i,
            forall|j: int| 0 <= j < v@.len() ==> v@[j] == cs@[cs@.len() - 1 - j],
        decreases i,
    {
        i = i - 1;
        v.push(cs[i]);
    }
    assert(v@ =~= s@.reverse());
    string_of(&v)
}

/// The items of `v` in reverse order.
pub fn reverse_vec<T>(v: Vec<T>) -> (res: Vec<T>)
    ensures
        res@ == v@.reverse(),
{
    let ghost orig = v@;
    let mut rest = v;
    let mut out: Vec<T> = Vec::new();
    while rest.len() > 0
        invariant
            rest@ == orig.take(rest@.len() as int),
            rest@.len() <= orig.len(),
            out@.len() == orig.len() - rest@.len(),
            forall|j: int| 0 <= j < out@.len() ==> out@[j] == orig[orig.len() - 1 - j],
        decreases rest@.len(),
    {
        let ghost before = rest@;
        let x = rest.pop().unwrap();
        assert(rest@ == orig.take(rest@.len() as int));
        out.push(x);
    }
    assert(out@ =~= orig.reverse());
    out
}

impl AppState {
    /// The selection points at a result, or is 0 when there is none.
    pub open spec fn wf(&self) -> bool {
        if self.entries@.len() == 0 {
            self.selected == 0
        } else {
            self.selected < self.entries@.len()
        }
    }

    /// The query as the search uses it: reversed in reverse mode.
    pub open spec fn query_used(&self) -> Seq<char> {
        if self.reverse_mode {
            self.query@.reverse()
        } else {
            self.query@
        }
    }

    /// The starting state: the request's keyword as the query (empty without one), its directory
    /// trimmed (none when empty), its limit or else 50, no results yet.
    pub fn from_request(request: TuiRequest) -> (res: AppState)
        ensures
            res.wf(),
            res.query@ == match request.keyword {
                Some(k) => k@,
                None => Seq::<char>::empty(),
            },
            opt_view(res.cwd) == cwd_filter(opt_view(request.cwd)),
            res.limit == match request.limit {
                Some(l) => Some(l),
                None => Some(50usize),
            },
            res.failed_only == request.failed_only,
            res.reverse_mode == request.reverse_mode,
            res.entries@.len() == 0,
            res.selected == 0,
            !res.should_exit,
            res.selected_command is None,
            !res.execute_selected,
            res.status@.len() == 0,
    {
        let cwd = trimmed_filter(&request.cwd);
        let query = match request.keyword {
            Some(k) => k,
            None => String::new(),
        };
        let limit = match request.limit {
            Some(l) => Some(l),
            None => Some(50),
        };
        AppState {
            query,
            cwd,
            limit,
            failed_only: request.failed_only,
            entries: Vec::new(),
            selected: 0,
            should_exit: false,
            selected_command: None,
            execute_selected: false,
            status: String::new(),
            reverse_mode: request.reverse_mode,
        }
    }

    /// The query that the search runs with: the typed query, reversed in reverse mode.
    pub fn effective_query(&self) -> (res: String)
        ensures
            res@ == self.query_used(),
    {
        if self.reverse_mode {
            reversed(self.query.as_str())
        } else {
            self.query.clone()
        }
    }

    /// The query as it is shown: reversed in reverse mode.
    pub fn render_query(&self) -> (res: String)
        ensures
            res@ == self.query_used(),
    {
        if self.reverse_mode {
            reversed(self.query.as_str())
        } else {
            self.query.clone()
        }
    }

    /// Takes the results of a search with `effective_query()`: listed oldest first in reverse
    /// mode, the selection kept where it still points at a result and else moved to the last
    /// one, and the status line set.
    pub fn refresh(&mut self, results: Vec<HistoryEntry>)
        ensures
            final(self).wf(),
            final(self).entries@ == if old(self).reverse_mode {
                results@.reverse()
            } else {
                results@
            },
            final(self).selected == if results@.len() == 0 {
                0
            } else if old(self).selected < results@.len() {
                old(self).selected as int
            } else {
                results@.len() - 1
            },
            final(self).status@ == status_text(results@.len()),
            final(self).query == old(self).query,
            final(self).cwd == old(self).cwd,
            final(self).limit == old(self).limit,
            final(self).failed_only == old(self).failed_only,
            final(self).reverse_mode == old(self).reverse_mode,
            final(self).should_exit == old(self).should_exit,
            final(self).selected_command == old(self).selected_command,
            final(self).execute_selected == old(self).execute_selected,
    {
        let ghost r = results@;
        if self.reverse_mode {
            self.entries = reverse_vec(results);
        } else {
            self.entries = results;
        }
        let n = self.entries.len();
        if n == 0 {
            self.selected = 0;
            self.status = to_string("No results");
        } else {
            if self.selected >= n {
                self.selected = n - 1;
            }
            let mut v = decimal_u64(n as u64);
            push_str(&mut v, " results");
            self.status = string_of(&v);
        }
    }

    /// Moves the selection up, from the first result round to the last.
    pub fn select_prev(&mut self)
        ensures
            old(self).wf() ==> final(self).wf(),
            final(self).selected == prev_index(old(self).selected as int, old(self).entries@.len() as int),
            final(self).entries == old(self).entries,
            final(self).query == old(self).query,
            final(self).should_exit == old(self).should_exit,
            final(self).selected_command == old(self).selected_command,
            final(self).execute_selected == old(self).execute_selected,
            final(self).status == old(self).status,
            final(self).cwd == old(self).cwd,
            final(self).limit == old(self).limit,
            final(self).failed_only == old(self).failed_only,
            final(self).reverse_mode == old(self).reverse_mode,
    {
        if self.entries.len() == 0 {
            return;
        }
        if self.selected == 0 {
            self.selected = self.entries.len() - 1;
        } else {
            self.selected = self.selected - 1;
        }
    }

    /// Moves the selection down, from the last result round to the first.
    pub fn select_next(&mut self)
        requires
            old(self).entries@.len() > 0 ==> old(self).selected < usize::MAX,
        ensures
            old(self).wf() ==> final(self).wf(),
            final(self).selected == next_index(old(self).selected as int, old(self).entries@.len() as int),
            final(self).entries == old(self).entries,
            final(self).query == old(self).query,
            final(self).should_exit == old(self).should_exit,
            final(self).selected_command == old(self).selected_command,
            final(self).execute_selected == old(self).execute_selected,
            final(self).status == old(self).status,
            final(self).cwd == old(self).cwd,
            final(self).limit == old(self).limit,
            final(self).failed_only == old(self).failed_only,
            final(self).reverse_mode == old(self).reverse_mode,
    {
        if self.entries.len() == 0 {
            return;
        }
        self.selected = (self.selected + 1) % self.entries.len();
    }

    /// Ends the search with the selected command (if a result is selected), to run it when
    /// `execute` and else to print it.
    pub fn submit_selected(&mut self, execute: bool)
        ensures
            final(self).should_exit,
            final(self).execute_selected == execute,
            old(self).selected < old(self).entries@.len() ==> (final(self).selected_command matches Some(
                c,
            ) && c@ == old(self).entries@[old(self).selected as int].command@),
            old(self).selected >= old(self).entries@.len() ==> final(self).selected_command
                == old(self).selected_command,
            final(self).entries == old(self).entries,
            final(self).selected == old(self).selected,
            final(self).query == old(self).query,
            final(self).status == old(self).status,
            final(self).cwd == old(self).cwd,
            final(self).limit == old(self).limit,
            final(self).failed_only == old(self).failed_only,
            final(self).reverse_mode == old(self).reverse_mode,
    {
        if self.selected < self.entries.len() {
            self.selected_command = Some(self.entries[self.selected].command.clone());
        }
        self.execute_selected = execute;
        self.should_exit = true;
    }
}


/// The query after a key: Backspace drops its last character, Ctrl-U empties it, a typed
/// character is appended; other keys leave it.
pub open spec fn query_after(query: Seq<char>, key: Key) -> Seq<char> {
    match key {
        Key::Backspace => if query.len() > 0 {
            query.drop_last()
        } else {
            query
        },
        Key::CtrlU => Seq::empty(),
        Key::Char(c) => query.push(c),
        _ => query,
    }
}

/// The keys that change the query, after which the search runs again.
pub open spec fn key_edits_query(key: Key) -> bool {
    key is Backspace || key is CtrlU || key is Char
}

impl AppState {
    /// Reacts to a key: Esc and Ctrl-C end the search; Enter submits the selected command to run
    /// it and Tab to print it; Up and Down move the selection; Backspace, Ctrl-U and typed
    /// characters edit the query. Returns whether the query changed, so the search must run
    /// again (and `refresh` take its results).
    pub fn handle_key(&mut self, key: Key) -> (needs_refresh: bool)
        requires
            key is Down && old(self).entries@.len() > 0 ==> old(self).selected < usize::MAX,
        ensures
            old(self).wf() ==> final(self).wf(),
            final(self).cwd == old(self).cwd,
            final(self).limit == old(self).limit,
            final(self).failed_only == old(self).failed_only,
            final(self).reverse_mode == old(self).reverse_mode,
            final(self).status == old(self).status,
            !(key is Enter || key is Tab) ==> final(self).execute_selected == old(self).execute_selected,
            needs_refresh == key_edits_query(key),
            final(self).query@ == query_after(old(self).query@, key),
            final(self).entries == old(self).entries,
            key is Esc || key is CtrlC ==> final(self).should_exit && final(self).selected == old(
                self,
            ).selected && final(self).selected_command == old(self).selected_command,
            key is Enter || key is Tab ==> {
                &&& final(self).should_exit
                &&& final(self).execute_selected == (key is Enter)
                &&& old(self).selected < old(self).entries@.len() ==> (final(self).selected_command matches Some(c)
                    && c@ == old(self).entries@[old(self).selected as int].command@)
                &&& old(self).selected >= old(self).entries@.len() ==> final(self).selected_command
                    == old(self).selected_command
            },
            key is Up ==> final(self).selected == prev_index(old(self).selected as int, old(self).entries@.len() as int),
            key is Down ==> final(self).selected == next_index(old(self).selected as int, old(self).entries@.len() as int),
            !(key is Esc || key is CtrlC || key is Enter || key is Tab) ==> final(self).should_exit
                == old(self).should_exit && final(self).selected_command == old(
                self,
            ).selected_command,
            !(key is Up || key is Down) ==> final(self).selected == old(self).selected,
    {
        match key {
            Key::Esc | Key::CtrlC => {
                self.should_exit = true;
                false
            },
            Key::Enter => {
                self.submit_selected(true);
                false
            },
            Key::Tab => {
                self.submit_selected(false);
                false
            },
            Key::Up => {
                self.select_prev();
                false
            },
            Key::Down => {
                self.select_next();
                false
            },
            Key::Backspace => {
                let mut cs = chars_of(self.query.as_str());
                if cs.len() > 0 {
                    cs.pop();
                }
                self.query = string_of(&cs);
                true
            },
            Key::CtrlU => {
                self.query = String::new();
                true
            },
            Key::Char(c) => {
                let mut cs = chars_of(self.query.as_str());
                cs.push(c);
                self.query = string_of(&cs);
                true
            },
            Key::Other => false,
        }
    }
}


/// Moving the selection down and then up comes back to where it was.
pub proof fn lemma_up_undoes_down(selected: int, n: int)
    requires
        0 <= selected < n,
    ensures
        prev_index(next_index(selected, n), n) == selected,
{
    lemma_next_index_value(selected, n);
}

proof fn lemma_next_index_value(selected: int, n: int)
    requires
        0 <= selected < n,
    ensures
        next_index(selected, n) == if selected + 1 < n {
            selected + 1
        } else {
            0
        },
{
    if selected + 1 < n {
        vstd::arithmetic::div_mod::lemma_small_mod((selected + 1) as nat, n as nat);
    } else {
        vstd::arithmetic::div_mod::lemma_mod_self_0(n);
    }
}

/// Moving the selection up and then down comes back to where it was.
pub proof fn lemma_down_undoes_up(selected: int, n: int)
    requires
        0 <= selected < n,
    ensures
        next_index(prev_index(selected, n), n) == selected,
{
    lemma_next_index_value(prev_index(selected, n), n);
}

/// Moving the selection keeps it on a result.
pub proof fn lemma_moves_stay_in_range(selected: int, n: int)
    requires
        0 <= selected < n,
    ensures
        0 <= next_index(selected, n) < n,
        0 <= prev_index(selected, n) < n,
{
    lemma_next_index_value(selected, n);
}

/// In reverse mode a typed character goes to the front of the query that the search uses;
/// otherwise to its end.
pub proof fn lemma_typed_char_position(query: Seq<char>, c: char, reverse_mode: bool)
    ensures
        reverse_mode ==> query_after(query, Key::Char(c)).reverse() == seq![c] + query.reverse(),
        !reverse_mode ==> query_after(query, Key::Char(c)) == query.push(c),
{
    if reverse_mode {
        assert(query.push(c).reverse() =~= seq![c] + query.reverse());
    }
}

/// The footer line of the interactive search: the status, the direction of the search and the
/// keys it reacts to.
pub open spec fn footer_of(status: Seq<char>, reverse_mode: bool) -> Seq<char> {
    status + " | mode: "@ + (if reverse_mode {
        "reverse"@
    } else {
        "forward"@
    }) + " | Enter/Tab: submit  Esc/Ctrl-C: quit  \u{2191}/\u{2193}: navigate  Typing: search"@
}

impl AppState {
    /// The footer line: the status, the direction of the search and the keys.
    pub fn footer_text(&self) -> (res: String)
        ensures
            res@ == footer_of(self.status@, self.reverse_mode),
    {
        let mut v = chars_of(self.status.as_str());
        push_str(&mut v, " | mode: ");
        if self.reverse_mode {
            push_str(&mut v, "reverse");
        } else {
            push_str(&mut v, "forward");
        }
        push_str(&mut v, " | Enter/Tab: submit  Esc/Ctrl-C: quit  \u{2191}/\u{2193}: navigate  Typing: search");
        string_of(&v)
    }
}

/// Which of the `n` characters of a command are shown highlighted: those at the positions in
/// `indices`.
pub fn highlight_flags(indices: &Vec<usize>, n: usize) -> (res: Vec<bool>)
    ensures
        res.len() == n,
        forall|i: int| 0 <= i < n ==> #[trigger] res@[i] == indices@.contains(i as usize),
{
    let mut res: Vec<bool> = Vec::new();
    let mut i: usize = 0;
    while i < n
        invariant
            i <= n,
            res.len() == i,
            forall|k: int| 0 <= k < i ==> #[trigger] res@[k] == indices@.contains(k as usize),
        decreases n - i,
    {
        let mut found = false;
        let mut j: usize = 0;
        while j < indices.len()
            invariant
                j <= indices.len(),
                found <==> exists|m: int| 0 <= m < j && indices@[m] == i,
            decreases indices.len() - j,
        {
            if indices[j] == i {
                found = true;
            }
            j = j + 1;
        }
        proof {
            if found {
                let m = choose|m: int| 0 <= m < indices.len() && indices@[m] == i;
                assert(indices@.contains(i));
            }
        }
        res.push(found);
        i = i + 1;
    }
    res
}

} // verus!
