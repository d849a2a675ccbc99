//! The schedule: an ordered list of timed activations of content modules,
//! read from a line-oriented text file.
//!
//! A line reads `DD.MM.YYYY HH:MM:SS | module_reference [arguments]`. Blank
//! lines and lines that start with `#` are skipped; a line that cannot be read
//! is reported and skipped, and never stops the rest of the file from loading.
//! Times are wall-clock seconds in the broadcast's local time.

use vstd::prelude::*;
use crate::text::{
    first_at, lines_of, same_text, split_once, split_once_char, trim, trimmed,
};

verus! {

/// What an activation time written in the schedule's layout stands for, in
/// seconds, as chrono reads it; `None` where chrono refuses the text.
pub uninterp spec fn clock_time_of(s: Seq<char>) -> Option<i64>;

/// Relies on `chrono::NaiveDateTime::parse_from_str` with the layout
/// `%d.%m.%Y %H:%M:%S`, and on `NaiveDateTime::and_utc` and
/// `DateTime::timestamp` to count the wall-clock time it read in seconds.
#[verifier::external_body]
fn parse_clock_time(s: &str) -> (r: Option<i64>)
    ensures
        r == clock_time_of(s@),
{
    match chrono::NaiveDateTime::parse_from_str(s, "%d.%m.%Y %H:%M:%S") {
        Ok(t) => Some(t.and_utc().timestamp()),
        Err(_) => None,
    }
}

/// One activation: at `timestamp`, the module at `path` starts with `args`.
#[derive(Clone, Debug)]
pub struct ScheduledPlugin {
    pub path: String,
    pub args: String,
    pub timestamp: i64,
}

/// The mathematical value of a `ScheduledPlugin`.
pub struct EntryView {
    pub path: Seq<char>,
    pub args: Seq<char>,
    pub time: i64,
}

impl View for ScheduledPlugin {
    type V = EntryView;

    open spec fn view(&self) -> EntryView {
        EntryView { path: self.path@, args: self.args@, time: self.timestamp }
    }
}

/// What a schedule line describes, or `None` where it is malformed.
pub open spec fn parse_entry(line: Seq<char>) -> Option<EntryView> {
    match split_once(line, '|') {
        None => None,
        Some((t, c)) => {
            let c = trimmed(c);
            let (p, a) = match split_once(c, ' ') {
                Some(pa) => pa,
                None => (c, Seq::<char>::empty()),
            };
            match clock_time_of(trimmed(t)) {
                None => None,
                Some(time) => Some(EntryView { path: trimmed(p), args: trimmed(a), time }),
            }
        },
    }
}

/// A line that carries no entry: blank, or a comment.
pub open spec fn is_ignored(line: Seq<char>) -> bool {
    trimmed(line).len() == 0 || (line.len() > 0 && line[0] == '#')
}

/// The entries that the lines `ls` describe, in order.
pub open spec fn entries_of(ls: Seq<Seq<char>>) -> Seq<EntryView>
    decreases ls.len(),
{
    if ls.len() == 0 {
        Seq::empty()
    } else {
        let before = entries_of(ls.drop_last());
        if is_ignored(ls.last()) {
            before
        } else {
            match parse_entry(ls.last()) {
                Some(e) => before.push(e),
                None => before,
            }
        }
    }
}

/// The positions, counted from zero, of the malformed lines among `ls`.
pub open spec fn malformed_of(ls: Seq<Seq<char>>) -> Seq<int>
    decreases ls.len(),
{
    if ls.len() == 0 {
        Seq::empty()
    } else {
        let before = malformed_of(ls.drop_last());
        if !is_ignored(ls.last()) && parse_entry(ls.last()) is None {
            before.push(ls.len() - 1)
        } else {
            before
        }
    }
}

impl ScheduledPlugin {
    pub fn new(path: String, args: String, timestamp: i64) -> (r: Self)
        ensures
            r.path == path,
            r.args == args,
            r.timestamp == timestamp,
    {
        ScheduledPlugin { path, args, timestamp }
    }

    /// A copy of this entry.
    pub fn copy(&self) -> (r: Self)
        ensures
            r@ == self@,
    {
        ScheduledPlugin {
            path: self.path.clone(),
            args: self.args.clone(),
            timestamp: self.timestamp,
        }
    }

    /// Reads one schedule line; `None` where it has no `|` or its time
    /// cannot be read.
    pub fn parse(line: &str) -> (r: Option<Self>)
        ensures
            match r {
                Some(e) => parse_entry(line@) == Some(e@),
                None => parse_entry(line@) is None,
            },
    {
        let (timestamp, command) = match split_once_char(line, '|') {
            Some(parts) => parts,
            None => return None,
        };
        let timestamp = trim(timestamp);
        let command = trim(command);
        let (path, args) = match split_once_char(command, ' ') {
            Some(parts) => parts,
            None => (command, ""),
        };
        proof {
            reveal_strlit("");
            assert(""@ =~= Seq::<char>::empty());
        }
        let timestamp = match parse_clock_time(timestamp) {
            Some(t) => t,
            None => return None,
        };
        let path = String::from_str(trim(path));
        let args = String::from_str(trim(args));
        Some(ScheduledPlugin { path, args, timestamp })
    }
}

/// The position of the first entry of `s` whose module is `path`.
pub open spec fn position_of(s: Seq<EntryView>, path: Seq<char>) -> Option<int> {
    if exists|i: int| first_with_path(s, path, i) {
        Some(choose|i: int| first_with_path(s, path, i))
    } else {
        None
    }
}

/// `i` is the first position in `s` whose module is `path`.
pub open spec fn first_with_path(s: Seq<EntryView>, path: Seq<char>, i: int) -> bool {
    &&& 0 <= i < s.len()
    &&& s[i].path == path
    &&& forall|k: int| 0 <= k < i ==> s[k].path != path
}

/// The first entry of `s` whose module is `path`.
pub open spec fn entry_for(s: Seq<EntryView>, path: Seq<char>) -> Option<EntryView> {
    match position_of(s, path) {
        Some(i) => Some(s[i]),
        None => None,
    }
}

/// The entry that stands right after the first entry whose module is `path`:
/// the next line of the file, whatever its time.
pub open spec fn entry_after(s: Seq<EntryView>, path: Seq<char>) -> Option<EntryView> {
    match position_of(s, path) {
        Some(i) => if i + 1 < s.len() {
            Some(s[i + 1])
        } else {
            None
        },
        None => None,
    }
}

/// `i` is the last position in `s` whose time has come at `now`.
pub open spec fn last_due(s: Seq<EntryView>, now: i64, i: int) -> bool {
    &&& 0 <= i < s.len()
    &&& s[i].time <= now
    &&& forall|k: int| i < k < s.len() ==> s[k].time > now
}

/// The last entry of `s` whose time has come at `now`.
pub open spec fn due_entry(s: Seq<EntryView>, now: i64) -> Option<EntryView> {
    if exists|i: int| last_due(s, now, i) {
        Some(s[choose|i: int| last_due(s, now, i)])
    } else {
        None
    }
}

proof fn lemma_first_with_path_unique(s: Seq<EntryView>, path: Seq<char>, i: int, j: int)
    requires
        first_with_path(s, path, i),
        first_with_path(s, path, j),
    ensures
        i == j,
{
    if i < j {
        assert(s[i].path != path);
    } else if j < i {
        assert(s[j].path != path);
    }
}

proof fn lemma_last_due_unique(s: Seq<EntryView>, now: i64, i: int, j: int)
    requires
        last_due(s, now, i),
        last_due(s, now, j),
    ensures
        i == j,
{
    if i < j {
        assert(s[j].time > now);
    } else if j < i {
        assert(s[i].time > now);
    }
}

/// Whether the entries of `s` come in order of time.
pub open spec fn sorted_by_time(s: Seq<EntryView>) -> bool {
    forall|i: int, j: int| 0 <= i <= j < s.len() ==> s[i].time <= s[j].time
}

proof fn lemma_some_last_due(s: Seq<EntryView>, now: i64, k: int)
    requires
        0 <= k < s.len(),
        s[k].time <= now,
    ensures
        exists|i: int| k <= i && last_due(s, now, i),
    decreases s.len() - k,
{
    if forall|j: int| k < j < s.len() ==> s[j].time > now {
        assert(last_due(s, now, k));
    } else {
        let j = choose|j: int| k < j < s.len() && !(s[j].time > now);
        lemma_some_last_due(s, now, j);
    }
}

/// In a schedule sorted by time, the entry due at `now` is one whose time is
/// the greatest of those not after `now`; there is none exactly where `now`
/// comes before every entry.
pub proof fn lemma_due_entry_is_latest(s: Seq<EntryView>, now: i64)
    requires
        sorted_by_time(s),
    ensures
        match due_entry(s, now) {
            Some(e) => {
                &&& exists|i: int| 0 <= i < s.len() && s[i] == e
                &&& e.time <= now
                &&& forall|k: int| 0 <= k < s.len() && s[k].time <= now ==> s[k].time <= e.time
            },
            None => forall|k: int| 0 <= k < s.len() ==> now < s[k].time,
        },
{
    if exists|i: int| last_due(s, now, i) {
        let i = choose|i: int| last_due(s, now, i);
        assert(0 <= i < s.len() && s[i] == s[i]);
        assert forall|k: int| 0 <= k < s.len() && s[k].time <= now implies s[k].time <= s[i].time by {
            if k > i {
                assert(s[k].time > now);
            }
        }
    } else {
        assert forall|k: int| 0 <= k < s.len() implies now < s[k].time by {
            if s[k].time <= now {
                lemma_some_last_due(s, now, k);
            }
        }
    }
}

/// `get_next` goes by position alone: two schedules that name the same
/// modules in the same order agree on where the first entry for `path` is,
/// and the entry after it is the one at the next position, in each, whatever
/// the times; there is none where `path` is absent or last.
pub proof fn lemma_next_is_positional(s: Seq<EntryView>, t: Seq<EntryView>, path: Seq<char>)
    requires
        s.len() == t.len(),
        forall|i: int| 0 <= i < s.len() ==> s[i].path == t[i].path,
    ensures
        position_of(s, path) == position_of(t, path),
        match position_of(s, path) {
            Some(i) => {
                &&& 0 <= i < s.len()
                &&& s[i].path == path
                &&& i + 1 < s.len() ==> entry_after(s, path) == Some(s[i + 1])
                    && entry_after(t, path) == Some(t[i + 1])
                &&& i + 1 == s.len() ==> entry_after(s, path) is None
                    && entry_after(t, path) is None
            },
            None => {
                &&& forall|k: int| 0 <= k < s.len() ==> s[k].path != path
                &&& entry_after(s, path) is None
                &&& entry_after(t, path) is None
            },
        },
{
    assert forall|i: int| first_with_path(s, path, i) <==> first_with_path(t, path, i) by {}
    if exists|i: int| first_with_path(s, path, i) {
        let i = choose|i: int| first_with_path(s, path, i);
        let j = choose|j: int| first_with_path(t, path, j);
        assert(first_with_path(t, path, i));
        lemma_first_with_path_unique(t, path, i, j);
    } else {
        assert(!exists|i: int| first_with_path(t, path, i));
        assert forall|k: int| 0 <= k < s.len() implies s[k].path != path by {
            if s[k].path == path {
                lemma_some_first_with_path(s, path, k);
            }
        }
    }
}

proof fn lemma_some_first_with_path(s: Seq<EntryView>, path: Seq<char>, k: int)
    requires
        0 <= k < s.len(),
        s[k].path == path,
    ensures
        exists|i: int| i <= k && first_with_path(s, path, i),
    decreases k,
{
    if forall|j: int| 0 <= j < k ==> s[j].path != path {
        assert(first_with_path(s, path, k));
    } else {
        let j = choose|j: int| 0 <= j < k && s[j].path == path;
        lemma_some_first_with_path(s, path, j);
    }
}

/// The entries of a schedule, in the order of the file.
#[derive(Clone, Debug)]
pub struct Schedule {
    plugins: Vec<ScheduledPlugin>,
}

impl View for Schedule {
    type V = Seq<EntryView>;

    closed spec fn view(&self) -> Seq<EntryView> {
        self.plugins@.map_values(|e: ScheduledPlugin| e@)
    }
}

impl Schedule {
    /// The schedule with no entries.
    pub fn empty() -> (r: Self)
        ensures
            r@ == Seq::<EntryView>::empty(),
    {
        let r = Schedule { plugins: Vec::new() };
        assert(r@ =~= Seq::<EntryView>::empty());
        r
    }

    /// The schedule that holds `plugins`, in that order.
    pub fn new(plugins: Vec<ScheduledPlugin>) -> (r: Self)
        ensures
            r@ == plugins@.map_values(|e: ScheduledPlugin| e@),
    {
        Schedule { plugins }
    }

    /// The entries, in order.
    pub fn entries(&self) -> (r: &Vec<ScheduledPlugin>)
        ensures
            r@.map_values(|e: ScheduledPlugin| e@) == self@,
    {
        &self.plugins
    }

    /// Reads a schedule file's text. Returns the schedule made of the lines
    /// that describe an entry, and the positions (from zero) of the lines
    /// that are neither blank, nor a comment, nor readable. A carriage
    /// return before a line break is whitespace, and trimmed with the rest.
    pub fn load(text: &str) -> (r: (Schedule, Vec<usize>))
        ensures
            r.0@ == entries_of(lines_of(text@)),
            r.1@.map_values(|i: usize| i as int) == malformed_of(lines_of(text@)),
    {
        let mut plugins: Vec<ScheduledPlugin> = Vec::new();
        let mut malformed: Vec<usize> = Vec::new();
        let mut rest: &str = text;
        let mut index: usize = 0;
        let ghost mut done: Seq<Seq<char>> = Seq::empty();
        let mut finished = false;
        let n = text.unicode_len();
        while !finished
            invariant
                n == text@.len(),
                !finished ==> lines_of(text@) == done + lines_of(rest@),
                finished ==> lines_of(text@) == done,
                !finished ==> index == done.len(),
                !finished ==> index + rest@.len() <= n,
                plugins@.map_values(|e: ScheduledPlugin| e@) == entries_of(done),
                malformed@.map_values(|i: usize| i as int) == malformed_of(done),
            decreases rest@.len() + if finished { 0int } else { 1int },
        {
            let ghost old_rest = rest@;
            let line: &str;
            match split_once_char(rest, '\n') {
                Some((a, b)) => {
                    proof {
                        let i = choose|i: int| first_at(old_rest, '\n', i);
                        assert(b@ == old_rest.skip(i + 1));
                        assert(a@ == old_rest.take(i));
                    }
                    line = a;
                    rest = b;
                },
                None => {
                    line = rest;
                    finished = true;
                },
            }
            proof {
                assert(lines_of(old_rest) == if finished {
                    seq![line@]
                } else {
                    seq![line@] + lines_of(rest@)
                });
            }
            let ghost old_done = done;
            proof {
                done = done.push(line@);
                assert(done.drop_last() == old_done);
                if finished {
                    assert(lines_of(text@) =~= done);
                } else {
                    assert(old_done + (seq![line@] + lines_of(rest@)) =~= done + lines_of(rest@));
                }
            }
            let ghost old_plugins = plugins@;
            let ghost old_malformed = malformed@;
            let trimmed_line = trim(line);
            let ignored = trimmed_line.unicode_len() == 0 || (line.unicode_len() > 0
                && line.get_char(0) == '#');
            if !ignored {
                match ScheduledPlugin::parse(line) {
                    Some(e) => plugins.push(e),
                    None => malformed.push(index),
                }
            }
            assert(plugins@.map_values(|e: ScheduledPlugin| e@) =~= entries_of(done));
            assert(malformed@.map_values(|i: usize| i as int) =~= malformed_of(done));
            if !finished {
                index = index + 1;
            }
        }
        (Schedule { plugins }, malformed)
    }

    /// The first entry whose module is `path`.
    pub fn get(&self, path: &str) -> (r: Option<&ScheduledPlugin>)
        ensures
            match r {
                Some(e) => entry_for(self@, path@) == Some(e@),
                None => entry_for(self@, path@) is None,
            },
    {
        match self.position(path) {
            Some(i) => Some(&self.plugins[i]),
            None => None,
        }
    }

    /// The entry right after the first entry whose module is `path`, by
    /// position in the file; `None` where `path` is absent or last.
    pub fn get_next(&self, path: &str) -> (r: Option<&ScheduledPlugin>)
        ensures
            match r {
                Some(e) => entry_after(self@, path@) == Some(e@),
                None => entry_after(self@, path@) is None,
            },
    {
        match self.position(path) {
            Some(i) => {
                assert(self@.len() == self.plugins@.len());
                if i < self.plugins.len() - 1 {
                    Some(&self.plugins[i + 1])
                } else {
                    None
                }
            },
            None => None,
        }
    }

    /// The latest entry whose time has come at `now`, searched from the end
    /// of the file; `None` where no entry is due.
    pub fn get_scheduled(&self, now: i64) -> (r: Option<&ScheduledPlugin>)
        ensures
            match r {
                Some(e) => due_entry(self@, now) == Some(e@),
                None => due_entry(self@, now) is None,
            },
    {
        let mut i: usize = self.plugins.len();
        while i > 0
            invariant
                i <= self.plugins.len(),
                forall|k: int| i <= k < self@.len() ==> self@[k].time > now,
            decreases i,
        {
            if self.plugins[i - 1].timestamp <= now {
                proof {
                    let j = choose|j: int| last_due(self@, now, j);
                    assert(last_due(self@, now, i - 1));
                    lemma_last_due_unique(self@, now, i - 1, j);
                }
                return Some(&self.plugins[i - 1]);
            }
            i = i - 1;
        }
        assert(!exists|j: int| last_due(self@, now, j));
        None
    }

    /// The position of the first entry whose module is `path`.
    pub fn position(&self, path: &str) -> (r: Option<usize>)
        ensures
            match r {
                Some(i) => i < self@.len() && position_of(self@, path@) == Some(i as int),
                None => position_of(self@, path@) is None,
            },
    {
        let mut i: usize = 0;
        while i < self.plugins.len()
            invariant
                i <= self.plugins.len(),
                forall|k: int| 0 <= k < i ==> self@[k].path != path@,
            decreases self.plugins.len() - i,
        {
            if same_text(self.plugins[i].path.as_str(), path) {
                proof {
                    assert(first_with_path(self@, path@, i as int));
                    let j = choose|j: int| first_with_path(self@, path@, j);
                    lemma_first_with_path_unique(self@, path@, i as int, j);
                }
                return Some(i);
            }
            i = i + 1;
        }
        assert(!exists|j: int| first_with_path(self@, path@, j));
        None
    }
}

} // verus!
