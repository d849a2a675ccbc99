//! The decisions of the scheduler loop, taken once per rendered frame.
//!
//! The loop itself (loading code units, calling their entry points, drawing
//! the placeholder) runs outside this module: each step here takes what the
//! loop observed and says what the loop does next. Steps run in a fixed order
//! every frame: reload the schedule when `reload_due`, dispatch a pending
//! operator command with `on_command`, call the active module's frame entry
//! point with the budget from `frame_budget` and report its answer to
//! `after_frame`, and, with no module active, start the one from
//! `to_activate`. Each load attempt is reported back with `finish_load`.

use vstd::prelude::*;
use crate::schedule::{due_entry, entry_after, entry_for, EntryView, Schedule, ScheduledPlugin};
use crate::text::{same_text, split_once, split_once_char, trim, trimmed};

verus! {

/// How often the schedule file is read again, in milliseconds.
pub const RELOAD_INTERVAL_MS: u64 = 500;

/// What a module is told of the time left before the next scheduled
/// transition; advisory only.
#[derive(Clone, Copy, Debug, PartialEq, Eq, Structural)]
pub enum Budget {
    /// No entry follows the active one.
    Unbounded,
    /// Seconds until the next entry's time; negative once it has passed.
    Remaining(i128),
}

/// The budget of a module whose successor in the schedule is `next`.
pub open spec fn budget_before(next: Option<EntryView>, now: i64) -> Budget {
    match next {
        None => Budget::Unbounded,
        Some(e) => Budget::Remaining((e.time - now) as i128),
    }
}

/// The scheduler's state: the current schedule and the module reference of
/// the active module, if any.
pub struct Scheduler {
    schedule: Schedule,
    active: Option<String>,
    has_command: bool,
}

/// The mathematical value of a `Scheduler`.
pub struct SchedulerView {
    pub schedule: Seq<EntryView>,
    pub active: Option<Seq<char>>,
    /// Whether the active module has the optional command entry point.
    pub has_command: bool,
}

impl View for Scheduler {
    type V = SchedulerView;

    closed spec fn view(&self) -> SchedulerView {
        SchedulerView {
            schedule: self.schedule@,
            active: match self.active {
                Some(p) => Some(p@),
                None => None,
            },
            has_command: self.has_command,
        }
    }
}

/// The budget handed to the active module's frame entry point, or `None`
/// where no module is active and the placeholder is drawn instead.
pub open spec fn frame_budget_of(v: SchedulerView, now: i64) -> Option<Budget> {
    match v.active {
        None => None,
        Some(p) => Some(budget_before(entry_after(v.schedule, p), now)),
    }
}

/// The state after the active module's frame entry point answered
/// `keep_going`: a module that is done leaves the slot empty.
pub open spec fn after_frame_of(v: SchedulerView, keep_going: bool) -> SchedulerView {
    if keep_going {
        v
    } else {
        SchedulerView { active: None, has_command: false, ..v }
    }
}

/// The state after an attempt to load `path` succeeded (`loaded`), with or
/// without a command entry point, or failed.
pub open spec fn after_load_of(
    v: SchedulerView,
    path: Seq<char>,
    loaded: bool,
    has_command: bool,
) -> SchedulerView {
    SchedulerView {
        active: if loaded {
            Some(path)
        } else {
            None
        },
        has_command: loaded && has_command,
        ..v
    }
}

/// The state after the schedule was read again.
pub open spec fn after_reload_of(v: SchedulerView, schedule: Seq<EntryView>) -> SchedulerView {
    SchedulerView { schedule, ..v }
}

/// The entry to start where no module is active: the one due at `now`,
/// unless it names no module.
pub open spec fn activation_of(v: SchedulerView, now: i64) -> Option<EntryView> {
    match v.active {
        Some(_) => None,
        None => match due_entry(v.schedule, now) {
            Some(e) => if e.path.len() > 0 {
                Some(e)
            } else {
                None
            },
            None => None,
        },
    }
}

/// What the loop does after the active module's frame entry point returned.
#[derive(Debug)]
pub enum FrameOutcome {
    /// The module keeps the screen.
    Continue,
    /// The module is done: unload it, then load the entry, if any, that
    /// follows it in the schedule.
    Finished(Option<ScheduledPlugin>),
}

/// What the loop does with an operator command.
#[derive(Debug)]
pub enum CommandAction {
    /// Unload the active module and load this entry again.
    Reload(ScheduledPlugin),
    /// Hand these arguments to the active module's command entry point.
    Forward(String),
    /// `plugin` to an active module without a command entry point; holds
    /// the module's reference.
    NoCommandEntryPoint(String),
    /// `reload` with nothing to reload.
    NothingToReload,
    /// `plugin` with no module active.
    NoActiveModule,
    /// Not a command; holds the word that was given.
    Unknown(String),
}

/// The first word of a trimmed command line, and what follows its first space.
pub open spec fn command_parts(line: Seq<char>) -> (Seq<char>, Seq<char>) {
    let c = trimmed(line);
    match split_once(c, ' ') {
        Some(parts) => parts,
        None => (c, Seq::<char>::empty()),
    }
}

/// Whether `a` is the action that `line` calls for in state `v`.
pub open spec fn command_action_is(v: SchedulerView, line: Seq<char>, a: CommandAction) -> bool {
    let (cmd, args) = command_parts(line);
    if cmd == "reload"@ {
        match v.active {
            Some(p) => match entry_for(v.schedule, p) {
                Some(e) => if e.path.len() > 0 {
                    a matches CommandAction::Reload(r) && r@ == e
                } else {
                    a is NothingToReload
                },
                None => a is NothingToReload,
            },
            None => a is NothingToReload,
        }
    } else if cmd == "plugin"@ {
        match v.active {
            Some(p) => if v.has_command {
                a matches CommandAction::Forward(f) && f@ == args
            } else {
                a matches CommandAction::NoCommandEntryPoint(m) && m@ == p
            },
            None => a is NoActiveModule,
        }
    } else {
        a matches CommandAction::Unknown(w) && w@ == cmd
    }
}

/// A module whose frame entry point answered `false` is called no more: the
/// slot is empty, so no frame call is issued, and stays empty through schedule
/// reloads and failed loads; only a successful load fills it again, with the
/// module that load started.
pub proof fn lemma_finished_module_gets_no_frame(
    v: SchedulerView,
    now: i64,
    schedule: Seq<EntryView>,
    path: Seq<char>,
)
    requires
        v.active is Some,
    ensures
        after_frame_of(v, false).active is None,
        frame_budget_of(after_frame_of(v, false), now) is None,
        frame_budget_of(after_reload_of(after_frame_of(v, false), schedule), now) is None,
        forall|c: bool| frame_budget_of(after_load_of(after_frame_of(v, false), path, false, c), now) is None,
        forall|c: bool| after_load_of(after_frame_of(v, false), path, true, c).active == Some(path),
{
}

/// Reading the schedule again never interrupts the active module: it stays
/// active, keeps receiving frame calls, and nothing due is started over it;
/// only its own `false` answer ends it.
pub proof fn lemma_reload_keeps_active(v: SchedulerView, schedule: Seq<EntryView>, now: i64)
    ensures
        after_reload_of(v, schedule).active == v.active,
        v.active is Some ==> frame_budget_of(after_reload_of(v, schedule), now) is Some,
        v.active is Some ==> activation_of(after_reload_of(v, schedule), now) is None,
        after_frame_of(after_reload_of(v, schedule), true) == after_reload_of(v, schedule),
{
}

/// Whether the schedule is due to be read again: more than
/// `RELOAD_INTERVAL_MS` milliseconds have passed since it was last read.
pub fn reload_due(last_ms: u64, now_ms: u64) -> (r: bool)
    ensures
        r == (now_ms > last_ms && now_ms - last_ms > RELOAD_INTERVAL_MS),
{
    now_ms > last_ms && now_ms - last_ms > RELOAD_INTERVAL_MS
}

impl Scheduler {
    /// A scheduler with an empty schedule and no module active.
    pub fn new() -> (r: Self)
        ensures
            r@.schedule == Seq::<EntryView>::empty(),
            r@.active is None,
    {
        Scheduler { schedule: Schedule::empty(), active: None, has_command: false }
    }

    /// The current schedule.
    pub fn schedule(&self) -> (r: &Schedule)
        ensures
            r@ == self@.schedule,
    {
        &self.schedule
    }

    /// The module reference of the active module.
    pub fn active(&self) -> (r: Option<&String>)
        ensures
            match r {
                Some(p) => self@.active == Some(p@),
                None => self@.active is None,
            },
    {
        match &self.active {
            Some(p) => Some(p),
            None => None,
        }
    }

    /// Takes a schedule that was read again. The active module stays.
    pub fn set_schedule(&mut self, schedule: Schedule)
        ensures
            final(self)@ == after_reload_of(old(self)@, schedule@),
    {
        self.schedule = schedule;
    }

    /// Records the outcome of an attempt to load `entry`: whether it
    /// `loaded`, and whether the module has a command entry point.
    pub fn finish_load(&mut self, entry: &ScheduledPlugin, loaded: bool, has_command: bool)
        ensures
            final(self)@ == after_load_of(old(self)@, entry.path@, loaded, has_command),
    {
        if loaded {
            self.active = Some(entry.path.clone());
        } else {
            self.active = None;
        }
        self.has_command = loaded && has_command;
    }

    /// The budget to pass to the active module's frame entry point at
    /// `now`, or `None` where no module is active.
    pub fn frame_budget(&self, now: i64) -> (r: Option<Budget>)
        ensures
            r == frame_budget_of(self@, now),
    {
        match &self.active {
            None => None,
            Some(p) => match self.schedule.get_next(p.as_str()) {
                None => Some(Budget::Unbounded),
                Some(e) => Some(Budget::Remaining(e.timestamp as i128 - now as i128)),
            },
        }
    }

    /// Takes the answer of the active module's frame entry point.
    pub fn after_frame(&mut self, keep_going: bool) -> (r: FrameOutcome)
        requires
            old(self)@.active is Some,
        ensures
            final(self)@ == after_frame_of(old(self)@, keep_going),
            keep_going ==> r is Continue,
            !keep_going ==> match r {
                FrameOutcome::Finished(Some(e)) => entry_after(
                    old(self)@.schedule,
                    old(self)@.active->0,
                ) == Some(e@),
                FrameOutcome::Finished(None) => entry_after(
                    old(self)@.schedule,
                    old(self)@.active->0,
                ) is None,
                FrameOutcome::Continue => false,
            },
    {
        if keep_going {
            return FrameOutcome::Continue;
        }
        let next = match &self.active {
            Some(p) => match self.schedule.get_next(p.as_str()) {
                Some(e) => Some(e.copy()),
                None => None,
            },
            None => None,
        };
        self.active = None;
        self.has_command = false;
        FrameOutcome::Finished(next)
    }

    /// The entry to load where no module is active: the one due at `now`,
    /// unless it names no module.
    pub fn to_activate(&self, now: i64) -> (r: Option<ScheduledPlugin>)
        ensures
            match r {
                Some(e) => activation_of(self@, now) == Some(e@),
                None => activation_of(self@, now) is None,
            },
    {
        if self.active.is_some() {
            return None;
        }
        match self.schedule.get_scheduled(now) {
            Some(e) => if e.path.unicode_len() > 0 {
                Some(e.copy())
            } else {
                None
            },
            None => None,
        }
    }

    /// What to do with the operator command `line`.
    pub fn on_command(&self, line: &str) -> (r: CommandAction)
        ensures
            command_action_is(self@, line@, r),
    {
        let line = trim(line);
        let (cmd, args) = match split_once_char(line, ' ') {
            Some(parts) => parts,
            None => (line, ""),
        };
        proof {
            reveal_strlit("");
            assert(""@ =~= Seq::<char>::empty());
        }
        if same_text(cmd, "reload") {
            match &self.active {
                Some(p) => match self.schedule.get(p.as_str()) {
                    Some(e) => if e.path.unicode_len() > 0 {
                        CommandAction::Reload(e.copy())
                    } else {
                        CommandAction::NothingToReload
                    },
                    None => CommandAction::NothingToReload,
                },
                None => CommandAction::NothingToReload,
            }
        } else if same_text(cmd, "plugin") {
            match &self.active {
                Some(p) => if self.has_command {
                    CommandAction::Forward(String::from_str(args))
                } else {
                    CommandAction::NoCommandEntryPoint(p.clone())
                },
                None => CommandAction::NoActiveModule,
            }
        } else {
            CommandAction::Unknown(String::from_str(cmd))
        }
    }
}

} // verus!
