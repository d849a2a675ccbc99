use scheduler::host::{reload_due, Budget, CommandAction, FrameOutcome, Scheduler};
use scheduler::schedule::{Schedule, ScheduledPlugin};

const T0: i64 = 1706781600;
const T1: i64 = 1706785200;

fn entry(path: &str, args: &str, t: i64) -> ScheduledPlugin {
    ScheduledPlugin::new(path.to_string(), args.to_string(), t)
}

fn two_entry_scheduler() -> Scheduler {
    let mut s = Scheduler::new();
    s.set_schedule(Schedule::new(vec![entry("A", "", T0), entry("B", "x", T1)]));
    s
}

#[test]
fn finished_module_hands_over_to_the_next_entry_at_once() {
    let mut s = two_entry_scheduler();
    let now = T0 + 1;
    assert!(s.frame_budget(now).is_none());
    let a = s.to_activate(now).unwrap();
    assert_eq!(a.path, "A");
    assert_eq!(a.args, "");
    s.finish_load(&a, true, true);
    assert_eq!(s.active().unwrap(), "A");
    assert_eq!(s.frame_budget(now), Some(Budget::Remaining((T1 - now) as i128)));
    match s.after_frame(false) {
        FrameOutcome::Finished(Some(next)) => {
            assert_eq!(next.path, "B");
            assert_eq!(next.args, "x");
            assert!(s.active().is_none());
            assert!(s.frame_budget(now).is_none());
            s.finish_load(&next, true, true);
        }
        other => panic!("unexpected outcome {:?}", other),
    }
    assert_eq!(s.active().unwrap(), "B");
    assert_eq!(s.frame_budget(now), Some(Budget::Unbounded));
}

#[test]
fn module_that_keeps_going_stays_active() {
    let mut s = two_entry_scheduler();
    let a = s.to_activate(T0).unwrap();
    s.finish_load(&a, true, true);
    assert!(matches!(s.after_frame(true), FrameOutcome::Continue));
    assert_eq!(s.active().unwrap(), "A");
    assert!(s.to_activate(T1 + 10).is_none());
}

#[test]
fn last_module_finishing_leaves_nothing_to_load() {
    let mut s = two_entry_scheduler();
    let b = entry("B", "x", T1);
    s.finish_load(&b, true, true);
    assert!(matches!(s.after_frame(false), FrameOutcome::Finished(None)));
    assert!(s.active().is_none());
}

#[test]
fn failed_load_leaves_the_placeholder() {
    let mut s = two_entry_scheduler();
    let a = s.to_activate(T0 + 1).unwrap();
    s.finish_load(&a, false, false);
    assert!(s.active().is_none());
    assert!(s.frame_budget(T0 + 1).is_none());
}

#[test]
fn nothing_due_before_the_first_entry() {
    let s = two_entry_scheduler();
    assert!(s.to_activate(T0 - 1).is_none());
    assert!(Scheduler::new().to_activate(T1).is_none());
}

#[test]
fn entry_with_empty_reference_is_not_started() {
    let mut s = Scheduler::new();
    s.set_schedule(Schedule::new(vec![entry("A", "", T0), entry("", "", T1)]));
    assert!(s.to_activate(T1).is_none());
    assert_eq!(s.to_activate(T1 - 1).unwrap().path, "A");
}

#[test]
fn schedule_reload_keeps_the_active_module() {
    let mut s = two_entry_scheduler();
    let a = s.to_activate(T0).unwrap();
    s.finish_load(&a, true, true);
    s.set_schedule(Schedule::new(vec![entry("C", "", T0)]));
    assert_eq!(s.active().unwrap(), "A");
    assert_eq!(s.frame_budget(T0), Some(Budget::Unbounded));
    assert!(s.to_activate(T0).is_none());
    assert_eq!(s.schedule().entries().len(), 1);
}

#[test]
fn negative_budget_once_next_time_has_passed() {
    let mut s = two_entry_scheduler();
    s.finish_load(&entry("A", "", T0), true, true);
    assert_eq!(s.frame_budget(T1 + 30), Some(Budget::Remaining(-30)));
}

#[test]
fn reload_command_reloads_the_scheduled_entry() {
    let mut s = two_entry_scheduler();
    s.finish_load(&entry("B", "x", T1), true, true);
    match s.on_command("  reload \n") {
        CommandAction::Reload(e) => {
            assert_eq!(e.path, "B");
            assert_eq!(e.args, "x");
        }
        other => panic!("unexpected action {:?}", other),
    }
}

#[test]
fn reload_command_without_module_does_nothing() {
    let s = two_entry_scheduler();
    assert!(matches!(s.on_command("reload"), CommandAction::NothingToReload));
    let mut gone = two_entry_scheduler();
    gone.finish_load(&entry("Z", "", T0), true, true);
    assert!(matches!(gone.on_command("reload"), CommandAction::NothingToReload));
}

#[test]
fn plugin_command_forwards_its_arguments() {
    let mut s = two_entry_scheduler();
    s.finish_load(&entry("A", "", T0), true, true);
    match s.on_command("plugin move left 3\n") {
        CommandAction::Forward(args) => assert_eq!(args, "move left 3"),
        other => panic!("unexpected action {:?}", other),
    }
    match s.on_command("plugin") {
        CommandAction::Forward(args) => assert_eq!(args, ""),
        other => panic!("unexpected action {:?}", other),
    }
}

#[test]
fn plugin_command_to_module_without_command_entry_point_is_a_no_op() {
    let mut s = two_entry_scheduler();
    s.finish_load(&entry("A", "", T0), true, false);
    match s.on_command("plugin go") {
        CommandAction::NoCommandEntryPoint(path) => assert_eq!(path, "A"),
        other => panic!("unexpected action {:?}", other),
    }
}

#[test]
fn plugin_command_without_module_is_reported() {
    let s = two_entry_scheduler();
    assert!(matches!(s.on_command("plugin x"), CommandAction::NoActiveModule));
}

#[test]
fn unknown_command_is_reported_with_its_word() {
    let s = two_entry_scheduler();
    match s.on_command("stop now") {
        CommandAction::Unknown(w) => assert_eq!(w, "stop"),
        other => panic!("unexpected action {:?}", other),
    }
    match s.on_command("Reload") {
        CommandAction::Unknown(w) => assert_eq!(w, "Reload"),
        other => panic!("unexpected action {:?}", other),
    }
}

#[test]
fn schedule_reload_is_due_after_half_a_second() {
    assert!(!reload_due(1000, 1000));
    assert!(!reload_due(1000, 1500));
    assert!(reload_due(1000, 1501));
    assert!(!reload_due(2000, 1000));
}
