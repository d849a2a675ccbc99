use scheduler::schedule::{Schedule, ScheduledPlugin};

const T10: i64 = 1706781600; // 01.02.2024 10:00:00
const T11: i64 = 1706785200; // 01.02.2024 11:00:00
const T12: i64 = 1706788800; // 01.02.2024 12:00:00

fn entry(path: &str, args: &str, t: i64) -> ScheduledPlugin {
    ScheduledPlugin::new(path.to_string(), args.to_string(), t)
}

#[test]
fn parse_reads_time_module_and_arguments() {
    let e = ScheduledPlugin::parse("01.02.2024 10:00:00 | games/tetro.so hello world").unwrap();
    assert_eq!(e.timestamp, T10);
    assert_eq!(e.path, "games/tetro.so");
    assert_eq!(e.args, "hello world");
}

#[test]
fn parse_trims_every_field() {
    let e = ScheduledPlugin::parse("   01.02.2024 11:00:00\t|   mod.so    a b  \r").unwrap();
    assert_eq!(e.timestamp, T11);
    assert_eq!(e.path, "mod.so");
    assert_eq!(e.args, "a b");
}

#[test]
fn parse_without_arguments_gives_empty_arguments() {
    let e = ScheduledPlugin::parse("01.02.2024 12:00:00 | only").unwrap();
    assert_eq!(e.path, "only");
    assert_eq!(e.args, "");
    assert_eq!(e.timestamp, T12);
}

#[test]
fn parse_keeps_text_after_a_second_bar_in_arguments() {
    let e = ScheduledPlugin::parse("01.02.2024 12:00:00 | m x|y").unwrap();
    assert_eq!(e.path, "m");
    assert_eq!(e.args, "x|y");
}

#[test]
fn parse_rejects_a_line_without_bar() {
    assert!(ScheduledPlugin::parse("01.02.2024 10:00:00 games/tetro.so").is_none());
}

#[test]
fn parse_rejects_a_bad_timestamp() {
    assert!(ScheduledPlugin::parse("2024-02-01 10:00:00 | a").is_none());
    assert!(ScheduledPlugin::parse("32.01.2024 10:00:00 | a").is_none());
    assert!(ScheduledPlugin::parse(" | a").is_none());
}

#[test]
fn load_skips_a_malformed_line_and_keeps_the_valid_one() {
    let (schedule, malformed) =
        Schedule::load("this line is not an entry\n01.02.2024 10:00:00 | a.so x\n");
    assert_eq!(schedule.entries().len(), 1);
    assert_eq!(schedule.entries()[0].path, "a.so");
    assert_eq!(schedule.entries()[0].args, "x");
    assert_eq!(schedule.entries()[0].timestamp, T10);
    assert_eq!(malformed, vec![0]);
}

#[test]
fn load_ignores_blank_and_comment_lines() {
    let text = "# comment | 01.02.2024 10:00:00\n\n   \n01.02.2024 10:00:00 | a\r\n01.02.2024 11:00:00 | b y\r\n";
    let (schedule, malformed) = Schedule::load(text);
    assert!(malformed.is_empty());
    let e = schedule.entries();
    assert_eq!(e.len(), 2);
    assert_eq!(e[0].path, "a");
    assert_eq!(e[1].path, "b");
    assert_eq!(e[1].args, "y");
}

#[test]
fn load_reports_positions_of_all_malformed_lines() {
    let text = "x\n01.02.2024 10:00:00 | a\nbad | line\n\n99.99.2024 10:00:00 | c";
    let (schedule, malformed) = Schedule::load(text);
    assert_eq!(schedule.entries().len(), 1);
    assert_eq!(malformed, vec![0, 2, 4]);
}

#[test]
fn load_of_empty_text_is_empty() {
    let (schedule, malformed) = Schedule::load("");
    assert!(schedule.entries().is_empty());
    assert!(malformed.is_empty());
}

#[test]
fn get_scheduled_returns_latest_due_entry() {
    let s = Schedule::new(vec![entry("a", "", T10), entry("b", "", T11), entry("c", "", T12)]);
    assert!(s.get_scheduled(T10 - 1).is_none());
    assert_eq!(s.get_scheduled(T10).unwrap().path, "a");
    assert_eq!(s.get_scheduled(T11 - 1).unwrap().path, "a");
    assert_eq!(s.get_scheduled(T11 + 5).unwrap().path, "b");
    assert_eq!(s.get_scheduled(T12 + 1000).unwrap().path, "c");
}

#[test]
fn get_scheduled_on_empty_schedule_is_none() {
    assert!(Schedule::empty().get_scheduled(T12).is_none());
}

#[test]
fn get_scheduled_scans_from_the_end() {
    let s = Schedule::new(vec![entry("a", "", T10), entry("late", "", T12), entry("b", "", T11)]);
    assert_eq!(s.get_scheduled(T11).unwrap().path, "b");
    assert_eq!(s.get_scheduled(T11 - 1).unwrap().path, "a");
}

#[test]
fn get_next_is_positional() {
    let s = Schedule::new(vec![
        entry("a", "1", T12),
        entry("b", "2", T10),
        entry("a", "3", T11),
    ]);
    let n = s.get_next("a").unwrap();
    assert_eq!(n.path, "b");
    assert_eq!(n.args, "2");
    let n = s.get_next("b").unwrap();
    assert_eq!(n.path, "a");
    assert_eq!(n.args, "3");
    assert!(s.get_next("missing").is_none());
    let last = Schedule::new(vec![entry("a", "", T10), entry("z", "", T11)]);
    assert!(last.get_next("z").is_none());
}

#[test]
fn get_finds_first_entry_by_reference() {
    let s = Schedule::new(vec![entry("a", "1", T10), entry("a", "2", T11)]);
    assert_eq!(s.get("a").unwrap().args, "1");
    assert!(s.get("b").is_none());
    assert_eq!(s.position("a"), Some(0));
    assert_eq!(s.position("b"), None);
}

#[test]
fn copy_keeps_all_fields() {
    let e = entry("p", "q", T10);
    let c = e.copy();
    assert_eq!(c.path, "p");
    assert_eq!(c.args, "q");
    assert_eq!(c.timestamp, T10);
}
