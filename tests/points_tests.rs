use scheduler::config::Private;
use scheduler::points::{add_points, banner_at, leaderboard_items, BannerMessage, UserData};

#[test]
fn banner_messages_rotate_in_order() {
    let mut m = BannerMessage::TimeLeft;
    let order = [
        BannerMessage::CurrentLeader,
        BannerMessage::TryYourself,
        BannerMessage::TelegramAd,
        BannerMessage::SupportDonate,
        BannerMessage::TimeLeft,
    ];
    for expected in order {
        m = m.next();
        assert_eq!(m, expected);
    }
}

#[test]
fn banner_switches_after_its_time() {
    assert_eq!(BannerMessage::TimeLeft.duration_ms(), 20_000);
    assert_eq!(BannerMessage::TelegramAd.duration_ms(), 10_000);
    assert_eq!(banner_at(BannerMessage::TimeLeft, 0, 20_000), (BannerMessage::TimeLeft, 0));
    assert_eq!(
        banner_at(BannerMessage::TimeLeft, 0, 20_001),
        (BannerMessage::CurrentLeader, 20_001)
    );
    assert_eq!(
        banner_at(BannerMessage::CurrentLeader, 100, 10_101),
        (BannerMessage::TryYourself, 10_101)
    );
    assert_eq!(banner_at(BannerMessage::CurrentLeader, 100, 50), (BannerMessage::CurrentLeader, 100));
}

#[test]
fn points_add_up_and_overflow_is_refused() {
    assert_eq!(add_points(UserData { points: 5 }, 7), Some(UserData { points: 12 }));
    assert_eq!(add_points(UserData { points: u64::MAX }, 1), None);
    assert_eq!(add_points(UserData { points: u64::MAX - 1 }, 1), Some(UserData { points: u64::MAX }));
}

#[test]
fn leaderboard_highlights_the_viewer() {
    let board = vec![
        ("u1".to_string(), "Ann".to_string(), UserData { points: 30 }),
        ("u2".to_string(), "Bob".to_string(), UserData { points: 10 }),
    ];
    let items = leaderboard_items(&board, Some("u2"));
    assert_eq!(items.len(), 2);
    assert_eq!(items[0].name, "Ann");
    assert_eq!(items[0].points, 30);
    assert!(!items[0].highlighted);
    assert_eq!(items[1].name, "Bob");
    assert!(items[1].highlighted);
    let anonymous = leaderboard_items(&board, None);
    assert!(anonymous.iter().all(|i| !i.highlighted));
}

#[test]
fn private_settings_hold_the_key() {
    let p = Private::new("SECRET-REDACTED".to_string());
    assert_eq!(p.key, "SECRET-REDACTED");
}
