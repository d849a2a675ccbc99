//! Player points: the stored record, the leaderboard as served to viewers,
//! and the rotation of the messages on the bottom banner.

use vstd::prelude::*;
use crate::text::same_text;

verus! {

/// A player's stored record.
#[derive(Clone, Copy, Debug, PartialEq, Eq, Structural)]
pub struct UserData {
    pub points: u64,
}

/// One row of the leaderboard as served: `highlighted` marks the viewer's own row.
#[derive(Clone, Debug)]
pub struct LeaderboardItem {
    pub name: String,
    pub points: u64,
    pub highlighted: bool,
}

/// A leaderboard entry: user id, shown name, record.
pub type Leader = (String, String, UserData);

/// The messages that the bottom banner shows in turn.
#[derive(Clone, Copy, Debug, PartialEq, Eq, Structural)]
pub enum BannerMessage {
    TimeLeft,
    CurrentLeader,
    TryYourself,
    TelegramAd,
    SupportDonate,
}

/// The message shown after `m`.
pub open spec fn next_message(m: BannerMessage) -> BannerMessage {
    match m {
        BannerMessage::TimeLeft => BannerMessage::CurrentLeader,
        BannerMessage::CurrentLeader => BannerMessage::TryYourself,
        BannerMessage::TryYourself => BannerMessage::TelegramAd,
        BannerMessage::TelegramAd => BannerMessage::SupportDonate,
        BannerMessage::SupportDonate => BannerMessage::TimeLeft,
    }
}

/// How long `m` stays on the banner, in milliseconds.
pub open spec fn shown_for(m: BannerMessage) -> u64 {
    match m {
        BannerMessage::TimeLeft => 20_000,
        _ => 10_000,
    }
}

impl BannerMessage {
    /// The message shown after this one.
    pub fn next(self) -> (r: Self)
        ensures
            r == next_message(self),
    {
        match self {
            BannerMessage::TimeLeft => BannerMessage::CurrentLeader,
            BannerMessage::CurrentLeader => BannerMessage::TryYourself,
            BannerMessage::TryYourself => BannerMessage::TelegramAd,
            BannerMessage::TelegramAd => BannerMessage::SupportDonate,
            BannerMessage::SupportDonate => BannerMessage::TimeLeft,
        }
    }

    /// How long this message stays on the banner, in milliseconds.
    pub fn duration_ms(self) -> (r: u64)
        ensures
            r == shown_for(self),
    {
        match self {
            BannerMessage::TimeLeft => 20_000,
            _ => 10_000,
        }
    }
}

/// The banner's message at `now` and since when it shows, where `current`
/// has shown since `since`: it gives way to the next once it has shown for
/// longer than its time. Times are milliseconds on a monotonic clock.
pub fn banner_at(current: BannerMessage, since: u64, now: u64) -> (r: (BannerMessage, u64))
    ensures
        now > since && now - since > shown_for(current) ==> r == (next_message(current), now),
        !(now > since && now - since > shown_for(current)) ==> r == (current, since),
{
    if now > since && now - since > current.duration_ms() {
        (current.next(), now)
    } else {
        (current, since)
    }
}

/// `amount` points more for `user`, or `None` where the sum does not fit.
pub fn add_points(user: UserData, amount: u64) -> (r: Option<UserData>)
    ensures
        user.points + amount <= u64::MAX ==> r == Some(UserData { points: (user.points + amount) as u64 }),
        user.points + amount > u64::MAX ==> r is None,
{
    match user.points.checked_add(amount) {
        Some(points) => Some(UserData { points }),
        None => None,
    }
}

/// Whether the row of `leader` is the viewer's own.
pub open spec fn is_viewer(leader_uid: Seq<char>, viewer: Option<Seq<char>>) -> bool {
    viewer == Some(leader_uid)
}

/// The leaderboard as served to the viewer `viewer` (none for an anonymous
/// one): a row per entry, in order, the viewer's own rows highlighted.
pub fn leaderboard_items(leaderboard: &Vec<Leader>, viewer: Option<&str>) -> (r: Vec<LeaderboardItem>)
    ensures
        r@.len() == leaderboard@.len(),
        forall|i: int|
            0 <= i < r@.len() ==> {
                &&& r@[i].name == leaderboard@[i].1
                &&& r@[i].points == leaderboard@[i].2.points
                &&& r@[i].highlighted == is_viewer(
                    leaderboard@[i].0@,
                    match viewer {
                        Some(v) => Some(v@),
                        None => None,
                    },
                )
            },
{
    let mut r: Vec<LeaderboardItem> = Vec::new();
    let mut i: usize = 0;
    while i < leaderboard.len()
        invariant
            i <= leaderboard.len(),
            r@.len() == i,
            forall|k: int|
                0 <= k < i ==> {
                    &&& r@[k].name == leaderboard@[k].1
                    &&& r@[k].points == leaderboard@[k].2.points
                    &&& r@[k].highlighted == is_viewer(
                        leaderboard@[k].0@,
                        match viewer {
                            Some(v) => Some(v@),
                            None => None,
                        },
                    )
                },
        decreases leaderboard.len() - i,
    {
        let highlighted = match viewer {
            Some(v) => same_text(leaderboard[i].0.as_str(), v),
            None => false,
        };
        r.push(
            LeaderboardItem {
                name: leaderboard[i].1.clone(),
                points: leaderboard[i].2.points,
                highlighted,
            },
        );
        i = i + 1;
    }
    r
}

} // verus!
