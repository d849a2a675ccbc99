//! A matchmaking queue for content modules that seat remote players: players
//! join a waiting line, are moved into the current game as seats free up,
//! and the game starts once it is full or has waited long enough.
//!
//! Times are milliseconds on a monotonic clock that the caller reads.

use vstd::prelude::*;
use crate::text::same_text;

verus! {

/// Where the current game stands.
#[derive(Clone, Copy, Debug, PartialEq, Eq, Structural)]
pub enum State {
    /// Not started.
    NotStarted,
    /// Gathering players since the given time.
    WaitingForPlayers(u64),
    Playing,
    /// Over since the given time.
    Finished(u64),
}

impl Default for State {
    fn default() -> (r: Self)
        ensures
            r == State::NotStarted,
    {
        State::NotStarted
    }
}

/// Where a player stands, as seen from their own connection.
#[derive(Clone, Copy, Debug, PartialEq, Eq, Structural)]
pub enum UserState {
    /// Waiting in line, at this position counted from one.
    InQueue(usize),
    /// Seated in the current game.
    InGame,
    /// Neither in line nor seated.
    Lost,
}

/// A player: their user id and the name shown for them.
pub type Player = (String, String);

/// The waiting line, the players of the current game, and the game's state.
#[derive(Clone, Debug)]
pub struct Queue {
    queue: Vec<Player>,
    current_game: Vec<Player>,
    state: State,
}

/// The mathematical value of a `Queue`.
pub struct QueueView {
    pub queue: Seq<Player>,
    pub current_game: Seq<Player>,
    pub state: State,
}

impl View for Queue {
    type V = QueueView;

    closed spec fn view(&self) -> QueueView {
        QueueView { queue: self.queue@, current_game: self.current_game@, state: self.state }
    }
}

/// Whether some player of `s` has the user id `uid`.
pub open spec fn has_user(s: Seq<Player>, uid: Seq<char>) -> bool {
    exists|i: int| 0 <= i < s.len() && s[i].0@ == uid
}

/// The state after one matchmaking round at `now`.
pub open spec fn step_of(v: QueueView, required: nat, wait: Option<u64>, now: u64) -> QueueView {
    match v.state {
        State::NotStarted => QueueView {
            queue: Seq::empty(),
            current_game: Seq::empty(),
            state: State::WaitingForPlayers(now),
        },
        State::WaitingForPlayers(since) => {
            let moved: nat = if v.queue.len() > 0 {
                let free = (required - v.current_game.len()) as nat;
                if free < v.queue.len() {
                    free
                } else {
                    v.queue.len()
                }
            } else {
                0
            };
            let current = v.current_game + v.queue.take(moved as int);
            let queue = v.queue.skip(moved as int);
            let state = if current.len() == 0 {
                State::WaitingForPlayers(now)
            } else if wait_over(since, wait, now) {
                State::Playing
            } else if v.queue.len() > 0 && current.len() >= required {
                State::Playing
            } else {
                v.state
            };
            QueueView { queue, current_game: current, state }
        },
        _ => v,
    }
}

/// Whether the wait that began at `since` is over at `now`: always where no
/// wait time is set.
pub open spec fn wait_over(since: u64, wait: Option<u64>, now: u64) -> bool {
    match wait {
        None => true,
        Some(w) => elapsed(since, now) >= w,
    }
}

/// Milliseconds from `since` to `now`; none where `now` is earlier.
pub open spec fn elapsed(since: u64, now: u64) -> u64 {
    if now >= since {
        (now - since) as u64
    } else {
        0
    }
}

/// The state after `uid` asked to join, and whether they got in: refused
/// only where the line is longer than `max_queue_size`; one who is already
/// in line or seated stays where they are.
pub open spec fn join_of(v: QueueView, uid: String, name: String, max_queue_size: nat) -> (
    QueueView,
    bool,
) {
    if v.queue.len() > max_queue_size {
        (v, false)
    } else if has_user(v.queue, uid@) || has_user(v.current_game, uid@) {
        (v, true)
    } else {
        (QueueView { queue: v.queue.push((uid, name)), ..v }, true)
    }
}

/// `i` is the first position in `s` of a player with the user id `uid`.
pub open spec fn first_user_at(s: Seq<Player>, uid: Seq<char>, i: int) -> bool {
    &&& 0 <= i < s.len()
    &&& s[i].0@ == uid
    &&& forall|k: int| 0 <= k < i ==> s[k].0@ != uid
}

/// Where the player `uid` stands in `v`.
pub open spec fn user_state_of(v: QueueView, uid: Seq<char>) -> UserState {
    if has_user(v.current_game, uid) {
        UserState::InGame
    } else if exists|i: int| first_user_at(v.queue, uid, i) {
        let i = choose|i: int| first_user_at(v.queue, uid, i);
        UserState::InQueue((i + 1) as usize)
    } else {
        UserState::Lost
    }
}

proof fn lemma_first_user_unique(s: Seq<Player>, uid: Seq<char>, i: int, j: int)
    requires
        first_user_at(s, uid, i),
        first_user_at(s, uid, j),
    ensures
        i == j,
{
    if i < j {
        assert(s[i].0@ != uid);
    } else if j < i {
        assert(s[j].0@ != uid);
    }
}

/// The position of the first player of `s` with the user id `uid`.
fn find_user(s: &Vec<Player>, uid: &str) -> (r: Option<usize>)
    ensures
        match r {
            Some(i) => i < s.len() && first_user_at(s@, uid@, i as int),
            None => !has_user(s@, uid@),
        },
{
    let mut i: usize = 0;
    while i < s.len()
        invariant
            i <= s.len(),
            forall|k: int| 0 <= k < i ==> s@[k].0@ != uid@,
        decreases s.len() - i,
    {
        if same_text(s[i].0.as_str(), uid) {
            return Some(i);
        }
        i = i + 1;
    }
    None
}

/// Copies a list of players.
fn copy_players(v: &Vec<Player>) -> (r: Vec<Player>)
    ensures
        r@ == v@,
{
    let mut r: Vec<Player> = Vec::new();
    let mut i: usize = 0;
    while i < v.len()
        invariant
            i <= v.len(),
            r@ == v@.take(i as int),
        decreases v.len() - i,
    {
        let p = (v[i].0.clone(), v[i].1.clone());
        r.push(p);
        assert(r@ =~= v@.take(i + 1));
        i = i + 1;
    }
    assert(r@ =~= v@);
    r
}

impl Queue {
    /// A queue gathering players since `now`, with nobody in it.
    fn new(now: u64) -> (r: Self)
        ensures
            r@.queue == Seq::<Player>::empty(),
            r@.current_game == Seq::<Player>::empty(),
            r@.state == State::WaitingForPlayers(now),
    {
        Queue { queue: Vec::new(), current_game: Vec::new(), state: State::WaitingForPlayers(now) }
    }

    /// A queue that has not started, with nobody in it.
    pub fn empty() -> (r: Self)
        ensures
            r@.queue == Seq::<Player>::empty(),
            r@.current_game == Seq::<Player>::empty(),
            r@.state == State::NotStarted,
    {
        Queue { queue: Vec::new(), current_game: Vec::new(), state: State::NotStarted }
    }

    /// One matchmaking round at `now`: seats players from the head of the
    /// line while the game has free seats, and starts the game once it is
    /// full or its wait time is over. A queue that has not started begins
    /// to gather players.
    pub fn step(&mut self, required_players: usize, wait_time: Option<u64>, now: u64)
        requires
            old(self)@.current_game.len() <= required_players,
        ensures
            final(self)@ == step_of(old(self)@, required_players as nat, wait_time, now),
    {
        match self.state {
            State::NotStarted => {
                *self = Queue::new(now);
                assert(self@.queue =~= Seq::<Player>::empty());
            },
            State::WaitingForPlayers(since) => {
                let ghost v = self@;
                let had_queue = self.queue.len() > 0;
                if had_queue {
                    let to_complete = required_players - self.current_game.len();
                    let to_provide = if to_complete < self.queue.len() {
                        to_complete
                    } else {
                        self.queue.len()
                    };
                    let rest = self.queue.split_off(to_provide);
                    self.current_game.append(&mut self.queue);
                    self.queue = rest;
                    if self.current_game.len() >= required_players {
                        self.state = State::Playing;
                    }
                } else {
                    assert(v.queue.take(0) =~= Seq::<Player>::empty());
                    assert(v.current_game + v.queue.take(0) =~= v.current_game);
                    assert(v.queue.skip(0) =~= v.queue);
                }
                let elapsed = if now >= since {
                    now - since
                } else {
                    0
                };
                let over = match wait_time {
                    None => true,
                    Some(w) => elapsed >= w,
                };
                if self.current_game.len() == 0 {
                    self.state = State::WaitingForPlayers(now);
                } else if over {
                    self.state = State::Playing;
                }
            },
            _ => {},
        }
    }

    /// Lets `uid`, shown as `name`, join the line. Refused (`false`) only
    /// where the line is longer than `max_queue_size`; one who is already in
    /// line or seated keeps their place.
    pub fn join(&mut self, uid: String, name: String, max_queue_size: usize) -> (r: bool)
        ensures
            (final(self)@, r) == join_of(old(self)@, uid, name, max_queue_size as nat),
    {
        if self.queue.len() > max_queue_size {
            return false;
        }
        if find_user(&self.queue, uid.as_str()).is_some() || find_user(
            &self.current_game,
            uid.as_str(),
        ).is_some() {
            return true;
        }
        self.queue.push((uid, name));
        true
    }

    /// Where the player `uid` stands.
    pub fn user_state(&self, uid: &str) -> (r: UserState)
        ensures
            r == user_state_of(self@, uid@),
    {
        if find_user(&self.current_game, uid).is_some() {
            return UserState::InGame;
        }
        match find_user(&self.queue, uid) {
            Some(i) => {
                proof {
                    assert(first_user_at(self@.queue, uid@, i as int));
                    let j = choose|j: int| first_user_at(self@.queue, uid@, j);
                    lemma_first_user_unique(self@.queue, uid@, i as int, j);
                }
                UserState::InQueue(i + 1)
            },
            None => {
                assert(!exists|j: int| first_user_at(self@.queue, uid@, j));
                UserState::Lost
            },
        }
    }
}

/// The state of the current game.
pub fn get_state(queue: &Queue) -> (r: State)
    ensures
        r == queue@.state,
{
    queue.state
}

/// Sets the state of the current game; the players stay.
pub fn set_state(queue: &mut Queue, state: State)
    ensures
        final(queue)@ == (QueueView { state, ..old(queue)@ }),
{
    queue.state = state;
}

/// The players seated in the current game.
pub fn get_players(queue: &Queue) -> (r: Vec<Player>)
    ensures
        r@ == queue@.current_game,
{
    copy_players(&queue.current_game)
}

/// Starts over: nobody in line or seated, gathering players since `now`.
pub fn restart(queue: &mut Queue, now: u64)
    ensures
        final(queue)@.queue == Seq::<Player>::empty(),
        final(queue)@.current_game == Seq::<Player>::empty(),
        final(queue)@.state == State::WaitingForPlayers(now),
{
    *queue = Queue::new(now);
}

} // verus!
