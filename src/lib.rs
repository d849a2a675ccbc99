//! Core of an always-on broadcast scheduler: the schedule of content modules
//! (`schedule`), the per-frame decisions that pick, keep and replace the
//! active module and answer operator commands (`host`), and the auxiliary
//! video source controller (`background`). Beside them stand pieces that
//! content modules share: a matchmaking queue (`queue`), player points and
//! the leaderboard (`points`), and the broadcast's private settings
//! (`config`).

pub mod background;
pub mod config;
pub mod host;
pub mod points;
pub mod queue;
pub mod schedule;
pub mod text;
