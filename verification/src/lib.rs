//! Reconstruction of a structured match timeline from a stream of decoded
//! demo-recording protocol messages and string-table updates.
//!
//! The analyser consumes one message or table entry at a time, folds it into
//! an accumulated [`state::MatchState`], and hands the finished state over at
//! end of stream. All value construction is total: unknown enumeration values
//! fall back to a dedicated `Other` variant, and malformed per-entry input is
//! discarded without aborting the session.

pub mod analyser;
pub mod classes;
pub mod data;
pub mod events;
pub mod laws;
pub mod records;
pub mod state;

pub use analyser::Analyser;
pub use classes::ClassList;
pub use data::{Class, EntityId, Team, UserId};
pub use records::{ChatMassage, Death, Round, Spawn, UserInfo};
pub use state::{MatchState, UserMap};
