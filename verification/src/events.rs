//! The analyser's inbound interface: the decoded protocol messages, game
//! events and user messages the external driver delivers, and the outcome of
//! the external raw user-info parser.
//!
//! These mirror the protocol at the analyser's boundary. Fractional-second
//! protocol fields (the server's seconds-per-tick interval, a round's length)
//! are carried as their raw 32-bit encoding; the analyser only stores them,
//! it never computes with them.

use vstd::prelude::*;

use crate::data::{EntityId, UserId};

verus! {

/// The kind tag of a decoded protocol message, used by the driver to ask
/// which kinds the analyser wants delivered.
#[derive(Debug, Clone, Copy, PartialEq, Eq, Hash, Structural)]
pub enum MessageType {
    Empty,
    NetTick,
    Print,
    ServerInfo,
    SetPause,
    CreateStringTable,
    UpdateStringTable,
    UserMessage,
    EntityMessage,
    GameEvent,
    PacketEntities,
    TempEntities,
}

/// A server-info message; delivers the session's seconds-per-tick interval
/// as its raw 32-bit encoding.
#[derive(Debug, Clone, Copy, PartialEq, Eq, Hash, Structural)]
pub struct ServerInfoMessage {
    pub interval_per_tick: u32,
}

/// The kind of a chat message; `NameChange` triggers a rename instead of a
/// chat entry.
#[derive(Debug, Clone, Copy, PartialEq, Eq, Hash, Structural)]
pub enum ChatMessageKind {
    ChatAll,
    ChatTeam,
    ChatAllDead,
    ChatTeamDead,
    ChatAllSpec,
    NameChange,
    Empty,
}

/// A decoded chat user message: its kind, the optional sender, and the text.
#[derive(Debug, Clone)]
pub struct SayText2Message {
    pub kind: ChatMessageKind,
    pub from: Option<String>,
    pub text: String,
}

/// A decoded user message; only chat messages are meaningful to the
/// analyser.
#[derive(Debug, Clone)]
pub enum UserMessage {
    SayText2(SayText2Message),
    Other,
}

/// A raw player-spawn game event.
#[derive(Debug, Clone, Copy, PartialEq, Eq, Hash, Structural)]
pub struct PlayerSpawnEvent {
    pub user_id: u16,
    pub class: u16,
    pub team: u16,
}

/// A raw player-death game event. An `assister` value of `16384` or above is
/// the protocol's sentinel for "no assister".
#[derive(Debug, Clone)]
pub struct PlayerDeathEvent {
    pub user_id: u16,
    pub attacker: u16,
    pub assister: u16,
    pub weapon: String,
}

/// A raw round-win game event; `round_time` is the raw 32-bit encoding of
/// the round's length in seconds.
#[derive(Debug, Clone, Copy, PartialEq, Eq, Hash, Structural)]
pub struct TeamPlayRoundWinEvent {
    pub team: u8,
    pub win_reason: u8,
    pub round_time: u32,
}

/// A decoded game event; kinds outside the analyser's interest are `Other`.
#[derive(Debug, Clone)]
pub enum GameEvent {
    PlayerDeath(PlayerDeathEvent),
    PlayerSpawn(PlayerSpawnEvent),
    TeamPlayRoundWin(TeamPlayRoundWinEvent),
    Other,
}

/// A decoded protocol message as delivered by the driver, one per call.
#[derive(Debug, Clone)]
pub enum Message {
    ServerInfo(ServerInfoMessage),
    GameEvent(GameEvent),
    UserMessage(UserMessage),
    Other,
}

/// A raw per-player record as the external user-info parser hands it over:
/// protocol-owned identity only, no analyser-derived state.
#[derive(Debug, Clone)]
pub struct RawUserInfo {
    pub name: String,
    pub user_id: UserId,
    pub steam_id: String,
    pub entity_id: EntityId,
}

/// A decode failure of the external user-info parser. The analyser is
/// required to discard the failing entry and continue; the failure never
/// propagates.
#[derive(Debug, Clone, Copy, PartialEq, Eq, Hash, Structural)]
pub struct UserInfoParseError;

} // verus!
