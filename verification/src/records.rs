//! The immutable event records the analyser derives from single protocol
//! events, and the mutable per-player record.
//!
//! Each record type with text fields has a mathematical view struct whose
//! string fields are character sequences; contracts are stated over those
//! views.

use vstd::prelude::*;

use crate::classes::ClassList;
use crate::data::{class_from_u8, team_from_u8, Class, EntityId, Team, UserId};
use crate::events::{
    ChatMessageKind, PlayerDeathEvent, PlayerSpawnEvent, RawUserInfo, SayText2Message,
    TeamPlayRoundWinEvent,
};

verus! {

/// Raw assister values at or above this sentinel mean "no assister".
pub const ASSISTER_NONE_THRESHOLD: u16 = 16384;

/// A chat entry: kind, sender name (empty if absent), text, and the tick it
/// arrived on.
#[derive(Debug, Clone)]
pub struct ChatMassage {
    pub kind: ChatMessageKind,
    pub from: String,
    pub text: String,
    pub tick: u32,
}

/// The mathematical view of a chat entry.
pub struct ChatMassageV {
    pub kind: ChatMessageKind,
    pub from: Seq<char>,
    pub text: Seq<char>,
    pub tick: u32,
}

impl View for ChatMassage {
    type V = ChatMassageV;

    open spec fn view(&self) -> ChatMassageV {
        ChatMassageV { kind: self.kind, from: self.from@, text: self.text@, tick: self.tick }
    }
}

/// The chat entry a chat message yields: same kind and text, the sender name
/// defaulted to empty where the message carries none.
pub open spec fn spec_chat_from_message(message: SayText2Message, tick: u32) -> ChatMassageV {
    ChatMassageV {
        kind: message.kind,
        from: match message.from {
            Some(f) => f@,
            None => Seq::empty(),
        },
        text: message.text@,
        tick,
    }
}

impl ChatMassage {
    /// Builds the chat entry for a chat message at the given tick.
    pub fn from_message(message: &SayText2Message, tick: u32) -> (r: ChatMassage)
        ensures
            r@ == spec_chat_from_message(*message, tick),
    {
        ChatMassage {
            kind: message.kind,
            from: match &message.from {
                Some(f) => f.clone(),
                None => String::new(),
            },
            text: message.text.clone(),
            tick,
        }
    }
}

/// A spawn event: who spawned, on which class, for which team, and when.
#[derive(Debug, Clone, Copy, PartialEq, Eq, Structural)]
pub struct Spawn {
    pub user: UserId,
    pub class: Class,
    pub team: Team,
    pub tick: u32,
}

/// The spawn record a raw spawn event yields: every raw field goes through
/// the total truncate-and-fallback constructors.
pub open spec fn spec_spawn_from_event(event: PlayerSpawnEvent, tick: u32) -> Spawn {
    Spawn {
        user: UserId((event.user_id & 255) as u8),
        class: class_from_u8((event.class & 255) as u8),
        team: team_from_u8((event.team & 255) as u8),
        tick,
    }
}

impl Spawn {
    /// Builds the spawn record for a raw spawn event at the given tick.
    pub fn from_event(event: &PlayerSpawnEvent, tick: u32) -> (r: Spawn)
        ensures
            r == spec_spawn_from_event(*event, tick),
    {
        proof {
            let c = event.class;
            let t = event.team;
            assert((c as u32 & 0xff) as u8 == (c & 255) as u8) by (bit_vector);
            assert((t as u32 & 0xff) as u8 == (t & 255) as u8) by (bit_vector);
        }
        Spawn {
            user: UserId::from(event.user_id),
            class: Class::new(event.class as u32),
            team: Team::new(event.team as u32),
            tick,
        }
    }
}

/// A death event: weapon, victim, killer, optional assister, and when.
#[derive(Debug, Clone)]
pub struct Death {
    pub weapon: String,
    pub victim: UserId,
    pub assister: Option<UserId>,
    pub killer: UserId,
    pub tick: u32,
}

/// The mathematical view of a death event.
pub struct DeathV {
    pub weapon: Seq<char>,
    pub victim: UserId,
    pub assister: Option<UserId>,
    pub killer: UserId,
    pub tick: u32,
}

impl View for Death {
    type V = DeathV;

    open spec fn view(&self) -> DeathV {
        DeathV {
            weapon: self.weapon@,
            victim: self.victim,
            assister: self.assister,
            killer: self.killer,
            tick: self.tick,
        }
    }
}

/// The death record a raw death event yields. A raw assister value below the
/// sentinel threshold is a real user id; at or above it there is no
/// assister.
pub open spec fn spec_death_from_event(event: PlayerDeathEvent, tick: u32) -> DeathV {
    DeathV {
        weapon: event.weapon@,
        victim: UserId((event.user_id & 255) as u8),
        assister: if event.assister < ASSISTER_NONE_THRESHOLD {
            Some(UserId((event.assister & 255) as u8))
        } else {
            None
        },
        killer: UserId((event.attacker & 255) as u8),
        tick,
    }
}

impl Death {
    /// Builds the death record for a raw death event at the given tick,
    /// decoding the assister sentinel.
    pub fn from_event(event: &PlayerDeathEvent, tick: u32) -> (r: Death)
        ensures
            r@ == spec_death_from_event(*event, tick),
    {
        let assister = if event.assister < ASSISTER_NONE_THRESHOLD {
            Some(UserId::from(event.assister))
        } else {
            None
        };
        Death {
            assister,
            tick,
            killer: UserId::from(event.attacker),
            weapon: event.weapon.clone(),
            victim: UserId::from(event.user_id),
        }
    }
}

/// A contested round outcome: the winning team, the round's length in
/// seconds (raw 32-bit encoding), and the tick it ended on.
#[derive(Debug, Clone, Copy, PartialEq, Eq, Structural)]
pub struct Round {
    pub winner: Team,
    pub length: u32,
    pub end_tick: u32,
}

/// The round record a raw round-win event yields.
pub open spec fn spec_round_from_event(event: TeamPlayRoundWinEvent, tick: u32) -> Round {
    Round {
        winner: team_from_u8(event.team),
        length: event.round_time,
        end_tick: tick,
    }
}

impl Round {
    /// Builds the round record for a raw round-win event ending at the given
    /// tick.
    pub fn from_event(event: &TeamPlayRoundWinEvent, tick: u32) -> (r: Round)
        ensures
            r == spec_round_from_event(*event, tick),
    {
        proof {
            let t = event.team;
            assert((t as u32 & 0xff) as u8 == t) by (bit_vector);
        }
        Round {
            winner: Team::new(event.team as u32),
            length: event.round_time,
            end_tick: tick,
        }
    }
}

/// A per-player record: identity plus the analyser-derived spawn histogram,
/// display name and team. The entity-id cross-reference is volatile
/// bookkeeping and is not part of the record's equality.
#[derive(Debug, Clone)]
pub struct UserInfo {
    pub classes: ClassList,
    pub name: String,
    pub user_id: UserId,
    pub steam_id: String,
    pub entity_id: EntityId,
    pub team: Team,
}

/// The mathematical view of a per-player record.
pub struct UserInfoV {
    pub classes: Seq<u8>,
    pub name: Seq<char>,
    pub user_id: UserId,
    pub steam_id: Seq<char>,
    pub entity_id: EntityId,
    pub team: Team,
}

impl View for UserInfo {
    type V = UserInfoV;

    open spec fn view(&self) -> UserInfoV {
        UserInfoV {
            classes: self.classes@,
            name: self.name@,
            user_id: self.user_id,
            steam_id: self.steam_id@,
            entity_id: self.entity_id,
            team: self.team,
        }
    }
}

/// The fresh per-player record a raw user-info parse yields: identity from
/// the parse, an empty spawn histogram, and the default team.
pub open spec fn spec_user_from_raw(raw: RawUserInfo) -> UserInfoV {
    UserInfoV {
        classes: Seq::new(10, |i: int| 0u8),
        name: raw.name@,
        user_id: raw.user_id,
        steam_id: raw.steam_id@,
        entity_id: raw.entity_id,
        team: Team::Other,
    }
}

impl UserInfo {
    /// Builds the fresh per-player record for a successfully parsed raw
    /// user-info entry.
    pub fn from_raw(raw: RawUserInfo) -> (r: UserInfo)
        ensures
            r@ == spec_user_from_raw(raw),
    {
        let r = UserInfo {
            classes: ClassList::default(),
            name: raw.name,
            user_id: raw.user_id,
            steam_id: raw.steam_id,
            entity_id: raw.entity_id,
            team: Team::default(),
        };
        proof {
            assert(r@.classes =~= Seq::new(10, |i: int| 0u8));
        }
        r
    }
}

impl PartialEq for UserInfo {
    /// Record equality covers every field but the volatile entity-id
    /// cross-reference.
    fn eq(&self, other: &UserInfo) -> (r: bool) {
        self.classes == other.classes && self.name == other.name && self.user_id
            == other.user_id && self.steam_id == other.steam_id && self.team == other.team
    }
}

impl vstd::std_specs::cmp::PartialEqSpecImpl for UserInfo {
    open spec fn obeys_eq_spec() -> bool {
        true
    }

    open spec fn eq_spec(&self, other: &UserInfo) -> bool {
        self.classes@ == other.classes@ && self.name@ == other.name@ && self.user_id
            == other.user_id && self.steam_id@ == other.steam_id@ && self.team == other.team
    }
}

} // verus!
