//! The analyser state machine: receives the message and table-entry stream,
//! folds it into the accumulated [`MatchState`], and hands the state over at
//! end of stream.
//!
//! Every transition is total: malformed or uninteresting input changes
//! nothing, and no operation can fail. The full per-message transition is
//! captured by [`spec_handle_message`].

use vstd::prelude::*;

use crate::data::{EntityId, UserId};
use crate::events::{
    ChatMessageKind, GameEvent, Message, MessageType, RawUserInfo, UserInfoParseError,
    UserMessage,
};
use crate::records::{
    spec_chat_from_message, spec_death_from_event, spec_round_from_event, spec_spawn_from_event,
    ChatMassage, Death, Round, Spawn,
};
use crate::state::{
    spec_apply_spawn, spec_apply_user_info, spec_empty_state, spec_rename, MatchState,
    MatchStateV,
};

verus! {

/// The win-reason sentinel for a round ended by the time limit; such a round
/// is no contested outcome and never reaches the round list.
pub const WIN_REASON_TIME_LIMIT: u8 = 6;

/// The start-tick rule: the very first message handled stamps its tick as
/// the session's start tick; afterwards the start tick never changes
/// (first-write-wins), whatever the first tick's value.
pub open spec fn spec_with_start_tick(s: MatchStateV, tick: u32) -> MatchStateV {
    if s.start_tick is None {
        MatchStateV {
            chat: s.chat,
            users: s.users,
            deaths: s.deaths,
            rounds: s.rounds,
            start_tick: Some(tick),
            interval_per_tick: s.interval_per_tick,
        }
    } else {
        s
    }
}

/// The transition a game event causes: a death is appended unconditionally;
/// a spawn updates the spawning user's record where one exists; a round win
/// is appended unless its reason is the time-limit sentinel; anything else
/// changes nothing.
pub open spec fn spec_handle_event(s: MatchStateV, event: GameEvent, tick: u32) -> MatchStateV {
    match event {
        GameEvent::PlayerDeath(e) => MatchStateV {
            chat: s.chat,
            users: s.users,
            deaths: s.deaths.push(spec_death_from_event(e, tick)),
            rounds: s.rounds,
            start_tick: s.start_tick,
            interval_per_tick: s.interval_per_tick,
        },
        GameEvent::PlayerSpawn(e) => {
            let sp = spec_spawn_from_event(e, tick);
            MatchStateV {
                chat: s.chat,
                users: spec_apply_spawn(s.users, sp.user, sp.class, sp.team),
                deaths: s.deaths,
                rounds: s.rounds,
                start_tick: s.start_tick,
                interval_per_tick: s.interval_per_tick,
            }
        },
        GameEvent::TeamPlayRoundWin(e) => {
            if e.win_reason != WIN_REASON_TIME_LIMIT {
                MatchStateV {
                    chat: s.chat,
                    users: s.users,
                    deaths: s.deaths,
                    rounds: s.rounds.push(spec_round_from_event(e, tick)),
                    start_tick: s.start_tick,
                    interval_per_tick: s.interval_per_tick,
                }
            } else {
                s
            }
        },
        GameEvent::Other => s,
    }
}

/// The transition a user message causes: a rename-kind chat message with a
/// sender renames the first user whose current name matches and produces no
/// chat entry; any other chat message appends exactly one chat entry;
/// anything else changes nothing.
pub open spec fn spec_handle_user_message(
    s: MatchStateV,
    message: UserMessage,
    tick: u32,
) -> MatchStateV {
    match message {
        UserMessage::SayText2(m) => {
            if m.kind == ChatMessageKind::NameChange {
                match m.from {
                    Some(f) => MatchStateV {
                        chat: s.chat,
                        users: spec_rename(s.users, f@, m.text@),
                        deaths: s.deaths,
                        rounds: s.rounds,
                        start_tick: s.start_tick,
                        interval_per_tick: s.interval_per_tick,
                    },
                    None => s,
                }
            } else {
                MatchStateV {
                    chat: s.chat.push(spec_chat_from_message(m, tick)),
                    users: s.users,
                    deaths: s.deaths,
                    rounds: s.rounds,
                    start_tick: s.start_tick,
                    interval_per_tick: s.interval_per_tick,
                }
            }
        },
        UserMessage::Other => s,
    }
}

/// The full per-message transition: the start-tick rule first, then the
/// dispatch on the message's kind. A server-info message overwrites the
/// interval (last write wins); unhandled kinds change nothing further.
pub open spec fn spec_handle_message(s: MatchStateV, message: Message, tick: u32) -> MatchStateV {
    let s1 = spec_with_start_tick(s, tick);
    match message {
        Message::ServerInfo(m) => MatchStateV {
            chat: s1.chat,
            users: s1.users,
            deaths: s1.deaths,
            rounds: s1.rounds,
            start_tick: s1.start_tick,
            interval_per_tick: m.interval_per_tick,
        },
        Message::GameEvent(event) => spec_handle_event(s1, event, tick),
        Message::UserMessage(um) => spec_handle_user_message(s1, um, tick),
        Message::Other => s1,
    }
}

/// The transition a table entry causes: only the "userinfo" table is
/// meaningful, and only a successfully parsed record changes anything; an
/// absent record or a decode failure is discarded and processing continues.
pub open spec fn spec_handle_string_entry(
    s: MatchStateV,
    table: Seq<char>,
    entry: Result<Option<RawUserInfo>, UserInfoParseError>,
) -> MatchStateV {
    if table == "userinfo"@ {
        match entry {
            Ok(Some(raw)) => MatchStateV {
                chat: s.chat,
                users: spec_apply_user_info(s.users, raw),
                deaths: s.deaths,
                rounds: s.rounds,
                start_tick: s.start_tick,
                interval_per_tick: s.interval_per_tick,
            },
            _ => s,
        }
    } else {
        s
    }
}

/// The stateful handler that consumes the stream and owns the accumulated
/// match state. Its view is the state's view; [`Analyser::inv`] holds from
/// construction through every transition.
#[derive(Debug)]
pub struct Analyser {
    state: MatchState,
    /// Reserved hook for entity-id to user-id reconciliation; declared as
    /// state but not populated or read by any transition.
    user_id_map: Vec<(EntityId, UserId)>,
}

impl View for Analyser {
    type V = MatchStateV;

    closed spec fn view(&self) -> MatchStateV {
        self.state@
    }
}

impl Analyser {
    /// The analyser's invariant: the accumulated state is well-formed (its
    /// user map is key-sorted).
    pub closed spec fn inv(&self) -> bool {
        self.state.wf()
    }

    /// A fresh analyser with everything empty.
    pub fn new() -> (r: Analyser)
        ensures
            r@ == spec_empty_state(),
            r.inv(),
    {
        let r = Analyser { state: MatchState::new(), user_id_map: Vec::new() };
        proof {
            assert(r@ =~= spec_empty_state());
        }
        r
    }

    /// The message kinds the analyser declares interest in. Purely a filter
    /// hint for the driver: every kind is safe to deliver.
    pub fn does_handle(message_type: MessageType) -> (r: bool)
        ensures
            r == (message_type == MessageType::GameEvent || message_type
                == MessageType::UserMessage || message_type == MessageType::ServerInfo),
    {
        matches!(
            message_type,
            MessageType::GameEvent | MessageType::UserMessage | MessageType::ServerInfo
        )
    }

    /// The per-message entry point: applies the start-tick rule, then the
    /// transition for the message's kind. Never fails; unhandled kinds are
    /// accepted and ignored.
    pub fn handle_message(&mut self, message: &Message, tick: u32)
        requires
            old(self).inv(),
        ensures
            final(self).inv(),
            final(self)@ == spec_handle_message(old(self)@, *message, tick),
    {
        if self.state.start_tick.is_none() {
            self.state.start_tick = Some(tick);
        }
        proof {
            assert(self@ =~= spec_with_start_tick(old(self)@, tick));
        }
        let ghost s1 = self@;
        match message {
            Message::ServerInfo(m) => {
                self.state.interval_per_tick = m.interval_per_tick;
                proof {
                    assert(self@ =~= spec_handle_message(old(self)@, *message, tick));
                }
            },
            Message::GameEvent(event) => {
                self.handle_event(event, tick);
            },
            Message::UserMessage(um) => {
                self.handle_user_message(um, tick);
            },
            Message::Other => {},
        }
    }

    /// The per-table-entry entry point, fed the external user-info parser's
    /// outcome for the entry: only the "userinfo" table is meaningful, and a
    /// decode failure is discarded without aborting the session.
    pub fn handle_string_entry(
        &mut self,
        table: &str,
        _index: usize,
        entry: Result<Option<RawUserInfo>, UserInfoParseError>,
    )
        requires
            old(self).inv(),
        ensures
            final(self).inv(),
            final(self)@ == spec_handle_string_entry(old(self)@, table@, entry),
    {
        let table_owned: String = table.to_owned();
        let key: String = "userinfo".to_owned();
        if table_owned == key {
            match entry {
                Ok(Some(raw)) => {
                    self.state.users.apply_user_info(raw);
                    proof {
                        assert(self@ =~= spec_handle_string_entry(old(self)@, table@, entry));
                    }
                },
                _ => {},
            }
        }
    }

    /// Hands the accumulated match state over at end of stream; a pure move,
    /// with no validation or post-processing.
    pub fn into_output(self) -> (r: MatchState)
        ensures
            r@ == self@,
            self.inv() ==> r.wf(),
    {
        self.state
    }

    /// Exposes the accumulated match state without consuming the analyser.
    pub fn borrow_output(&self) -> (r: &MatchState)
        ensures
            r@ == self@,
            self.inv() ==> r.wf(),
    {
        &self.state
    }

    /// The game-event transition: deaths append unconditionally, spawns
    /// update a known user's record, round wins append unless ended by the
    /// time limit.
    fn handle_event(&mut self, event: &GameEvent, tick: u32)
        requires
            old(self).inv(),
        ensures
            final(self).inv(),
            final(self)@ == spec_handle_event(old(self)@, *event, tick),
    {
        match event {
            GameEvent::PlayerDeath(e) => {
                let d = Death::from_event(e, tick);
                let ghost gd = d;
                self.state.deaths.push(d);
                proof {
                    assert(self@.deaths =~= old(self)@.deaths.push(gd@));
                    assert(self@ =~= spec_handle_event(old(self)@, *event, tick));
                }
            },
            GameEvent::PlayerSpawn(e) => {
                let sp = Spawn::from_event(e, tick);
                self.state.users.apply_spawn(sp.user, sp.class, sp.team);
                proof {
                    assert(self@ =~= spec_handle_event(old(self)@, *event, tick));
                }
            },
            GameEvent::TeamPlayRoundWin(e) => {
                if e.win_reason != WIN_REASON_TIME_LIMIT {
                    let r = Round::from_event(e, tick);
                    self.state.rounds.push(r);
                    proof {
                        assert(self@ =~= spec_handle_event(old(self)@, *event, tick));
                    }
                }
            },
            GameEvent::Other => {},
        }
    }

    /// The user-message transition: a rename-kind chat message with a sender
    /// renames the first matching user in place of producing a chat entry.
    fn handle_user_message(&mut self, message: &UserMessage, tick: u32)
        requires
            old(self).inv(),
        ensures
            final(self).inv(),
            final(self)@ == spec_handle_user_message(old(self)@, *message, tick),
    {
        match message {
            UserMessage::SayText2(tm) => {
                if tm.kind == ChatMessageKind::NameChange {
                    match &tm.from {
                        Some(f) => {
                            let to = tm.text.clone();
                            self.state.users.rename_first(f, to);
                            proof {
                                assert(self@ =~= spec_handle_user_message(
                                    old(self)@,
                                    *message,
                                    tick,
                                ));
                            }
                        },
                        None => {},
                    }
                } else {
                    let c = ChatMassage::from_message(tm, tick);
                    let ghost gc = c;
                    self.state.chat.push(c);
                    proof {
                        assert(self@.chat =~= old(self)@.chat.push(gc@));
                        assert(self@ =~= spec_handle_user_message(old(self)@, *message, tick));
                    }
                }
            },
            UserMessage::Other => {},
        }
    }
}

impl Default for Analyser {
    fn default() -> (r: Self)
        ensures
            r@ == spec_empty_state(),
            r.inv(),
    {
        Analyser::new()
    }
}

} // verus!
