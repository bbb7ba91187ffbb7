//! Session-wide guarantees of the analyser, stated and proved over the
//! transition specification that the handler's contracts are written in.

use vstd::prelude::*;

use crate::analyser::{
    spec_handle_message, spec_with_start_tick, WIN_REASON_TIME_LIMIT,
};
use crate::events::{
    ChatMessageKind, GameEvent, Message, PlayerSpawnEvent, RawUserInfo, SayText2Message,
    TeamPlayRoundWinEvent, UserMessage,
};
use crate::records::{spec_round_from_event, spec_spawn_from_event, UserInfoV};
use crate::state::{
    first_name_index, first_uid_index, has_uid, lemma_first_match_bounds, spec_apply_user_info,
    spec_rename, MatchStateV,
};

verus! {

/// The outcome of feeding a whole message stream, one message at a time, to
/// the per-message transition.
pub open spec fn spec_handle_messages(s: MatchStateV, msgs: Seq<(Message, u32)>) -> MatchStateV
    decreases msgs.len(),
{
    if msgs.len() == 0 {
        s
    } else {
        spec_handle_messages(spec_handle_message(s, msgs[0].0, msgs[0].1), msgs.drop_first())
    }
}

/// A round-win whose reason is the time-limit sentinel never reaches the
/// round list, regardless of its other fields; any other reason appends
/// exactly its round record.
pub proof fn lemma_round_win_filter(s: MatchStateV, e: TeamPlayRoundWinEvent, tick: u32)
    ensures
        e.win_reason == WIN_REASON_TIME_LIMIT ==> spec_handle_message(
            s,
            Message::GameEvent(GameEvent::TeamPlayRoundWin(e)),
            tick,
        ).rounds == s.rounds,
        e.win_reason != WIN_REASON_TIME_LIMIT ==> spec_handle_message(
            s,
            Message::GameEvent(GameEvent::TeamPlayRoundWin(e)),
            tick,
        ).rounds == s.rounds.push(spec_round_from_event(e, tick)),
{
}

/// No message changes a start tick that has been set.
pub proof fn lemma_start_tick_preserved(s: MatchStateV, m: Message, tick: u32)
    requires
        s.start_tick is Some,
    ensures
        spec_handle_message(s, m, tick).start_tick == s.start_tick,
{
}

/// Handling any message while the start tick is still unset stamps that
/// message's tick.
pub proof fn lemma_start_tick_stamped(s: MatchStateV, m: Message, tick: u32)
    requires
        s.start_tick is None,
    ensures
        spec_handle_message(s, m, tick).start_tick == Some(tick),
{
}

/// A start tick that has been set survives any further message stream
/// unchanged.
pub proof fn lemma_start_tick_stable(s: MatchStateV, msgs: Seq<(Message, u32)>)
    requires
        s.start_tick is Some,
    ensures
        spec_handle_messages(s, msgs).start_tick == s.start_tick,
    decreases msgs.len(),
{
    if msgs.len() > 0 {
        lemma_start_tick_preserved(s, msgs[0].0, msgs[0].1);
        lemma_start_tick_stable(spec_handle_message(s, msgs[0].0, msgs[0].1), msgs.drop_first());
    }
}

/// First write wins: over any non-empty message stream started from an
/// unset start tick, the start tick ends up at the first message's tick and
/// is never overwritten by any later message, for any message ordering and
/// any tick values.
pub proof fn lemma_start_tick_first_write_wins(s: MatchStateV, msgs: Seq<(Message, u32)>)
    requires
        s.start_tick is None,
        msgs.len() > 0,
    ensures
        spec_handle_messages(s, msgs).start_tick == Some(msgs[0].1),
{
    lemma_start_tick_stamped(s, msgs[0].0, msgs[0].1);
    lemma_start_tick_stable(spec_handle_message(s, msgs[0].0, msgs[0].1), msgs.drop_first());
}

/// A spawn event for a user id with no existing record leaves the user map
/// unchanged: players are never created from a spawn alone.
pub proof fn lemma_spawn_unknown_user(s: MatchStateV, e: PlayerSpawnEvent, tick: u32)
    requires
        !has_uid(s.users, spec_spawn_from_event(e, tick).user),
    ensures
        spec_handle_message(s, Message::GameEvent(GameEvent::PlayerSpawn(e)), tick).users
            == s.users,
{
}

/// A userinfo update for an existing user id preserves that user's prior
/// name, team, platform identity and class histogram, and refreshes only the
/// entity-id cross-reference; every other record is untouched.
pub proof fn lemma_user_info_existing(users: Seq<UserInfoV>, raw: RawUserInfo)
    requires
        has_uid(users, raw.user_id),
    ensures
        ({
            let i = first_uid_index(users, raw.user_id);
            let r = spec_apply_user_info(users, raw);
            &&& r.len() == users.len()
            &&& r[i].name == users[i].name
            &&& r[i].team == users[i].team
            &&& r[i].classes == users[i].classes
            &&& r[i].steam_id == users[i].steam_id
            &&& r[i].user_id == users[i].user_id
            &&& r[i].entity_id == raw.entity_id
            &&& forall|j: int| 0 <= j < users.len() && j != i ==> r[j] == users[j]
        }),
{
    lemma_first_match_bounds(users, |u: UserInfoV| u.user_id == raw.user_id);
}

/// The rename rule, spelled out: the first record (in key-sorted order)
/// whose current name matches gets exactly its name replaced; everything
/// before it does not match, everything else is untouched; with no match
/// the sequence is unchanged.
pub proof fn lemma_rename_semantics(users: Seq<UserInfoV>, from: Seq<char>, to: Seq<char>)
    ensures
        ({
            let i = first_name_index(users, from);
            let r = spec_rename(users, from, to);
            &&& 0 <= i <= users.len()
            &&& r.len() == users.len()
            &&& forall|j: int| 0 <= j < i ==> users[j].name != from
            &&& (i < users.len() ==> users[i].name == from && r[i].name == to && r[i].user_id
                == users[i].user_id && r[i].classes == users[i].classes && r[i].team
                == users[i].team && r[i].steam_id == users[i].steam_id && r[i].entity_id
                == users[i].entity_id)
            &&& forall|j: int| 0 <= j < users.len() && j != i ==> r[j] == users[j]
            &&& (i == users.len() ==> r == users)
        }),
{
    lemma_first_match_bounds(users, |u: UserInfoV| u.name == from);
}

/// A rename-kind chat message with a sender produces no chat entry and
/// renames per the rename rule; any non-rename chat message appends exactly
/// one chat entry and renames nobody.
pub proof fn lemma_chat_vs_rename(s: MatchStateV, m: SayText2Message, tick: u32)
    ensures
        m.kind == ChatMessageKind::NameChange ==> spec_handle_message(
            s,
            Message::UserMessage(UserMessage::SayText2(m)),
            tick,
        ).chat == s.chat,
        m.from matches Some(f) ==> (m.kind == ChatMessageKind::NameChange ==> spec_handle_message(
            s,
            Message::UserMessage(UserMessage::SayText2(m)),
            tick,
        ).users == spec_rename(s.users, f@, m.text@)),
        m.kind != ChatMessageKind::NameChange ==> spec_handle_message(
            s,
            Message::UserMessage(UserMessage::SayText2(m)),
            tick,
        ).users == s.users && spec_handle_message(
            s,
            Message::UserMessage(UserMessage::SayText2(m)),
            tick,
        ).chat == s.chat.push(
            crate::records::spec_chat_from_message(m, tick),
        ),
{
    assert(spec_with_start_tick(s, tick).chat == s.chat);
    assert(spec_with_start_tick(s, tick).users == s.users);
}

} // verus!
