use demo_analyser::analyser::Analyser;
use demo_analyser::data::{Class, EntityId, Team, UserId};
use demo_analyser::events::{
    ChatMessageKind, GameEvent, Message, MessageType, PlayerDeathEvent, PlayerSpawnEvent,
    RawUserInfo, SayText2Message, ServerInfoMessage, TeamPlayRoundWinEvent, UserInfoParseError,
    UserMessage,
};
use demo_analyser::state::MatchState;

fn raw_user(uid: u8, name: &str, entity: u32) -> RawUserInfo {
    RawUserInfo {
        name: String::from(name),
        user_id: UserId(uid),
        steam_id: format!("STEAM_0:0:{}", uid),
        entity_id: EntityId(entity),
    }
}

fn spawn_message(uid: u16, class: u16, team: u16) -> Message {
    Message::GameEvent(GameEvent::PlayerSpawn(PlayerSpawnEvent {
        user_id: uid,
        class,
        team,
    }))
}

fn feed_user(analyser: &mut Analyser, uid: u8, name: &str, entity: u32) {
    analyser.handle_string_entry("userinfo", uid as usize, Ok(Some(raw_user(uid, name, entity))));
}

#[test]
fn does_handle_declares_the_three_kinds() {
    assert!(Analyser::does_handle(MessageType::GameEvent));
    assert!(Analyser::does_handle(MessageType::UserMessage));
    assert!(Analyser::does_handle(MessageType::ServerInfo));
    assert!(!Analyser::does_handle(MessageType::NetTick));
    assert!(!Analyser::does_handle(MessageType::PacketEntities));
    assert!(!Analyser::does_handle(MessageType::Empty));
}

#[test]
fn round_win_time_limit_is_dropped() {
    let mut analyser = Analyser::new();
    let timed_out = Message::GameEvent(GameEvent::TeamPlayRoundWin(TeamPlayRoundWinEvent {
        team: 2,
        win_reason: 6,
        round_time: 0.5f32.to_bits(),
    }));
    analyser.handle_message(&timed_out, 10);
    let contested = Message::GameEvent(GameEvent::TeamPlayRoundWin(TeamPlayRoundWinEvent {
        team: 3,
        win_reason: 0,
        round_time: 301.25f32.to_bits(),
    }));
    analyser.handle_message(&contested, 20);
    let state = analyser.into_output();
    assert_eq!(state.rounds.len(), 1);
    assert_eq!(state.rounds[0].winner, Team::Blue);
    assert_eq!(f32::from_bits(state.rounds[0].length), 301.25);
    assert_eq!(state.rounds[0].end_tick, 20);
}

#[test]
fn start_tick_is_first_write_wins() {
    let mut analyser = Analyser::new();
    analyser.handle_message(
        &Message::ServerInfo(ServerInfoMessage {
            interval_per_tick: 0.015f32.to_bits(),
        }),
        5,
    );
    analyser.handle_message(&spawn_message(1, 1, 2), 9);
    analyser.handle_message(&Message::Other, 30);
    let state = analyser.into_output();
    assert_eq!(state.start_tick, Some(5));
}

#[test]
fn start_tick_zero_counts_as_a_first_write() {
    let mut analyser = Analyser::new();
    analyser.handle_message(&Message::Other, 0);
    analyser.handle_message(&Message::Other, 5);
    let state = analyser.into_output();
    assert_eq!(state.start_tick, Some(0));
}

#[test]
fn interval_per_tick_is_last_write_wins() {
    let mut analyser = Analyser::new();
    analyser.handle_message(
        &Message::ServerInfo(ServerInfoMessage {
            interval_per_tick: 0.015f32.to_bits(),
        }),
        1,
    );
    analyser.handle_message(
        &Message::ServerInfo(ServerInfoMessage {
            interval_per_tick: 0.03f32.to_bits(),
        }),
        2,
    );
    let state = analyser.into_output();
    assert_eq!(f32::from_bits(state.interval_per_tick), 0.03);
    assert_eq!(state.start_tick, Some(1));
}

#[test]
fn spawn_for_unknown_user_changes_nothing() {
    let mut analyser = Analyser::new();
    analyser.handle_message(&spawn_message(7, 1, 2), 4);
    let state = analyser.into_output();
    assert_eq!(state.users.len(), 0);
}

#[test]
fn spawn_for_known_user_bumps_class_and_team() {
    let mut analyser = Analyser::new();
    feed_user(&mut analyser, 7, "A", 50);
    analyser.handle_message(&spawn_message(7, 2, 2), 4);
    analyser.handle_message(&spawn_message(7, 2, 3), 5);
    let state = analyser.into_output();
    assert_eq!(state.users.len(), 1);
    let user = state.users.get(UserId(7)).expect("user on record");
    assert_eq!(user.classes.get(Class::Sniper), 2);
    assert_eq!(user.team, Team::Blue);
    assert_eq!(user.name, "A");
}

#[test]
fn userinfo_for_existing_user_only_refreshes_entity_id() {
    let mut analyser = Analyser::new();
    feed_user(&mut analyser, 7, "A", 50);
    analyser.handle_message(&spawn_message(7, 1, 2), 4);
    // a later userinfo entry for the same id, with a different name
    feed_user(&mut analyser, 7, "renamed-by-protocol", 99);
    let state = analyser.into_output();
    assert_eq!(state.users.len(), 1);
    let user = state.users.get(UserId(7)).expect("user on record");
    assert_eq!(user.name, "A");
    assert_eq!(user.team, Team::Red);
    assert_eq!(user.classes.get(Class::Scout), 1);
    assert_eq!(user.entity_id, EntityId(99));
}

#[test]
fn userinfo_parse_failure_is_discarded() {
    let mut analyser = Analyser::new();
    analyser.handle_string_entry("userinfo", 0, Err(UserInfoParseError));
    analyser.handle_string_entry("userinfo", 1, Ok(None));
    let state = analyser.into_output();
    assert_eq!(state.users.len(), 0);
}

#[test]
fn other_tables_are_ignored() {
    let mut analyser = Analyser::new();
    analyser.handle_string_entry("downloadables", 0, Ok(Some(raw_user(1, "A", 2))));
    let state = analyser.into_output();
    assert_eq!(state.users.len(), 0);
}

#[test]
fn users_iterate_in_key_sorted_order() {
    let mut analyser = Analyser::new();
    feed_user(&mut analyser, 9, "C", 3);
    feed_user(&mut analyser, 2, "A", 1);
    feed_user(&mut analyser, 5, "B", 2);
    let state = analyser.into_output();
    assert_eq!(state.users.len(), 3);
    assert_eq!(state.users.record_at(0).user_id, UserId(2));
    assert_eq!(state.users.record_at(1).user_id, UserId(5));
    assert_eq!(state.users.record_at(2).user_id, UserId(9));
}

#[test]
fn chat_message_appends_one_entry() {
    let mut analyser = Analyser::new();
    let message = Message::UserMessage(UserMessage::SayText2(SayText2Message {
        kind: ChatMessageKind::ChatAll,
        from: Some(String::from("A")),
        text: String::from("hello"),
    }));
    analyser.handle_message(&message, 12);
    let state = analyser.into_output();
    assert_eq!(state.chat.len(), 1);
    assert_eq!(state.chat[0].kind, ChatMessageKind::ChatAll);
    assert_eq!(state.chat[0].from, "A");
    assert_eq!(state.chat[0].text, "hello");
    assert_eq!(state.chat[0].tick, 12);
}

#[test]
fn chat_message_without_sender_gets_empty_from() {
    let mut analyser = Analyser::new();
    let message = Message::UserMessage(UserMessage::SayText2(SayText2Message {
        kind: ChatMessageKind::ChatTeam,
        from: None,
        text: String::from("ready"),
    }));
    analyser.handle_message(&message, 3);
    let state = analyser.into_output();
    assert_eq!(state.chat.len(), 1);
    assert_eq!(state.chat[0].from, "");
}

#[test]
fn rename_updates_first_matching_user_and_adds_no_chat() {
    let mut analyser = Analyser::new();
    feed_user(&mut analyser, 4, "Twin", 1);
    feed_user(&mut analyser, 8, "Twin", 2);
    let rename = Message::UserMessage(UserMessage::SayText2(SayText2Message {
        kind: ChatMessageKind::NameChange,
        from: Some(String::from("Twin")),
        text: String::from("Solo"),
    }));
    analyser.handle_message(&rename, 15);
    let state = analyser.into_output();
    assert_eq!(state.chat.len(), 0);
    // the first user in key-sorted order is renamed, the second keeps its name
    assert_eq!(state.users.get(UserId(4)).expect("user 4").name, "Solo");
    assert_eq!(state.users.get(UserId(8)).expect("user 8").name, "Twin");
}

#[test]
fn rename_with_no_match_is_dropped() {
    let mut analyser = Analyser::new();
    feed_user(&mut analyser, 4, "A", 1);
    let rename = Message::UserMessage(UserMessage::SayText2(SayText2Message {
        kind: ChatMessageKind::NameChange,
        from: Some(String::from("nobody")),
        text: String::from("Solo"),
    }));
    analyser.handle_message(&rename, 15);
    let state = analyser.into_output();
    assert_eq!(state.chat.len(), 0);
    assert_eq!(state.users.get(UserId(4)).expect("user 4").name, "A");
}

#[test]
fn rename_keeps_statistics_and_key() {
    let mut analyser = Analyser::new();
    feed_user(&mut analyser, 4, "A", 1);
    analyser.handle_message(&spawn_message(4, 5, 2), 2);
    let rename = Message::UserMessage(UserMessage::SayText2(SayText2Message {
        kind: ChatMessageKind::NameChange,
        from: Some(String::from("A")),
        text: String::from("B"),
    }));
    analyser.handle_message(&rename, 3);
    let state = analyser.into_output();
    let user = state.users.get(UserId(4)).expect("user 4");
    assert_eq!(user.name, "B");
    assert_eq!(user.classes.get(Class::Medic), 1);
    assert_eq!(user.team, Team::Red);
}

#[test]
fn deaths_append_without_existence_check() {
    let mut analyser = Analyser::new();
    let death = Message::GameEvent(GameEvent::PlayerDeath(PlayerDeathEvent {
        user_id: 11,
        attacker: 12,
        assister: 20000,
        weapon: String::from("shotgun"),
    }));
    analyser.handle_message(&death, 8);
    let state = analyser.into_output();
    assert_eq!(state.deaths.len(), 1);
    assert_eq!(state.deaths[0].victim, UserId(11));
    assert_eq!(state.deaths[0].killer, UserId(12));
    assert_eq!(state.deaths[0].assister, None);
    assert_eq!(state.users.len(), 0);
}

#[test]
fn borrow_output_matches_into_output() {
    let mut analyser = Analyser::new();
    feed_user(&mut analyser, 1, "A", 7);
    {
        let borrowed: &MatchState = analyser.borrow_output();
        assert_eq!(borrowed.users.len(), 1);
        assert_eq!(borrowed.start_tick, None);
    }
    let owned = analyser.into_output();
    assert_eq!(owned.users.len(), 1);
}

#[test]
fn end_to_end_synthetic_stream() {
    let mut analyser = Analyser::new();
    analyser.handle_message(
        &Message::ServerInfo(ServerInfoMessage {
            interval_per_tick: 0.015f32.to_bits(),
        }),
        0,
    );
    analyser.handle_string_entry("userinfo", 0, Ok(Some(raw_user(1, "A", 64))));
    analyser.handle_message(&spawn_message(1, 1, 2), 2);
    analyser.handle_message(&spawn_message(1, 1, 2), 3);
    analyser.handle_message(
        &Message::GameEvent(GameEvent::PlayerDeath(PlayerDeathEvent {
            user_id: 1,
            attacker: 1,
            assister: 16384,
            weapon: String::from("world"),
        })),
        4,
    );
    analyser.handle_message(
        &Message::GameEvent(GameEvent::TeamPlayRoundWin(TeamPlayRoundWinEvent {
            team: 2,
            win_reason: 0,
            round_time: 62.5f32.to_bits(),
        })),
        5,
    );
    let state = analyser.into_output();
    // first-write-wins: the server-info message at tick 0 stamped the start
    // tick, and no later message may overwrite it
    assert_eq!(state.start_tick, Some(0));
    assert_eq!(f32::from_bits(state.interval_per_tick), 0.015);
    assert_eq!(state.users.len(), 1);
    let user = state.users.get(UserId(1)).expect("user 1");
    assert_eq!(user.name, "A");
    assert_eq!(user.classes.get(Class::Scout), 2);
    assert_eq!(user.team, Team::Red);
    assert_eq!(state.deaths.len(), 1);
    assert_eq!(state.rounds.len(), 1);
    assert_eq!(state.rounds[0].winner, Team::Red);
    assert_eq!(state.chat.len(), 0);
}
