use chatr::models::{Channel, Room};
use chatr::network::actions::RoomRef;
use chatr::rooms::{
    channel_with_id, create_channel, create_room, deterministic_channel_id, format_channel_id, generate_invite_code,
    invite_code_from, join_step, new_channel, setup_room, JoinAction, JoinEvent, JoinState,
    DHT_LOOKUP_SECONDS, GOSSIP_LOOKUP_SECONDS, INVITE_ALPHABET, ROOM_NOT_FOUND,
};
use std::collections::hash_map::DefaultHasher;
use std::hash::{Hash, Hasher};

fn expected_id(room_id: &str, channel_name: &str) -> String {
    let mut hasher = DefaultHasher::new();
    room_id.hash(&mut hasher);
    channel_name.hash(&mut hasher);
    let hash = hasher.finish();
    format!(
        "{:08x}-{:04x}-{:04x}-{:04x}-{:012x}",
        (hash >> 32) as u32,
        (hash >> 16) as u16 & 0xffff,
        hash as u16,
        (hash >> 48) as u16,
        hash & 0xffffffffffff
    )
}

#[test]
fn channel_id_is_the_sliced_hash_of_room_and_name() {
    for (room, name) in [
        ("3f2c1a9e-8d4b-4c6f-9a3e-1b2c3d4e5f60", "general"),
        ("", ""),
        ("room", "voice"),
        ("räum", "kanal-ä"),
        ("a", "b"),
    ] {
        assert_eq!(deterministic_channel_id(room, name), expected_id(room, name));
    }
}

#[test]
fn channel_id_is_the_same_on_every_call() {
    let a = deterministic_channel_id("room-1", "general");
    let b = deterministic_channel_id("room-1", "general");
    assert_eq!(a, b);
    assert_ne!(a, deterministic_channel_id("room-2", "general"));
    assert_ne!(a, deterministic_channel_id("room-1", "random"));
}

#[test]
fn channel_id_has_five_groups_of_hex_digits() {
    let id = deterministic_channel_id("room-1", "general");
    assert_eq!(id.len(), 36);
    let groups: Vec<&str> = id.split('-').collect();
    assert_eq!(groups.iter().map(|g| g.len()).collect::<Vec<_>>(), vec![8, 4, 4, 4, 12]);
    assert!(id.chars().all(|c| c == '-' || c.is_ascii_digit() || ('a'..='f').contains(&c)));
}

#[test]
fn format_channel_id_cuts_the_hash_as_described() {
    assert_eq!(format_channel_id(0), "00000000-0000-0000-0000-000000000000");
    assert_eq!(format_channel_id(u64::MAX), "ffffffff-ffff-ffff-ffff-ffffffffffff");
    assert_eq!(format_channel_id(0x0123_4567_89ab_cdef), "01234567-89ab-cdef-0123-456789abcdef");
    assert_eq!(format_channel_id(0xa), "00000000-0000-000a-0000-00000000000a");
}

#[test]
fn invite_code_is_made_of_picks_from_the_alphabet() {
    assert_eq!(INVITE_ALPHABET, "ABCDEFGHJKMNPQRSTUVWXYZ23456789");
    assert_eq!(invite_code_from(&[0, 1, 22, 23, 2, 3, 4, 5]), "ABZ2CDEF");
    assert_eq!(invite_code_from(&[30, 30, 30, 30, 30, 30, 30, 30]), "99999999");
    assert_eq!(invite_code_from(&[31, 32]), "AB");
    assert_eq!(invite_code_from(&[]), "");
}

#[test]
fn generated_invite_codes_have_eight_unambiguous_characters() {
    for _ in 0..200 {
        let code = generate_invite_code();
        assert_eq!(code.chars().count(), 8);
        assert!(code.chars().all(|c| INVITE_ALPHABET.contains(c)), "{}", code);
        assert!(!code.contains(['0', 'O', '1', 'I', 'L']));
    }
}

#[test]
fn new_channel_has_the_agreed_id_and_no_topic() {
    let channel = new_channel("room-1", "general", None, "2024-01-01T00:00:00+00:00");
    assert_eq!(
        channel,
        Channel {
            id: expected_id("room-1", "general"),
            room_id: "room-1".to_string(),
            name: "general".to_string(),
            created_at: "2024-01-01T00:00:00+00:00".to_string(),
            channel_type: "text".to_string(),
            topic: None,
            position: 0,
        }
    );
    let voice = new_channel("room-1", "lobby", Some("voice"), "now");
    assert_eq!(voice.channel_type, "voice");
    assert_eq!(voice.id, expected_id("room-1", "lobby"));
}

#[test]
fn creator_and_joiner_agree_on_the_general_channel() {
    let created = setup_room("room-1", "R", "AB23CDEF", Some("peer-a"), "t1");
    let joined = setup_room("room-1", "R", "AB23CDEF", None, "t2");
    assert_eq!(created.general.id, joined.general.id);
    assert_eq!(created.room.owner_peer_id, Some("peer-a".to_string()));
    assert_eq!(joined.room.owner_peer_id, None);
    assert_eq!(joined.general.name, "general");
    assert_eq!(joined.general.room_id, "room-1");
    assert_eq!(joined.room.created_at, "t2");
}

#[test]
fn create_room_draws_an_id_and_an_invite_code() {
    let setup = create_room("My room", "peer-a");
    assert_eq!(setup.room.name, "My room");
    assert_eq!(setup.room.owner_peer_id, Some("peer-a".to_string()));
    assert_eq!(setup.room.id.len(), 36);
    assert_eq!(setup.room.invite_code.len(), 8);
    assert_eq!(setup.general.room_id, setup.room.id);
    assert_eq!(setup.general.id, expected_id(&setup.room.id, "general"));
    assert_eq!(setup.general.created_at, setup.room.created_at);
    let other = create_room("My room", "peer-a");
    assert_ne!(other.room.id, setup.room.id);
}

fn room() -> Room {
    Room {
        id: "room-1".to_string(),
        name: "R".to_string(),
        invite_code: "AB23CDEF".to_string(),
        created_at: "t0".to_string(),
        owner_peer_id: Some("peer-a".to_string()),
    }
}

fn found() -> RoomRef {
    RoomRef { room_id: "room-1".to_string(), room_name: "R".to_string() }
}

#[test]
fn a_room_in_the_store_is_handed_out_without_asking_anyone() {
    let (state, action) =
        join_step(JoinState::CheckingStore, JoinEvent::StoreAnswered(Some(room())), "AB23CDEF", "t");
    assert_eq!(state, JoinState::Done);
    assert_eq!(action, JoinAction::AlreadyKnown(room()));
}

#[test]
fn an_answer_of_the_peers_ends_the_lookup_without_the_record_store() {
    let (state, action) =
        join_step(JoinState::CheckingStore, JoinEvent::StoreAnswered(None), "AB23CDEF", "t");
    assert_eq!(state, JoinState::AskingPeers);
    assert_eq!(action, JoinAction::AskPeers { wait_seconds: 3 });
    assert_eq!(GOSSIP_LOOKUP_SECONDS, 3);
    let (state, action) = join_step(state, JoinEvent::LookupAnswered(Some(found())), "AB23CDEF", "t");
    assert_eq!(state, JoinState::Done);
    assert_eq!(action, JoinAction::Create(setup_room("room-1", "R", "AB23CDEF", None, "t")));
}

#[test]
fn silence_of_the_peers_leads_to_the_record_store() {
    let (state, action) = join_step(JoinState::AskingPeers, JoinEvent::LookupTimedOut, "C", "t");
    assert_eq!(state, JoinState::AskingRecords);
    assert_eq!(action, JoinAction::AskRecords { wait_seconds: 5 });
    assert_eq!(DHT_LOOKUP_SECONDS, 5);
    let (state, action) = join_step(state, JoinEvent::LookupAnswered(Some(found())), "C", "t");
    assert_eq!(state, JoinState::Done);
    assert_eq!(action, JoinAction::Create(setup_room("room-1", "R", "C", None, "t")));
}

#[test]
fn lookup_finds_nothing_when_nobody_answers_in_time() {
    let (state, _) = join_step(JoinState::CheckingStore, JoinEvent::StoreAnswered(None), "C", "t");
    let (state, _) = join_step(state, JoinEvent::LookupTimedOut, "C", "t");
    let (state, action) = join_step(state, JoinEvent::LookupTimedOut, "C", "t");
    assert_eq!(state, JoinState::Done);
    assert_eq!(action, JoinAction::Fail(ROOM_NOT_FOUND.to_string()));
    assert_eq!(ROOM_NOT_FOUND, "Room not found. Make sure someone with the room is online.");
}

#[test]
fn an_empty_answer_of_the_peers_leads_to_the_record_store() {
    let (state, action) = join_step(JoinState::AskingPeers, JoinEvent::LookupAnswered(None), "C", "t");
    assert_eq!(state, JoinState::AskingRecords);
    assert_eq!(action, JoinAction::AskRecords { wait_seconds: 5 });
    let (state, action) = join_step(state, JoinEvent::LookupAnswered(Some(found())), "C", "t2");
    assert_eq!(state, JoinState::Done);
    assert_eq!(action, JoinAction::Create(setup_room("room-1", "R", "C", None, "t2")));
}

#[test]
fn the_join_fails_only_when_the_record_store_names_no_room_either() {
    let (state, action) =
        join_step(JoinState::AskingRecords, JoinEvent::LookupAnswered(None), "C", "t");
    assert_eq!(state, JoinState::Done);
    assert_eq!(action, JoinAction::Fail(ROOM_NOT_FOUND.to_string()));
    let (state, action) = join_step(JoinState::AskingRecords, JoinEvent::LookupTimedOut, "C", "t");
    assert_eq!(state, JoinState::Done);
    assert_eq!(action, JoinAction::Fail(ROOM_NOT_FOUND.to_string()));
}

#[test]
fn a_channel_that_a_user_adds_gets_a_random_id() {
    let a = create_channel("room-1", "music", Some("voice"));
    let b = create_channel("room-1", "music", None);
    assert_eq!(a.id.len(), 36);
    assert_eq!(a.id.matches('-').count(), 4);
    assert_ne!(a.id, b.id);
    assert_ne!(a.id, expected_id("room-1", "music"));
    assert_eq!((a.room_id.as_str(), a.name.as_str(), a.channel_type.as_str()), ("room-1", "music", "voice"));
    assert_eq!(b.channel_type, "text");
    assert_eq!((a.topic.clone(), a.position), (None, 0));
    assert!(!a.created_at.is_empty());
    let c = channel_with_id("id-7".to_string(), "room-1", "music", None, "t");
    assert_eq!(
        c,
        Channel {
            id: "id-7".to_string(),
            room_id: "room-1".to_string(),
            name: "music".to_string(),
            created_at: "t".to_string(),
            channel_type: "text".to_string(),
            topic: None,
            position: 0,
        }
    );
}

#[test]
fn events_that_do_not_belong_to_the_state_are_ignored() {
    let (state, action) = join_step(JoinState::CheckingStore, JoinEvent::LookupTimedOut, "C", "t");
    assert_eq!(state, JoinState::CheckingStore);
    assert_eq!(action, JoinAction::Ignore);
    let (state, action) = join_step(JoinState::AskingPeers, JoinEvent::StoreAnswered(None), "C", "t");
    assert_eq!(state, JoinState::AskingPeers);
    assert_eq!(action, JoinAction::Ignore);
    let (state, action) = join_step(JoinState::Done, JoinEvent::LookupAnswered(Some(found())), "C", "t");
    assert_eq!(state, JoinState::Done);
    assert_eq!(action, JoinAction::Ignore);
}
