use chatr::events::AppEvent;
use chatr::models::{Channel, DmMessage, Friend, Message, PeerInfo, Reaction, Room};
use chatr::network::actions::{
    OverlayAction, OverlayEvent, RoomRef, StoreAnswer, StoreOp, StoreQuery,
};
use chatr::network::swarm::{decode_room_record, encode_room_record, Overlay};
use chatr::network::{invite_key, room_topic, topic_room, NetworkCommand, DISCOVERY_TOPIC};
use chatr::wire::{
    CallAnswerNet, CallOfferNet, ChannelCreatedNet, ChannelDeletedNet, ChannelSyncNet, ChatMessage,
    DmMessageNet, FriendRequestNet, IceCandidateNet, MessageDeleteNet, MessageEditNet,
    NetworkMessage, PeerAnnouncement, ReactionNet, ReadReceiptNet, RoomLookupRequest,
    RoomLookupResponse, TypingIndicatorNet, VoiceStateNet,
};

const ME: &str = "peer-me";

fn s(text: &str) -> String {
    text.to_string()
}

fn nothing() -> StoreAnswer {
    StoreAnswer::nothing()
}

fn overlay() -> Overlay {
    Overlay::new(s(ME))
}

fn step(o: &mut Overlay, event: OverlayEvent, answer: StoreAnswer) -> Vec<OverlayAction> {
    o.step_with(event, answer, s("fresh-id"), s("now"))
}

fn message(o: &mut Overlay, m: NetworkMessage) -> Vec<OverlayAction> {
    step(o, OverlayEvent::Message(m), nothing())
}

fn chat(sender: &str) -> ChatMessage {
    ChatMessage {
        id: s("m1"),
        channel_id: s("c1"),
        sender_peer_id: s(sender),
        sender_display_name: s("Alice"),
        content: s("hi"),
        timestamp: s("t1"),
        reply_to_id: Some(s("m0")),
        attachments: Some(vec![s("f1")]),
    }
}

fn channel(id: &str) -> Channel {
    Channel {
        id: s(id),
        room_id: s("r1"),
        name: s(id),
        created_at: s("t0"),
        channel_type: s("text"),
        topic: Some(s("talk")),
        position: 3,
    }
}

fn subscribe(o: &mut Overlay, room: &str) {
    let acts = step(o, OverlayEvent::Command(NetworkCommand::SubscribeRoom { room_id: s(room) }), nothing());
    assert_eq!(acts, vec![OverlayAction::Subscribe { room_id: s(room), topic: room_topic(room) }]);
    let answer = StoreAnswer { room: None, channels: None, display_name: Some(s("Me")) };
    step(o, OverlayEvent::SubscribeOutcome { room_id: s(room), ok: true }, answer);
}

#[test]
fn topics_are_named_after_rooms() {
    assert_eq!(DISCOVERY_TOPIC, "chatr/discovery");
    assert_eq!(room_topic("r1"), "chatr/room/r1");
    assert_eq!(invite_key("AB23CDEF"), "chatr/invite/AB23CDEF");
    assert_eq!(topic_room("chatr/room/r1"), Some(s("r1")));
    assert_eq!(topic_room("chatr/room/r1/extra"), Some(s("r1")));
    assert_eq!(topic_room("chatr/room/"), Some(s("")));
    assert_eq!(topic_room("chatr/discovery"), None);
    assert_eq!(topic_room(""), None);
}

#[test]
fn chat_of_another_peer_is_stored_and_shown() {
    let mut o = overlay();
    let stored = Message {
        id: s("m1"),
        channel_id: s("c1"),
        sender_peer_id: s("peer-a"),
        sender_display_name: s("Alice"),
        content: s("hi"),
        timestamp: s("t1"),
        edited_at: None,
        deleted_at: None,
        reply_to_id: Some(s("m0")),
    };
    assert_eq!(
        message(&mut o, NetworkMessage::Chat(chat("peer-a"))),
        vec![
            OverlayAction::Store(StoreOp::InsertMessage(stored.clone())),
            OverlayAction::Emit(AppEvent::NewMessage(stored)),
        ]
    );
}

#[test]
fn own_chat_is_dropped() {
    let mut o = overlay();
    assert_eq!(message(&mut o, NetworkMessage::Chat(chat(ME))), vec![]);
}

#[test]
fn announce_makes_the_peer_known_and_puts_it_on_the_roster() {
    let mut o = overlay();
    let acts = message(
        &mut o,
        NetworkMessage::PeerAnnounce(PeerAnnouncement {
            peer_id: s("peer-a"),
            display_name: s("Alice"),
            room_id: s("r1"),
        }),
    );
    let info = PeerInfo { peer_id: s("peer-a"), display_name: s("Alice"), is_online: true };
    assert_eq!(acts, vec![OverlayAction::Emit(AppEvent::PeerDiscovered(info.clone()))]);
    assert_eq!(o.room_peers("r1"), vec![info]);
    assert_eq!(o.room_peers("r2"), vec![]);
}

#[test]
fn second_announce_updates_the_name_and_keeps_one_roster_entry() {
    let mut o = overlay();
    for name in ["Alice", "Alicia"] {
        message(
            &mut o,
            NetworkMessage::PeerAnnounce(PeerAnnouncement {
                peer_id: s("peer-a"),
                display_name: s(name),
                room_id: s("r1"),
            }),
        );
    }
    assert_eq!(
        o.room_peers("r1"),
        vec![PeerInfo { peer_id: s("peer-a"), display_name: s("Alicia"), is_online: true }]
    );
}

#[test]
fn lookup_is_answered_by_a_peer_that_holds_the_room() {
    let mut o = overlay();
    let event = OverlayEvent::Message(NetworkMessage::RoomLookup(RoomLookupRequest {
        invite_code: s("AB23CDEF"),
        requester_peer_id: s("peer-b"),
    }));
    assert_eq!(o.needs(&event), StoreQuery::RoomByInvite { invite_code: s("AB23CDEF") });
    let answer = StoreAnswer {
        room: Some(Room {
            id: s("r1"),
            name: s("R"),
            invite_code: s("AB23CDEF"),
            created_at: s("t0"),
            owner_peer_id: None,
        }),
        channels: None,
        display_name: None,
    };
    assert_eq!(
        step(&mut o, event, answer),
        vec![OverlayAction::Publish {
            topic: s("chatr/discovery"),
            message: NetworkMessage::RoomFound(RoomLookupResponse {
                invite_code: s("AB23CDEF"),
                room_id: s("r1"),
                room_name: s("R"),
                target_peer_id: s("peer-b"),
            }),
        }]
    );
}

#[test]
fn lookup_is_not_answered_without_the_room_or_by_the_asker() {
    let mut o = overlay();
    let other = NetworkMessage::RoomLookup(RoomLookupRequest {
        invite_code: s("AB23CDEF"),
        requester_peer_id: s("peer-b"),
    });
    assert_eq!(message(&mut o, other), vec![]);
    let own = OverlayEvent::Message(NetworkMessage::RoomLookup(RoomLookupRequest {
        invite_code: s("AB23CDEF"),
        requester_peer_id: s(ME),
    }));
    assert_eq!(o.needs(&own), StoreQuery::Nothing);
    assert_eq!(step(&mut o, own, nothing()), vec![]);
}

fn room_found(target: &str, code: &str) -> NetworkMessage {
    NetworkMessage::RoomFound(RoomLookupResponse {
        invite_code: s(code),
        room_id: s("r1"),
        room_name: s("R"),
        target_peer_id: s(target),
    })
}

#[test]
fn gossip_lookup_is_completed_by_the_first_matching_answer() {
    let mut o = overlay();
    let acts = step(
        &mut o,
        OverlayEvent::Command(NetworkCommand::LookupRoomViaGossip { invite_code: s("AB23CDEF"), reply: 7 }),
        nothing(),
    );
    assert_eq!(
        acts,
        vec![OverlayAction::PublishLookup {
            invite_code: s("AB23CDEF"),
            reply: 7,
            message: NetworkMessage::RoomLookup(RoomLookupRequest {
                invite_code: s("AB23CDEF"),
                requester_peer_id: s(ME),
            }),
        }]
    );
    let acts = step(
        &mut o,
        OverlayEvent::LookupPublished { invite_code: s("AB23CDEF"), reply: 7, ok: true },
        nothing(),
    );
    assert_eq!(acts, vec![]);
    assert_eq!(message(&mut o, room_found("peer-x", "AB23CDEF")), vec![]);
    assert_eq!(message(&mut o, room_found(ME, "OTHERCDE")), vec![]);
    assert_eq!(
        message(&mut o, room_found(ME, "AB23CDEF")),
        vec![OverlayAction::CompleteLookup {
            reply: 7,
            room: Some(RoomRef { room_id: s("r1"), room_name: s("R") }),
        }]
    );
    assert_eq!(message(&mut o, room_found(ME, "AB23CDEF")), vec![]);
}

#[test]
fn lookup_that_cannot_be_published_is_answered_with_nothing() {
    let mut o = overlay();
    let acts = step(
        &mut o,
        OverlayEvent::LookupPublished { invite_code: s("AB23CDEF"), reply: 7, ok: false },
        nothing(),
    );
    assert_eq!(acts, vec![OverlayAction::CompleteLookup { reply: 7, room: None }]);
    assert_eq!(message(&mut o, room_found(ME, "AB23CDEF")), vec![]);
}

#[test]
fn edits_and_deletes_of_others_are_applied() {
    let mut o = overlay();
    let edit = |sender: &str| {
        NetworkMessage::MessageEdit(MessageEditNet {
            message_id: s("m1"),
            channel_id: s("c1"),
            sender_peer_id: s(sender),
            new_content: s("new"),
            edited_at: s("t2"),
        })
    };
    assert_eq!(
        message(&mut o, edit("peer-a")),
        vec![
            OverlayAction::Store(StoreOp::EditMessage {
                message_id: s("m1"),
                new_content: s("new"),
                edited_at: s("t2"),
            }),
            OverlayAction::Emit(AppEvent::MessageEdited {
                message_id: s("m1"),
                channel_id: s("c1"),
                new_content: s("new"),
                edited_at: s("t2"),
            }),
        ]
    );
    assert_eq!(message(&mut o, edit(ME)), vec![]);
    let delete = |sender: &str| {
        NetworkMessage::MessageDelete(MessageDeleteNet {
            message_id: s("m1"),
            channel_id: s("c1"),
            sender_peer_id: s(sender),
            deleted_at: s("t3"),
        })
    };
    assert_eq!(
        message(&mut o, delete("peer-a")),
        vec![
            OverlayAction::Store(StoreOp::DeleteMessage { message_id: s("m1"), deleted_at: s("t3") }),
            OverlayAction::Emit(AppEvent::MessageDeleted { message_id: s("m1"), channel_id: s("c1") }),
        ]
    );
    assert_eq!(message(&mut o, delete(ME)), vec![]);
}

#[test]
fn reactions_are_added_under_a_new_id_and_removed() {
    let mut o = overlay();
    let reaction = |peer: &str, add: bool| {
        NetworkMessage::Reaction(ReactionNet {
            message_id: s("m1"),
            channel_id: s("c1"),
            peer_id: s(peer),
            emoji: s("+1"),
            add,
        })
    };
    assert_eq!(
        message(&mut o, reaction("peer-a", true)),
        vec![
            OverlayAction::Store(StoreOp::AddReaction(Reaction {
                id: s("fresh-id"),
                message_id: s("m1"),
                peer_id: s("peer-a"),
                emoji: s("+1"),
                created_at: s("now"),
            })),
            OverlayAction::Emit(AppEvent::ReactionAdded {
                message_id: s("m1"),
                channel_id: s("c1"),
                peer_id: s("peer-a"),
                emoji: s("+1"),
            }),
        ]
    );
    assert_eq!(
        message(&mut o, reaction("peer-a", false)),
        vec![
            OverlayAction::Store(StoreOp::RemoveReaction {
                message_id: s("m1"),
                peer_id: s("peer-a"),
                emoji: s("+1"),
            }),
            OverlayAction::Emit(AppEvent::ReactionRemoved {
                message_id: s("m1"),
                channel_id: s("c1"),
                peer_id: s("peer-a"),
                emoji: s("+1"),
            }),
        ]
    );
    assert_eq!(message(&mut o, reaction(ME, true)), vec![]);
}

#[test]
fn step_draws_a_reaction_id_with_the_shape_of_a_uuid() {
    let mut o = overlay();
    let acts = o.step(
        OverlayEvent::Message(NetworkMessage::Reaction(ReactionNet {
            message_id: s("m1"),
            channel_id: s("c1"),
            peer_id: s("peer-a"),
            emoji: s("+1"),
            add: true,
        })),
        nothing(),
    );
    match &acts[0] {
        OverlayAction::Store(StoreOp::AddReaction(r)) => {
            assert_eq!(r.id.len(), 36);
            assert_eq!(r.id.matches('-').count(), 4);
            assert!(r.id.chars().all(|c| c == '-' || c.is_ascii_digit() || ('a'..='f').contains(&c)));
            assert!(r.created_at.contains('T'));
            assert_eq!(r.message_id, "m1");
        }
        other => panic!("unexpected action {:?}", other),
    }
    assert_eq!(acts.len(), 2);
}

#[test]
fn typing_and_read_receipts_of_others_are_shown() {
    let mut o = overlay();
    let typing = |peer: &str, typing: bool| {
        NetworkMessage::TypingIndicator(TypingIndicatorNet {
            channel_id: s("c1"),
            peer_id: s(peer),
            display_name: s("Alice"),
            typing,
        })
    };
    assert_eq!(
        message(&mut o, typing("peer-a", true)),
        vec![OverlayAction::Emit(AppEvent::TypingStarted {
            channel_id: s("c1"),
            peer_id: s("peer-a"),
            display_name: s("Alice"),
        })]
    );
    assert_eq!(
        message(&mut o, typing("peer-a", false)),
        vec![OverlayAction::Emit(AppEvent::TypingStopped { channel_id: s("c1"), peer_id: s("peer-a") })]
    );
    assert_eq!(message(&mut o, typing(ME, true)), vec![]);
    let receipt = |peer: &str| {
        NetworkMessage::ReadReceipt(ReadReceiptNet {
            channel_id: s("c1"),
            peer_id: s(peer),
            last_read_message_id: s("m9"),
        })
    };
    assert_eq!(
        message(&mut o, receipt("peer-a")),
        vec![
            OverlayAction::Store(StoreOp::SetReadReceipt {
                channel_id: s("c1"),
                peer_id: s("peer-a"),
                last_read_message_id: s("m9"),
                updated_at: s("now"),
            }),
            OverlayAction::Emit(AppEvent::ReadReceiptUpdated {
                channel_id: s("c1"),
                peer_id: s("peer-a"),
                last_read_message_id: s("m9"),
            }),
        ]
    );
    assert_eq!(message(&mut o, receipt(ME)), vec![]);
}

#[test]
fn direct_messages_of_others_are_stored_and_shown() {
    let mut o = overlay();
    let dm = |sender: &str| {
        NetworkMessage::DmMessage(DmMessageNet {
            id: s("d1"),
            conversation_id: s("cv"),
            sender_peer_id: s(sender),
            sender_display_name: s("Alice"),
            content: s("psst"),
            timestamp: s("t1"),
        })
    };
    let stored = DmMessage {
        id: s("d1"),
        conversation_id: s("cv"),
        sender_peer_id: s("peer-a"),
        sender_display_name: s("Alice"),
        content: s("psst"),
        timestamp: s("t1"),
    };
    assert_eq!(
        message(&mut o, dm("peer-a")),
        vec![
            OverlayAction::Store(StoreOp::InsertDmMessage(stored.clone())),
            OverlayAction::Emit(AppEvent::NewDmMessage(stored)),
        ]
    );
    assert_eq!(message(&mut o, dm(ME)), vec![]);
}

fn friend(to: &str, action: &str) -> NetworkMessage {
    NetworkMessage::FriendRequest(FriendRequestNet {
        from_peer_id: s("peer-a"),
        from_display_name: s("Alice"),
        to_peer_id: s(to),
        action: s(action),
    })
}

#[test]
fn friend_requests_addressed_to_us_are_applied() {
    let mut o = overlay();
    assert_eq!(
        message(&mut o, friend(ME, "request")),
        vec![
            OverlayAction::Store(StoreOp::AddFriend(Friend {
                peer_id: s("peer-a"),
                display_name: s("Alice"),
                status: s("pending_incoming"),
                created_at: s("now"),
            })),
            OverlayAction::Emit(AppEvent::FriendRequestReceived {
                from_peer_id: s("peer-a"),
                from_display_name: s("Alice"),
            }),
        ]
    );
    assert_eq!(
        message(&mut o, friend(ME, "accept")),
        vec![
            OverlayAction::Store(StoreOp::UpdateFriendStatus { peer_id: s("peer-a"), status: s("accepted") }),
            OverlayAction::Emit(AppEvent::FriendRequestAccepted { peer_id: s("peer-a") }),
        ]
    );
    assert_eq!(
        message(&mut o, friend(ME, "remove")),
        vec![OverlayAction::Store(StoreOp::RemoveFriend { peer_id: s("peer-a") })]
    );
    assert_eq!(message(&mut o, friend(ME, "reject")), vec![]);
    assert_eq!(message(&mut o, friend(ME, "")), vec![]);
}

#[test]
fn friend_requests_for_others_are_ignored() {
    let mut o = overlay();
    for action in ["request", "accept", "remove"] {
        assert_eq!(message(&mut o, friend("peer-b", action)), vec![]);
    }
}

#[test]
fn signaling_is_handed_on_only_to_the_peer_it_is_addressed_to() {
    let mut o = overlay();
    let offer = |to: &str| {
        NetworkMessage::CallOffer(CallOfferNet {
            call_id: s("call"),
            from_peer_id: s("peer-a"),
            to_peer_id: s(to),
            channel_id: s("c1"),
            sdp: s("{sdp}"),
        })
    };
    assert_eq!(
        message(&mut o, offer(ME)),
        vec![OverlayAction::Emit(AppEvent::CallOfferReceived {
            call_id: s("call"),
            from_peer_id: s("peer-a"),
            channel_id: s("c1"),
            sdp: s("{sdp}"),
        })]
    );
    assert_eq!(message(&mut o, offer("peer-b")), vec![]);
    let answer = |to: &str| {
        NetworkMessage::CallAnswer(CallAnswerNet {
            call_id: s("call"),
            from_peer_id: s("peer-a"),
            to_peer_id: s(to),
            channel_id: s("c1"),
            sdp: s("{sdp}"),
        })
    };
    assert_eq!(
        message(&mut o, answer(ME)),
        vec![OverlayAction::Emit(AppEvent::CallAnswerReceived {
            call_id: s("call"),
            from_peer_id: s("peer-a"),
            channel_id: s("c1"),
            sdp: s("{sdp}"),
        })]
    );
    assert_eq!(message(&mut o, answer("peer-b")), vec![]);
    let ice = |to: &str| {
        NetworkMessage::IceCandidate(IceCandidateNet {
            from_peer_id: s("peer-a"),
            to_peer_id: s(to),
            channel_id: s("c1"),
            candidate: s("{c}"),
        })
    };
    assert_eq!(
        message(&mut o, ice(ME)),
        vec![OverlayAction::Emit(AppEvent::IceCandidateReceived {
            from_peer_id: s("peer-a"),
            channel_id: s("c1"),
            candidate: s("{c}"),
        })]
    );
    assert_eq!(message(&mut o, ice("peer-b")), vec![]);
}

#[test]
fn voice_state_of_others_is_shown() {
    let mut o = overlay();
    let state = |peer: &str| {
        NetworkMessage::VoiceState(VoiceStateNet {
            peer_id: s(peer),
            display_name: s("Alice"),
            channel_id: Some(s("c1")),
            room_id: s("r1"),
            muted: true,
            deafened: false,
            video: true,
            screen_sharing: false,
        })
    };
    assert_eq!(
        message(&mut o, state("peer-a")),
        vec![OverlayAction::Emit(AppEvent::VoiceStateChanged {
            peer_id: s("peer-a"),
            display_name: s("Alice"),
            channel_id: Some(s("c1")),
            room_id: s("r1"),
            muted: true,
            deafened: false,
            video: true,
            screen_sharing: false,
        })]
    );
    assert_eq!(message(&mut o, state(ME)), vec![]);
}

fn created(id: &str) -> ChannelCreatedNet {
    ChannelCreatedNet {
        room_id: s("r1"),
        channel_id: s(id),
        name: s("random"),
        channel_type: s("text"),
        created_at: s("t5"),
    }
}

fn created_actions(id: &str) -> Vec<OverlayAction> {
    vec![
        OverlayAction::Store(StoreOp::CreateChannel(Channel {
            id: s(id),
            room_id: s("r1"),
            name: s("random"),
            created_at: s("t5"),
            channel_type: s("text"),
            topic: None,
            position: 0,
        })),
        OverlayAction::Emit(AppEvent::ChannelCreated {
            room_id: s("r1"),
            channel_id: s(id),
            name: s("random"),
            channel_type: s("text"),
            created_at: s("t5"),
        }),
    ]
}

#[test]
fn created_channel_is_added_once() {
    let mut o = overlay();
    let event = OverlayEvent::Message(NetworkMessage::ChannelCreated(created("c2")));
    assert_eq!(o.needs(&event), StoreQuery::Channels { room_id: s("r1") });
    let before = StoreAnswer { room: None, channels: Some(vec![channel("general")]), display_name: None };
    assert_eq!(step(&mut o, event, before), created_actions("c2"));
    let after = StoreAnswer {
        room: None,
        channels: Some(vec![channel("general"), channel("c2")]),
        display_name: None,
    };
    let again = OverlayEvent::Message(NetworkMessage::ChannelCreated(created("c2")));
    assert_eq!(step(&mut o, again, after), vec![]);
}

#[test]
fn created_channel_is_added_where_the_store_could_not_be_read() {
    let mut o = overlay();
    assert_eq!(message(&mut o, NetworkMessage::ChannelCreated(created("c2"))), created_actions("c2"));
}

#[test]
fn deleted_channel_is_removed() {
    let mut o = overlay();
    assert_eq!(
        message(
            &mut o,
            NetworkMessage::ChannelDeleted(ChannelDeletedNet { room_id: s("r1"), channel_id: s("c2") })
        ),
        vec![
            OverlayAction::Store(StoreOp::DeleteChannel { channel_id: s("c2") }),
            OverlayAction::Emit(AppEvent::ChannelDeleted { room_id: s("r1"), channel_id: s("c2") }),
        ]
    );
}

fn synced(id: &str) -> ChannelSyncNet {
    ChannelSyncNet {
        channel_id: s(id),
        name: s(id),
        channel_type: s("voice"),
        created_at: s("t7"),
        topic: Some(s("about")),
        position: 2,
    }
}

fn synced_actions(id: &str) -> Vec<OverlayAction> {
    vec![
        OverlayAction::Store(StoreOp::CreateChannel(Channel {
            id: s(id),
            room_id: s("r1"),
            name: s(id),
            created_at: s("t7"),
            channel_type: s("voice"),
            topic: Some(s("about")),
            position: 2,
        })),
        OverlayAction::Emit(AppEvent::ChannelCreated {
            room_id: s("r1"),
            channel_id: s(id),
            name: s(id),
            channel_type: s("voice"),
            created_at: s("t7"),
        }),
    ]
}

#[test]
fn channel_sync_adds_the_channels_that_are_missing() {
    let mut o = overlay();
    let event = OverlayEvent::Message(NetworkMessage::ChannelSync {
        room_id: s("r1"),
        channels: vec![synced("general"), synced("a"), synced("b"), synced("a")],
    });
    assert_eq!(o.needs(&event), StoreQuery::Channels { room_id: s("r1") });
    let answer = StoreAnswer { room: None, channels: Some(vec![channel("general")]), display_name: None };
    let mut expected = synced_actions("a");
    expected.extend(synced_actions("b"));
    assert_eq!(step(&mut o, event, answer), expected);
}

#[test]
fn channel_sync_does_nothing_when_all_is_known_or_the_store_cannot_be_read() {
    let mut o = overlay();
    let sync = || NetworkMessage::ChannelSync { room_id: s("r1"), channels: vec![synced("a"), synced("b")] };
    let answer = StoreAnswer { room: None, channels: Some(vec![channel("b"), channel("a")]), display_name: None };
    assert_eq!(step(&mut o, OverlayEvent::Message(sync()), answer), vec![]);
    assert_eq!(message(&mut o, sync()), vec![]);
}

#[test]
fn subscribing_announces_the_local_peer() {
    let mut o = overlay();
    assert!(!o.is_subscribed("r1"));
    let acts = step(
        &mut o,
        OverlayEvent::Command(NetworkCommand::SubscribeRoom { room_id: s("r1") }),
        nothing(),
    );
    assert_eq!(acts, vec![OverlayAction::Subscribe { room_id: s("r1"), topic: s("chatr/room/r1") }]);
    assert!(!o.is_subscribed("r1"));
    let outcome = OverlayEvent::SubscribeOutcome { room_id: s("r1"), ok: true };
    assert_eq!(o.needs(&outcome), StoreQuery::DisplayName);
    let answer = StoreAnswer { room: None, channels: None, display_name: Some(s("Me")) };
    assert_eq!(
        step(&mut o, outcome, answer),
        vec![OverlayAction::Publish {
            topic: s("chatr/room/r1"),
            message: NetworkMessage::PeerAnnounce(PeerAnnouncement {
                peer_id: s(ME),
                display_name: s("Me"),
                room_id: s("r1"),
            }),
        }]
    );
    assert!(o.is_subscribed("r1"));
    let again = step(
        &mut o,
        OverlayEvent::Command(NetworkCommand::SubscribeRoom { room_id: s("r1") }),
        nothing(),
    );
    assert_eq!(again, vec![]);
}

#[test]
fn failed_subscription_is_not_remembered() {
    let mut o = overlay();
    let outcome = OverlayEvent::SubscribeOutcome { room_id: s("r1"), ok: false };
    assert_eq!(o.needs(&outcome), StoreQuery::Nothing);
    assert_eq!(step(&mut o, outcome, nothing()), vec![]);
    assert!(!o.is_subscribed("r1"));
}

#[test]
fn announce_uses_anonymous_where_the_name_cannot_be_read() {
    let mut o = overlay();
    let acts = step(&mut o, OverlayEvent::SubscribeOutcome { room_id: s("r1"), ok: true }, nothing());
    assert_eq!(
        acts,
        vec![OverlayAction::Publish {
            topic: s("chatr/room/r1"),
            message: NetworkMessage::PeerAnnounce(PeerAnnouncement {
                peer_id: s(ME),
                display_name: s("Anonymous"),
                room_id: s("r1"),
            }),
        }]
    );
}

#[test]
fn newcomer_on_our_topic_is_welcomed_with_announce_and_channel_list() {
    let mut o = overlay();
    subscribe(&mut o, "r1");
    let event = OverlayEvent::Subscribed { peer_id: s("12D3KooWNewcomer"), topic: s("chatr/room/r1") };
    assert_eq!(o.needs(&event), StoreQuery::DisplayNameAndChannels { room_id: s("r1") });
    let answer = StoreAnswer {
        room: None,
        channels: Some(vec![channel("general"), channel("c2")]),
        display_name: Some(s("Me")),
    };
    let info = PeerInfo { peer_id: s("12D3KooWNewcomer"), display_name: s("12D3KooW"), is_online: true };
    let entry = |id: &str| ChannelSyncNet {
        channel_id: s(id),
        name: s(id),
        channel_type: s("text"),
        created_at: s("t0"),
        topic: Some(s("talk")),
        position: 3,
    };
    assert_eq!(
        step(&mut o, event, answer),
        vec![
            OverlayAction::Emit(AppEvent::PeerJoinedRoom { room_id: s("r1"), peer: info.clone() }),
            OverlayAction::Publish {
                topic: s("chatr/room/r1"),
                message: NetworkMessage::PeerAnnounce(PeerAnnouncement {
                    peer_id: s(ME),
                    display_name: s("Me"),
                    room_id: s("r1"),
                }),
            },
            OverlayAction::Publish {
                topic: s("chatr/room/r1"),
                message: NetworkMessage::ChannelSync {
                    room_id: s("r1"),
                    channels: vec![entry("general"), entry("c2")],
                },
            },
        ]
    );
    assert_eq!(o.room_peers("r1"), vec![info]);
}

#[test]
fn newcomer_gets_no_channel_list_when_there_is_none() {
    let mut o = overlay();
    subscribe(&mut o, "r1");
    let event = OverlayEvent::Subscribed { peer_id: s("peer-b"), topic: s("chatr/room/r1") };
    let answer = StoreAnswer { room: None, channels: Some(vec![]), display_name: Some(s("Me")) };
    let acts = step(&mut o, event, answer);
    assert_eq!(acts.len(), 2);
    assert!(matches!(&acts[1], OverlayAction::Publish { message: NetworkMessage::PeerAnnounce(_), .. }));
}

#[test]
fn newcomer_on_a_foreign_topic_is_only_noted() {
    let mut o = overlay();
    let event = OverlayEvent::Subscribed { peer_id: s("peer-b"), topic: s("chatr/room/r9") };
    assert_eq!(o.needs(&event), StoreQuery::Nothing);
    let info = PeerInfo { peer_id: s("peer-b"), display_name: s("peer-b"), is_online: true };
    assert_eq!(
        step(&mut o, event, nothing()),
        vec![OverlayAction::Emit(AppEvent::PeerJoinedRoom { room_id: s("r9"), peer: info })]
    );
    let discovery = OverlayEvent::Subscribed { peer_id: s("peer-b"), topic: s("chatr/discovery") };
    assert_eq!(o.needs(&discovery), StoreQuery::Nothing);
    assert_eq!(step(&mut o, discovery, nothing()), vec![]);
}

#[test]
fn subscribed_peer_keeps_the_name_that_it_announced() {
    let mut o = overlay();
    message(
        &mut o,
        NetworkMessage::PeerAnnounce(PeerAnnouncement {
            peer_id: s("peer-b"),
            display_name: s("Bob"),
            room_id: s("r1"),
        }),
    );
    let acts = step(
        &mut o,
        OverlayEvent::Subscribed { peer_id: s("peer-b"), topic: s("chatr/room/r2") },
        nothing(),
    );
    let info = PeerInfo { peer_id: s("peer-b"), display_name: s("Bob"), is_online: true };
    assert_eq!(acts, vec![OverlayAction::Emit(AppEvent::PeerJoinedRoom { room_id: s("r2"), peer: info.clone() })]);
    assert_eq!(o.room_peers("r2"), vec![info]);
}

#[test]
fn unsubscribed_peer_leaves_the_roster() {
    let mut o = overlay();
    for peer in ["peer-a", "peer-b"] {
        step(&mut o, OverlayEvent::Subscribed { peer_id: s(peer), topic: s("chatr/room/r1") }, nothing());
    }
    let acts = step(
        &mut o,
        OverlayEvent::Unsubscribed { peer_id: s("peer-a"), topic: s("chatr/room/r1") },
        nothing(),
    );
    assert_eq!(acts, vec![OverlayAction::Emit(AppEvent::PeerLeftRoom { room_id: s("r1"), peer_id: s("peer-a") })]);
    let left: Vec<String> = o.room_peers("r1").into_iter().map(|p| p.peer_id).collect();
    assert_eq!(left, vec![s("peer-b")]);
    let other = step(
        &mut o,
        OverlayEvent::Unsubscribed { peer_id: s("peer-a"), topic: s("chatr/discovery") },
        nothing(),
    );
    assert_eq!(other, vec![]);
}

#[test]
fn connections_mark_peers_online_and_offline() {
    let mut o = overlay();
    let info = PeerInfo { peer_id: s("peer-abcdefgh"), display_name: s("peer-abc"), is_online: true };
    assert_eq!(
        step(&mut o, OverlayEvent::ConnectionEstablished { peer_id: s("peer-abcdefgh") }, nothing()),
        vec![OverlayAction::Emit(AppEvent::PeerConnected(info))]
    );
    step(&mut o, OverlayEvent::Subscribed { peer_id: s("peer-abcdefgh"), topic: s("chatr/room/r1") }, nothing());
    assert_eq!(
        step(&mut o, OverlayEvent::ConnectionClosed { peer_id: s("peer-abcdefgh") }, nothing()),
        vec![OverlayAction::Emit(AppEvent::PeerDisconnected { peer_id: s("peer-abcdefgh") })]
    );
    assert_eq!(
        o.room_peers("r1"),
        vec![PeerInfo { peer_id: s("peer-abcdefgh"), display_name: s("peer-abc"), is_online: false }]
    );
    assert_eq!(
        step(&mut o, OverlayEvent::ConnectionClosed { peer_id: s("stranger") }, nothing()),
        vec![OverlayAction::Emit(AppEvent::PeerDisconnected { peer_id: s("stranger") })]
    );
}

#[test]
fn a_known_peer_that_connects_again_is_online_again() {
    let mut o = overlay();
    step(&mut o, OverlayEvent::ConnectionEstablished { peer_id: s("peer-abcdefgh") }, nothing());
    step(&mut o, OverlayEvent::Subscribed { peer_id: s("peer-abcdefgh"), topic: s("chatr/room/r1") }, nothing());
    step(&mut o, OverlayEvent::ConnectionClosed { peer_id: s("peer-abcdefgh") }, nothing());
    assert_eq!(
        o.room_peers("r1"),
        vec![PeerInfo { peer_id: s("peer-abcdefgh"), display_name: s("peer-abc"), is_online: false }]
    );
    let info = PeerInfo { peer_id: s("peer-abcdefgh"), display_name: s("peer-abc"), is_online: true };
    assert_eq!(
        step(&mut o, OverlayEvent::ConnectionEstablished { peer_id: s("peer-abcdefgh") }, nothing()),
        vec![OverlayAction::Emit(AppEvent::PeerConnected(info.clone()))]
    );
    assert_eq!(o.room_peers("r1"), vec![info]);
}

#[test]
fn invite_record_is_json_with_the_three_fields() {
    let bytes = encode_room_record("r1", "My \"room\"", "AB23CDEF");
    let value: serde_json::Value = serde_json::from_slice(&bytes).unwrap();
    assert_eq!(value["room_id"], "r1");
    assert_eq!(value["room_name"], "My \"room\"");
    assert_eq!(value["invite_code"], "AB23CDEF");
    assert_eq!(value.as_object().unwrap().len(), 3);
    assert_eq!(
        decode_room_record(&bytes),
        Some(RoomRef { room_id: s("r1"), room_name: s("My \"room\"") })
    );
}

#[test]
fn invite_record_with_missing_fields_reads_as_empty_texts() {
    assert_eq!(decode_room_record(b"{}"), Some(RoomRef { room_id: s(""), room_name: s("") }));
    assert_eq!(
        decode_room_record(b"{\"room_id\": 5, \"room_name\": \"R\"}"),
        Some(RoomRef { room_id: s(""), room_name: s("R") })
    );
    assert_eq!(decode_room_record(b"[1]"), Some(RoomRef { room_id: s(""), room_name: s("") }));
}

#[test]
fn invite_record_that_is_no_json_reads_as_nothing() {
    assert_eq!(decode_room_record(b""), None);
    assert_eq!(decode_room_record(b"not json"), None);
    assert_eq!(decode_room_record(&[0xff, 0xfe]), None);
    assert_eq!(decode_room_record(b"{\"room_id\": \"r1\""), None);
}

#[test]
fn record_lookup_ends_with_what_the_record_says() {
    let mut o = overlay();
    let bytes = encode_room_record("r1", "R", "AB23CDEF");
    assert_eq!(
        step(&mut o, OverlayEvent::DhtRecord { reply: 3, value: Some(bytes) }, nothing()),
        vec![OverlayAction::CompleteLookup {
            reply: 3,
            room: Some(RoomRef { room_id: s("r1"), room_name: s("R") }),
        }]
    );
    assert_eq!(
        step(&mut o, OverlayEvent::DhtRecord { reply: 4, value: None }, nothing()),
        vec![OverlayAction::CompleteLookup { reply: 4, room: None }]
    );
    assert_eq!(
        step(&mut o, OverlayEvent::DhtRecord { reply: 5, value: Some(b"junk".to_vec()) }, nothing()),
        vec![OverlayAction::CompleteLookup { reply: 5, room: None }]
    );
}

fn command(o: &mut Overlay, c: NetworkCommand) -> Vec<OverlayAction> {
    step(o, OverlayEvent::Command(c), nothing())
}

fn to_room(message: NetworkMessage) -> Vec<OverlayAction> {
    vec![OverlayAction::Publish { topic: s("chatr/room/r1"), message }]
}

#[test]
fn send_message_publishes_the_chat_on_the_room_topic() {
    let mut o = overlay();
    let sent = Message {
        id: s("m1"),
        channel_id: s("c1"),
        sender_peer_id: s(ME),
        sender_display_name: s("Me"),
        content: s("hi"),
        timestamp: s("t1"),
        edited_at: Some(s("never sent")),
        deleted_at: None,
        reply_to_id: Some(s("m0")),
    };
    assert_eq!(
        command(&mut o, NetworkCommand::SendMessage { room_id: s("r1"), message: sent }),
        to_room(NetworkMessage::Chat(ChatMessage {
            id: s("m1"),
            channel_id: s("c1"),
            sender_peer_id: s(ME),
            sender_display_name: s("Me"),
            content: s("hi"),
            timestamp: s("t1"),
            reply_to_id: Some(s("m0")),
            attachments: None,
        }))
    );
}

#[test]
fn record_commands_use_the_invite_key() {
    let mut o = overlay();
    assert_eq!(
        command(
            &mut o,
            NetworkCommand::PublishRoomToDHT { room_id: s("r1"), invite_code: s("AB23CDEF"), room_name: s("R") }
        ),
        vec![OverlayAction::PutRecord {
            key: s("chatr/invite/AB23CDEF"),
            value: encode_room_record("r1", "R", "AB23CDEF"),
        }]
    );
    assert_eq!(
        command(&mut o, NetworkCommand::LookupRoomInDHT { invite_code: s("AB23CDEF"), reply: 9 }),
        vec![OverlayAction::GetRecord { key: s("chatr/invite/AB23CDEF"), reply: 9 }]
    );
}

#[test]
fn signaling_commands_are_stamped_with_the_local_peer() {
    let mut o = overlay();
    assert_eq!(
        command(&mut o, NetworkCommand::AnnouncePresence { room_id: s("r1"), display_name: s("Me") }),
        to_room(NetworkMessage::PeerAnnounce(PeerAnnouncement {
            peer_id: s(ME),
            display_name: s("Me"),
            room_id: s("r1"),
        }))
    );
    assert_eq!(
        command(
            &mut o,
            NetworkCommand::SendCallOffer {
                room_id: s("r1"),
                to_peer_id: s("peer-b"),
                call_id: s("call"),
                channel_id: s("c1"),
                sdp: s("{o}"),
            }
        ),
        to_room(NetworkMessage::CallOffer(CallOfferNet {
            call_id: s("call"),
            from_peer_id: s(ME),
            to_peer_id: s("peer-b"),
            channel_id: s("c1"),
            sdp: s("{o}"),
        }))
    );
    assert_eq!(
        command(
            &mut o,
            NetworkCommand::SendCallAnswer {
                room_id: s("r1"),
                to_peer_id: s("peer-b"),
                call_id: s("call"),
                channel_id: s("c1"),
                sdp: s("{a}"),
            }
        ),
        to_room(NetworkMessage::CallAnswer(CallAnswerNet {
            call_id: s("call"),
            from_peer_id: s(ME),
            to_peer_id: s("peer-b"),
            channel_id: s("c1"),
            sdp: s("{a}"),
        }))
    );
    assert_eq!(
        command(
            &mut o,
            NetworkCommand::SendIceCandidate {
                room_id: s("r1"),
                to_peer_id: s("peer-b"),
                channel_id: s("c1"),
                candidate: s("{c}"),
            }
        ),
        to_room(NetworkMessage::IceCandidate(IceCandidateNet {
            from_peer_id: s(ME),
            to_peer_id: s("peer-b"),
            channel_id: s("c1"),
            candidate: s("{c}"),
        }))
    );
}

#[test]
fn voice_state_command_carries_the_display_name() {
    let mut o = overlay();
    let cmd = || NetworkCommand::SendVoiceState {
        room_id: s("r1"),
        channel_id: Some(s("c1")),
        muted: true,
        deafened: false,
        video: false,
        screen_sharing: true,
    };
    let event = OverlayEvent::Command(cmd());
    assert_eq!(o.needs(&event), StoreQuery::DisplayName);
    let answer = StoreAnswer { room: None, channels: None, display_name: Some(s("Me")) };
    assert_eq!(
        step(&mut o, event, answer),
        to_room(NetworkMessage::VoiceState(VoiceStateNet {
            peer_id: s(ME),
            display_name: s("Me"),
            channel_id: Some(s("c1")),
            room_id: s("r1"),
            muted: true,
            deafened: false,
            video: false,
            screen_sharing: true,
        }))
    );
}

#[test]
fn channel_broadcasts_go_to_the_room() {
    let mut o = overlay();
    assert_eq!(
        command(
            &mut o,
            NetworkCommand::BroadcastChannelCreated {
                room_id: s("r1"),
                channel_id: s("c2"),
                name: s("random"),
                channel_type: s("text"),
                created_at: s("t5"),
            }
        ),
        to_room(NetworkMessage::ChannelCreated(created("c2")))
    );
    assert_eq!(
        command(&mut o, NetworkCommand::BroadcastChannelDeleted { room_id: s("r1"), channel_id: s("c2") }),
        to_room(NetworkMessage::ChannelDeleted(ChannelDeletedNet { room_id: s("r1"), channel_id: s("c2") }))
    );
}

#[test]
fn two_peers_on_one_network_find_the_room_and_agree_on_general() {
    // A holds the room; B asks for it by invite code.
    let mut a = Overlay::new(s("peer-a"));
    let mut b = Overlay::new(s("peer-b"));
    let asked = b.step_with(
        OverlayEvent::Command(NetworkCommand::LookupRoomViaGossip { invite_code: s("AB23CDEF"), reply: 1 }),
        nothing(),
        s("id"),
        s("now"),
    );
    let lookup = match &asked[0] {
        OverlayAction::PublishLookup { message, .. } => message.clone(),
        other => panic!("unexpected action {:?}", other),
    };
    b.step_with(
        OverlayEvent::LookupPublished { invite_code: s("AB23CDEF"), reply: 1, ok: true },
        nothing(),
        s("id"),
        s("now"),
    );
    let held = StoreAnswer {
        room: Some(Room {
            id: s("room-1"),
            name: s("R"),
            invite_code: s("AB23CDEF"),
            created_at: s("t0"),
            owner_peer_id: Some(s("peer-a")),
        }),
        channels: None,
        display_name: None,
    };
    let answered = a.step_with(OverlayEvent::Message(lookup), held, s("id"), s("now"));
    let found = match &answered[0] {
        OverlayAction::Publish { topic, message } => {
            assert_eq!(topic, "chatr/discovery");
            message.clone()
        }
        other => panic!("unexpected action {:?}", other),
    };
    let done = b.step_with(OverlayEvent::Message(found), nothing(), s("id"), s("now"));
    assert_eq!(
        done,
        vec![OverlayAction::CompleteLookup {
            reply: 1,
            room: Some(RoomRef { room_id: s("room-1"), room_name: s("R") }),
        }]
    );
    let at_a = chatr::rooms::setup_room("room-1", "R", "AB23CDEF", Some("peer-a"), "t0");
    let at_b = chatr::rooms::setup_room("room-1", "R", "AB23CDEF", None, "t9");
    assert_eq!(at_a.general.id, at_b.general.id);
}
