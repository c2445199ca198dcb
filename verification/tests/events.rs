use chatr::events::{event_name, AppEvent};
use chatr::models::{default_channel_type, DmMessage, Message, PeerInfo, PinnedMessage};

fn s(text: &str) -> String {
    text.to_string()
}

fn message() -> Message {
    Message {
        id: s("m"),
        channel_id: s("c"),
        sender_peer_id: s("p"),
        sender_display_name: s("n"),
        content: s("x"),
        timestamp: s("t"),
        edited_at: None,
        deleted_at: None,
        reply_to_id: None,
    }
}

fn peer() -> PeerInfo {
    PeerInfo { peer_id: s("p"), display_name: s("n"), is_online: true }
}

#[test]
fn every_event_has_its_name() {
    let pin = PinnedMessage { id: s("i"), channel_id: s("c"), message_id: s("m"), pinned_by: s("p"), pinned_at: s("t") };
    let dm = DmMessage {
        id: s("d"),
        conversation_id: s("c"),
        sender_peer_id: s("p"),
        sender_display_name: s("n"),
        content: s("x"),
        timestamp: s("t"),
    };
    let cases = vec![
        (AppEvent::NewMessage(message()), "new-message"),
        (AppEvent::PeerConnected(peer()), "peer-connected"),
        (AppEvent::PeerDiscovered(peer()), "peer-discovered"),
        (AppEvent::PeerDisconnected { peer_id: s("p") }, "peer-disconnected"),
        (AppEvent::PeerJoinedRoom { room_id: s("r"), peer: peer() }, "peer-joined-room"),
        (AppEvent::PeerLeftRoom { room_id: s("r"), peer_id: s("p") }, "peer-left-room"),
        (
            AppEvent::MessageEdited { message_id: s("m"), channel_id: s("c"), new_content: s("x"), edited_at: s("t") },
            "message-edited",
        ),
        (AppEvent::MessageDeleted { message_id: s("m"), channel_id: s("c") }, "message-deleted"),
        (
            AppEvent::ReactionAdded { message_id: s("m"), channel_id: s("c"), peer_id: s("p"), emoji: s("e") },
            "reaction-added",
        ),
        (
            AppEvent::ReactionRemoved { message_id: s("m"), channel_id: s("c"), peer_id: s("p"), emoji: s("e") },
            "reaction-removed",
        ),
        (AppEvent::TypingStarted { channel_id: s("c"), peer_id: s("p"), display_name: s("n") }, "typing-started"),
        (AppEvent::TypingStopped { channel_id: s("c"), peer_id: s("p") }, "typing-stopped"),
        (
            AppEvent::ReadReceiptUpdated { channel_id: s("c"), peer_id: s("p"), last_read_message_id: s("m") },
            "read-receipt-updated",
        ),
        (AppEvent::MessagePinned(pin), "message-pinned"),
        (AppEvent::MessageUnpinned { channel_id: s("c"), message_id: s("m") }, "message-unpinned"),
        (AppEvent::NewDmMessage(dm), "new-dm-message"),
        (
            AppEvent::FriendRequestReceived { from_peer_id: s("p"), from_display_name: s("n") },
            "friend-request-received",
        ),
        (AppEvent::FriendRequestAccepted { peer_id: s("p") }, "friend-request-accepted"),
        (
            AppEvent::CallOfferReceived { call_id: s("i"), from_peer_id: s("p"), channel_id: s("c"), sdp: s("x") },
            "call-offer",
        ),
        (
            AppEvent::CallAnswerReceived { call_id: s("i"), from_peer_id: s("p"), channel_id: s("c"), sdp: s("x") },
            "call-answer",
        ),
        (
            AppEvent::IceCandidateReceived { from_peer_id: s("p"), channel_id: s("c"), candidate: s("x") },
            "ice-candidate",
        ),
        (
            AppEvent::VoiceStateChanged {
                peer_id: s("p"),
                display_name: s("n"),
                channel_id: None,
                room_id: s("r"),
                muted: false,
                deafened: false,
                video: false,
                screen_sharing: false,
            },
            "voice-state-changed",
        ),
        (AppEvent::VoiceConnected { peer_id: s("p") }, "voice-connected"),
        (AppEvent::VoiceDisconnected { peer_id: s("p") }, "voice-disconnected"),
        (AppEvent::SpeakingChanged { peer_id: s("p"), speaking: true }, "speaking-changed"),
        (
            AppEvent::ChannelCreated {
                room_id: s("r"),
                channel_id: s("c"),
                name: s("n"),
                channel_type: s("text"),
                created_at: s("t"),
            },
            "channel-created",
        ),
        (AppEvent::ChannelDeleted { room_id: s("r"), channel_id: s("c") }, "channel-deleted"),
    ];
    assert_eq!(cases.len(), 27);
    for (event, name) in cases {
        assert_eq!(event_name(&event), name);
        assert_eq!(event.clone(), event);
    }
}

#[test]
fn channels_are_text_channels_by_default() {
    assert_eq!(default_channel_type(), "text");
}
