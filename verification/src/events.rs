//! Application events: what the overlay and the media session tell the user
//! interface and each other.

use vstd::prelude::*;
use crate::models::{
    DmMessage, DmMessageView, Message, MessageView, PeerInfo, PeerInfoView, PinnedMessage,
    PinnedMessageView,
};
use crate::text::{clone_opt, opt_text};

verus! {

/// An event on the in-process event bus.
#[derive(Debug, PartialEq, Eq)]
#[allow(inconsistent_fields)]
pub enum AppEvent {
    NewMessage(Message),
    PeerConnected(PeerInfo),
    PeerDiscovered(PeerInfo),
    PeerDisconnected { peer_id: String },
    PeerJoinedRoom { room_id: String, peer: PeerInfo },
    PeerLeftRoom { room_id: String, peer_id: String },
    MessageEdited {
        message_id: String,
        channel_id: String,
        new_content: String,
        edited_at: String,
    },
    MessageDeleted { message_id: String, channel_id: String },
    ReactionAdded { message_id: String, channel_id: String, peer_id: String, emoji: String },
    ReactionRemoved { message_id: String, channel_id: String, peer_id: String, emoji: String },
    TypingStarted { channel_id: String, peer_id: String, display_name: String },
    TypingStopped { channel_id: String, peer_id: String },
    ReadReceiptUpdated { channel_id: String, peer_id: String, last_read_message_id: String },
    MessagePinned(PinnedMessage),
    MessageUnpinned { channel_id: String, message_id: String },
    NewDmMessage(DmMessage),
    FriendRequestReceived { from_peer_id: String, from_display_name: String },
    FriendRequestAccepted { peer_id: String },
    CallOfferReceived { call_id: String, from_peer_id: String, channel_id: String, sdp: String },
    CallAnswerReceived { call_id: String, from_peer_id: String, channel_id: String, sdp: String },
    IceCandidateReceived { from_peer_id: String, channel_id: String, candidate: String },
    VoiceStateChanged {
        peer_id: String,
        display_name: String,
        channel_id: Option<String>,
        room_id: String,
        muted: bool,
        deafened: bool,
        video: bool,
        screen_sharing: bool,
    },
    VoiceConnected { peer_id: String },
    VoiceDisconnected { peer_id: String },
    SpeakingChanged { peer_id: String, speaking: bool },
    ChannelCreated {
        room_id: String,
        channel_id: String,
        name: String,
        channel_type: String,
        created_at: String,
    },
    ChannelDeleted { room_id: String, channel_id: String },
}

#[allow(inconsistent_fields)]
pub ghost enum AppEventView {
    NewMessage(MessageView),
    PeerConnected(PeerInfoView),
    PeerDiscovered(PeerInfoView),
    PeerDisconnected { peer_id: Seq<char> },
    PeerJoinedRoom { room_id: Seq<char>, peer: PeerInfoView },
    PeerLeftRoom { room_id: Seq<char>, peer_id: Seq<char> },
    MessageEdited {
        message_id: Seq<char>,
        channel_id: Seq<char>,
        new_content: Seq<char>,
        edited_at: Seq<char>,
    },
    MessageDeleted { message_id: Seq<char>, channel_id: Seq<char> },
    ReactionAdded {
        message_id: Seq<char>,
        channel_id: Seq<char>,
        peer_id: Seq<char>,
        emoji: Seq<char>,
    },
    ReactionRemoved {
        message_id: Seq<char>,
        channel_id: Seq<char>,
        peer_id: Seq<char>,
        emoji: Seq<char>,
    },
    TypingStarted { channel_id: Seq<char>, peer_id: Seq<char>, display_name: Seq<char> },
    TypingStopped { channel_id: Seq<char>, peer_id: Seq<char> },
    ReadReceiptUpdated {
        channel_id: Seq<char>,
        peer_id: Seq<char>,
        last_read_message_id: Seq<char>,
    },
    MessagePinned(PinnedMessageView),
    MessageUnpinned { channel_id: Seq<char>, message_id: Seq<char> },
    NewDmMessage(DmMessageView),
    FriendRequestReceived { from_peer_id: Seq<char>, from_display_name: Seq<char> },
    FriendRequestAccepted { peer_id: Seq<char> },
    CallOfferReceived {
        call_id: Seq<char>,
        from_peer_id: Seq<char>,
        channel_id: Seq<char>,
        sdp: Seq<char>,
    },
    CallAnswerReceived {
        call_id: Seq<char>,
        from_peer_id: Seq<char>,
        channel_id: Seq<char>,
        sdp: Seq<char>,
    },
    IceCandidateReceived { from_peer_id: Seq<char>, channel_id: Seq<char>, candidate: Seq<char> },
    VoiceStateChanged {
        peer_id: Seq<char>,
        display_name: Seq<char>,
        channel_id: Option<Seq<char>>,
        room_id: Seq<char>,
        muted: bool,
        deafened: bool,
        video: bool,
        screen_sharing: bool,
    },
    VoiceConnected { peer_id: Seq<char> },
    VoiceDisconnected { peer_id: Seq<char> },
    SpeakingChanged { peer_id: Seq<char>, speaking: bool },
    ChannelCreated {
        room_id: Seq<char>,
        channel_id: Seq<char>,
        name: Seq<char>,
        channel_type: Seq<char>,
        created_at: Seq<char>,
    },
    ChannelDeleted { room_id: Seq<char>, channel_id: Seq<char> },
}

impl View for AppEvent {
    type V = AppEventView;

    open spec fn view(&self) -> AppEventView {
        match *self {
            AppEvent::NewMessage(x) => AppEventView::NewMessage(x@),
            AppEvent::PeerConnected(x) => AppEventView::PeerConnected(x@),
            AppEvent::PeerDiscovered(x) => AppEventView::PeerDiscovered(x@),
            AppEvent::PeerDisconnected { peer_id } => AppEventView::PeerDisconnected {
                peer_id: peer_id@,
            },
            AppEvent::PeerJoinedRoom { room_id, peer } => AppEventView::PeerJoinedRoom {
                room_id: room_id@,
                peer: peer@,
            },
            AppEvent::PeerLeftRoom { room_id, peer_id } => AppEventView::PeerLeftRoom {
                room_id: room_id@,
                peer_id: peer_id@,
            },
            AppEvent::MessageEdited { message_id, channel_id, new_content, edited_at } => AppEventView::MessageEdited {
                message_id: message_id@,
                channel_id: channel_id@,
                new_content: new_content@,
                edited_at: edited_at@,
            },
            AppEvent::MessageDeleted { message_id, channel_id } => AppEventView::MessageDeleted {
                message_id: message_id@,
                channel_id: channel_id@,
            },
            AppEvent::ReactionAdded { message_id, channel_id, peer_id, emoji } => AppEventView::ReactionAdded {
                message_id: message_id@,
                channel_id: channel_id@,
                peer_id: peer_id@,
                emoji: emoji@,
            },
            AppEvent::ReactionRemoved { message_id, channel_id, peer_id, emoji } => AppEventView::ReactionRemoved {
                message_id: message_id@,
                channel_id: channel_id@,
                peer_id: peer_id@,
                emoji: emoji@,
            },
            AppEvent::TypingStarted { channel_id, peer_id, display_name } => AppEventView::TypingStarted {
                channel_id: channel_id@,
                peer_id: peer_id@,
                display_name: display_name@,
            },
            AppEvent::TypingStopped { channel_id, peer_id } => AppEventView::TypingStopped {
                channel_id: channel_id@,
                peer_id: peer_id@,
            },
            AppEvent::ReadReceiptUpdated { channel_id, peer_id, last_read_message_id } => AppEventView::ReadReceiptUpdated {
                channel_id: channel_id@,
                peer_id: peer_id@,
                last_read_message_id: last_read_message_id@,
            },
            AppEvent::MessagePinned(x) => AppEventView::MessagePinned(x@),
            AppEvent::MessageUnpinned { channel_id, message_id } => AppEventView::MessageUnpinned {
                channel_id: channel_id@,
                message_id: message_id@,
            },
            AppEvent::NewDmMessage(x) => AppEventView::NewDmMessage(x@),
            AppEvent::FriendRequestReceived { from_peer_id, from_display_name } => AppEventView::FriendRequestReceived {
                from_peer_id: from_peer_id@,
                from_display_name: from_display_name@,
            },
            AppEvent::FriendRequestAccepted { peer_id } => AppEventView::FriendRequestAccepted {
                peer_id: peer_id@,
            },
            AppEvent::CallOfferReceived { call_id, from_peer_id, channel_id, sdp } => AppEventView::CallOfferReceived {
                call_id: call_id@,
                from_peer_id: from_peer_id@,
                channel_id: channel_id@,
                sdp: sdp@,
            },
            AppEvent::CallAnswerReceived { call_id, from_peer_id, channel_id, sdp } => AppEventView::CallAnswerReceived {
                call_id: call_id@,
                from_peer_id: from_peer_id@,
                channel_id: channel_id@,
                sdp: sdp@,
            },
            AppEvent::IceCandidateReceived { from_peer_id, channel_id, candidate } => AppEventView::IceCandidateReceived {
                from_peer_id: from_peer_id@,
                channel_id: channel_id@,
                candidate: candidate@,
            },
            AppEvent::VoiceStateChanged { peer_id, display_name, channel_id, room_id, muted, deafened, video, screen_sharing } => AppEventView::VoiceStateChanged {
                peer_id: peer_id@,
                display_name: display_name@,
                channel_id: opt_text(channel_id),
                room_id: room_id@,
                muted: muted,
                deafened: deafened,
                video: video,
                screen_sharing: screen_sharing,
            },
            AppEvent::VoiceConnected { peer_id } => AppEventView::VoiceConnected {
                peer_id: peer_id@,
            },
            AppEvent::VoiceDisconnected { peer_id } => AppEventView::VoiceDisconnected {
                peer_id: peer_id@,
            },
            AppEvent::SpeakingChanged { peer_id, speaking } => AppEventView::SpeakingChanged {
                peer_id: peer_id@,
                speaking: speaking,
            },
            AppEvent::ChannelCreated { room_id, channel_id, name, channel_type, created_at } => AppEventView::ChannelCreated {
                room_id: room_id@,
                channel_id: channel_id@,
                name: name@,
                channel_type: channel_type@,
                created_at: created_at@,
            },
            AppEvent::ChannelDeleted { room_id, channel_id } => AppEventView::ChannelDeleted {
                room_id: room_id@,
                channel_id: channel_id@,
            },
        }
    }
}

impl Clone for AppEvent {
    fn clone(&self) -> (r: Self)
        ensures
            r@ == self@,
    {
        match self {
            AppEvent::NewMessage(x) => AppEvent::NewMessage(x.clone()),
            AppEvent::PeerConnected(x) => AppEvent::PeerConnected(x.clone()),
            AppEvent::PeerDiscovered(x) => AppEvent::PeerDiscovered(x.clone()),
            AppEvent::PeerDisconnected { peer_id } => AppEvent::PeerDisconnected {
                peer_id: peer_id.clone(),
            },
            AppEvent::PeerJoinedRoom { room_id, peer } => AppEvent::PeerJoinedRoom {
                room_id: room_id.clone(),
                peer: peer.clone(),
            },
            AppEvent::PeerLeftRoom { room_id, peer_id } => AppEvent::PeerLeftRoom {
                room_id: room_id.clone(),
                peer_id: peer_id.clone(),
            },
            AppEvent::MessageEdited { message_id, channel_id, new_content, edited_at } => AppEvent::MessageEdited {
                message_id: message_id.clone(),
                channel_id: channel_id.clone(),
                new_content: new_content.clone(),
                edited_at: edited_at.clone(),
            },
            AppEvent::MessageDeleted { message_id, channel_id } => AppEvent::MessageDeleted {
                message_id: message_id.clone(),
                channel_id: channel_id.clone(),
            },
            AppEvent::ReactionAdded { message_id, channel_id, peer_id, emoji } => AppEvent::ReactionAdded {
                message_id: message_id.clone(),
                channel_id: channel_id.clone(),
                peer_id: peer_id.clone(),
                emoji: emoji.clone(),
            },
            AppEvent::ReactionRemoved { message_id, channel_id, peer_id, emoji } => AppEvent::ReactionRemoved {
                message_id: message_id.clone(),
                channel_id: channel_id.clone(),
                peer_id: peer_id.clone(),
                emoji: emoji.clone(),
            },
            AppEvent::TypingStarted { channel_id, peer_id, display_name } => AppEvent::TypingStarted {
                channel_id: channel_id.clone(),
                peer_id: peer_id.clone(),
                display_name: display_name.clone(),
            },
            AppEvent::TypingStopped { channel_id, peer_id } => AppEvent::TypingStopped {
                channel_id: channel_id.clone(),
                peer_id: peer_id.clone(),
            },
            AppEvent::ReadReceiptUpdated { channel_id, peer_id, last_read_message_id } => AppEvent::ReadReceiptUpdated {
                channel_id: channel_id.clone(),
                peer_id: peer_id.clone(),
                last_read_message_id: last_read_message_id.clone(),
            },
            AppEvent::MessagePinned(x) => AppEvent::MessagePinned(x.clone()),
            AppEvent::MessageUnpinned { channel_id, message_id } => AppEvent::MessageUnpinned {
                channel_id: channel_id.clone(),
                message_id: message_id.clone(),
            },
            AppEvent::NewDmMessage(x) => AppEvent::NewDmMessage(x.clone()),
            AppEvent::FriendRequestReceived { from_peer_id, from_display_name } => AppEvent::FriendRequestReceived {
                from_peer_id: from_peer_id.clone(),
                from_display_name: from_display_name.clone(),
            },
            AppEvent::FriendRequestAccepted { peer_id } => AppEvent::FriendRequestAccepted {
                peer_id: peer_id.clone(),
            },
            AppEvent::CallOfferReceived { call_id, from_peer_id, channel_id, sdp } => AppEvent::CallOfferReceived {
                call_id: call_id.clone(),
                from_peer_id: from_peer_id.clone(),
                channel_id: channel_id.clone(),
                sdp: sdp.clone(),
            },
            AppEvent::CallAnswerReceived { call_id, from_peer_id, channel_id, sdp } => AppEvent::CallAnswerReceived {
                call_id: call_id.clone(),
                from_peer_id: from_peer_id.clone(),
                channel_id: channel_id.clone(),
                sdp: sdp.clone(),
            },
            AppEvent::IceCandidateReceived { from_peer_id, channel_id, candidate } => AppEvent::IceCandidateReceived {
                from_peer_id: from_peer_id.clone(),
                channel_id: channel_id.clone(),
                candidate: candidate.clone(),
            },
            AppEvent::VoiceStateChanged { peer_id, display_name, channel_id, room_id, muted, deafened, video, screen_sharing } => AppEvent::VoiceStateChanged {
                peer_id: peer_id.clone(),
                display_name: display_name.clone(),
                channel_id: clone_opt(channel_id),
                room_id: room_id.clone(),
                muted: *muted,
                deafened: *deafened,
                video: *video,
                screen_sharing: *screen_sharing,
            },
            AppEvent::VoiceConnected { peer_id } => AppEvent::VoiceConnected {
                peer_id: peer_id.clone(),
            },
            AppEvent::VoiceDisconnected { peer_id } => AppEvent::VoiceDisconnected {
                peer_id: peer_id.clone(),
            },
            AppEvent::SpeakingChanged { peer_id, speaking } => AppEvent::SpeakingChanged {
                peer_id: peer_id.clone(),
                speaking: *speaking,
            },
            AppEvent::ChannelCreated { room_id, channel_id, name, channel_type, created_at } => AppEvent::ChannelCreated {
                room_id: room_id.clone(),
                channel_id: channel_id.clone(),
                name: name.clone(),
                channel_type: channel_type.clone(),
                created_at: created_at.clone(),
            },
            AppEvent::ChannelDeleted { room_id, channel_id } => AppEvent::ChannelDeleted {
                room_id: room_id.clone(),
                channel_id: channel_id.clone(),
            },
        }
    }
}

/// The name under which an event is handed to the user interface.
pub open spec fn event_name_text(e: AppEventView) -> Seq<char> {
    match e {
        AppEventView::NewMessage (_) => "new-message"@,
        AppEventView::PeerConnected (_) => "peer-connected"@,
        AppEventView::PeerDiscovered (_) => "peer-discovered"@,
        AppEventView::PeerDisconnected { .. } => "peer-disconnected"@,
        AppEventView::PeerJoinedRoom { .. } => "peer-joined-room"@,
        AppEventView::PeerLeftRoom { .. } => "peer-left-room"@,
        AppEventView::MessageEdited { .. } => "message-edited"@,
        AppEventView::MessageDeleted { .. } => "message-deleted"@,
        AppEventView::ReactionAdded { .. } => "reaction-added"@,
        AppEventView::ReactionRemoved { .. } => "reaction-removed"@,
        AppEventView::TypingStarted { .. } => "typing-started"@,
        AppEventView::TypingStopped { .. } => "typing-stopped"@,
        AppEventView::ReadReceiptUpdated { .. } => "read-receipt-updated"@,
        AppEventView::MessagePinned (_) => "message-pinned"@,
        AppEventView::MessageUnpinned { .. } => "message-unpinned"@,
        AppEventView::NewDmMessage (_) => "new-dm-message"@,
        AppEventView::FriendRequestReceived { .. } => "friend-request-received"@,
        AppEventView::FriendRequestAccepted { .. } => "friend-request-accepted"@,
        AppEventView::CallOfferReceived { .. } => "call-offer"@,
        AppEventView::CallAnswerReceived { .. } => "call-answer"@,
        AppEventView::IceCandidateReceived { .. } => "ice-candidate"@,
        AppEventView::VoiceStateChanged { .. } => "voice-state-changed"@,
        AppEventView::VoiceConnected { .. } => "voice-connected"@,
        AppEventView::VoiceDisconnected { .. } => "voice-disconnected"@,
        AppEventView::SpeakingChanged { .. } => "speaking-changed"@,
        AppEventView::ChannelCreated { .. } => "channel-created"@,
        AppEventView::ChannelDeleted { .. } => "channel-deleted"@,
    }
}

/// The name under which an event is handed to the user interface.
pub fn event_name(e: &AppEvent) -> (name: &'static str)
    ensures
        name@ == event_name_text(e@),
{
    match e {
        AppEvent::NewMessage (_) => "new-message",
        AppEvent::PeerConnected (_) => "peer-connected",
        AppEvent::PeerDiscovered (_) => "peer-discovered",
        AppEvent::PeerDisconnected { .. } => "peer-disconnected",
        AppEvent::PeerJoinedRoom { .. } => "peer-joined-room",
        AppEvent::PeerLeftRoom { .. } => "peer-left-room",
        AppEvent::MessageEdited { .. } => "message-edited",
        AppEvent::MessageDeleted { .. } => "message-deleted",
        AppEvent::ReactionAdded { .. } => "reaction-added",
        AppEvent::ReactionRemoved { .. } => "reaction-removed",
        AppEvent::TypingStarted { .. } => "typing-started",
        AppEvent::TypingStopped { .. } => "typing-stopped",
        AppEvent::ReadReceiptUpdated { .. } => "read-receipt-updated",
        AppEvent::MessagePinned (_) => "message-pinned",
        AppEvent::MessageUnpinned { .. } => "message-unpinned",
        AppEvent::NewDmMessage (_) => "new-dm-message",
        AppEvent::FriendRequestReceived { .. } => "friend-request-received",
        AppEvent::FriendRequestAccepted { .. } => "friend-request-accepted",
        AppEvent::CallOfferReceived { .. } => "call-offer",
        AppEvent::CallAnswerReceived { .. } => "call-answer",
        AppEvent::IceCandidateReceived { .. } => "ice-candidate",
        AppEvent::VoiceStateChanged { .. } => "voice-state-changed",
        AppEvent::VoiceConnected { .. } => "voice-connected",
        AppEvent::VoiceDisconnected { .. } => "voice-disconnected",
        AppEvent::SpeakingChanged { .. } => "speaking-changed",
        AppEvent::ChannelCreated { .. } => "channel-created",
        AppEvent::ChannelDeleted { .. } => "channel-deleted",
    }
}

} // verus!
