//! What goes into the overlay rules and what comes out of them: the events
//! that the swarm loop hands over, the reads they need from the store, and
//! the actions that the loop then carries out in order.

use vstd::prelude::*;
use crate::events::{AppEvent, AppEventView};
use crate::models::{
    Channel, ChannelView, DmMessage, DmMessageView, Friend, FriendView, Message, MessageView,
    Reaction, ReactionView, Room, RoomView,
};
use crate::network::{NetworkCommand, NetworkCommandView};
use crate::text::{clone_opt_bytes, opt_bytes, opt_text, opt_view, views};
use crate::wire::{NetworkMessage, NetworkMessageView};

verus! {

/// A room as an invite lookup finds it: its id and its name.
#[derive(Debug, PartialEq, Eq)]
pub struct RoomRef {
    pub room_id: String,
    pub room_name: String,
}

pub ghost struct RoomRefView {
    pub room_id: Seq<char>,
    pub room_name: Seq<char>,
}

impl View for RoomRef {
    type V = RoomRefView;

    open spec fn view(&self) -> RoomRefView {
        RoomRefView {
            room_id: self.room_id@,
            room_name: self.room_name@,
        }
    }
}

impl Clone for RoomRef {
    fn clone(&self) -> (r: Self)
        ensures
            r@ == self@,
    {
        RoomRef {
            room_id: self.room_id.clone(),
            room_name: self.room_name.clone(),
        }
    }
}

/// A copy of an optional room reference.
pub fn clone_opt_room(o: &Option<RoomRef>) -> (r: Option<RoomRef>)
    ensures
        opt_view(r) == opt_view(*o),
{
    match o {
        Some(x) => Some(x.clone()),
        None => None,
    }
}

/// A write to the local store.
#[derive(Debug, PartialEq, Eq)]
#[allow(inconsistent_fields)]
pub enum StoreOp {
    /// Insert a message unless its id is known.
    InsertMessage(Message),
    EditMessage { message_id: String, new_content: String, edited_at: String },
    /// Mark a message as deleted.
    DeleteMessage { message_id: String, deleted_at: String },
    AddReaction(Reaction),
    RemoveReaction { message_id: String, peer_id: String, emoji: String },
    SetReadReceipt {
        channel_id: String,
        peer_id: String,
        last_read_message_id: String,
        updated_at: String,
    },
    InsertDmMessage(DmMessage),
    AddFriend(Friend),
    UpdateFriendStatus { peer_id: String, status: String },
    RemoveFriend { peer_id: String },
    CreateChannel(Channel),
    /// Delete a channel with its messages and pins.
    DeleteChannel { channel_id: String },
}

#[allow(inconsistent_fields)]
pub ghost enum StoreOpView {
    InsertMessage(MessageView),
    EditMessage { message_id: Seq<char>, new_content: Seq<char>, edited_at: Seq<char> },
    DeleteMessage { message_id: Seq<char>, deleted_at: Seq<char> },
    AddReaction(ReactionView),
    RemoveReaction { message_id: Seq<char>, peer_id: Seq<char>, emoji: Seq<char> },
    SetReadReceipt {
        channel_id: Seq<char>,
        peer_id: Seq<char>,
        last_read_message_id: Seq<char>,
        updated_at: Seq<char>,
    },
    InsertDmMessage(DmMessageView),
    AddFriend(FriendView),
    UpdateFriendStatus { peer_id: Seq<char>, status: Seq<char> },
    RemoveFriend { peer_id: Seq<char> },
    CreateChannel(ChannelView),
    DeleteChannel { channel_id: Seq<char> },
}

impl View for StoreOp {
    type V = StoreOpView;

    open spec fn view(&self) -> StoreOpView {
        match *self {
            StoreOp::InsertMessage(x) => StoreOpView::InsertMessage(x@),
            StoreOp::EditMessage { message_id, new_content, edited_at } => StoreOpView::EditMessage {
                message_id: message_id@,
                new_content: new_content@,
                edited_at: edited_at@,
            },
            StoreOp::DeleteMessage { message_id, deleted_at } => StoreOpView::DeleteMessage {
                message_id: message_id@,
                deleted_at: deleted_at@,
            },
            StoreOp::AddReaction(x) => StoreOpView::AddReaction(x@),
            StoreOp::RemoveReaction { message_id, peer_id, emoji } => StoreOpView::RemoveReaction {
                message_id: message_id@,
                peer_id: peer_id@,
                emoji: emoji@,
            },
            StoreOp::SetReadReceipt { channel_id, peer_id, last_read_message_id, updated_at } => StoreOpView::SetReadReceipt {
                channel_id: channel_id@,
                peer_id: peer_id@,
                last_read_message_id: last_read_message_id@,
                updated_at: updated_at@,
            },
            StoreOp::InsertDmMessage(x) => StoreOpView::InsertDmMessage(x@),
            StoreOp::AddFriend(x) => StoreOpView::AddFriend(x@),
            StoreOp::UpdateFriendStatus { peer_id, status } => StoreOpView::UpdateFriendStatus {
                peer_id: peer_id@,
                status: status@,
            },
            StoreOp::RemoveFriend { peer_id } => StoreOpView::RemoveFriend {
                peer_id: peer_id@,
            },
            StoreOp::CreateChannel(x) => StoreOpView::CreateChannel(x@),
            StoreOp::DeleteChannel { channel_id } => StoreOpView::DeleteChannel {
                channel_id: channel_id@,
            },
        }
    }
}

impl Clone for StoreOp {
    fn clone(&self) -> (r: Self)
        ensures
            r@ == self@,
    {
        match self {
            StoreOp::InsertMessage(x) => StoreOp::InsertMessage(x.clone()),
            StoreOp::EditMessage { message_id, new_content, edited_at } => StoreOp::EditMessage {
                message_id: message_id.clone(),
                new_content: new_content.clone(),
                edited_at: edited_at.clone(),
            },
            StoreOp::DeleteMessage { message_id, deleted_at } => StoreOp::DeleteMessage {
                message_id: message_id.clone(),
                deleted_at: deleted_at.clone(),
            },
            StoreOp::AddReaction(x) => StoreOp::AddReaction(x.clone()),
            StoreOp::RemoveReaction { message_id, peer_id, emoji } => StoreOp::RemoveReaction {
                message_id: message_id.clone(),
                peer_id: peer_id.clone(),
                emoji: emoji.clone(),
            },
            StoreOp::SetReadReceipt { channel_id, peer_id, last_read_message_id, updated_at } => StoreOp::SetReadReceipt {
                channel_id: channel_id.clone(),
                peer_id: peer_id.clone(),
                last_read_message_id: last_read_message_id.clone(),
                updated_at: updated_at.clone(),
            },
            StoreOp::InsertDmMessage(x) => StoreOp::InsertDmMessage(x.clone()),
            StoreOp::AddFriend(x) => StoreOp::AddFriend(x.clone()),
            StoreOp::UpdateFriendStatus { peer_id, status } => StoreOp::UpdateFriendStatus {
                peer_id: peer_id.clone(),
                status: status.clone(),
            },
            StoreOp::RemoveFriend { peer_id } => StoreOp::RemoveFriend {
                peer_id: peer_id.clone(),
            },
            StoreOp::CreateChannel(x) => StoreOp::CreateChannel(x.clone()),
            StoreOp::DeleteChannel { channel_id } => StoreOp::DeleteChannel {
                channel_id: channel_id.clone(),
            },
        }
    }
}

/// What an event needs to know from the local store before the rules can
/// decide on it.
#[derive(Debug, PartialEq, Eq)]
#[allow(inconsistent_fields)]
pub enum StoreQuery {
    Nothing,
    RoomByInvite { invite_code: String },
    Channels { room_id: String },
    DisplayName,
    DisplayNameAndChannels { room_id: String },
}

#[allow(inconsistent_fields)]
pub ghost enum StoreQueryView {
    Nothing,
    RoomByInvite { invite_code: Seq<char> },
    Channels { room_id: Seq<char> },
    DisplayName,
    DisplayNameAndChannels { room_id: Seq<char> },
}

impl View for StoreQuery {
    type V = StoreQueryView;

    open spec fn view(&self) -> StoreQueryView {
        match *self {
            StoreQuery::Nothing => StoreQueryView::Nothing,
            StoreQuery::RoomByInvite { invite_code } => StoreQueryView::RoomByInvite {
                invite_code: invite_code@,
            },
            StoreQuery::Channels { room_id } => StoreQueryView::Channels {
                room_id: room_id@,
            },
            StoreQuery::DisplayName => StoreQueryView::DisplayName,
            StoreQuery::DisplayNameAndChannels { room_id } => StoreQueryView::DisplayNameAndChannels {
                room_id: room_id@,
            },
        }
    }
}

impl Clone for StoreQuery {
    fn clone(&self) -> (r: Self)
        ensures
            r@ == self@,
    {
        match self {
            StoreQuery::Nothing => StoreQuery::Nothing,
            StoreQuery::RoomByInvite { invite_code } => StoreQuery::RoomByInvite {
                invite_code: invite_code.clone(),
            },
            StoreQuery::Channels { room_id } => StoreQuery::Channels {
                room_id: room_id.clone(),
            },
            StoreQuery::DisplayName => StoreQuery::DisplayName,
            StoreQuery::DisplayNameAndChannels { room_id } => StoreQuery::DisplayNameAndChannels {
                room_id: room_id.clone(),
            },
        }
    }
}

/// What the store said to a `StoreQuery`. A field that was not asked for, or
/// whose read failed, is `None`.
#[derive(Debug, PartialEq, Eq)]
pub struct StoreAnswer {
    /// The room with the invite code asked for, if the store holds one.
    pub room: Option<Room>,
    /// The channels of the room asked for.
    pub channels: Option<Vec<Channel>>,
    /// The display name of the local user.
    pub display_name: Option<String>,
}

pub ghost struct StoreAnswerView {
    pub room: Option<RoomView>,
    pub channels: Option<Seq<ChannelView>>,
    pub display_name: Option<Seq<char>>,
}

impl View for StoreAnswer {
    type V = StoreAnswerView;

    open spec fn view(&self) -> StoreAnswerView {
        StoreAnswerView {
            room: opt_view(self.room),
            channels: match self.channels {
                Some(v) => Some(views(v@)),
                None => None,
            },
            display_name: opt_text(self.display_name),
        }
    }
}

impl StoreAnswer {
    /// The answer to a query that asked for nothing.
    pub fn nothing() -> (a: StoreAnswer)
        ensures
            a@ == (StoreAnswerView { room: None, channels: None, display_name: None }),
    {
        StoreAnswer { room: None, channels: None, display_name: None }
    }
}

/// What the swarm loop hands to the rules.
#[derive(Debug, PartialEq, Eq)]
#[allow(inconsistent_fields)]
pub enum OverlayEvent {
    /// A message arrived on a topic.
    Message(NetworkMessage),
    /// A peer subscribed to a topic.
    Subscribed { peer_id: String, topic: String },
    /// A peer unsubscribed from a topic.
    Unsubscribed { peer_id: String, topic: String },
    ConnectionEstablished { peer_id: String },
    ConnectionClosed { peer_id: String },
    /// A record lookup ended: with the value of the record, or without one.
    DhtRecord { reply: u64, value: Option<Vec<u8>> },
    /// How a `Subscribe` action went.
    SubscribeOutcome { room_id: String, ok: bool },
    /// How a `PublishLookup` action went.
    LookupPublished { invite_code: String, reply: u64, ok: bool },
    /// A command from the application.
    Command(NetworkCommand),
}

#[allow(inconsistent_fields)]
pub ghost enum OverlayEventView {
    Message(NetworkMessageView),
    Subscribed { peer_id: Seq<char>, topic: Seq<char> },
    Unsubscribed { peer_id: Seq<char>, topic: Seq<char> },
    ConnectionEstablished { peer_id: Seq<char> },
    ConnectionClosed { peer_id: Seq<char> },
    DhtRecord { reply: u64, value: Option<Seq<u8>> },
    SubscribeOutcome { room_id: Seq<char>, ok: bool },
    LookupPublished { invite_code: Seq<char>, reply: u64, ok: bool },
    Command(NetworkCommandView),
}

impl View for OverlayEvent {
    type V = OverlayEventView;

    open spec fn view(&self) -> OverlayEventView {
        match *self {
            OverlayEvent::Message(x) => OverlayEventView::Message(x@),
            OverlayEvent::Subscribed { peer_id, topic } => OverlayEventView::Subscribed {
                peer_id: peer_id@,
                topic: topic@,
            },
            OverlayEvent::Unsubscribed { peer_id, topic } => OverlayEventView::Unsubscribed {
                peer_id: peer_id@,
                topic: topic@,
            },
            OverlayEvent::ConnectionEstablished { peer_id } => OverlayEventView::ConnectionEstablished {
                peer_id: peer_id@,
            },
            OverlayEvent::ConnectionClosed { peer_id } => OverlayEventView::ConnectionClosed {
                peer_id: peer_id@,
            },
            OverlayEvent::DhtRecord { reply, value } => OverlayEventView::DhtRecord {
                reply: reply,
                value: opt_bytes(value),
            },
            OverlayEvent::SubscribeOutcome { room_id, ok } => OverlayEventView::SubscribeOutcome {
                room_id: room_id@,
                ok: ok,
            },
            OverlayEvent::LookupPublished { invite_code, reply, ok } => OverlayEventView::LookupPublished {
                invite_code: invite_code@,
                reply: reply,
                ok: ok,
            },
            OverlayEvent::Command(x) => OverlayEventView::Command(x@),
        }
    }
}

impl Clone for OverlayEvent {
    fn clone(&self) -> (r: Self)
        ensures
            r@ == self@,
    {
        match self {
            OverlayEvent::Message(x) => OverlayEvent::Message(x.clone()),
            OverlayEvent::Subscribed { peer_id, topic } => OverlayEvent::Subscribed {
                peer_id: peer_id.clone(),
                topic: topic.clone(),
            },
            OverlayEvent::Unsubscribed { peer_id, topic } => OverlayEvent::Unsubscribed {
                peer_id: peer_id.clone(),
                topic: topic.clone(),
            },
            OverlayEvent::ConnectionEstablished { peer_id } => OverlayEvent::ConnectionEstablished {
                peer_id: peer_id.clone(),
            },
            OverlayEvent::ConnectionClosed { peer_id } => OverlayEvent::ConnectionClosed {
                peer_id: peer_id.clone(),
            },
            OverlayEvent::DhtRecord { reply, value } => OverlayEvent::DhtRecord {
                reply: *reply,
                value: clone_opt_bytes(value),
            },
            OverlayEvent::SubscribeOutcome { room_id, ok } => OverlayEvent::SubscribeOutcome {
                room_id: room_id.clone(),
                ok: *ok,
            },
            OverlayEvent::LookupPublished { invite_code, reply, ok } => OverlayEvent::LookupPublished {
                invite_code: invite_code.clone(),
                reply: *reply,
                ok: *ok,
            },
            OverlayEvent::Command(x) => OverlayEvent::Command(x.clone()),
        }
    }
}

/// What the swarm loop is to do, in the order given.
#[derive(Debug, PartialEq, Eq)]
#[allow(inconsistent_fields)]
pub enum OverlayAction {
    /// Write to the local store; a failure is logged and dropped.
    Store(StoreOp),
    /// Send an event on the event bus.
    Emit(AppEvent),
    /// Publish a message on a topic; a failure is logged and dropped.
    Publish { topic: String, message: NetworkMessage },
    /// Subscribe to a topic and report back with `SubscribeOutcome`.
    Subscribe { room_id: String, topic: String },
    /// Publish a room lookup on the discovery topic and report back with
    /// `LookupPublished`.
    PublishLookup { invite_code: String, reply: u64, message: NetworkMessage },
    /// Put a record into the distributed record store.
    PutRecord { key: String, value: Vec<u8> },
    /// Start a record lookup and report its end with `DhtRecord`.
    GetRecord { key: String, reply: u64 },
    /// Answer the caller that waits under `reply`.
    CompleteLookup { reply: u64, room: Option<RoomRef> },
}

#[allow(inconsistent_fields)]
pub ghost enum OverlayActionView {
    Store(StoreOpView),
    Emit(AppEventView),
    Publish { topic: Seq<char>, message: NetworkMessageView },
    Subscribe { room_id: Seq<char>, topic: Seq<char> },
    PublishLookup { invite_code: Seq<char>, reply: u64, message: NetworkMessageView },
    PutRecord { key: Seq<char>, value: Seq<u8> },
    GetRecord { key: Seq<char>, reply: u64 },
    CompleteLookup { reply: u64, room: Option<RoomRefView> },
}

impl View for OverlayAction {
    type V = OverlayActionView;

    open spec fn view(&self) -> OverlayActionView {
        match *self {
            OverlayAction::Store(x) => OverlayActionView::Store(x@),
            OverlayAction::Emit(x) => OverlayActionView::Emit(x@),
            OverlayAction::Publish { topic, message } => OverlayActionView::Publish {
                topic: topic@,
                message: message@,
            },
            OverlayAction::Subscribe { room_id, topic } => OverlayActionView::Subscribe {
                room_id: room_id@,
                topic: topic@,
            },
            OverlayAction::PublishLookup { invite_code, reply, message } => OverlayActionView::PublishLookup {
                invite_code: invite_code@,
                reply: reply,
                message: message@,
            },
            OverlayAction::PutRecord { key, value } => OverlayActionView::PutRecord {
                key: key@,
                value: value@,
            },
            OverlayAction::GetRecord { key, reply } => OverlayActionView::GetRecord {
                key: key@,
                reply: reply,
            },
            OverlayAction::CompleteLookup { reply, room } => OverlayActionView::CompleteLookup {
                reply: reply,
                room: opt_view(room),
            },
        }
    }
}

impl Clone for OverlayAction {
    fn clone(&self) -> (r: Self)
        ensures
            r@ == self@,
    {
        match self {
            OverlayAction::Store(x) => OverlayAction::Store(x.clone()),
            OverlayAction::Emit(x) => OverlayAction::Emit(x.clone()),
            OverlayAction::Publish { topic, message } => OverlayAction::Publish {
                topic: topic.clone(),
                message: message.clone(),
            },
            OverlayAction::Subscribe { room_id, topic } => OverlayAction::Subscribe {
                room_id: room_id.clone(),
                topic: topic.clone(),
            },
            OverlayAction::PublishLookup { invite_code, reply, message } => OverlayAction::PublishLookup {
                invite_code: invite_code.clone(),
                reply: *reply,
                message: message.clone(),
            },
            OverlayAction::PutRecord { key, value } => OverlayAction::PutRecord {
                key: key.clone(),
                value: value.clone(),
            },
            OverlayAction::GetRecord { key, reply } => OverlayAction::GetRecord {
                key: key.clone(),
                reply: *reply,
            },
            OverlayAction::CompleteLookup { reply, room } => OverlayAction::CompleteLookup {
                reply: *reply,
                room: clone_opt_room(room),
            },
        }
    }
}

} // verus!
