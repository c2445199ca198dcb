//! The overlay network core: the commands it takes, the names of its topics
//! and, in `swarm`, the rules by which it reacts to what the swarm reports.

pub mod actions;
pub mod swarm;

use vstd::prelude::*;
use crate::models::{Message, MessageView};
use crate::text::{
    clone_opt, join_texts, first_segment, lemma_first_segment_whole, opt_text, strip_prefix, until_char,
};

verus! {

/// The global topic on which rooms are looked up by invite code.
pub const DISCOVERY_TOPIC: &'static str = "chatr/discovery";

/// The protocol version that the node identifies itself with.
pub const PROTOCOL_VERSION: &'static str = "chatr/0.1.0";

/// The protocol name of the distributed record store.
pub const KAD_PROTOCOL: &'static str = "/chatr/kad/1.0.0";

/// The seconds between two heartbeats of the gossip mesh.
pub const GOSSIP_HEARTBEAT_SECONDS: u64 = 10;

/// The number of peers that the gossip mesh aims at per topic.
pub const GOSSIP_MESH_N: usize = 2;

/// The fewest peers that the gossip mesh keeps per topic.
pub const GOSSIP_MESH_N_LOW: usize = 1;

/// The most peers that the gossip mesh keeps per topic.
pub const GOSSIP_MESH_N_HIGH: usize = 4;

/// The fewest outbound peers that the gossip mesh keeps per topic.
pub const GOSSIP_MESH_OUTBOUND_MIN: usize = 1;

/// The seconds after which an idle connection is closed.
pub const IDLE_CONNECTION_SECONDS: u64 = 60;

/// What every room topic starts with.
pub const ROOM_TOPIC_PREFIX: &'static str = "chatr/room/";

/// What every key of an invite record starts with.
pub const INVITE_KEY_PREFIX: &'static str = "chatr/invite/";

/// The text of the topic of a room.
pub open spec fn room_topic_text(room_id: Seq<char>) -> Seq<char> {
    ROOM_TOPIC_PREFIX@ + room_id
}

/// The text of the record key of an invite code.
pub open spec fn invite_key_text(invite_code: Seq<char>) -> Seq<char> {
    INVITE_KEY_PREFIX@ + invite_code
}

/// The room that a topic belongs to: what follows the room prefix, up to the
/// next `/`. `None` for a topic that does not start with the prefix.
pub open spec fn topic_room_text(topic: Seq<char>) -> Option<Seq<char>> {
    let p = ROOM_TOPIC_PREFIX@;
    if p.is_prefix_of(topic) {
        Some(first_segment(topic.skip(p.len() as int), '/'))
    } else {
        None
    }
}

/// The topic of a room: `chatr/room/<room id>`.
pub fn room_topic(room_id: &str) -> (topic: String)
    ensures
        topic@ == room_topic_text(room_id@),
{
    join_texts(ROOM_TOPIC_PREFIX, room_id)
}

/// The record key of an invite code: `chatr/invite/<code>`.
pub fn invite_key(invite_code: &str) -> (key: String)
    ensures
        key@ == invite_key_text(invite_code@),
{
    join_texts(INVITE_KEY_PREFIX, invite_code)
}

/// The room id in a room topic, if `topic` is one.
pub fn topic_room(topic: &str) -> (room: Option<String>)
    ensures
        opt_text(room) == topic_room_text(topic@),
{
    match strip_prefix(topic, ROOM_TOPIC_PREFIX) {
        Some(rest) => Some(until_char(rest, '/')),
        None => None,
    }
}

/// The room of a room topic is the room that the topic was made for, as long
/// as the room id holds no `/`.
pub proof fn lemma_topic_round_trip(room_id: Seq<char>)
    requires
        !room_id.contains('/'),
    ensures
        topic_room_text(room_topic_text(room_id)) == Some(room_id),
{
    let p = ROOM_TOPIC_PREFIX@;
    let t = room_topic_text(room_id);
    assert(t.subrange(0, p.len() as int) =~= p);
    assert(t.skip(p.len() as int) =~= room_id);
    lemma_first_segment_whole(room_id, '/');
}

/// A command to the network core. Commands are messages: none blocks, and a
/// lookup is answered later under its `reply` number.
#[derive(Debug, PartialEq, Eq)]
#[allow(inconsistent_fields)]
pub enum NetworkCommand {
    SendMessage { room_id: String, message: Message },
    SubscribeRoom { room_id: String },
    PublishRoomToDHT { room_id: String, invite_code: String, room_name: String },
    /// Look the invite up in the record store; `reply` names the waiting caller.
    LookupRoomInDHT { invite_code: String, reply: u64 },
    /// Ask the peers on the discovery topic; `reply` names the waiting caller.
    LookupRoomViaGossip { invite_code: String, reply: u64 },
    AnnouncePresence { room_id: String, display_name: String },
    SendCallOffer {
        room_id: String,
        to_peer_id: String,
        call_id: String,
        channel_id: String,
        sdp: String,
    },
    SendCallAnswer {
        room_id: String,
        to_peer_id: String,
        call_id: String,
        channel_id: String,
        sdp: String,
    },
    SendIceCandidate { room_id: String, to_peer_id: String, channel_id: String, candidate: String },
    SendVoiceState {
        room_id: String,
        channel_id: Option<String>,
        muted: bool,
        deafened: bool,
        video: bool,
        screen_sharing: bool,
    },
    BroadcastChannelCreated {
        room_id: String,
        channel_id: String,
        name: String,
        channel_type: String,
        created_at: String,
    },
    BroadcastChannelDeleted { room_id: String, channel_id: String },
}

#[allow(inconsistent_fields)]
pub ghost enum NetworkCommandView {
    SendMessage { room_id: Seq<char>, message: MessageView },
    SubscribeRoom { room_id: Seq<char> },
    PublishRoomToDHT { room_id: Seq<char>, invite_code: Seq<char>, room_name: Seq<char> },
    LookupRoomInDHT { invite_code: Seq<char>, reply: u64 },
    LookupRoomViaGossip { invite_code: Seq<char>, reply: u64 },
    AnnouncePresence { room_id: Seq<char>, display_name: Seq<char> },
    SendCallOffer {
        room_id: Seq<char>,
        to_peer_id: Seq<char>,
        call_id: Seq<char>,
        channel_id: Seq<char>,
        sdp: Seq<char>,
    },
    SendCallAnswer {
        room_id: Seq<char>,
        to_peer_id: Seq<char>,
        call_id: Seq<char>,
        channel_id: Seq<char>,
        sdp: Seq<char>,
    },
    SendIceCandidate {
        room_id: Seq<char>,
        to_peer_id: Seq<char>,
        channel_id: Seq<char>,
        candidate: Seq<char>,
    },
    SendVoiceState {
        room_id: Seq<char>,
        channel_id: Option<Seq<char>>,
        muted: bool,
        deafened: bool,
        video: bool,
        screen_sharing: bool,
    },
    BroadcastChannelCreated {
        room_id: Seq<char>,
        channel_id: Seq<char>,
        name: Seq<char>,
        channel_type: Seq<char>,
        created_at: Seq<char>,
    },
    BroadcastChannelDeleted { room_id: Seq<char>, channel_id: Seq<char> },
}

impl View for NetworkCommand {
    type V = NetworkCommandView;

    open spec fn view(&self) -> NetworkCommandView {
        match *self {
            NetworkCommand::SendMessage { room_id, message } => NetworkCommandView::SendMessage {
                room_id: room_id@,
                message: message@,
            },
            NetworkCommand::SubscribeRoom { room_id } => NetworkCommandView::SubscribeRoom {
                room_id: room_id@,
            },
            NetworkCommand::PublishRoomToDHT { room_id, invite_code, room_name } => NetworkCommandView::PublishRoomToDHT {
                room_id: room_id@,
                invite_code: invite_code@,
                room_name: room_name@,
            },
            NetworkCommand::LookupRoomInDHT { invite_code, reply } => NetworkCommandView::LookupRoomInDHT {
                invite_code: invite_code@,
                reply: reply,
            },
            NetworkCommand::LookupRoomViaGossip { invite_code, reply } => NetworkCommandView::LookupRoomViaGossip {
                invite_code: invite_code@,
                reply: reply,
            },
            NetworkCommand::AnnouncePresence { room_id, display_name } => NetworkCommandView::AnnouncePresence {
                room_id: room_id@,
                display_name: display_name@,
            },
            NetworkCommand::SendCallOffer { room_id, to_peer_id, call_id, channel_id, sdp } => NetworkCommandView::SendCallOffer {
                room_id: room_id@,
                to_peer_id: to_peer_id@,
                call_id: call_id@,
                channel_id: channel_id@,
                sdp: sdp@,
            },
            NetworkCommand::SendCallAnswer { room_id, to_peer_id, call_id, channel_id, sdp } => NetworkCommandView::SendCallAnswer {
                room_id: room_id@,
                to_peer_id: to_peer_id@,
                call_id: call_id@,
                channel_id: channel_id@,
                sdp: sdp@,
            },
            NetworkCommand::SendIceCandidate { room_id, to_peer_id, channel_id, candidate } => NetworkCommandView::SendIceCandidate {
                room_id: room_id@,
                to_peer_id: to_peer_id@,
                channel_id: channel_id@,
                candidate: candidate@,
            },
            NetworkCommand::SendVoiceState { room_id, channel_id, muted, deafened, video, screen_sharing } => NetworkCommandView::SendVoiceState {
                room_id: room_id@,
                channel_id: opt_text(channel_id),
                muted: muted,
                deafened: deafened,
                video: video,
                screen_sharing: screen_sharing,
            },
            NetworkCommand::BroadcastChannelCreated { room_id, channel_id, name, channel_type, created_at } => NetworkCommandView::BroadcastChannelCreated {
                room_id: room_id@,
                channel_id: channel_id@,
                name: name@,
                channel_type: channel_type@,
                created_at: created_at@,
            },
            NetworkCommand::BroadcastChannelDeleted { room_id, channel_id } => NetworkCommandView::BroadcastChannelDeleted {
                room_id: room_id@,
                channel_id: channel_id@,
            },
        }
    }
}

impl Clone for NetworkCommand {
    fn clone(&self) -> (r: Self)
        ensures
            r@ == self@,
    {
        match self {
            NetworkCommand::SendMessage { room_id, message } => NetworkCommand::SendMessage {
                room_id: room_id.clone(),
                message: message.clone(),
            },
            NetworkCommand::SubscribeRoom { room_id } => NetworkCommand::SubscribeRoom {
                room_id: room_id.clone(),
            },
            NetworkCommand::PublishRoomToDHT { room_id, invite_code, room_name } => NetworkCommand::PublishRoomToDHT {
                room_id: room_id.clone(),
                invite_code: invite_code.clone(),
                room_name: room_name.clone(),
            },
            NetworkCommand::LookupRoomInDHT { invite_code, reply } => NetworkCommand::LookupRoomInDHT {
                invite_code: invite_code.clone(),
                reply: *reply,
            },
            NetworkCommand::LookupRoomViaGossip { invite_code, reply } => NetworkCommand::LookupRoomViaGossip {
                invite_code: invite_code.clone(),
                reply: *reply,
            },
            NetworkCommand::AnnouncePresence { room_id, display_name } => NetworkCommand::AnnouncePresence {
                room_id: room_id.clone(),
                display_name: display_name.clone(),
            },
            NetworkCommand::SendCallOffer { room_id, to_peer_id, call_id, channel_id, sdp } => NetworkCommand::SendCallOffer {
                room_id: room_id.clone(),
                to_peer_id: to_peer_id.clone(),
                call_id: call_id.clone(),
                channel_id: channel_id.clone(),
                sdp: sdp.clone(),
            },
            NetworkCommand::SendCallAnswer { room_id, to_peer_id, call_id, channel_id, sdp } => NetworkCommand::SendCallAnswer {
                room_id: room_id.clone(),
                to_peer_id: to_peer_id.clone(),
                call_id: call_id.clone(),
                channel_id: channel_id.clone(),
                sdp: sdp.clone(),
            },
            NetworkCommand::SendIceCandidate { room_id, to_peer_id, channel_id, candidate } => NetworkCommand::SendIceCandidate {
                room_id: room_id.clone(),
                to_peer_id: to_peer_id.clone(),
                channel_id: channel_id.clone(),
                candidate: candidate.clone(),
            },
            NetworkCommand::SendVoiceState { room_id, channel_id, muted, deafened, video, screen_sharing } => NetworkCommand::SendVoiceState {
                room_id: room_id.clone(),
                channel_id: clone_opt(channel_id),
                muted: *muted,
                deafened: *deafened,
                video: *video,
                screen_sharing: *screen_sharing,
            },
            NetworkCommand::BroadcastChannelCreated { room_id, channel_id, name, channel_type, created_at } => NetworkCommand::BroadcastChannelCreated {
                room_id: room_id.clone(),
                channel_id: channel_id.clone(),
                name: name.clone(),
                channel_type: channel_type.clone(),
                created_at: created_at.clone(),
            },
            NetworkCommand::BroadcastChannelDeleted { room_id, channel_id } => NetworkCommand::BroadcastChannelDeleted {
                room_id: room_id.clone(),
                channel_id: channel_id.clone(),
            },
        }
    }
}

} // verus!
