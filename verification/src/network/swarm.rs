//! The rules of the overlay: how the node reacts to what the swarm reports
//! and to the commands of the application.
//!
//! The swarm loop owns the sockets. For each thing that happens it asks
//! `Overlay::needs` what has to be read from the store, reads it, hands the
//! event and the answer to `Overlay::step`, and carries out the actions that
//! come back, in order. Every decision is taken here.

use vstd::prelude::*;
use crate::events::{AppEvent, AppEventView};
use crate::models::{
    Channel, ChannelView, DmMessage, DmMessageView, Friend, FriendView, Message, MessageView,
    PeerInfo, PeerInfoView, Reaction, ReactionView,
};
use crate::network::actions::{
    OverlayAction, OverlayActionView, OverlayEvent, OverlayEventView, RoomRef, RoomRefView,
    StoreAnswer, StoreAnswerView, StoreOp, StoreOpView, StoreQuery, StoreQueryView,
};
use crate::network::{
    invite_key, invite_key_text, room_topic, room_topic_text, topic_room, topic_room_text,
    NetworkCommand, NetworkCommandView, DISCOVERY_TOPIC,
};
use crate::outside::{
    fresh_id, is_uuid_text, json_object_text, json_string_pair, now_rfc3339, read_json_strings,
    write_json_object,
};
use crate::strmap::{lemma_with_name, with_name, without_name, StrMap, StrSet};
use crate::text::{opt_bytes, opt_view, prefix_chars, str_equal, views};
use crate::wire::{
    CallAnswerNet, CallAnswerNetView, CallOfferNet, CallOfferNetView, ChannelCreatedNet,
    ChannelCreatedNetView, ChannelDeletedNet, ChannelDeletedNetView, ChannelSyncNet,
    ChannelSyncNetView, ChatMessage, ChatMessageView, DmMessageNet, DmMessageNetView,
    FriendRequestNet, FriendRequestNetView, IceCandidateNet, IceCandidateNetView, MessageDeleteNet,
    MessageDeleteNetView, MessageEditNet, MessageEditNetView, NetworkMessage, NetworkMessageView,
    PeerAnnouncement, PeerAnnouncementView, ReactionNet, ReactionNetView, ReadReceiptNet,
    ReadReceiptNetView, RoomLookupRequest, RoomLookupRequestView, RoomLookupResponse,
    RoomLookupResponseView, TypingIndicatorNet, TypingIndicatorNetView, VoiceStateNet,
    VoiceStateNetView,
};

verus! {

/// What the network core remembers between events.
pub struct Overlay {
    my_peer_id: String,
    subscribed_topics: StrSet,
    peer_names: StrMap<String>,
    pending_gossip_lookups: StrMap<u64>,
    peers: StrMap<PeerInfo>,
    room_peers: StrMap<StrSet>,
}

/// The state of the network core as mathematics.
pub ghost struct OverlayView {
    /// The id of the local peer.
    pub my_peer_id: Seq<char>,
    /// The room topics that the node has subscribed to, oldest first.
    pub subscribed_topics: Seq<Seq<char>>,
    /// The display name that each peer last announced.
    pub peer_names: Map<Seq<char>, Seq<char>>,
    /// The callers that wait for an answer to a lookup, by invite code.
    pub pending_gossip_lookups: Map<Seq<char>, u64>,
    /// Every peer that the node has heard of.
    pub peers: Map<Seq<char>, PeerInfoView>,
    /// The peers in each room, in the order in which they were first seen.
    pub room_peers: Map<Seq<char>, Seq<Seq<char>>>,
}

impl View for Overlay {
    type V = OverlayView;

    closed spec fn view(&self) -> OverlayView {
        OverlayView {
            my_peer_id: self.my_peer_id@,
            subscribed_topics: self.subscribed_topics@,
            peer_names: self.peer_names@,
            pending_gossip_lookups: self.pending_gossip_lookups@,
            peers: self.peers@,
            room_peers: self.room_peers@,
        }
    }
}

/// A state after an event together with what is to be done.
pub ghost struct OverlayStep {
    pub state: OverlayView,
    pub actions: Seq<OverlayActionView>,
}

/// The state of a node that has just started.
pub open spec fn initial_overlay(my_peer_id: Seq<char>) -> OverlayView {
    OverlayView {
        my_peer_id,
        subscribed_topics: Seq::empty(),
        peer_names: Map::empty(),
        pending_gossip_lookups: Map::empty(),
        peers: Map::empty(),
        room_peers: Map::empty(),
    }
}

/// The roster map after `peer` was seen in `room`.
pub open spec fn roster_with(
    rosters: Map<Seq<char>, Seq<Seq<char>>>,
    room: Seq<char>,
    peer: Seq<char>,
) -> Map<Seq<char>, Seq<Seq<char>>> {
    rosters.insert(
        room,
        with_name(
            if rosters.contains_key(room) {
                rosters[room]
            } else {
                Seq::empty()
            },
            peer,
        ),
    )
}

/// The display name of the local user: what the store holds, or `Anonymous`
/// where the read failed.
pub open spec fn name_or_anonymous(answer: StoreAnswerView) -> Seq<char> {
    match answer.display_name {
        Some(name) => name,
        None => "Anonymous"@,
    }
}

/// The stored message that a chat envelope stands for.
pub open spec fn chat_as_message(c: ChatMessageView) -> MessageView {
    MessageView {
        id: c.id,
        channel_id: c.channel_id,
        sender_peer_id: c.sender_peer_id,
        sender_display_name: c.sender_display_name,
        content: c.content,
        timestamp: c.timestamp,
        edited_at: None,
        deleted_at: None,
        reply_to_id: c.reply_to_id,
    }
}

/// A chat message of another peer is stored and shown; one's own is dropped.
pub open spec fn chat_actions(me: Seq<char>, c: ChatMessageView) -> Seq<OverlayActionView> {
    if c.sender_peer_id != me {
        seq![
            OverlayActionView::Store(StoreOpView::InsertMessage(chat_as_message(c))),
            OverlayActionView::Emit(AppEventView::NewMessage(chat_as_message(c))),
        ]
    } else {
        seq![]
    }
}

/// The peer record that an announcement makes.
pub open spec fn announced_peer(a: PeerAnnouncementView) -> PeerInfoView {
    PeerInfoView { peer_id: a.peer_id, display_name: a.display_name, is_online: true }
}

/// An announcement sets the peer's name, marks it online and puts it on the
/// roster of the room.
pub open spec fn announce_step(s: OverlayView, a: PeerAnnouncementView) -> OverlayStep {
    OverlayStep {
        state: OverlayView {
            peer_names: s.peer_names.insert(a.peer_id, a.display_name),
            peers: s.peers.insert(a.peer_id, announced_peer(a)),
            room_peers: roster_with(s.room_peers, a.room_id, a.peer_id),
            ..s
        },
        actions: seq![OverlayActionView::Emit(AppEventView::PeerDiscovered(announced_peer(a)))],
    }
}

/// A lookup by another peer is answered on the discovery topic if the store
/// holds the room.
pub open spec fn lookup_actions(
    me: Seq<char>,
    req: RoomLookupRequestView,
    answer: StoreAnswerView,
) -> Seq<OverlayActionView> {
    if req.requester_peer_id != me && answer.room is Some {
        seq![
            OverlayActionView::Publish {
                topic: DISCOVERY_TOPIC@,
                message: NetworkMessageView::RoomFound(
                    RoomLookupResponseView {
                        invite_code: req.invite_code,
                        room_id: answer.room->0.id,
                        room_name: answer.room->0.name,
                        target_peer_id: req.requester_peer_id,
                    },
                ),
            },
        ]
    } else {
        seq![]
    }
}

/// An answer addressed to this peer completes the lookup that waits for the
/// invite code, once.
pub open spec fn found_step(s: OverlayView, resp: RoomLookupResponseView) -> OverlayStep {
    if resp.target_peer_id == s.my_peer_id && s.pending_gossip_lookups.contains_key(
        resp.invite_code,
    ) {
        OverlayStep {
            state: OverlayView {
                pending_gossip_lookups: s.pending_gossip_lookups.remove(resp.invite_code),
                ..s
            },
            actions: seq![
                OverlayActionView::CompleteLookup {
                    reply: s.pending_gossip_lookups[resp.invite_code],
                    room: Some(RoomRefView { room_id: resp.room_id, room_name: resp.room_name }),
                },
            ],
        }
    } else {
        OverlayStep { state: s, actions: seq![] }
    }
}

pub open spec fn edit_actions(me: Seq<char>, e: MessageEditNetView) -> Seq<OverlayActionView> {
    if e.sender_peer_id != me {
        seq![
            OverlayActionView::Store(
                StoreOpView::EditMessage {
                    message_id: e.message_id,
                    new_content: e.new_content,
                    edited_at: e.edited_at,
                },
            ),
            OverlayActionView::Emit(
                AppEventView::MessageEdited {
                    message_id: e.message_id,
                    channel_id: e.channel_id,
                    new_content: e.new_content,
                    edited_at: e.edited_at,
                },
            ),
        ]
    } else {
        seq![]
    }
}

pub open spec fn delete_actions(me: Seq<char>, d: MessageDeleteNetView) -> Seq<
    OverlayActionView,
> {
    if d.sender_peer_id != me {
        seq![
            OverlayActionView::Store(
                StoreOpView::DeleteMessage { message_id: d.message_id, deleted_at: d.deleted_at },
            ),
            OverlayActionView::Emit(
                AppEventView::MessageDeleted { message_id: d.message_id, channel_id: d.channel_id },
            ),
        ]
    } else {
        seq![]
    }
}

/// A reaction of another peer is stored under a new id with the time of
/// arrival, or taken out of the store.
pub open spec fn reaction_actions(
    me: Seq<char>,
    r: ReactionNetView,
    fresh_id: Seq<char>,
    now: Seq<char>,
) -> Seq<OverlayActionView> {
    if r.peer_id == me {
        seq![]
    } else if r.add {
        seq![
            OverlayActionView::Store(
                StoreOpView::AddReaction(
                    ReactionView {
                        id: fresh_id,
                        message_id: r.message_id,
                        peer_id: r.peer_id,
                        emoji: r.emoji,
                        created_at: now,
                    },
                ),
            ),
            OverlayActionView::Emit(
                AppEventView::ReactionAdded {
                    message_id: r.message_id,
                    channel_id: r.channel_id,
                    peer_id: r.peer_id,
                    emoji: r.emoji,
                },
            ),
        ]
    } else {
        seq![
            OverlayActionView::Store(
                StoreOpView::RemoveReaction {
                    message_id: r.message_id,
                    peer_id: r.peer_id,
                    emoji: r.emoji,
                },
            ),
            OverlayActionView::Emit(
                AppEventView::ReactionRemoved {
                    message_id: r.message_id,
                    channel_id: r.channel_id,
                    peer_id: r.peer_id,
                    emoji: r.emoji,
                },
            ),
        ]
    }
}

pub open spec fn typing_actions(me: Seq<char>, t: TypingIndicatorNetView) -> Seq<
    OverlayActionView,
> {
    if t.peer_id == me {
        seq![]
    } else if t.typing {
        seq![
            OverlayActionView::Emit(
                AppEventView::TypingStarted {
                    channel_id: t.channel_id,
                    peer_id: t.peer_id,
                    display_name: t.display_name,
                },
            ),
        ]
    } else {
        seq![
            OverlayActionView::Emit(
                AppEventView::TypingStopped { channel_id: t.channel_id, peer_id: t.peer_id },
            ),
        ]
    }
}

pub open spec fn receipt_actions(me: Seq<char>, r: ReadReceiptNetView, now: Seq<char>) -> Seq<
    OverlayActionView,
> {
    if r.peer_id != me {
        seq![
            OverlayActionView::Store(
                StoreOpView::SetReadReceipt {
                    channel_id: r.channel_id,
                    peer_id: r.peer_id,
                    last_read_message_id: r.last_read_message_id,
                    updated_at: now,
                },
            ),
            OverlayActionView::Emit(
                AppEventView::ReadReceiptUpdated {
                    channel_id: r.channel_id,
                    peer_id: r.peer_id,
                    last_read_message_id: r.last_read_message_id,
                },
            ),
        ]
    } else {
        seq![]
    }
}

/// The stored direct message that an envelope stands for.
pub open spec fn dm_as_message(d: DmMessageNetView) -> DmMessageView {
    DmMessageView {
        id: d.id,
        conversation_id: d.conversation_id,
        sender_peer_id: d.sender_peer_id,
        sender_display_name: d.sender_display_name,
        content: d.content,
        timestamp: d.timestamp,
    }
}

pub open spec fn dm_actions(me: Seq<char>, d: DmMessageNetView) -> Seq<OverlayActionView> {
    if d.sender_peer_id != me {
        seq![
            OverlayActionView::Store(StoreOpView::InsertDmMessage(dm_as_message(d))),
            OverlayActionView::Emit(AppEventView::NewDmMessage(dm_as_message(d))),
        ]
    } else {
        seq![]
    }
}

/// A friend request addressed to this peer: a request is stored as pending,
/// an acceptance marks the friend accepted, a removal deletes the friend, and
/// any other action is dropped.
pub open spec fn friend_actions(me: Seq<char>, f: FriendRequestNetView, now: Seq<char>) -> Seq<
    OverlayActionView,
> {
    if f.to_peer_id != me {
        seq![]
    } else if f.action == "request"@ {
        seq![
            OverlayActionView::Store(
                StoreOpView::AddFriend(
                    FriendView {
                        peer_id: f.from_peer_id,
                        display_name: f.from_display_name,
                        status: "pending_incoming"@,
                        created_at: now,
                    },
                ),
            ),
            OverlayActionView::Emit(
                AppEventView::FriendRequestReceived {
                    from_peer_id: f.from_peer_id,
                    from_display_name: f.from_display_name,
                },
            ),
        ]
    } else if f.action == "accept"@ {
        seq![
            OverlayActionView::Store(
                StoreOpView::UpdateFriendStatus { peer_id: f.from_peer_id, status: "accepted"@ },
            ),
            OverlayActionView::Emit(AppEventView::FriendRequestAccepted { peer_id: f.from_peer_id }),
        ]
    } else if f.action == "remove"@ {
        seq![OverlayActionView::Store(StoreOpView::RemoveFriend { peer_id: f.from_peer_id })]
    } else {
        seq![]
    }
}

pub open spec fn offer_actions(me: Seq<char>, o: CallOfferNetView) -> Seq<OverlayActionView> {
    if o.to_peer_id == me {
        seq![
            OverlayActionView::Emit(
                AppEventView::CallOfferReceived {
                    call_id: o.call_id,
                    from_peer_id: o.from_peer_id,
                    channel_id: o.channel_id,
                    sdp: o.sdp,
                },
            ),
        ]
    } else {
        seq![]
    }
}

pub open spec fn answer_actions(me: Seq<char>, a: CallAnswerNetView) -> Seq<OverlayActionView> {
    if a.to_peer_id == me {
        seq![
            OverlayActionView::Emit(
                AppEventView::CallAnswerReceived {
                    call_id: a.call_id,
                    from_peer_id: a.from_peer_id,
                    channel_id: a.channel_id,
                    sdp: a.sdp,
                },
            ),
        ]
    } else {
        seq![]
    }
}

pub open spec fn ice_actions(me: Seq<char>, i: IceCandidateNetView) -> Seq<OverlayActionView> {
    if i.to_peer_id == me {
        seq![
            OverlayActionView::Emit(
                AppEventView::IceCandidateReceived {
                    from_peer_id: i.from_peer_id,
                    channel_id: i.channel_id,
                    candidate: i.candidate,
                },
            ),
        ]
    } else {
        seq![]
    }
}

pub open spec fn voice_actions(me: Seq<char>, v: VoiceStateNetView) -> Seq<OverlayActionView> {
    if v.peer_id != me {
        seq![
            OverlayActionView::Emit(
                AppEventView::VoiceStateChanged {
                    peer_id: v.peer_id,
                    display_name: v.display_name,
                    channel_id: v.channel_id,
                    room_id: v.room_id,
                    muted: v.muted,
                    deafened: v.deafened,
                    video: v.video,
                    screen_sharing: v.screen_sharing,
                },
            ),
        ]
    } else {
        seq![]
    }
}

/// The ids of a list of channels.
pub open spec fn channel_ids(channels: Seq<ChannelView>) -> Set<Seq<char>> {
    Set::new(|id: Seq<char>| exists|i: int| 0 <= i < channels.len() && channels[i].id == id)
}

/// Whether the store is known to hold a channel with this id.
pub open spec fn channel_known(answer: StoreAnswerView, id: Seq<char>) -> bool {
    answer.channels is Some && channel_ids(answer.channels->0).contains(id)
}

/// The two actions that add a channel: the write and the event.
pub open spec fn create_channel_actions(ch: ChannelView) -> Seq<OverlayActionView> {
    seq![
        OverlayActionView::Store(StoreOpView::CreateChannel(ch)),
        OverlayActionView::Emit(
            AppEventView::ChannelCreated {
                room_id: ch.room_id,
                channel_id: ch.id,
                name: ch.name,
                channel_type: ch.channel_type,
                created_at: ch.created_at,
            },
        ),
    ]
}

/// The channel that a creation notice describes.
pub open spec fn created_channel(c: ChannelCreatedNetView) -> ChannelView {
    ChannelView {
        id: c.channel_id,
        room_id: c.room_id,
        name: c.name,
        created_at: c.created_at,
        channel_type: c.channel_type,
        topic: None,
        position: 0,
    }
}

/// A created channel is added unless the store is known to hold its id: a
/// second notice for the same channel does nothing.
pub open spec fn created_actions(c: ChannelCreatedNetView, answer: StoreAnswerView) -> Seq<
    OverlayActionView,
> {
    if channel_known(answer, c.channel_id) {
        seq![]
    } else {
        create_channel_actions(created_channel(c))
    }
}

pub open spec fn deleted_actions(c: ChannelDeletedNetView) -> Seq<OverlayActionView> {
    seq![
        OverlayActionView::Store(StoreOpView::DeleteChannel { channel_id: c.channel_id }),
        OverlayActionView::Emit(
            AppEventView::ChannelDeleted { room_id: c.room_id, channel_id: c.channel_id },
        ),
    ]
}

/// The channel that one entry of a channel list describes.
pub open spec fn synced_channel(room_id: Seq<char>, c: ChannelSyncNetView) -> ChannelView {
    ChannelView {
        id: c.channel_id,
        room_id,
        name: c.name,
        created_at: c.created_at,
        channel_type: c.channel_type,
        topic: c.topic,
        position: c.position,
    }
}

/// Walks a channel list in order and adds each channel whose id is neither
/// in `known` nor earlier in the list.
pub open spec fn sync_walk(
    room_id: Seq<char>,
    incoming: Seq<ChannelSyncNetView>,
    known: Set<Seq<char>>,
) -> Seq<OverlayActionView>
    decreases incoming.len(),
{
    if incoming.len() == 0 {
        seq![]
    } else if known.contains(incoming[0].channel_id) {
        sync_walk(room_id, incoming.drop_first(), known)
    } else {
        create_channel_actions(synced_channel(room_id, incoming[0])) + sync_walk(
            room_id,
            incoming.drop_first(),
            known.insert(incoming[0].channel_id),
        )
    }
}

/// A channel list adds the channels that the store does not hold yet. Where
/// the channels of the room could not be read, nothing is added.
pub open spec fn sync_actions(
    room_id: Seq<char>,
    incoming: Seq<ChannelSyncNetView>,
    answer: StoreAnswerView,
) -> Seq<OverlayActionView> {
    match answer.channels {
        Some(have) => sync_walk(room_id, incoming, channel_ids(have)),
        None => seq![],
    }
}

/// What a message from the overlay leads to.
pub open spec fn message_step(
    s: OverlayView,
    m: NetworkMessageView,
    answer: StoreAnswerView,
    fresh_id: Seq<char>,
    now: Seq<char>,
) -> OverlayStep {
    let me = s.my_peer_id;
    match m {
        NetworkMessageView::Chat(c) => OverlayStep { state: s, actions: chat_actions(me, c) },
        NetworkMessageView::PeerAnnounce(a) => announce_step(s, a),
        NetworkMessageView::RoomLookup(r) => OverlayStep {
            state: s,
            actions: lookup_actions(me, r, answer),
        },
        NetworkMessageView::RoomFound(r) => found_step(s, r),
        NetworkMessageView::MessageEdit(e) => OverlayStep { state: s, actions: edit_actions(me, e) },
        NetworkMessageView::MessageDelete(d) => OverlayStep {
            state: s,
            actions: delete_actions(me, d),
        },
        NetworkMessageView::Reaction(r) => OverlayStep {
            state: s,
            actions: reaction_actions(me, r, fresh_id, now),
        },
        NetworkMessageView::TypingIndicator(t) => OverlayStep {
            state: s,
            actions: typing_actions(me, t),
        },
        NetworkMessageView::ReadReceipt(r) => OverlayStep {
            state: s,
            actions: receipt_actions(me, r, now),
        },
        NetworkMessageView::DmMessage(d) => OverlayStep { state: s, actions: dm_actions(me, d) },
        NetworkMessageView::FriendRequest(f) => OverlayStep {
            state: s,
            actions: friend_actions(me, f, now),
        },
        NetworkMessageView::CallOffer(o) => OverlayStep { state: s, actions: offer_actions(me, o) },
        NetworkMessageView::CallAnswer(a) => OverlayStep {
            state: s,
            actions: answer_actions(me, a),
        },
        NetworkMessageView::IceCandidate(i) => OverlayStep { state: s, actions: ice_actions(me, i) },
        NetworkMessageView::VoiceState(v) => OverlayStep { state: s, actions: voice_actions(me, v) },
        NetworkMessageView::ChannelCreated(c) => OverlayStep {
            state: s,
            actions: created_actions(c, answer),
        },
        NetworkMessageView::ChannelDeleted(c) => OverlayStep { state: s, actions: deleted_actions(c) },
        NetworkMessageView::ChannelSync { room_id, channels } => OverlayStep {
            state: s,
            actions: sync_actions(room_id, channels, answer),
        },
    }
}

/// No action.
pub fn no_actions() -> (v: Vec<OverlayAction>)
    ensures
        views(v@) == Seq::<OverlayActionView>::empty(),
{
    let v: Vec<OverlayAction> = Vec::new();
    assert(views(v@) =~= Seq::<OverlayActionView>::empty());
    v
}

/// One action.
pub fn one_action(a: OverlayAction) -> (v: Vec<OverlayAction>)
    ensures
        views(v@) == seq![a@],
{
    let mut v: Vec<OverlayAction> = Vec::new();
    v.push(a);
    assert(views(v@) =~= seq![a@]);
    v
}

/// Two actions, in order.
pub fn two_actions(a: OverlayAction, b: OverlayAction) -> (v: Vec<OverlayAction>)
    ensures
        views(v@) == seq![a@, b@],
{
    let mut v: Vec<OverlayAction> = Vec::new();
    v.push(a);
    v.push(b);
    assert(views(v@) =~= seq![a@, b@]);
    v
}

/// Whether a list of channels holds one with this id.
pub fn holds_channel(channels: &Vec<Channel>, id: &str) -> (b: bool)
    ensures
        b == channel_ids(views(channels@)).contains(id@),
{
    let mut i: usize = 0;
    while i < channels.len()
        invariant
            i <= channels.len(),
            forall|k: int| 0 <= k < i ==> views(channels@)[k].id != id@,
        decreases channels.len() - i,
    {
        if str_equal(channels[i].id.as_str(), id) {
            assert(views(channels@)[i as int].id == id@);
            return true;
        }
        i += 1;
    }
    false
}

fn on_chat(me: &str, c: ChatMessage) -> (acts: Vec<OverlayAction>)
    ensures
        views(acts@) == chat_actions(me@, c@),
{
    if !str_equal(c.sender_peer_id.as_str(), me) {
        let message = Message {
            id: c.id,
            channel_id: c.channel_id,
            sender_peer_id: c.sender_peer_id,
            sender_display_name: c.sender_display_name,
            content: c.content,
            timestamp: c.timestamp,
            edited_at: None,
            deleted_at: None,
            reply_to_id: c.reply_to_id,
        };
        let shown = message.clone();
        two_actions(
            OverlayAction::Store(StoreOp::InsertMessage(message)),
            OverlayAction::Emit(AppEvent::NewMessage(shown)),
        )
    } else {
        no_actions()
    }
}

fn on_lookup(me: &str, req: RoomLookupRequest, answer: StoreAnswer) -> (acts: Vec<OverlayAction>)
    ensures
        views(acts@) == lookup_actions(me@, req@, answer@),
{
    if str_equal(req.requester_peer_id.as_str(), me) {
        return no_actions();
    }
    match answer.room {
        Some(room) => one_action(
            OverlayAction::Publish {
                topic: DISCOVERY_TOPIC.to_owned(),
                message: NetworkMessage::RoomFound(
                    RoomLookupResponse {
                        invite_code: req.invite_code,
                        room_id: room.id,
                        room_name: room.name,
                        target_peer_id: req.requester_peer_id,
                    },
                ),
            },
        ),
        None => no_actions(),
    }
}

fn on_edit(me: &str, e: MessageEditNet) -> (acts: Vec<OverlayAction>)
    ensures
        views(acts@) == edit_actions(me@, e@),
{
    if !str_equal(e.sender_peer_id.as_str(), me) {
        two_actions(
            OverlayAction::Store(
                StoreOp::EditMessage {
                    message_id: e.message_id.clone(),
                    new_content: e.new_content.clone(),
                    edited_at: e.edited_at.clone(),
                },
            ),
            OverlayAction::Emit(
                AppEvent::MessageEdited {
                    message_id: e.message_id,
                    channel_id: e.channel_id,
                    new_content: e.new_content,
                    edited_at: e.edited_at,
                },
            ),
        )
    } else {
        no_actions()
    }
}

fn on_delete(me: &str, d: MessageDeleteNet) -> (acts: Vec<OverlayAction>)
    ensures
        views(acts@) == delete_actions(me@, d@),
{
    if !str_equal(d.sender_peer_id.as_str(), me) {
        two_actions(
            OverlayAction::Store(
                StoreOp::DeleteMessage {
                    message_id: d.message_id.clone(),
                    deleted_at: d.deleted_at,
                },
            ),
            OverlayAction::Emit(
                AppEvent::MessageDeleted { message_id: d.message_id, channel_id: d.channel_id },
            ),
        )
    } else {
        no_actions()
    }
}

fn on_reaction(me: &str, r: ReactionNet, fresh_id: String, now: String) -> (acts: Vec<
    OverlayAction,
>)
    ensures
        views(acts@) == reaction_actions(me@, r@, fresh_id@, now@),
{
    if str_equal(r.peer_id.as_str(), me) {
        no_actions()
    } else if r.add {
        two_actions(
            OverlayAction::Store(
                StoreOp::AddReaction(
                    Reaction {
                        id: fresh_id,
                        message_id: r.message_id.clone(),
                        peer_id: r.peer_id.clone(),
                        emoji: r.emoji.clone(),
                        created_at: now,
                    },
                ),
            ),
            OverlayAction::Emit(
                AppEvent::ReactionAdded {
                    message_id: r.message_id,
                    channel_id: r.channel_id,
                    peer_id: r.peer_id,
                    emoji: r.emoji,
                },
            ),
        )
    } else {
        two_actions(
            OverlayAction::Store(
                StoreOp::RemoveReaction {
                    message_id: r.message_id.clone(),
                    peer_id: r.peer_id.clone(),
                    emoji: r.emoji.clone(),
                },
            ),
            OverlayAction::Emit(
                AppEvent::ReactionRemoved {
                    message_id: r.message_id,
                    channel_id: r.channel_id,
                    peer_id: r.peer_id,
                    emoji: r.emoji,
                },
            ),
        )
    }
}

fn on_typing(me: &str, t: TypingIndicatorNet) -> (acts: Vec<OverlayAction>)
    ensures
        views(acts@) == typing_actions(me@, t@),
{
    if str_equal(t.peer_id.as_str(), me) {
        no_actions()
    } else if t.typing {
        one_action(
            OverlayAction::Emit(
                AppEvent::TypingStarted {
                    channel_id: t.channel_id,
                    peer_id: t.peer_id,
                    display_name: t.display_name,
                },
            ),
        )
    } else {
        one_action(
            OverlayAction::Emit(
                AppEvent::TypingStopped { channel_id: t.channel_id, peer_id: t.peer_id },
            ),
        )
    }
}

fn on_receipt(me: &str, r: ReadReceiptNet, now: String) -> (acts: Vec<OverlayAction>)
    ensures
        views(acts@) == receipt_actions(me@, r@, now@),
{
    if !str_equal(r.peer_id.as_str(), me) {
        two_actions(
            OverlayAction::Store(
                StoreOp::SetReadReceipt {
                    channel_id: r.channel_id.clone(),
                    peer_id: r.peer_id.clone(),
                    last_read_message_id: r.last_read_message_id.clone(),
                    updated_at: now,
                },
            ),
            OverlayAction::Emit(
                AppEvent::ReadReceiptUpdated {
                    channel_id: r.channel_id,
                    peer_id: r.peer_id,
                    last_read_message_id: r.last_read_message_id,
                },
            ),
        )
    } else {
        no_actions()
    }
}

fn on_dm(me: &str, d: DmMessageNet) -> (acts: Vec<OverlayAction>)
    ensures
        views(acts@) == dm_actions(me@, d@),
{
    if !str_equal(d.sender_peer_id.as_str(), me) {
        let message = DmMessage {
            id: d.id,
            conversation_id: d.conversation_id,
            sender_peer_id: d.sender_peer_id,
            sender_display_name: d.sender_display_name,
            content: d.content,
            timestamp: d.timestamp,
        };
        let shown = message.clone();
        two_actions(
            OverlayAction::Store(StoreOp::InsertDmMessage(message)),
            OverlayAction::Emit(AppEvent::NewDmMessage(shown)),
        )
    } else {
        no_actions()
    }
}

fn on_friend(me: &str, f: FriendRequestNet, now: String) -> (acts: Vec<OverlayAction>)
    ensures
        views(acts@) == friend_actions(me@, f@, now@),
{
    if !str_equal(f.to_peer_id.as_str(), me) {
        no_actions()
    } else if str_equal(f.action.as_str(), "request") {
        two_actions(
            OverlayAction::Store(
                StoreOp::AddFriend(
                    Friend {
                        peer_id: f.from_peer_id.clone(),
                        display_name: f.from_display_name.clone(),
                        status: "pending_incoming".to_owned(),
                        created_at: now,
                    },
                ),
            ),
            OverlayAction::Emit(
                AppEvent::FriendRequestReceived {
                    from_peer_id: f.from_peer_id,
                    from_display_name: f.from_display_name,
                },
            ),
        )
    } else if str_equal(f.action.as_str(), "accept") {
        two_actions(
            OverlayAction::Store(
                StoreOp::UpdateFriendStatus {
                    peer_id: f.from_peer_id.clone(),
                    status: "accepted".to_owned(),
                },
            ),
            OverlayAction::Emit(AppEvent::FriendRequestAccepted { peer_id: f.from_peer_id }),
        )
    } else if str_equal(f.action.as_str(), "remove") {
        one_action(OverlayAction::Store(StoreOp::RemoveFriend { peer_id: f.from_peer_id }))
    } else {
        no_actions()
    }
}

fn on_offer(me: &str, o: CallOfferNet) -> (acts: Vec<OverlayAction>)
    ensures
        views(acts@) == offer_actions(me@, o@),
{
    if str_equal(o.to_peer_id.as_str(), me) {
        one_action(
            OverlayAction::Emit(
                AppEvent::CallOfferReceived {
                    call_id: o.call_id,
                    from_peer_id: o.from_peer_id,
                    channel_id: o.channel_id,
                    sdp: o.sdp,
                },
            ),
        )
    } else {
        no_actions()
    }
}

fn on_answer(me: &str, a: CallAnswerNet) -> (acts: Vec<OverlayAction>)
    ensures
        views(acts@) == answer_actions(me@, a@),
{
    if str_equal(a.to_peer_id.as_str(), me) {
        one_action(
            OverlayAction::Emit(
                AppEvent::CallAnswerReceived {
                    call_id: a.call_id,
                    from_peer_id: a.from_peer_id,
                    channel_id: a.channel_id,
                    sdp: a.sdp,
                },
            ),
        )
    } else {
        no_actions()
    }
}

fn on_ice(me: &str, i: IceCandidateNet) -> (acts: Vec<OverlayAction>)
    ensures
        views(acts@) == ice_actions(me@, i@),
{
    if str_equal(i.to_peer_id.as_str(), me) {
        one_action(
            OverlayAction::Emit(
                AppEvent::IceCandidateReceived {
                    from_peer_id: i.from_peer_id,
                    channel_id: i.channel_id,
                    candidate: i.candidate,
                },
            ),
        )
    } else {
        no_actions()
    }
}

fn on_voice(me: &str, v: VoiceStateNet) -> (acts: Vec<OverlayAction>)
    ensures
        views(acts@) == voice_actions(me@, v@),
{
    if !str_equal(v.peer_id.as_str(), me) {
        one_action(
            OverlayAction::Emit(
                AppEvent::VoiceStateChanged {
                    peer_id: v.peer_id,
                    display_name: v.display_name,
                    channel_id: v.channel_id,
                    room_id: v.room_id,
                    muted: v.muted,
                    deafened: v.deafened,
                    video: v.video,
                    screen_sharing: v.screen_sharing,
                },
            ),
        )
    } else {
        no_actions()
    }
}

/// The write and the event that add `channel`.
fn create_channel(channel: Channel) -> (acts: Vec<OverlayAction>)
    ensures
        views(acts@) == create_channel_actions(channel@),
{
    let shown = AppEvent::ChannelCreated {
        room_id: channel.room_id.clone(),
        channel_id: channel.id.clone(),
        name: channel.name.clone(),
        channel_type: channel.channel_type.clone(),
        created_at: channel.created_at.clone(),
    };
    two_actions(OverlayAction::Store(StoreOp::CreateChannel(channel)), OverlayAction::Emit(shown))
}

fn on_created(c: ChannelCreatedNet, answer: StoreAnswer) -> (acts: Vec<OverlayAction>)
    ensures
        views(acts@) == created_actions(c@, answer@),
{
    let known = match &answer.channels {
        Some(have) => holds_channel(have, c.channel_id.as_str()),
        None => false,
    };
    if known {
        no_actions()
    } else {
        create_channel(
            Channel {
                id: c.channel_id,
                room_id: c.room_id,
                name: c.name,
                created_at: c.created_at,
                channel_type: c.channel_type,
                topic: None,
                position: 0,
            },
        )
    }
}

fn on_deleted(c: ChannelDeletedNet) -> (acts: Vec<OverlayAction>)
    ensures
        views(acts@) == deleted_actions(c@),
{
    two_actions(
        OverlayAction::Store(StoreOp::DeleteChannel { channel_id: c.channel_id.clone() }),
        OverlayAction::Emit(
            AppEvent::ChannelDeleted { room_id: c.room_id, channel_id: c.channel_id },
        ),
    )
}

/// Appends `more` to `acts`.
pub fn append_actions(acts: &mut Vec<OverlayAction>, more: Vec<OverlayAction>)
    ensures
        views(final(acts)@) == views(old(acts)@) + views(more@),
{
    let mut more = more;
    let ghost a0 = acts@;
    let ghost m0 = more@;
    acts.append(&mut more);
    assert(views(acts@) =~= views(a0) + views(m0));
}

fn on_sync(room_id: String, channels: Vec<ChannelSyncNet>, answer: StoreAnswer) -> (acts: Vec<
    OverlayAction,
>)
    ensures
        views(acts@) == sync_actions(room_id@, views(channels@), answer@),
{
    let mut acts: Vec<OverlayAction> = no_actions();
    let have = match answer.channels {
        Some(have) => have,
        None => {
            return acts;
        },
    };
    let mut known = StrSet::new();
    let mut j: usize = 0;
    while j < have.len()
        invariant
            j <= have.len(),
            forall|id: Seq<char>|
                known@.contains(id) <==> exists|k: int| 0 <= k < j && views(have@)[k].id == id,
        decreases have.len() - j,
    {
        let ghost before = known@;
        known.insert(have[j].id.clone());
        proof {
            lemma_with_name(before, have@[j as int].id@);
            assert(views(have@)[j as int].id == have@[j as int].id@);
        }
        j += 1;
    }
    let ghost incoming = views(channels@);
    let ghost start = channel_ids(views(have@));
    let ghost seen = start;
    assert(incoming.skip(0) =~= incoming);
    let mut i: usize = 0;
    while i < channels.len()
        invariant
            i <= channels.len(),
            incoming == views(channels@),
            forall|id: Seq<char>| known@.contains(id) <==> seen.contains(id),
            views(acts@) + sync_walk(room_id@, incoming.skip(i as int), seen) == sync_walk(
                room_id@,
                incoming,
                start,
            ),
        decreases channels.len() - i,
    {
        let ch = channels[i].clone();
        proof {
            let rest = incoming.skip(i as int);
            assert(rest[0] == ch@);
            assert(rest.drop_first() =~= incoming.skip(i + 1));
        }
        if !known.contains(ch.channel_id.as_str()) {
            let ghost before = known@;
            let ghost done = views(acts@);
            let ghost old_seen = seen;
            known.insert(ch.channel_id.clone());
            proof {
                lemma_with_name(before, ch.channel_id@);
                seen = seen.insert(ch.channel_id@);
            }
            let more = create_channel(
                Channel {
                    id: ch.channel_id,
                    room_id: room_id.clone(),
                    name: ch.name,
                    created_at: ch.created_at,
                    channel_type: ch.channel_type,
                    topic: ch.topic,
                    position: ch.position,
                },
            );
            append_actions(&mut acts, more);
            proof {
                let add = create_channel_actions(synced_channel(room_id@, incoming[i as int]));
                let tail = sync_walk(room_id@, incoming.skip(i + 1), seen);
                assert(views(acts@) == done + add);
                assert((done + add) + tail =~= done + (add + tail));
                assert(sync_walk(room_id@, incoming.skip(i as int), old_seen) == add + tail);
            }
        }
        i += 1;
    }
    proof {
        assert(incoming.skip(i as int).len() == 0);
        assert(views(acts@) + Seq::<OverlayActionView>::empty() =~= views(acts@));
    }
    acts
}

impl Overlay {
    /// The network core of a node that has just started.
    pub fn new(my_peer_id: String) -> (o: Overlay)
        ensures
            o@ == initial_overlay(my_peer_id@),
    {
        Overlay {
            my_peer_id,
            subscribed_topics: StrSet::new(),
            peer_names: StrMap::new(),
            pending_gossip_lookups: StrMap::new(),
            peers: StrMap::new(),
            room_peers: StrMap::new(),
        }
    }

    /// The id of the local peer.
    pub fn my_peer_id(&self) -> (id: &String)
        ensures
            id@ == self@.my_peer_id,
    {
        &self.my_peer_id
    }

    /// Puts `peer` on the roster of `room`.
    fn roster_insert(&mut self, room: &str, peer: &str)
        ensures
            final(self)@ == (OverlayView {
                room_peers: roster_with(old(self)@.room_peers, room@, peer@),
                ..old(self)@
            }),
    {
        let ghost before = self.room_peers@;
        let mut roster = match self.room_peers.remove(room) {
            Some(r) => r,
            None => StrSet::new(),
        };
        roster.insert(peer.to_owned());
        self.room_peers.insert(room.to_owned(), roster);
        assert(self.room_peers@ =~= roster_with(before, room@, peer@));
    }

    fn on_announce(&mut self, a: PeerAnnouncement) -> (acts: Vec<OverlayAction>)
        ensures
            final(self)@ == announce_step(old(self)@, a@).state,
            views(acts@) == announce_step(old(self)@, a@).actions,
    {
        let info = PeerInfo {
            peer_id: a.peer_id.clone(),
            display_name: a.display_name.clone(),
            is_online: true,
        };
        self.peer_names.insert(a.peer_id.clone(), a.display_name);
        self.peers.insert(a.peer_id.clone(), info.clone());
        self.roster_insert(a.room_id.as_str(), a.peer_id.as_str());
        one_action(OverlayAction::Emit(AppEvent::PeerDiscovered(info)))
    }

    fn on_found(&mut self, resp: RoomLookupResponse) -> (acts: Vec<OverlayAction>)
        ensures
            final(self)@ == found_step(old(self)@, resp@).state,
            views(acts@) == found_step(old(self)@, resp@).actions,
    {
        if !str_equal(resp.target_peer_id.as_str(), self.my_peer_id.as_str()) {
            return no_actions();
        }
        match self.pending_gossip_lookups.remove(resp.invite_code.as_str()) {
            Some(reply) => one_action(
                OverlayAction::CompleteLookup {
                    reply,
                    room: Some(RoomRef { room_id: resp.room_id, room_name: resp.room_name }),
                },
            ),
            None => {
                assert(self.pending_gossip_lookups@ =~= old(self).pending_gossip_lookups@);
                no_actions()
            },
        }
    }

    /// Reacts to a message that arrived on a topic. `fresh_id` names a
    /// reaction that the message adds, and `now` is the time of arrival.
    pub fn handle_message(
        &mut self,
        message: NetworkMessage,
        answer: StoreAnswer,
        fresh_id: String,
        now: String,
    ) -> (acts: Vec<OverlayAction>)
        ensures
            final(self)@ == message_step(old(self)@, message@, answer@, fresh_id@, now@).state,
            views(acts@) == message_step(old(self)@, message@, answer@, fresh_id@, now@).actions,
    {
        match message {
            NetworkMessage::Chat(c) => on_chat(self.my_peer_id.as_str(), c),
            NetworkMessage::PeerAnnounce(a) => self.on_announce(a),
            NetworkMessage::RoomLookup(r) => on_lookup(self.my_peer_id.as_str(), r, answer),
            NetworkMessage::RoomFound(r) => self.on_found(r),
            NetworkMessage::MessageEdit(e) => on_edit(self.my_peer_id.as_str(), e),
            NetworkMessage::MessageDelete(d) => on_delete(self.my_peer_id.as_str(), d),
            NetworkMessage::Reaction(r) => on_reaction(self.my_peer_id.as_str(), r, fresh_id, now),
            NetworkMessage::TypingIndicator(t) => on_typing(self.my_peer_id.as_str(), t),
            NetworkMessage::ReadReceipt(r) => on_receipt(self.my_peer_id.as_str(), r, now),
            NetworkMessage::DmMessage(d) => on_dm(self.my_peer_id.as_str(), d),
            NetworkMessage::FriendRequest(f) => on_friend(self.my_peer_id.as_str(), f, now),
            NetworkMessage::CallOffer(o) => on_offer(self.my_peer_id.as_str(), o),
            NetworkMessage::CallAnswer(a) => on_answer(self.my_peer_id.as_str(), a),
            NetworkMessage::IceCandidate(i) => on_ice(self.my_peer_id.as_str(), i),
            NetworkMessage::VoiceState(v) => on_voice(self.my_peer_id.as_str(), v),
            NetworkMessage::ChannelCreated(c) => on_created(c, answer),
            NetworkMessage::ChannelDeleted(c) => on_deleted(c),
            NetworkMessage::ChannelSync { room_id, channels } => on_sync(room_id, channels, answer),
        }
    }
}

/// The name shown for a peer that has not announced one: the first eight
/// characters of its id.
pub open spec fn short_name(peer_id: Seq<char>) -> Seq<char> {
    peer_id.take(
        if 8 <= peer_id.len() {
            8
        } else {
            peer_id.len() as int
        },
    )
}

/// The display name of a peer: what it last announced, or its short name.
pub open spec fn known_name(s: OverlayView, peer_id: Seq<char>) -> Seq<char> {
    if s.peer_names.contains_key(peer_id) {
        s.peer_names[peer_id]
    } else {
        short_name(peer_id)
    }
}

/// The record of a peer that was just seen.
pub open spec fn seen_peer(s: OverlayView, peer_id: Seq<char>) -> PeerInfoView {
    PeerInfoView { peer_id, display_name: known_name(s, peer_id), is_online: true }
}

/// The peer map with `info` added unless the peer is known already.
pub open spec fn peers_or_insert(
    peers: Map<Seq<char>, PeerInfoView>,
    info: PeerInfoView,
) -> Map<Seq<char>, PeerInfoView> {
    if peers.contains_key(info.peer_id) {
        peers
    } else {
        peers.insert(info.peer_id, info)
    }
}

/// The roster map after `peer` left `room`.
pub open spec fn roster_without(
    rosters: Map<Seq<char>, Seq<Seq<char>>>,
    room: Seq<char>,
    peer: Seq<char>,
) -> Map<Seq<char>, Seq<Seq<char>>> {
    if rosters.contains_key(room) {
        rosters.insert(room, without_name(rosters[room], peer))
    } else {
        rosters
    }
}

/// One channel as an entry of a channel list.
pub open spec fn channel_entry(c: ChannelView) -> ChannelSyncNetView {
    ChannelSyncNetView {
        channel_id: c.id,
        name: c.name,
        channel_type: c.channel_type,
        created_at: c.created_at,
        topic: c.topic,
        position: c.position,
    }
}

/// The channels of a room as a channel list.
pub open spec fn channel_list(channels: Seq<ChannelView>) -> Seq<ChannelSyncNetView> {
    Seq::new(channels.len(), |i: int| channel_entry(channels[i]))
}

/// The announcement of the local peer in a room.
pub open spec fn own_announce(me: Seq<char>, name: Seq<char>, room: Seq<char>) -> NetworkMessageView {
    NetworkMessageView::PeerAnnounce(
        PeerAnnouncementView { peer_id: me, display_name: name, room_id: room },
    )
}

/// What a newcomer on a topic of ours is sent: our announcement, and the
/// channel list of the room unless it is empty or could not be read.
pub open spec fn welcome_actions(
    s: OverlayView,
    topic: Seq<char>,
    room: Seq<char>,
    answer: StoreAnswerView,
) -> Seq<OverlayActionView> {
    if !s.subscribed_topics.contains(topic) {
        seq![]
    } else if answer.channels is Some && answer.channels->0.len() > 0 {
        seq![
            OverlayActionView::Publish {
                topic,
                message: own_announce(s.my_peer_id, name_or_anonymous(answer), room),
            },
            OverlayActionView::Publish {
                topic,
                message: NetworkMessageView::ChannelSync {
                    room_id: room,
                    channels: channel_list(answer.channels->0),
                },
            },
        ]
    } else {
        seq![
            OverlayActionView::Publish {
                topic,
                message: own_announce(s.my_peer_id, name_or_anonymous(answer), room),
            },
        ]
    }
}

/// A peer subscribed to a topic. On a room topic it joins the roster and
/// becomes known, and it is welcomed if the room is one of ours.
pub open spec fn subscribed_step(
    s: OverlayView,
    peer_id: Seq<char>,
    topic: Seq<char>,
    answer: StoreAnswerView,
) -> OverlayStep {
    match topic_room_text(topic) {
        Some(room) => OverlayStep {
            state: OverlayView {
                room_peers: roster_with(s.room_peers, room, peer_id),
                peers: peers_or_insert(s.peers, seen_peer(s, peer_id)),
                ..s
            },
            actions: seq![
                OverlayActionView::Emit(
                    AppEventView::PeerJoinedRoom { room_id: room, peer: seen_peer(s, peer_id) },
                ),
            ] + welcome_actions(s, topic, room, answer),
        },
        None => OverlayStep { state: s, actions: seq![] },
    }
}

/// A peer unsubscribed from a topic. On a room topic it leaves the roster.
pub open spec fn unsubscribed_step(s: OverlayView, peer_id: Seq<char>, topic: Seq<char>) -> OverlayStep {
    match topic_room_text(topic) {
        Some(room) => OverlayStep {
            state: OverlayView { room_peers: roster_without(s.room_peers, room, peer_id), ..s },
            actions: seq![
                OverlayActionView::Emit(AppEventView::PeerLeftRoom { room_id: room, peer_id }),
            ],
        },
        None => OverlayStep { state: s, actions: seq![] },
    }
}

/// The peer map once a connection to a peer stands: a peer that is known
/// is online, and one that is not becomes known as `info`.
pub open spec fn peers_online(
    peers: Map<Seq<char>, PeerInfoView>,
    info: PeerInfoView,
) -> Map<Seq<char>, PeerInfoView> {
    if peers.contains_key(info.peer_id) {
        peers.insert(info.peer_id, PeerInfoView { is_online: true, ..peers[info.peer_id] })
    } else {
        peers.insert(info.peer_id, info)
    }
}

/// A connection to a peer stands. The peer becomes known if it was not,
/// and is online.
pub open spec fn connected_step(s: OverlayView, peer_id: Seq<char>) -> OverlayStep {
    OverlayStep {
        state: OverlayView { peers: peers_online(s.peers, seen_peer(s, peer_id)), ..s },
        actions: seq![OverlayActionView::Emit(AppEventView::PeerConnected(seen_peer(s, peer_id)))],
    }
}

/// The last connection to a peer closed. The peer is kept and marked offline.
pub open spec fn closed_step(s: OverlayView, peer_id: Seq<char>) -> OverlayStep {
    OverlayStep {
        state: OverlayView {
            peers: if s.peers.contains_key(peer_id) {
                s.peers.insert(peer_id, PeerInfoView { is_online: false, ..s.peers[peer_id] })
            } else {
                s.peers
            },
            ..s
        },
        actions: seq![OverlayActionView::Emit(AppEventView::PeerDisconnected { peer_id })],
    }
}

/// A text, or the empty text in its place.
pub open spec fn text_or_empty(o: Option<Seq<char>>) -> Seq<char> {
    match o {
        Some(t) => t,
        None => Seq::empty(),
    }
}

/// The JSON text of the invite record of a room: an object with the id of
/// the room, its name and the invite code.
pub open spec fn room_record_json(
    room_id: Seq<char>,
    room_name: Seq<char>,
    invite_code: Seq<char>,
) -> Seq<u8> {
    json_object_text(
        ("room_id"@, room_id),
        ("room_name"@, room_name),
        ("invite_code"@, invite_code),
    )
}

/// The room that the bytes of an invite record name, if they are a JSON
/// text. A key that is missing counts as the empty text.
pub open spec fn record_room(bytes: Seq<u8>) -> Option<RoomRefView> {
    match json_string_pair(bytes, "room_id"@, "room_name"@) {
        Some(f) => Some(RoomRefView { room_id: text_or_empty(f.0), room_name: text_or_empty(f.1) }),
        None => None,
    }
}

/// The end of a record lookup is handed to the caller that waits for it.
pub open spec fn record_actions(reply: u64, value: Option<Seq<u8>>) -> Seq<OverlayActionView> {
    seq![
        OverlayActionView::CompleteLookup {
            reply,
            room: match value {
                Some(bytes) => record_room(bytes),
                None => None,
            },
        },
    ]
}

/// A subscription that went through is remembered and announced.
pub open spec fn subscribe_outcome_step(
    s: OverlayView,
    room_id: Seq<char>,
    ok: bool,
    answer: StoreAnswerView,
) -> OverlayStep {
    if ok {
        OverlayStep {
            state: OverlayView {
                subscribed_topics: with_name(s.subscribed_topics, room_topic_text(room_id)),
                ..s
            },
            actions: seq![
                OverlayActionView::Publish {
                    topic: room_topic_text(room_id),
                    message: own_announce(s.my_peer_id, name_or_anonymous(answer), room_id),
                },
            ],
        }
    } else {
        OverlayStep { state: s, actions: seq![] }
    }
}

/// A lookup that was published waits for its answer; one that could not be
/// published is answered at once with nothing.
pub open spec fn lookup_published_step(
    s: OverlayView,
    invite_code: Seq<char>,
    reply: u64,
    ok: bool,
) -> OverlayStep {
    if ok {
        OverlayStep {
            state: OverlayView {
                pending_gossip_lookups: s.pending_gossip_lookups.insert(invite_code, reply),
                ..s
            },
            actions: seq![],
        }
    } else {
        OverlayStep {
            state: s,
            actions: seq![OverlayActionView::CompleteLookup { reply, room: None }],
        }
    }
}

/// The envelope of a chat message that the local user sends.
pub open spec fn message_as_chat(m: MessageView) -> ChatMessageView {
    ChatMessageView {
        id: m.id,
        channel_id: m.channel_id,
        sender_peer_id: m.sender_peer_id,
        sender_display_name: m.sender_display_name,
        content: m.content,
        timestamp: m.timestamp,
        reply_to_id: m.reply_to_id,
        attachments: None,
    }
}

/// One message published on the topic of a room.
pub open spec fn to_room(room_id: Seq<char>, message: NetworkMessageView) -> Seq<OverlayActionView> {
    seq![OverlayActionView::Publish { topic: room_topic_text(room_id), message }]
}

/// What a command of the application leads to. No command changes the state:
/// a subscription is remembered only once it went through.
pub open spec fn command_actions(
    s: OverlayView,
    c: NetworkCommandView,
    answer: StoreAnswerView,
) -> Seq<OverlayActionView> {
    let me = s.my_peer_id;
    match c {
        NetworkCommandView::SendMessage { room_id, message } => to_room(
            room_id,
            NetworkMessageView::Chat(message_as_chat(message)),
        ),
        NetworkCommandView::SubscribeRoom { room_id } => if s.subscribed_topics.contains(
            room_topic_text(room_id),
        ) {
            seq![]
        } else {
            seq![OverlayActionView::Subscribe { room_id, topic: room_topic_text(room_id) }]
        },
        NetworkCommandView::PublishRoomToDHT { room_id, invite_code, room_name } => seq![
            OverlayActionView::PutRecord {
                key: invite_key_text(invite_code),
                value: room_record_json(room_id, room_name, invite_code),
            },
        ],
        NetworkCommandView::LookupRoomInDHT { invite_code, reply } => seq![
            OverlayActionView::GetRecord { key: invite_key_text(invite_code), reply },
        ],
        NetworkCommandView::LookupRoomViaGossip { invite_code, reply } => seq![
            OverlayActionView::PublishLookup {
                invite_code,
                reply,
                message: NetworkMessageView::RoomLookup(
                    RoomLookupRequestView { invite_code, requester_peer_id: me },
                ),
            },
        ],
        NetworkCommandView::AnnouncePresence { room_id, display_name } => to_room(
            room_id,
            own_announce(me, display_name, room_id),
        ),
        NetworkCommandView::SendCallOffer { room_id, to_peer_id, call_id, channel_id, sdp } => to_room(
            room_id,
            NetworkMessageView::CallOffer(
                CallOfferNetView { call_id, from_peer_id: me, to_peer_id, channel_id, sdp },
            ),
        ),
        NetworkCommandView::SendCallAnswer { room_id, to_peer_id, call_id, channel_id, sdp } => to_room(
            room_id,
            NetworkMessageView::CallAnswer(
                CallAnswerNetView { call_id, from_peer_id: me, to_peer_id, channel_id, sdp },
            ),
        ),
        NetworkCommandView::SendIceCandidate { room_id, to_peer_id, channel_id, candidate } => to_room(
            room_id,
            NetworkMessageView::IceCandidate(
                IceCandidateNetView { from_peer_id: me, to_peer_id, channel_id, candidate },
            ),
        ),
        NetworkCommandView::SendVoiceState {
            room_id,
            channel_id,
            muted,
            deafened,
            video,
            screen_sharing,
        } => to_room(
            room_id,
            NetworkMessageView::VoiceState(
                VoiceStateNetView {
                    peer_id: me,
                    display_name: name_or_anonymous(answer),
                    channel_id,
                    room_id,
                    muted,
                    deafened,
                    video,
                    screen_sharing,
                },
            ),
        ),
        NetworkCommandView::BroadcastChannelCreated {
            room_id,
            channel_id,
            name,
            channel_type,
            created_at,
        } => to_room(
            room_id,
            NetworkMessageView::ChannelCreated(
                ChannelCreatedNetView { room_id, channel_id, name, channel_type, created_at },
            ),
        ),
        NetworkCommandView::BroadcastChannelDeleted { room_id, channel_id } => to_room(
            room_id,
            NetworkMessageView::ChannelDeleted(ChannelDeletedNetView { room_id, channel_id }),
        ),
    }
}

/// What an event leads to: the next state and the actions, in order.
pub open spec fn event_step(
    s: OverlayView,
    e: OverlayEventView,
    answer: StoreAnswerView,
    fresh_id: Seq<char>,
    now: Seq<char>,
) -> OverlayStep {
    match e {
        OverlayEventView::Message(m) => message_step(s, m, answer, fresh_id, now),
        OverlayEventView::Subscribed { peer_id, topic } => subscribed_step(s, peer_id, topic, answer),
        OverlayEventView::Unsubscribed { peer_id, topic } => unsubscribed_step(s, peer_id, topic),
        OverlayEventView::ConnectionEstablished { peer_id } => connected_step(s, peer_id),
        OverlayEventView::ConnectionClosed { peer_id } => closed_step(s, peer_id),
        OverlayEventView::DhtRecord { reply, value } => OverlayStep {
            state: s,
            actions: record_actions(reply, value),
        },
        OverlayEventView::SubscribeOutcome { room_id, ok } => subscribe_outcome_step(
            s,
            room_id,
            ok,
            answer,
        ),
        OverlayEventView::LookupPublished { invite_code, reply, ok } => lookup_published_step(
            s,
            invite_code,
            reply,
            ok,
        ),
        OverlayEventView::Command(c) => OverlayStep { state: s, actions: command_actions(s, c, answer) },
    }
}

/// What has to be read from the store before an event can be decided.
pub open spec fn event_needs(s: OverlayView, e: OverlayEventView) -> StoreQueryView {
    match e {
        OverlayEventView::Message(NetworkMessageView::RoomLookup(r)) => if r.requester_peer_id
            != s.my_peer_id {
            StoreQueryView::RoomByInvite { invite_code: r.invite_code }
        } else {
            StoreQueryView::Nothing
        },
        OverlayEventView::Message(NetworkMessageView::ChannelCreated(c)) => StoreQueryView::Channels {
            room_id: c.room_id,
        },
        OverlayEventView::Message(
            NetworkMessageView::ChannelSync { room_id, channels },
        ) => StoreQueryView::Channels { room_id },
        OverlayEventView::Subscribed { peer_id, topic } => if topic_room_text(topic) is Some
            && s.subscribed_topics.contains(topic) {
            StoreQueryView::DisplayNameAndChannels { room_id: topic_room_text(topic)->0 }
        } else {
            StoreQueryView::Nothing
        },
        OverlayEventView::SubscribeOutcome { room_id, ok } => if ok {
            StoreQueryView::DisplayName
        } else {
            StoreQueryView::Nothing
        },
        OverlayEventView::Command(
            NetworkCommandView::SendVoiceState {
                room_id,
                channel_id,
                muted,
                deafened,
                video,
                screen_sharing,
            },
        ) => StoreQueryView::DisplayName,
        _ => StoreQueryView::Nothing,
    }
}

/// The peers of a roster that are known, in the order of the roster.
pub open spec fn infos_of(peers: Map<Seq<char>, PeerInfoView>, roster: Seq<Seq<char>>) -> Seq<
    PeerInfoView,
>
    decreases roster.len(),
{
    if roster.len() == 0 {
        seq![]
    } else if peers.contains_key(roster.last()) {
        infos_of(peers, roster.drop_last()).push(peers[roster.last()])
    } else {
        infos_of(peers, roster.drop_last())
    }
}

/// The known peers of a room.
pub open spec fn room_infos(s: OverlayView, room: Seq<char>) -> Seq<PeerInfoView> {
    if s.room_peers.contains_key(room) {
        infos_of(s.peers, s.room_peers[room])
    } else {
        seq![]
    }
}

/// The display name from the store, or `Anonymous`.
fn display_name(answer: StoreAnswer) -> (name: String)
    ensures
        name@ == name_or_anonymous(answer@),
{
    match answer.display_name {
        Some(name) => name,
        None => "Anonymous".to_owned(),
    }
}

/// The channels of a room as a channel list.
fn list_channels(channels: &Vec<Channel>) -> (list: Vec<ChannelSyncNet>)
    ensures
        views(list@) == channel_list(views(channels@)),
{
    let mut list: Vec<ChannelSyncNet> = Vec::new();
    let mut i: usize = 0;
    while i < channels.len()
        invariant
            i <= channels.len(),
            list@.len() == i,
            forall|k: int| 0 <= k < i ==> list@[k]@ == channel_entry(channels@[k]@),
        decreases channels.len() - i,
    {
        let c = channels[i].clone();
        list.push(
            ChannelSyncNet {
                channel_id: c.id,
                name: c.name,
                channel_type: c.channel_type,
                created_at: c.created_at,
                topic: c.topic,
                position: c.position,
            },
        );
        i += 1;
    }
    assert(views(list@) =~= channel_list(views(channels@)));
    list
}

/// The room that the bytes of an invite record name.
pub fn decode_room_record(bytes: &[u8]) -> (room: Option<RoomRef>)
    ensures
        opt_view(room) == record_room(bytes@),
{
    match read_json_strings(bytes, "room_id", "room_name") {
        Some(fields) => {
            let room_id = match fields.0 {
                Some(t) => t,
                None => String::new(),
            };
            let room_name = match fields.1 {
                Some(t) => t,
                None => String::new(),
            };
            Some(RoomRef { room_id, room_name })
        },
        None => None,
    }
}

/// The bytes of the invite record of a room.
pub fn encode_room_record(room_id: &str, room_name: &str, invite_code: &str) -> (bytes: Vec<u8>)
    ensures
        bytes@ == room_record_json(room_id@, room_name@, invite_code@),
{
    write_json_object(("room_id", room_id), ("room_name", room_name), ("invite_code", invite_code))
}

fn publish_to_room(room_id: &str, message: NetworkMessage) -> (acts: Vec<OverlayAction>)
    ensures
        views(acts@) == to_room(room_id@, message@),
{
    one_action(OverlayAction::Publish { topic: room_topic(room_id), message })
}

impl Overlay {
    /// The display name of a peer: what it last announced, or its short name.
    fn name_of(&self, peer_id: &str) -> (name: String)
        ensures
            name@ == known_name(self@, peer_id@),
    {
        match self.peer_names.get(peer_id) {
            Some(name) => name.clone(),
            None => prefix_chars(peer_id, 8),
        }
    }

    /// Makes `info` known unless the peer is known already.
    fn peers_insert_new(&mut self, info: PeerInfo)
        ensures
            final(self)@ == (OverlayView {
                peers: peers_or_insert(old(self)@.peers, info@),
                ..old(self)@
            }),
    {
        if !self.peers.contains_key(info.peer_id.as_str()) {
            self.peers.insert(info.peer_id.clone(), info);
        }
    }

    /// Takes `peer` off the roster of `room`.
    fn roster_remove(&mut self, room: &str, peer: &str)
        ensures
            final(self)@ == (OverlayView {
                room_peers: roster_without(old(self)@.room_peers, room@, peer@),
                ..old(self)@
            }),
    {
        let ghost before = self.room_peers@;
        match self.room_peers.remove(room) {
            Some(r) => {
                let mut roster = r;
                roster.remove(peer);
                self.room_peers.insert(room.to_owned(), roster);
                assert(self.room_peers@ =~= roster_without(before, room@, peer@));
            },
            None => {
                assert(self.room_peers@ =~= before);
            },
        }
    }

    fn welcome(&self, topic: &str, room: &str, answer: StoreAnswer) -> (acts: Vec<OverlayAction>)
        ensures
            views(acts@) == welcome_actions(self@, topic@, room@, answer@),
    {
        if !self.subscribed_topics.contains(topic) {
            return no_actions();
        }
        let list = match &answer.channels {
            Some(channels) => list_channels(channels),
            None => Vec::new(),
        };
        proof {
            assert(views(list@).len() == list@.len());
            if answer.channels is Some {
                let have = views(answer.channels->0@);
                assert(answer@.channels == Some(have));
                assert(channel_list(have).len() == have.len());
            }
        }
        let announce = OverlayAction::Publish {
            topic: topic.to_owned(),
            message: NetworkMessage::PeerAnnounce(
                PeerAnnouncement {
                    peer_id: self.my_peer_id.clone(),
                    display_name: display_name(answer),
                    room_id: room.to_owned(),
                },
            ),
        };
        if list.len() > 0 {
            two_actions(
                announce,
                OverlayAction::Publish {
                    topic: topic.to_owned(),
                    message: NetworkMessage::ChannelSync { room_id: room.to_owned(), channels: list },
                },
            )
        } else {
            one_action(announce)
        }
    }

    fn on_subscribed(&mut self, peer_id: String, topic: String, answer: StoreAnswer) -> (acts: Vec<
        OverlayAction,
    >)
        ensures
            final(self)@ == subscribed_step(old(self)@, peer_id@, topic@, answer@).state,
            views(acts@) == subscribed_step(old(self)@, peer_id@, topic@, answer@).actions,
    {
        match topic_room(topic.as_str()) {
            Some(room) => {
                let info = PeerInfo {
                    peer_id: peer_id.clone(),
                    display_name: self.name_of(peer_id.as_str()),
                    is_online: true,
                };
                let more = self.welcome(topic.as_str(), room.as_str(), answer);
                self.roster_insert(room.as_str(), peer_id.as_str());
                self.peers_insert_new(info.clone());
                let mut acts = one_action(
                    OverlayAction::Emit(AppEvent::PeerJoinedRoom { room_id: room, peer: info }),
                );
                append_actions(&mut acts, more);
                acts
            },
            None => no_actions(),
        }
    }

    fn on_unsubscribed(&mut self, peer_id: String, topic: String) -> (acts: Vec<OverlayAction>)
        ensures
            final(self)@ == unsubscribed_step(old(self)@, peer_id@, topic@).state,
            views(acts@) == unsubscribed_step(old(self)@, peer_id@, topic@).actions,
    {
        match topic_room(topic.as_str()) {
            Some(room) => {
                self.roster_remove(room.as_str(), peer_id.as_str());
                one_action(OverlayAction::Emit(AppEvent::PeerLeftRoom { room_id: room, peer_id }))
            },
            None => no_actions(),
        }
    }

    fn on_connected(&mut self, peer_id: String) -> (acts: Vec<OverlayAction>)
        ensures
            final(self)@ == connected_step(old(self)@, peer_id@).state,
            views(acts@) == connected_step(old(self)@, peer_id@).actions,
    {
        let info = PeerInfo {
            peer_id: peer_id.clone(),
            display_name: self.name_of(peer_id.as_str()),
            is_online: true,
        };
        let ghost before = self.peers@;
        match self.peers.remove(peer_id.as_str()) {
            Some(known) => {
                let mut known = known;
                known.is_online = true;
                self.peers.insert(peer_id, known);
                assert(self.peers@ =~= before.insert(
                    info.peer_id@,
                    PeerInfoView { is_online: true, ..before[info.peer_id@] },
                ));
            },
            None => {
                self.peers.insert(peer_id, info.clone());
                assert(self.peers@ =~= before.insert(info.peer_id@, info@));
            },
        }
        one_action(OverlayAction::Emit(AppEvent::PeerConnected(info)))
    }

    fn on_closed(&mut self, peer_id: String) -> (acts: Vec<OverlayAction>)
        ensures
            final(self)@ == closed_step(old(self)@, peer_id@).state,
            views(acts@) == closed_step(old(self)@, peer_id@).actions,
    {
        let ghost before = self.peers@;
        match self.peers.remove(peer_id.as_str()) {
            Some(info) => {
                let mut info = info;
                info.is_online = false;
                self.peers.insert(peer_id.clone(), info);
                assert(self.peers@ =~= before.insert(
                    peer_id@,
                    PeerInfoView { is_online: false, ..before[peer_id@] },
                ));
            },
            None => {
                assert(self.peers@ =~= before);
            },
        }
        one_action(OverlayAction::Emit(AppEvent::PeerDisconnected { peer_id }))
    }

    fn on_subscribe_outcome(&mut self, room_id: String, ok: bool, answer: StoreAnswer) -> (acts: Vec<
        OverlayAction,
    >)
        ensures
            final(self)@ == subscribe_outcome_step(old(self)@, room_id@, ok, answer@).state,
            views(acts@) == subscribe_outcome_step(old(self)@, room_id@, ok, answer@).actions,
    {
        if ok {
            let topic = room_topic(room_id.as_str());
            self.subscribed_topics.insert(topic.clone());
            one_action(
                OverlayAction::Publish {
                    topic,
                    message: NetworkMessage::PeerAnnounce(
                        PeerAnnouncement {
                            peer_id: self.my_peer_id.clone(),
                            display_name: display_name(answer),
                            room_id,
                        },
                    ),
                },
            )
        } else {
            no_actions()
        }
    }

    fn on_lookup_published(&mut self, invite_code: String, reply: u64, ok: bool) -> (acts: Vec<
        OverlayAction,
    >)
        ensures
            final(self)@ == lookup_published_step(old(self)@, invite_code@, reply, ok).state,
            views(acts@) == lookup_published_step(old(self)@, invite_code@, reply, ok).actions,
    {
        if ok {
            self.pending_gossip_lookups.insert(invite_code, reply);
            no_actions()
        } else {
            one_action(OverlayAction::CompleteLookup { reply, room: None })
        }
    }

    fn on_command(&self, command: NetworkCommand, answer: StoreAnswer) -> (acts: Vec<OverlayAction>)
        ensures
            views(acts@) == command_actions(self@, command@, answer@),
    {
        match command {
            NetworkCommand::SendMessage { room_id, message } => publish_to_room(
                room_id.as_str(),
                NetworkMessage::Chat(
                    ChatMessage {
                        id: message.id,
                        channel_id: message.channel_id,
                        sender_peer_id: message.sender_peer_id,
                        sender_display_name: message.sender_display_name,
                        content: message.content,
                        timestamp: message.timestamp,
                        reply_to_id: message.reply_to_id,
                        attachments: None,
                    },
                ),
            ),
            NetworkCommand::SubscribeRoom { room_id } => {
                let topic = room_topic(room_id.as_str());
                if self.subscribed_topics.contains(topic.as_str()) {
                    no_actions()
                } else {
                    one_action(OverlayAction::Subscribe { room_id, topic })
                }
            },
            NetworkCommand::PublishRoomToDHT { room_id, invite_code, room_name } => one_action(
                OverlayAction::PutRecord {
                    key: invite_key(invite_code.as_str()),
                    value: encode_room_record(
                        room_id.as_str(),
                        room_name.as_str(),
                        invite_code.as_str(),
                    ),
                },
            ),
            NetworkCommand::LookupRoomInDHT { invite_code, reply } => one_action(
                OverlayAction::GetRecord { key: invite_key(invite_code.as_str()), reply },
            ),
            NetworkCommand::LookupRoomViaGossip { invite_code, reply } => one_action(
                OverlayAction::PublishLookup {
                    invite_code: invite_code.clone(),
                    reply,
                    message: NetworkMessage::RoomLookup(
                        RoomLookupRequest {
                            invite_code,
                            requester_peer_id: self.my_peer_id.clone(),
                        },
                    ),
                },
            ),
            NetworkCommand::AnnouncePresence { room_id, display_name } => publish_to_room(
                room_id.as_str(),
                NetworkMessage::PeerAnnounce(
                    PeerAnnouncement {
                        peer_id: self.my_peer_id.clone(),
                        display_name,
                        room_id: room_id.clone(),
                    },
                ),
            ),
            NetworkCommand::SendCallOffer {
                room_id,
                to_peer_id,
                call_id,
                channel_id,
                sdp,
            } => publish_to_room(
                room_id.as_str(),
                NetworkMessage::CallOffer(
                    CallOfferNet {
                        call_id,
                        from_peer_id: self.my_peer_id.clone(),
                        to_peer_id,
                        channel_id,
                        sdp,
                    },
                ),
            ),
            NetworkCommand::SendCallAnswer {
                room_id,
                to_peer_id,
                call_id,
                channel_id,
                sdp,
            } => publish_to_room(
                room_id.as_str(),
                NetworkMessage::CallAnswer(
                    CallAnswerNet {
                        call_id,
                        from_peer_id: self.my_peer_id.clone(),
                        to_peer_id,
                        channel_id,
                        sdp,
                    },
                ),
            ),
            NetworkCommand::SendIceCandidate {
                room_id,
                to_peer_id,
                channel_id,
                candidate,
            } => publish_to_room(
                room_id.as_str(),
                NetworkMessage::IceCandidate(
                    IceCandidateNet {
                        from_peer_id: self.my_peer_id.clone(),
                        to_peer_id,
                        channel_id,
                        candidate,
                    },
                ),
            ),
            NetworkCommand::SendVoiceState {
                room_id,
                channel_id,
                muted,
                deafened,
                video,
                screen_sharing,
            } => publish_to_room(
                room_id.as_str(),
                NetworkMessage::VoiceState(
                    VoiceStateNet {
                        peer_id: self.my_peer_id.clone(),
                        display_name: display_name(answer),
                        channel_id,
                        room_id: room_id.clone(),
                        muted,
                        deafened,
                        video,
                        screen_sharing,
                    },
                ),
            ),
            NetworkCommand::BroadcastChannelCreated {
                room_id,
                channel_id,
                name,
                channel_type,
                created_at,
            } => publish_to_room(
                room_id.as_str(),
                NetworkMessage::ChannelCreated(
                    ChannelCreatedNet {
                        room_id: room_id.clone(),
                        channel_id,
                        name,
                        channel_type,
                        created_at,
                    },
                ),
            ),
            NetworkCommand::BroadcastChannelDeleted { room_id, channel_id } => publish_to_room(
                room_id.as_str(),
                NetworkMessage::ChannelDeleted(
                    ChannelDeletedNet { room_id: room_id.clone(), channel_id },
                ),
            ),
        }
    }

    /// What has to be read from the store before `event` can be decided.
    pub fn needs(&self, event: &OverlayEvent) -> (query: StoreQuery)
        ensures
            query@ == event_needs(self@, event@),
    {
        match event {
            OverlayEvent::Message(NetworkMessage::RoomLookup(r)) => {
                if !str_equal(r.requester_peer_id.as_str(), self.my_peer_id.as_str()) {
                    StoreQuery::RoomByInvite { invite_code: r.invite_code.clone() }
                } else {
                    StoreQuery::Nothing
                }
            },
            OverlayEvent::Message(NetworkMessage::ChannelCreated(c)) => StoreQuery::Channels {
                room_id: c.room_id.clone(),
            },
            OverlayEvent::Message(NetworkMessage::ChannelSync { room_id, channels }) => {
                StoreQuery::Channels { room_id: room_id.clone() }
            },
            OverlayEvent::Subscribed { peer_id, topic } => {
                match topic_room(topic.as_str()) {
                    Some(room) => {
                        if self.subscribed_topics.contains(topic.as_str()) {
                            StoreQuery::DisplayNameAndChannels { room_id: room }
                        } else {
                            StoreQuery::Nothing
                        }
                    },
                    None => StoreQuery::Nothing,
                }
            },
            OverlayEvent::SubscribeOutcome { room_id, ok } => {
                if *ok {
                    StoreQuery::DisplayName
                } else {
                    StoreQuery::Nothing
                }
            },
            OverlayEvent::Command(
                NetworkCommand::SendVoiceState {
                    room_id,
                    channel_id,
                    muted,
                    deafened,
                    video,
                    screen_sharing,
                },
            ) => StoreQuery::DisplayName,
            _ => StoreQuery::Nothing,
        }
    }

    /// Decides on an event, given what the store said, a new identifier and
    /// the time: moves to the next state and returns what is to be done.
    pub fn step_with(
        &mut self,
        event: OverlayEvent,
        answer: StoreAnswer,
        fresh_id: String,
        now: String,
    ) -> (acts: Vec<OverlayAction>)
        ensures
            final(self)@ == event_step(old(self)@, event@, answer@, fresh_id@, now@).state,
            views(acts@) == event_step(old(self)@, event@, answer@, fresh_id@, now@).actions,
    {
        match event {
            OverlayEvent::Message(m) => self.handle_message(m, answer, fresh_id, now),
            OverlayEvent::Subscribed { peer_id, topic } => self.on_subscribed(peer_id, topic, answer),
            OverlayEvent::Unsubscribed { peer_id, topic } => self.on_unsubscribed(peer_id, topic),
            OverlayEvent::ConnectionEstablished { peer_id } => self.on_connected(peer_id),
            OverlayEvent::ConnectionClosed { peer_id } => self.on_closed(peer_id),
            OverlayEvent::DhtRecord { reply, value } => {
                let room = match value {
                    Some(bytes) => decode_room_record(bytes.as_slice()),
                    None => None,
                };
                one_action(OverlayAction::CompleteLookup { reply, room })
            },
            OverlayEvent::SubscribeOutcome { room_id, ok } => self.on_subscribe_outcome(
                room_id,
                ok,
                answer,
            ),
            OverlayEvent::LookupPublished { invite_code, reply, ok } => self.on_lookup_published(
                invite_code,
                reply,
                ok,
            ),
            OverlayEvent::Command(c) => self.on_command(c, answer),
        }
    }

    /// Decides on an event, given what the store said. The identifier of a
    /// reaction that the event adds is drawn at random, and times are read
    /// from the clock.
    pub fn step(&mut self, event: OverlayEvent, answer: StoreAnswer) -> (acts: Vec<OverlayAction>)
        ensures
            exists|id: Seq<char>, now: Seq<char>|
                is_uuid_text(id) && final(self)@ == (#[trigger] event_step(
                    old(self)@,
                    event@,
                    answer@,
                    id,
                    now,
                )).state && views(acts@) == event_step(old(self)@, event@, answer@, id, now).actions,
    {
        let id = fresh_id();
        let now = now_rfc3339();
        let ghost id_text = id@;
        let ghost now_text = now@;
        let acts = self.step_with(event, answer, id, now);
        assert(self@ == event_step(old(self)@, event@, answer@, id_text, now_text).state);
        acts
    }

    /// Whether the node has subscribed to the topic of `room_id`.
    pub fn is_subscribed(&self, room_id: &str) -> (b: bool)
        ensures
            b == self@.subscribed_topics.contains(room_topic_text(room_id@)),
    {
        let topic = room_topic(room_id);
        self.subscribed_topics.contains(topic.as_str())
    }

    /// The known peers of a room, in the order in which they joined it.
    pub fn room_peers(&self, room_id: &str) -> (peers: Vec<PeerInfo>)
        ensures
            views(peers@) == room_infos(self@, room_id@),
    {
        let mut out: Vec<PeerInfo> = Vec::new();
        match self.room_peers.get(room_id) {
            None => {
                assert(views(out@) =~= Seq::<PeerInfoView>::empty());
            },
            Some(roster) => {
                let mut i: usize = 0;
                assert(roster@.take(0) =~= Seq::<Seq<char>>::empty());
                assert(views(out@) =~= Seq::<PeerInfoView>::empty());
                while i < roster.len()
                    invariant
                        i <= roster@.len(),
                        views(out@) == infos_of(self.peers@, roster@.take(i as int)),
                    decreases roster@.len() - i,
                {
                    let ghost done = views(out@);
                    let ghost next = roster@.take(i + 1);
                    assert(next.drop_last() =~= roster@.take(i as int));
                    assert(next.last() == roster@[i as int]);
                    match self.peers.get(roster.get(i).as_str()) {
                        Some(info) => {
                            out.push(info.clone());
                            assert(views(out@) =~= done.push(self.peers@[roster@[i as int]]));
                        },
                        None => {},
                    }
                    i += 1;
                }
                assert(roster@.take(roster@.len() as int) =~= roster@);
            },
        }
        out
    }
}

/// A second notice for a channel that the store already holds does nothing:
/// no write, no event, and the state stays as it is.
pub proof fn lemma_duplicate_channel_created(
    s: OverlayView,
    c: ChannelCreatedNetView,
    answer: StoreAnswerView,
    fresh_id: Seq<char>,
    now: Seq<char>,
)
    requires
        channel_known(answer, c.channel_id),
    ensures
        message_step(s, NetworkMessageView::ChannelCreated(c), answer, fresh_id, now)
            == (OverlayStep { state: s, actions: seq![] }),
{
}

/// A channel list whose channels the store all holds does nothing.
pub proof fn lemma_duplicate_channel_sync(
    room_id: Seq<char>,
    incoming: Seq<ChannelSyncNetView>,
    known: Set<Seq<char>>,
)
    requires
        forall|i: int| 0 <= i < incoming.len() ==> known.contains(#[trigger] incoming[i].channel_id),
    ensures
        sync_walk(room_id, incoming, known) == Seq::<OverlayActionView>::empty(),
    decreases incoming.len(),
{
    if incoming.len() > 0 {
        let rest = incoming.drop_first();
        assert forall|i: int| 0 <= i < rest.len() implies known.contains(
            #[trigger] rest[i].channel_id,
        ) by {
            assert(rest[i] == incoming[i + 1]);
        }
        lemma_duplicate_channel_sync(room_id, rest, known);
    }
}

/// A second announcement of a peer in a room updates its display name and
/// leaves the roster of the room as the first announcement made it.
pub proof fn lemma_duplicate_announce(
    s: OverlayView,
    first: PeerAnnouncementView,
    second: PeerAnnouncementView,
)
    requires
        second.peer_id == first.peer_id,
        second.room_id == first.room_id,
    ensures
        ({
            let once = announce_step(s, first).state;
            let twice = announce_step(once, second).state;
            &&& twice.room_peers == once.room_peers
            &&& twice.peers[first.peer_id].display_name == second.display_name
            &&& twice.peer_names[first.peer_id] == second.display_name
            &&& twice.peers.dom() == once.peers.dom()
        }),
{
    let once = announce_step(s, first).state;
    let twice = announce_step(once, second).state;
    let roster = if s.room_peers.contains_key(first.room_id) {
        s.room_peers[first.room_id]
    } else {
        Seq::empty()
    };
    lemma_with_name(roster, first.peer_id);
    assert(twice.room_peers =~= once.room_peers);
    assert(twice.peers.dom() =~= once.peers.dom());
}

/// An announcement never puts a peer on a roster twice.
pub proof fn lemma_announce_keeps_rosters_distinct(s: OverlayView, a: PeerAnnouncementView)
    requires
        forall|room: Seq<char>| #[trigger]
            s.room_peers.contains_key(room) ==> s.room_peers[room].no_duplicates(),
    ensures
        forall|room: Seq<char>| #[trigger]
            announce_step(s, a).state.room_peers.contains_key(room) ==> announce_step(
                s,
                a,
            ).state.room_peers[room].no_duplicates(),
{
    let roster = if s.room_peers.contains_key(a.room_id) {
        s.room_peers[a.room_id]
    } else {
        Seq::empty()
    };
    lemma_with_name(roster, a.peer_id);
}

/// A peer is online after a connection to it stands and offline after its
/// last connection closed, however often the two alternate; and the name
/// that it is known under stays.
pub proof fn lemma_online_follows_connection(s: OverlayView, peer_id: Seq<char>)
    ensures
        ({
            let up = connected_step(s, peer_id).state;
            let down = closed_step(up, peer_id).state;
            let again = connected_step(down, peer_id).state;
            &&& up.peers.contains_key(peer_id) && up.peers[peer_id].is_online
            &&& down.peers.contains_key(peer_id) && !down.peers[peer_id].is_online
            &&& again.peers.contains_key(peer_id) && again.peers[peer_id].is_online
            &&& again.peers[peer_id].display_name == up.peers[peer_id].display_name
            &&& again.peers == up.peers
        }),
{
    let up = connected_step(s, peer_id).state;
    let down = closed_step(up, peer_id).state;
    let again = connected_step(down, peer_id).state;
    assert(again.peers =~= up.peers);
}

} // verus!
