//! The envelope of the overlay: every message that peers publish to each
//! other on a topic, as a tagged union with one record per kind.

use vstd::prelude::*;
use crate::text::{clone_opt, clone_opt_texts, opt_text, opt_texts, views};

verus! {

/// A chat message on its way to the peers of a room.
#[derive(Debug, PartialEq, Eq)]
pub struct ChatMessage {
    pub id: String,
    pub channel_id: String,
    pub sender_peer_id: String,
    pub sender_display_name: String,
    pub content: String,
    pub timestamp: String,
    pub reply_to_id: Option<String>,
    pub attachments: Option<Vec<String>>,
}

pub ghost struct ChatMessageView {
    pub id: Seq<char>,
    pub channel_id: Seq<char>,
    pub sender_peer_id: Seq<char>,
    pub sender_display_name: Seq<char>,
    pub content: Seq<char>,
    pub timestamp: Seq<char>,
    pub reply_to_id: Option<Seq<char>>,
    pub attachments: Option<Seq<Seq<char>>>,
}

impl View for ChatMessage {
    type V = ChatMessageView;

    open spec fn view(&self) -> ChatMessageView {
        ChatMessageView {
            id: self.id@,
            channel_id: self.channel_id@,
            sender_peer_id: self.sender_peer_id@,
            sender_display_name: self.sender_display_name@,
            content: self.content@,
            timestamp: self.timestamp@,
            reply_to_id: opt_text(self.reply_to_id),
            attachments: opt_texts(self.attachments),
        }
    }
}

impl Clone for ChatMessage {
    fn clone(&self) -> (r: Self)
        ensures
            r@ == self@,
    {
        ChatMessage {
            id: self.id.clone(),
            channel_id: self.channel_id.clone(),
            sender_peer_id: self.sender_peer_id.clone(),
            sender_display_name: self.sender_display_name.clone(),
            content: self.content.clone(),
            timestamp: self.timestamp.clone(),
            reply_to_id: clone_opt(&self.reply_to_id),
            attachments: clone_opt_texts(&self.attachments),
        }
    }
}

/// A peer telling a room its display name.
#[derive(Debug, PartialEq, Eq)]
pub struct PeerAnnouncement {
    pub peer_id: String,
    pub display_name: String,
    pub room_id: String,
}

pub ghost struct PeerAnnouncementView {
    pub peer_id: Seq<char>,
    pub display_name: Seq<char>,
    pub room_id: Seq<char>,
}

impl View for PeerAnnouncement {
    type V = PeerAnnouncementView;

    open spec fn view(&self) -> PeerAnnouncementView {
        PeerAnnouncementView {
            peer_id: self.peer_id@,
            display_name: self.display_name@,
            room_id: self.room_id@,
        }
    }
}

impl Clone for PeerAnnouncement {
    fn clone(&self) -> (r: Self)
        ensures
            r@ == self@,
    {
        PeerAnnouncement {
            peer_id: self.peer_id.clone(),
            display_name: self.display_name.clone(),
            room_id: self.room_id.clone(),
        }
    }
}

/// A question to everyone: who knows the room behind this invite code?
#[derive(Debug, PartialEq, Eq)]
pub struct RoomLookupRequest {
    pub invite_code: String,
    pub requester_peer_id: String,
}

pub ghost struct RoomLookupRequestView {
    pub invite_code: Seq<char>,
    pub requester_peer_id: Seq<char>,
}

impl View for RoomLookupRequest {
    type V = RoomLookupRequestView;

    open spec fn view(&self) -> RoomLookupRequestView {
        RoomLookupRequestView {
            invite_code: self.invite_code@,
            requester_peer_id: self.requester_peer_id@,
        }
    }
}

impl Clone for RoomLookupRequest {
    fn clone(&self) -> (r: Self)
        ensures
            r@ == self@,
    {
        RoomLookupRequest {
            invite_code: self.invite_code.clone(),
            requester_peer_id: self.requester_peer_id.clone(),
        }
    }
}

/// The answer to a room lookup, addressed to the peer that asked.
#[derive(Debug, PartialEq, Eq)]
pub struct RoomLookupResponse {
    pub invite_code: String,
    pub room_id: String,
    pub room_name: String,
    pub target_peer_id: String,
}

pub ghost struct RoomLookupResponseView {
    pub invite_code: Seq<char>,
    pub room_id: Seq<char>,
    pub room_name: Seq<char>,
    pub target_peer_id: Seq<char>,
}

impl View for RoomLookupResponse {
    type V = RoomLookupResponseView;

    open spec fn view(&self) -> RoomLookupResponseView {
        RoomLookupResponseView {
            invite_code: self.invite_code@,
            room_id: self.room_id@,
            room_name: self.room_name@,
            target_peer_id: self.target_peer_id@,
        }
    }
}

impl Clone for RoomLookupResponse {
    fn clone(&self) -> (r: Self)
        ensures
            r@ == self@,
    {
        RoomLookupResponse {
            invite_code: self.invite_code.clone(),
            room_id: self.room_id.clone(),
            room_name: self.room_name.clone(),
            target_peer_id: self.target_peer_id.clone(),
        }
    }
}

/// An edit of a message.
#[derive(Debug, PartialEq, Eq)]
pub struct MessageEditNet {
    pub message_id: String,
    pub channel_id: String,
    pub sender_peer_id: String,
    pub new_content: String,
    pub edited_at: String,
}

pub ghost struct MessageEditNetView {
    pub message_id: Seq<char>,
    pub channel_id: Seq<char>,
    pub sender_peer_id: Seq<char>,
    pub new_content: Seq<char>,
    pub edited_at: Seq<char>,
}

impl View for MessageEditNet {
    type V = MessageEditNetView;

    open spec fn view(&self) -> MessageEditNetView {
        MessageEditNetView {
            message_id: self.message_id@,
            channel_id: self.channel_id@,
            sender_peer_id: self.sender_peer_id@,
            new_content: self.new_content@,
            edited_at: self.edited_at@,
        }
    }
}

impl Clone for MessageEditNet {
    fn clone(&self) -> (r: Self)
        ensures
            r@ == self@,
    {
        MessageEditNet {
            message_id: self.message_id.clone(),
            channel_id: self.channel_id.clone(),
            sender_peer_id: self.sender_peer_id.clone(),
            new_content: self.new_content.clone(),
            edited_at: self.edited_at.clone(),
        }
    }
}

/// The soft deletion of a message.
#[derive(Debug, PartialEq, Eq)]
pub struct MessageDeleteNet {
    pub message_id: String,
    pub channel_id: String,
    pub sender_peer_id: String,
    pub deleted_at: String,
}

pub ghost struct MessageDeleteNetView {
    pub message_id: Seq<char>,
    pub channel_id: Seq<char>,
    pub sender_peer_id: Seq<char>,
    pub deleted_at: Seq<char>,
}

impl View for MessageDeleteNet {
    type V = MessageDeleteNetView;

    open spec fn view(&self) -> MessageDeleteNetView {
        MessageDeleteNetView {
            message_id: self.message_id@,
            channel_id: self.channel_id@,
            sender_peer_id: self.sender_peer_id@,
            deleted_at: self.deleted_at@,
        }
    }
}

impl Clone for MessageDeleteNet {
    fn clone(&self) -> (r: Self)
        ensures
            r@ == self@,
    {
        MessageDeleteNet {
            message_id: self.message_id.clone(),
            channel_id: self.channel_id.clone(),
            sender_peer_id: self.sender_peer_id.clone(),
            deleted_at: self.deleted_at.clone(),
        }
    }
}

/// A reaction put on a message (`add`) or taken off it.
#[derive(Debug, PartialEq, Eq)]
pub struct ReactionNet {
    pub message_id: String,
    pub channel_id: String,
    pub peer_id: String,
    pub emoji: String,
    pub add: bool,
}

pub ghost struct ReactionNetView {
    pub message_id: Seq<char>,
    pub channel_id: Seq<char>,
    pub peer_id: Seq<char>,
    pub emoji: Seq<char>,
    pub add: bool,
}

impl View for ReactionNet {
    type V = ReactionNetView;

    open spec fn view(&self) -> ReactionNetView {
        ReactionNetView {
            message_id: self.message_id@,
            channel_id: self.channel_id@,
            peer_id: self.peer_id@,
            emoji: self.emoji@,
            add: self.add,
        }
    }
}

impl Clone for ReactionNet {
    fn clone(&self) -> (r: Self)
        ensures
            r@ == self@,
    {
        ReactionNet {
            message_id: self.message_id.clone(),
            channel_id: self.channel_id.clone(),
            peer_id: self.peer_id.clone(),
            emoji: self.emoji.clone(),
            add: self.add,
        }
    }
}

/// A peer starting or stopping to type in a channel.
#[derive(Debug, PartialEq, Eq)]
pub struct TypingIndicatorNet {
    pub channel_id: String,
    pub peer_id: String,
    pub display_name: String,
    pub typing: bool,
}

pub ghost struct TypingIndicatorNetView {
    pub channel_id: Seq<char>,
    pub peer_id: Seq<char>,
    pub display_name: Seq<char>,
    pub typing: bool,
}

impl View for TypingIndicatorNet {
    type V = TypingIndicatorNetView;

    open spec fn view(&self) -> TypingIndicatorNetView {
        TypingIndicatorNetView {
            channel_id: self.channel_id@,
            peer_id: self.peer_id@,
            display_name: self.display_name@,
            typing: self.typing,
        }
    }
}

impl Clone for TypingIndicatorNet {
    fn clone(&self) -> (r: Self)
        ensures
            r@ == self@,
    {
        TypingIndicatorNet {
            channel_id: self.channel_id.clone(),
            peer_id: self.peer_id.clone(),
            display_name: self.display_name.clone(),
            typing: self.typing,
        }
    }
}

/// How far a peer has read in a channel.
#[derive(Debug, PartialEq, Eq)]
pub struct ReadReceiptNet {
    pub channel_id: String,
    pub peer_id: String,
    pub last_read_message_id: String,
}

pub ghost struct ReadReceiptNetView {
    pub channel_id: Seq<char>,
    pub peer_id: Seq<char>,
    pub last_read_message_id: Seq<char>,
}

impl View for ReadReceiptNet {
    type V = ReadReceiptNetView;

    open spec fn view(&self) -> ReadReceiptNetView {
        ReadReceiptNetView {
            channel_id: self.channel_id@,
            peer_id: self.peer_id@,
            last_read_message_id: self.last_read_message_id@,
        }
    }
}

impl Clone for ReadReceiptNet {
    fn clone(&self) -> (r: Self)
        ensures
            r@ == self@,
    {
        ReadReceiptNet {
            channel_id: self.channel_id.clone(),
            peer_id: self.peer_id.clone(),
            last_read_message_id: self.last_read_message_id.clone(),
        }
    }
}

/// A direct message on its way.
#[derive(Debug, PartialEq, Eq)]
pub struct DmMessageNet {
    pub id: String,
    pub conversation_id: String,
    pub sender_peer_id: String,
    pub sender_display_name: String,
    pub content: String,
    pub timestamp: String,
}

pub ghost struct DmMessageNetView {
    pub id: Seq<char>,
    pub conversation_id: Seq<char>,
    pub sender_peer_id: Seq<char>,
    pub sender_display_name: Seq<char>,
    pub content: Seq<char>,
    pub timestamp: Seq<char>,
}

impl View for DmMessageNet {
    type V = DmMessageNetView;

    open spec fn view(&self) -> DmMessageNetView {
        DmMessageNetView {
            id: self.id@,
            conversation_id: self.conversation_id@,
            sender_peer_id: self.sender_peer_id@,
            sender_display_name: self.sender_display_name@,
            content: self.content@,
            timestamp: self.timestamp@,
        }
    }
}

impl Clone for DmMessageNet {
    fn clone(&self) -> (r: Self)
        ensures
            r@ == self@,
    {
        DmMessageNet {
            id: self.id.clone(),
            conversation_id: self.conversation_id.clone(),
            sender_peer_id: self.sender_peer_id.clone(),
            sender_display_name: self.sender_display_name.clone(),
            content: self.content.clone(),
            timestamp: self.timestamp.clone(),
        }
    }
}

/// A step of a friend request; `action` is `"request"`, `"accept"`, `"reject"` or
/// `"remove"`.
#[derive(Debug, PartialEq, Eq)]
pub struct FriendRequestNet {
    pub from_peer_id: String,
    pub from_display_name: String,
    pub to_peer_id: String,
    pub action: String,
}

pub ghost struct FriendRequestNetView {
    pub from_peer_id: Seq<char>,
    pub from_display_name: Seq<char>,
    pub to_peer_id: Seq<char>,
    pub action: Seq<char>,
}

impl View for FriendRequestNet {
    type V = FriendRequestNetView;

    open spec fn view(&self) -> FriendRequestNetView {
        FriendRequestNetView {
            from_peer_id: self.from_peer_id@,
            from_display_name: self.from_display_name@,
            to_peer_id: self.to_peer_id@,
            action: self.action@,
        }
    }
}

impl Clone for FriendRequestNet {
    fn clone(&self) -> (r: Self)
        ensures
            r@ == self@,
    {
        FriendRequestNet {
            from_peer_id: self.from_peer_id.clone(),
            from_display_name: self.from_display_name.clone(),
            to_peer_id: self.to_peer_id.clone(),
            action: self.action.clone(),
        }
    }
}

/// A session description offered to one peer; `sdp` is serialised JSON.
#[derive(Debug, PartialEq, Eq)]
pub struct CallOfferNet {
    pub call_id: String,
    pub from_peer_id: String,
    pub to_peer_id: String,
    pub channel_id: String,
    pub sdp: String,
}

pub ghost struct CallOfferNetView {
    pub call_id: Seq<char>,
    pub from_peer_id: Seq<char>,
    pub to_peer_id: Seq<char>,
    pub channel_id: Seq<char>,
    pub sdp: Seq<char>,
}

impl View for CallOfferNet {
    type V = CallOfferNetView;

    open spec fn view(&self) -> CallOfferNetView {
        CallOfferNetView {
            call_id: self.call_id@,
            from_peer_id: self.from_peer_id@,
            to_peer_id: self.to_peer_id@,
            channel_id: self.channel_id@,
            sdp: self.sdp@,
        }
    }
}

impl Clone for CallOfferNet {
    fn clone(&self) -> (r: Self)
        ensures
            r@ == self@,
    {
        CallOfferNet {
            call_id: self.call_id.clone(),
            from_peer_id: self.from_peer_id.clone(),
            to_peer_id: self.to_peer_id.clone(),
            channel_id: self.channel_id.clone(),
            sdp: self.sdp.clone(),
        }
    }
}

/// The answer to an offer; `sdp` is serialised JSON.
#[derive(Debug, PartialEq, Eq)]
pub struct CallAnswerNet {
    pub call_id: String,
    pub from_peer_id: String,
    pub to_peer_id: String,
    pub channel_id: String,
    pub sdp: String,
}

pub ghost struct CallAnswerNetView {
    pub call_id: Seq<char>,
    pub from_peer_id: Seq<char>,
    pub to_peer_id: Seq<char>,
    pub channel_id: Seq<char>,
    pub sdp: Seq<char>,
}

impl View for CallAnswerNet {
    type V = CallAnswerNetView;

    open spec fn view(&self) -> CallAnswerNetView {
        CallAnswerNetView {
            call_id: self.call_id@,
            from_peer_id: self.from_peer_id@,
            to_peer_id: self.to_peer_id@,
            channel_id: self.channel_id@,
            sdp: self.sdp@,
        }
    }
}

impl Clone for CallAnswerNet {
    fn clone(&self) -> (r: Self)
        ensures
            r@ == self@,
    {
        CallAnswerNet {
            call_id: self.call_id.clone(),
            from_peer_id: self.from_peer_id.clone(),
            to_peer_id: self.to_peer_id.clone(),
            channel_id: self.channel_id.clone(),
            sdp: self.sdp.clone(),
        }
    }
}

/// A connectivity candidate for one peer; `candidate` is serialised JSON.
#[derive(Debug, PartialEq, Eq)]
pub struct IceCandidateNet {
    pub from_peer_id: String,
    pub to_peer_id: String,
    pub channel_id: String,
    pub candidate: String,
}

pub ghost struct IceCandidateNetView {
    pub from_peer_id: Seq<char>,
    pub to_peer_id: Seq<char>,
    pub channel_id: Seq<char>,
    pub candidate: Seq<char>,
}

impl View for IceCandidateNet {
    type V = IceCandidateNetView;

    open spec fn view(&self) -> IceCandidateNetView {
        IceCandidateNetView {
            from_peer_id: self.from_peer_id@,
            to_peer_id: self.to_peer_id@,
            channel_id: self.channel_id@,
            candidate: self.candidate@,
        }
    }
}

impl Clone for IceCandidateNet {
    fn clone(&self) -> (r: Self)
        ensures
            r@ == self@,
    {
        IceCandidateNet {
            from_peer_id: self.from_peer_id.clone(),
            to_peer_id: self.to_peer_id.clone(),
            channel_id: self.channel_id.clone(),
            candidate: self.candidate.clone(),
        }
    }
}

/// Where a peer is in voice (`channel_id` is `None` once it has left) and with
/// which flags.
#[derive(Debug, PartialEq, Eq)]
pub struct VoiceStateNet {
    pub peer_id: String,
    pub display_name: String,
    pub channel_id: Option<String>,
    pub room_id: String,
    pub muted: bool,
    pub deafened: bool,
    pub video: bool,
    pub screen_sharing: bool,
}

pub ghost struct VoiceStateNetView {
    pub peer_id: Seq<char>,
    pub display_name: Seq<char>,
    pub channel_id: Option<Seq<char>>,
    pub room_id: Seq<char>,
    pub muted: bool,
    pub deafened: bool,
    pub video: bool,
    pub screen_sharing: bool,
}

impl View for VoiceStateNet {
    type V = VoiceStateNetView;

    open spec fn view(&self) -> VoiceStateNetView {
        VoiceStateNetView {
            peer_id: self.peer_id@,
            display_name: self.display_name@,
            channel_id: opt_text(self.channel_id),
            room_id: self.room_id@,
            muted: self.muted,
            deafened: self.deafened,
            video: self.video,
            screen_sharing: self.screen_sharing,
        }
    }
}

impl Clone for VoiceStateNet {
    fn clone(&self) -> (r: Self)
        ensures
            r@ == self@,
    {
        VoiceStateNet {
            peer_id: self.peer_id.clone(),
            display_name: self.display_name.clone(),
            channel_id: clone_opt(&self.channel_id),
            room_id: self.room_id.clone(),
            muted: self.muted,
            deafened: self.deafened,
            video: self.video,
            screen_sharing: self.screen_sharing,
        }
    }
}

/// A channel that a peer has created.
#[derive(Debug, PartialEq, Eq)]
pub struct ChannelCreatedNet {
    pub room_id: String,
    pub channel_id: String,
    pub name: String,
    pub channel_type: String,
    pub created_at: String,
}

pub ghost struct ChannelCreatedNetView {
    pub room_id: Seq<char>,
    pub channel_id: Seq<char>,
    pub name: Seq<char>,
    pub channel_type: Seq<char>,
    pub created_at: Seq<char>,
}

impl View for ChannelCreatedNet {
    type V = ChannelCreatedNetView;

    open spec fn view(&self) -> ChannelCreatedNetView {
        ChannelCreatedNetView {
            room_id: self.room_id@,
            channel_id: self.channel_id@,
            name: self.name@,
            channel_type: self.channel_type@,
            created_at: self.created_at@,
        }
    }
}

impl Clone for ChannelCreatedNet {
    fn clone(&self) -> (r: Self)
        ensures
            r@ == self@,
    {
        ChannelCreatedNet {
            room_id: self.room_id.clone(),
            channel_id: self.channel_id.clone(),
            name: self.name.clone(),
            channel_type: self.channel_type.clone(),
            created_at: self.created_at.clone(),
        }
    }
}

/// A channel that a peer has deleted.
#[derive(Debug, PartialEq, Eq)]
pub struct ChannelDeletedNet {
    pub room_id: String,
    pub channel_id: String,
}

pub ghost struct ChannelDeletedNetView {
    pub room_id: Seq<char>,
    pub channel_id: Seq<char>,
}

impl View for ChannelDeletedNet {
    type V = ChannelDeletedNetView;

    open spec fn view(&self) -> ChannelDeletedNetView {
        ChannelDeletedNetView {
            room_id: self.room_id@,
            channel_id: self.channel_id@,
        }
    }
}

impl Clone for ChannelDeletedNet {
    fn clone(&self) -> (r: Self)
        ensures
            r@ == self@,
    {
        ChannelDeletedNet {
            room_id: self.room_id.clone(),
            channel_id: self.channel_id.clone(),
        }
    }
}

/// One channel of a room in a channel list sent to a newcomer.
#[derive(Debug, PartialEq, Eq)]
pub struct ChannelSyncNet {
    pub channel_id: String,
    pub name: String,
    pub channel_type: String,
    pub created_at: String,
    pub topic: Option<String>,
    pub position: i32,
}

pub ghost struct ChannelSyncNetView {
    pub channel_id: Seq<char>,
    pub name: Seq<char>,
    pub channel_type: Seq<char>,
    pub created_at: Seq<char>,
    pub topic: Option<Seq<char>>,
    pub position: i32,
}

impl View for ChannelSyncNet {
    type V = ChannelSyncNetView;

    open spec fn view(&self) -> ChannelSyncNetView {
        ChannelSyncNetView {
            channel_id: self.channel_id@,
            name: self.name@,
            channel_type: self.channel_type@,
            created_at: self.created_at@,
            topic: opt_text(self.topic),
            position: self.position,
        }
    }
}

impl Clone for ChannelSyncNet {
    fn clone(&self) -> (r: Self)
        ensures
            r@ == self@,
    {
        ChannelSyncNet {
            channel_id: self.channel_id.clone(),
            name: self.name.clone(),
            channel_type: self.channel_type.clone(),
            created_at: self.created_at.clone(),
            topic: clone_opt(&self.topic),
            position: self.position,
        }
    }
}

/// A copy of a channel list.
pub fn clone_channel_list(v: &Vec<ChannelSyncNet>) -> (r: Vec<ChannelSyncNet>)
    ensures
        views(r@) == views(v@),
{
    let mut r: Vec<ChannelSyncNet> = Vec::new();
    let mut i: usize = 0;
    while i < v.len()
        invariant
            i <= v.len(),
            r@.len() == i,
            forall|k: int| 0 <= k < i ==> r@[k]@ == v@[k]@,
        decreases v.len() - i,
    {
        r.push(v[i].clone());
        i += 1;
    }
    assert(views(r@) =~= views(v@));
    r
}

/// Every kind of message that travels on a topic of the overlay.
#[derive(Debug, PartialEq, Eq)]
pub enum NetworkMessage {
    Chat(ChatMessage),
    PeerAnnounce(PeerAnnouncement),
    RoomLookup(RoomLookupRequest),
    RoomFound(RoomLookupResponse),
    MessageEdit(MessageEditNet),
    MessageDelete(MessageDeleteNet),
    Reaction(ReactionNet),
    TypingIndicator(TypingIndicatorNet),
    ReadReceipt(ReadReceiptNet),
    DmMessage(DmMessageNet),
    FriendRequest(FriendRequestNet),
    CallOffer(CallOfferNet),
    CallAnswer(CallAnswerNet),
    IceCandidate(IceCandidateNet),
    VoiceState(VoiceStateNet),
    ChannelCreated(ChannelCreatedNet),
    ChannelDeleted(ChannelDeletedNet),
    ChannelSync { room_id: String, channels: Vec<ChannelSyncNet> },
}

pub ghost enum NetworkMessageView {
    Chat(ChatMessageView),
    PeerAnnounce(PeerAnnouncementView),
    RoomLookup(RoomLookupRequestView),
    RoomFound(RoomLookupResponseView),
    MessageEdit(MessageEditNetView),
    MessageDelete(MessageDeleteNetView),
    Reaction(ReactionNetView),
    TypingIndicator(TypingIndicatorNetView),
    ReadReceipt(ReadReceiptNetView),
    DmMessage(DmMessageNetView),
    FriendRequest(FriendRequestNetView),
    CallOffer(CallOfferNetView),
    CallAnswer(CallAnswerNetView),
    IceCandidate(IceCandidateNetView),
    VoiceState(VoiceStateNetView),
    ChannelCreated(ChannelCreatedNetView),
    ChannelDeleted(ChannelDeletedNetView),
    ChannelSync { room_id: Seq<char>, channels: Seq<ChannelSyncNetView> },
}

impl View for NetworkMessage {
    type V = NetworkMessageView;

    open spec fn view(&self) -> NetworkMessageView {
        match *self {
            NetworkMessage::Chat(x) => NetworkMessageView::Chat(x@),
            NetworkMessage::PeerAnnounce(x) => NetworkMessageView::PeerAnnounce(x@),
            NetworkMessage::RoomLookup(x) => NetworkMessageView::RoomLookup(x@),
            NetworkMessage::RoomFound(x) => NetworkMessageView::RoomFound(x@),
            NetworkMessage::MessageEdit(x) => NetworkMessageView::MessageEdit(x@),
            NetworkMessage::MessageDelete(x) => NetworkMessageView::MessageDelete(x@),
            NetworkMessage::Reaction(x) => NetworkMessageView::Reaction(x@),
            NetworkMessage::TypingIndicator(x) => NetworkMessageView::TypingIndicator(x@),
            NetworkMessage::ReadReceipt(x) => NetworkMessageView::ReadReceipt(x@),
            NetworkMessage::DmMessage(x) => NetworkMessageView::DmMessage(x@),
            NetworkMessage::FriendRequest(x) => NetworkMessageView::FriendRequest(x@),
            NetworkMessage::CallOffer(x) => NetworkMessageView::CallOffer(x@),
            NetworkMessage::CallAnswer(x) => NetworkMessageView::CallAnswer(x@),
            NetworkMessage::IceCandidate(x) => NetworkMessageView::IceCandidate(x@),
            NetworkMessage::VoiceState(x) => NetworkMessageView::VoiceState(x@),
            NetworkMessage::ChannelCreated(x) => NetworkMessageView::ChannelCreated(x@),
            NetworkMessage::ChannelDeleted(x) => NetworkMessageView::ChannelDeleted(x@),
            NetworkMessage::ChannelSync { room_id, channels } => NetworkMessageView::ChannelSync {
                room_id: room_id@,
                channels: views(channels@),
            },
        }
    }
}

impl Clone for NetworkMessage {
    fn clone(&self) -> (r: Self)
        ensures
            r@ == self@,
    {
        match self {
            NetworkMessage::Chat(x) => NetworkMessage::Chat(x.clone()),
            NetworkMessage::PeerAnnounce(x) => NetworkMessage::PeerAnnounce(x.clone()),
            NetworkMessage::RoomLookup(x) => NetworkMessage::RoomLookup(x.clone()),
            NetworkMessage::RoomFound(x) => NetworkMessage::RoomFound(x.clone()),
            NetworkMessage::MessageEdit(x) => NetworkMessage::MessageEdit(x.clone()),
            NetworkMessage::MessageDelete(x) => NetworkMessage::MessageDelete(x.clone()),
            NetworkMessage::Reaction(x) => NetworkMessage::Reaction(x.clone()),
            NetworkMessage::TypingIndicator(x) => NetworkMessage::TypingIndicator(x.clone()),
            NetworkMessage::ReadReceipt(x) => NetworkMessage::ReadReceipt(x.clone()),
            NetworkMessage::DmMessage(x) => NetworkMessage::DmMessage(x.clone()),
            NetworkMessage::FriendRequest(x) => NetworkMessage::FriendRequest(x.clone()),
            NetworkMessage::CallOffer(x) => NetworkMessage::CallOffer(x.clone()),
            NetworkMessage::CallAnswer(x) => NetworkMessage::CallAnswer(x.clone()),
            NetworkMessage::IceCandidate(x) => NetworkMessage::IceCandidate(x.clone()),
            NetworkMessage::VoiceState(x) => NetworkMessage::VoiceState(x.clone()),
            NetworkMessage::ChannelCreated(x) => NetworkMessage::ChannelCreated(x.clone()),
            NetworkMessage::ChannelDeleted(x) => NetworkMessage::ChannelDeleted(x.clone()),
            NetworkMessage::ChannelSync { room_id, channels } => NetworkMessage::ChannelSync {
                room_id: room_id.clone(),
                channels: clone_channel_list(channels),
            },
        }
    }
}

} // verus!
