//! The records that the node keeps and shows: rooms, channels, messages,
//! peers and the rest of the local view.
//!
//! Each record has a view, a ghost record of the same shape whose strings are
//! sequences of characters; contracts speak of the views.

use vstd::prelude::*;
use crate::text::{clone_opt, opt_text, views};

verus! {

/// A chat message as stored and shown. A message with `deleted_at` set is kept
/// but hidden from listings.
#[derive(Debug, PartialEq, Eq)]
pub struct Message {
    pub id: String,
    pub channel_id: String,
    pub sender_peer_id: String,
    pub sender_display_name: String,
    pub content: String,
    pub timestamp: String,
    pub edited_at: Option<String>,
    pub deleted_at: Option<String>,
    pub reply_to_id: Option<String>,
}

pub ghost struct MessageView {
    pub id: Seq<char>,
    pub channel_id: Seq<char>,
    pub sender_peer_id: Seq<char>,
    pub sender_display_name: Seq<char>,
    pub content: Seq<char>,
    pub timestamp: Seq<char>,
    pub edited_at: Option<Seq<char>>,
    pub deleted_at: Option<Seq<char>>,
    pub reply_to_id: Option<Seq<char>>,
}

impl View for Message {
    type V = MessageView;

    open spec fn view(&self) -> MessageView {
        MessageView {
            id: self.id@,
            channel_id: self.channel_id@,
            sender_peer_id: self.sender_peer_id@,
            sender_display_name: self.sender_display_name@,
            content: self.content@,
            timestamp: self.timestamp@,
            edited_at: opt_text(self.edited_at),
            deleted_at: opt_text(self.deleted_at),
            reply_to_id: opt_text(self.reply_to_id),
        }
    }
}

impl Clone for Message {
    fn clone(&self) -> (r: Self)
        ensures
            r@ == self@,
    {
        Message {
            id: self.id.clone(),
            channel_id: self.channel_id.clone(),
            sender_peer_id: self.sender_peer_id.clone(),
            sender_display_name: self.sender_display_name.clone(),
            content: self.content.clone(),
            timestamp: self.timestamp.clone(),
            edited_at: clone_opt(&self.edited_at),
            deleted_at: clone_opt(&self.deleted_at),
            reply_to_id: clone_opt(&self.reply_to_id),
        }
    }
}

/// A room: a named group with an invite code.
#[derive(Debug, PartialEq, Eq)]
pub struct Room {
    pub id: String,
    pub name: String,
    pub invite_code: String,
    pub created_at: String,
    pub owner_peer_id: Option<String>,
}

pub ghost struct RoomView {
    pub id: Seq<char>,
    pub name: Seq<char>,
    pub invite_code: Seq<char>,
    pub created_at: Seq<char>,
    pub owner_peer_id: Option<Seq<char>>,
}

impl View for Room {
    type V = RoomView;

    open spec fn view(&self) -> RoomView {
        RoomView {
            id: self.id@,
            name: self.name@,
            invite_code: self.invite_code@,
            created_at: self.created_at@,
            owner_peer_id: opt_text(self.owner_peer_id),
        }
    }
}

impl Clone for Room {
    fn clone(&self) -> (r: Self)
        ensures
            r@ == self@,
    {
        Room {
            id: self.id.clone(),
            name: self.name.clone(),
            invite_code: self.invite_code.clone(),
            created_at: self.created_at.clone(),
            owner_peer_id: clone_opt(&self.owner_peer_id),
        }
    }
}

/// A channel of a room; `channel_type` is `"text"` or `"voice"`.
#[derive(Debug, PartialEq, Eq)]
pub struct Channel {
    pub id: String,
    pub room_id: String,
    pub name: String,
    pub created_at: String,
    pub channel_type: String,
    pub topic: Option<String>,
    pub position: i32,
}

pub ghost struct ChannelView {
    pub id: Seq<char>,
    pub room_id: Seq<char>,
    pub name: Seq<char>,
    pub created_at: Seq<char>,
    pub channel_type: Seq<char>,
    pub topic: Option<Seq<char>>,
    pub position: i32,
}

impl View for Channel {
    type V = ChannelView;

    open spec fn view(&self) -> ChannelView {
        ChannelView {
            id: self.id@,
            room_id: self.room_id@,
            name: self.name@,
            created_at: self.created_at@,
            channel_type: self.channel_type@,
            topic: opt_text(self.topic),
            position: self.position,
        }
    }
}

impl Clone for Channel {
    fn clone(&self) -> (r: Self)
        ensures
            r@ == self@,
    {
        Channel {
            id: self.id.clone(),
            room_id: self.room_id.clone(),
            name: self.name.clone(),
            created_at: self.created_at.clone(),
            channel_type: self.channel_type.clone(),
            topic: clone_opt(&self.topic),
            position: self.position,
        }
    }
}

/// The type of a channel where none is given.
pub fn default_channel_type() -> (t: String)
    ensures
        t@ == "text"@,
{
    "text".to_owned()
}

/// What is known of a peer.
#[derive(Debug, PartialEq, Eq)]
pub struct PeerInfo {
    pub peer_id: String,
    pub display_name: String,
    pub is_online: bool,
}

pub ghost struct PeerInfoView {
    pub peer_id: Seq<char>,
    pub display_name: Seq<char>,
    pub is_online: bool,
}

impl View for PeerInfo {
    type V = PeerInfoView;

    open spec fn view(&self) -> PeerInfoView {
        PeerInfoView {
            peer_id: self.peer_id@,
            display_name: self.display_name@,
            is_online: self.is_online,
        }
    }
}

impl Clone for PeerInfo {
    fn clone(&self) -> (r: Self)
        ensures
            r@ == self@,
    {
        PeerInfo {
            peer_id: self.peer_id.clone(),
            display_name: self.display_name.clone(),
            is_online: self.is_online,
        }
    }
}

/// The local identity as shown to the user.
#[derive(Debug, PartialEq, Eq)]
pub struct Identity {
    pub peer_id: String,
    pub display_name: String,
    pub avatar_hash: Option<String>,
    pub status_message: Option<String>,
    pub status_type: Option<String>,
}

pub ghost struct IdentityView {
    pub peer_id: Seq<char>,
    pub display_name: Seq<char>,
    pub avatar_hash: Option<Seq<char>>,
    pub status_message: Option<Seq<char>>,
    pub status_type: Option<Seq<char>>,
}

impl View for Identity {
    type V = IdentityView;

    open spec fn view(&self) -> IdentityView {
        IdentityView {
            peer_id: self.peer_id@,
            display_name: self.display_name@,
            avatar_hash: opt_text(self.avatar_hash),
            status_message: opt_text(self.status_message),
            status_type: opt_text(self.status_type),
        }
    }
}

impl Clone for Identity {
    fn clone(&self) -> (r: Self)
        ensures
            r@ == self@,
    {
        Identity {
            peer_id: self.peer_id.clone(),
            display_name: self.display_name.clone(),
            avatar_hash: clone_opt(&self.avatar_hash),
            status_message: clone_opt(&self.status_message),
            status_type: clone_opt(&self.status_type),
        }
    }
}

/// One peer's reaction to a message.
#[derive(Debug, PartialEq, Eq)]
pub struct Reaction {
    pub id: String,
    pub message_id: String,
    pub peer_id: String,
    pub emoji: String,
    pub created_at: String,
}

pub ghost struct ReactionView {
    pub id: Seq<char>,
    pub message_id: Seq<char>,
    pub peer_id: Seq<char>,
    pub emoji: Seq<char>,
    pub created_at: Seq<char>,
}

impl View for Reaction {
    type V = ReactionView;

    open spec fn view(&self) -> ReactionView {
        ReactionView {
            id: self.id@,
            message_id: self.message_id@,
            peer_id: self.peer_id@,
            emoji: self.emoji@,
            created_at: self.created_at@,
        }
    }
}

impl Clone for Reaction {
    fn clone(&self) -> (r: Self)
        ensures
            r@ == self@,
    {
        Reaction {
            id: self.id.clone(),
            message_id: self.message_id.clone(),
            peer_id: self.peer_id.clone(),
            emoji: self.emoji.clone(),
            created_at: self.created_at.clone(),
        }
    }
}

/// How far a peer has read in a channel.
#[derive(Debug, PartialEq, Eq)]
pub struct ReadReceipt {
    pub channel_id: String,
    pub peer_id: String,
    pub last_read_message_id: String,
    pub updated_at: String,
}

pub ghost struct ReadReceiptView {
    pub channel_id: Seq<char>,
    pub peer_id: Seq<char>,
    pub last_read_message_id: Seq<char>,
    pub updated_at: Seq<char>,
}

impl View for ReadReceipt {
    type V = ReadReceiptView;

    open spec fn view(&self) -> ReadReceiptView {
        ReadReceiptView {
            channel_id: self.channel_id@,
            peer_id: self.peer_id@,
            last_read_message_id: self.last_read_message_id@,
            updated_at: self.updated_at@,
        }
    }
}

impl Clone for ReadReceipt {
    fn clone(&self) -> (r: Self)
        ensures
            r@ == self@,
    {
        ReadReceipt {
            channel_id: self.channel_id.clone(),
            peer_id: self.peer_id.clone(),
            last_read_message_id: self.last_read_message_id.clone(),
            updated_at: self.updated_at.clone(),
        }
    }
}

/// A copy of a list of messages.
pub fn clone_messages(v: &Vec<Message>) -> (r: Vec<Message>)
    ensures
        views(r@) == views(v@),
{
    let mut r: Vec<Message> = Vec::new();
    let mut i: usize = 0;
    while i < v.len()
        invariant
            i <= v.len(),
            r@.len() == i,
            forall|k: int| 0 <= k < i ==> r@[k]@ == v@[k]@,
        decreases v.len() - i,
    {
        r.push(v[i].clone());
        i += 1;
    }
    assert(views(r@) =~= views(v@));
    r
}

/// One page of a full-text search with the total number of hits.
#[derive(Debug, PartialEq, Eq)]
pub struct SearchResult {
    pub messages: Vec<Message>,
    pub total: i64,
}

pub ghost struct SearchResultView {
    pub messages: Seq<MessageView>,
    pub total: i64,
}

impl View for SearchResult {
    type V = SearchResultView;

    open spec fn view(&self) -> SearchResultView {
        SearchResultView {
            messages: views(self.messages@),
            total: self.total,
        }
    }
}

impl Clone for SearchResult {
    fn clone(&self) -> (r: Self)
        ensures
            r@ == self@,
    {
        SearchResult {
            messages: clone_messages(&self.messages),
            total: self.total,
        }
    }
}

/// A direct-message conversation.
#[derive(Debug, PartialEq, Eq)]
pub struct DmConversation {
    pub id: String,
    pub is_group: bool,
    pub name: Option<String>,
    pub created_at: String,
}

pub ghost struct DmConversationView {
    pub id: Seq<char>,
    pub is_group: bool,
    pub name: Option<Seq<char>>,
    pub created_at: Seq<char>,
}

impl View for DmConversation {
    type V = DmConversationView;

    open spec fn view(&self) -> DmConversationView {
        DmConversationView {
            id: self.id@,
            is_group: self.is_group,
            name: opt_text(self.name),
            created_at: self.created_at@,
        }
    }
}

impl Clone for DmConversation {
    fn clone(&self) -> (r: Self)
        ensures
            r@ == self@,
    {
        DmConversation {
            id: self.id.clone(),
            is_group: self.is_group,
            name: clone_opt(&self.name),
            created_at: self.created_at.clone(),
        }
    }
}

/// A participant of a direct-message conversation.
#[derive(Debug, PartialEq, Eq)]
pub struct DmParticipant {
    pub conversation_id: String,
    pub peer_id: String,
    pub joined_at: String,
}

pub ghost struct DmParticipantView {
    pub conversation_id: Seq<char>,
    pub peer_id: Seq<char>,
    pub joined_at: Seq<char>,
}

impl View for DmParticipant {
    type V = DmParticipantView;

    open spec fn view(&self) -> DmParticipantView {
        DmParticipantView {
            conversation_id: self.conversation_id@,
            peer_id: self.peer_id@,
            joined_at: self.joined_at@,
        }
    }
}

impl Clone for DmParticipant {
    fn clone(&self) -> (r: Self)
        ensures
            r@ == self@,
    {
        DmParticipant {
            conversation_id: self.conversation_id.clone(),
            peer_id: self.peer_id.clone(),
            joined_at: self.joined_at.clone(),
        }
    }
}

/// A direct message as stored and shown.
#[derive(Debug, PartialEq, Eq)]
pub struct DmMessage {
    pub id: String,
    pub conversation_id: String,
    pub sender_peer_id: String,
    pub sender_display_name: String,
    pub content: String,
    pub timestamp: String,
}

pub ghost struct DmMessageView {
    pub id: Seq<char>,
    pub conversation_id: Seq<char>,
    pub sender_peer_id: Seq<char>,
    pub sender_display_name: Seq<char>,
    pub content: Seq<char>,
    pub timestamp: Seq<char>,
}

impl View for DmMessage {
    type V = DmMessageView;

    open spec fn view(&self) -> DmMessageView {
        DmMessageView {
            id: self.id@,
            conversation_id: self.conversation_id@,
            sender_peer_id: self.sender_peer_id@,
            sender_display_name: self.sender_display_name@,
            content: self.content@,
            timestamp: self.timestamp@,
        }
    }
}

impl Clone for DmMessage {
    fn clone(&self) -> (r: Self)
        ensures
            r@ == self@,
    {
        DmMessage {
            id: self.id.clone(),
            conversation_id: self.conversation_id.clone(),
            sender_peer_id: self.sender_peer_id.clone(),
            sender_display_name: self.sender_display_name.clone(),
            content: self.content.clone(),
            timestamp: self.timestamp.clone(),
        }
    }
}

/// The role of a peer in a room: `"owner"`, `"admin"`, `"moderator"` or `"member"`.
#[derive(Debug, PartialEq, Eq)]
pub struct RoomRole {
    pub id: String,
    pub room_id: String,
    pub peer_id: String,
    pub role: String,
    pub assigned_by: String,
    pub assigned_at: String,
}

pub ghost struct RoomRoleView {
    pub id: Seq<char>,
    pub room_id: Seq<char>,
    pub peer_id: Seq<char>,
    pub role: Seq<char>,
    pub assigned_by: Seq<char>,
    pub assigned_at: Seq<char>,
}

impl View for RoomRole {
    type V = RoomRoleView;

    open spec fn view(&self) -> RoomRoleView {
        RoomRoleView {
            id: self.id@,
            room_id: self.room_id@,
            peer_id: self.peer_id@,
            role: self.role@,
            assigned_by: self.assigned_by@,
            assigned_at: self.assigned_at@,
        }
    }
}

impl Clone for RoomRole {
    fn clone(&self) -> (r: Self)
        ensures
            r@ == self@,
    {
        RoomRole {
            id: self.id.clone(),
            room_id: self.room_id.clone(),
            peer_id: self.peer_id.clone(),
            role: self.role.clone(),
            assigned_by: self.assigned_by.clone(),
            assigned_at: self.assigned_at.clone(),
        }
    }
}

/// An entry of a room's moderation log; `action_type` is `"kick"`, `"ban"`,
/// `"mute"` or `"warn"`.
#[derive(Debug, PartialEq, Eq)]
pub struct ModerationAction {
    pub id: String,
    pub room_id: String,
    pub action_type: String,
    pub target_peer_id: String,
    pub moderator_peer_id: String,
    pub reason: Option<String>,
    pub created_at: String,
    pub expires_at: Option<String>,
}

pub ghost struct ModerationActionView {
    pub id: Seq<char>,
    pub room_id: Seq<char>,
    pub action_type: Seq<char>,
    pub target_peer_id: Seq<char>,
    pub moderator_peer_id: Seq<char>,
    pub reason: Option<Seq<char>>,
    pub created_at: Seq<char>,
    pub expires_at: Option<Seq<char>>,
}

impl View for ModerationAction {
    type V = ModerationActionView;

    open spec fn view(&self) -> ModerationActionView {
        ModerationActionView {
            id: self.id@,
            room_id: self.room_id@,
            action_type: self.action_type@,
            target_peer_id: self.target_peer_id@,
            moderator_peer_id: self.moderator_peer_id@,
            reason: opt_text(self.reason),
            created_at: self.created_at@,
            expires_at: opt_text(self.expires_at),
        }
    }
}

impl Clone for ModerationAction {
    fn clone(&self) -> (r: Self)
        ensures
            r@ == self@,
    {
        ModerationAction {
            id: self.id.clone(),
            room_id: self.room_id.clone(),
            action_type: self.action_type.clone(),
            target_peer_id: self.target_peer_id.clone(),
            moderator_peer_id: self.moderator_peer_id.clone(),
            reason: clone_opt(&self.reason),
            created_at: self.created_at.clone(),
            expires_at: clone_opt(&self.expires_at),
        }
    }
}

/// A message pinned in a channel.
#[derive(Debug, PartialEq, Eq)]
pub struct PinnedMessage {
    pub id: String,
    pub channel_id: String,
    pub message_id: String,
    pub pinned_by: String,
    pub pinned_at: String,
}

pub ghost struct PinnedMessageView {
    pub id: Seq<char>,
    pub channel_id: Seq<char>,
    pub message_id: Seq<char>,
    pub pinned_by: Seq<char>,
    pub pinned_at: Seq<char>,
}

impl View for PinnedMessage {
    type V = PinnedMessageView;

    open spec fn view(&self) -> PinnedMessageView {
        PinnedMessageView {
            id: self.id@,
            channel_id: self.channel_id@,
            message_id: self.message_id@,
            pinned_by: self.pinned_by@,
            pinned_at: self.pinned_at@,
        }
    }
}

impl Clone for PinnedMessage {
    fn clone(&self) -> (r: Self)
        ensures
            r@ == self@,
    {
        PinnedMessage {
            id: self.id.clone(),
            channel_id: self.channel_id.clone(),
            message_id: self.message_id.clone(),
            pinned_by: self.pinned_by.clone(),
            pinned_at: self.pinned_at.clone(),
        }
    }
}

/// A peer that the user has blocked.
#[derive(Debug, PartialEq, Eq)]
pub struct BlockedPeer {
    pub peer_id: String,
    pub blocked_at: String,
}

pub ghost struct BlockedPeerView {
    pub peer_id: Seq<char>,
    pub blocked_at: Seq<char>,
}

impl View for BlockedPeer {
    type V = BlockedPeerView;

    open spec fn view(&self) -> BlockedPeerView {
        BlockedPeerView {
            peer_id: self.peer_id@,
            blocked_at: self.blocked_at@,
        }
    }
}

impl Clone for BlockedPeer {
    fn clone(&self) -> (r: Self)
        ensures
            r@ == self@,
    {
        BlockedPeer {
            peer_id: self.peer_id.clone(),
            blocked_at: self.blocked_at.clone(),
        }
    }
}

/// What is recorded of a shared file.
#[derive(Debug, PartialEq, Eq)]
pub struct FileMetadata {
    pub id: String,
    pub filename: String,
    pub size: i64,
    pub mime_type: String,
    pub sha256_hash: String,
    pub chunk_count: i32,
    pub uploader_peer_id: String,
    pub created_at: String,
}

pub ghost struct FileMetadataView {
    pub id: Seq<char>,
    pub filename: Seq<char>,
    pub size: i64,
    pub mime_type: Seq<char>,
    pub sha256_hash: Seq<char>,
    pub chunk_count: i32,
    pub uploader_peer_id: Seq<char>,
    pub created_at: Seq<char>,
}

impl View for FileMetadata {
    type V = FileMetadataView;

    open spec fn view(&self) -> FileMetadataView {
        FileMetadataView {
            id: self.id@,
            filename: self.filename@,
            size: self.size,
            mime_type: self.mime_type@,
            sha256_hash: self.sha256_hash@,
            chunk_count: self.chunk_count,
            uploader_peer_id: self.uploader_peer_id@,
            created_at: self.created_at@,
        }
    }
}

impl Clone for FileMetadata {
    fn clone(&self) -> (r: Self)
        ensures
            r@ == self@,
    {
        FileMetadata {
            id: self.id.clone(),
            filename: self.filename.clone(),
            size: self.size,
            mime_type: self.mime_type.clone(),
            sha256_hash: self.sha256_hash.clone(),
            chunk_count: self.chunk_count,
            uploader_peer_id: self.uploader_peer_id.clone(),
            created_at: self.created_at.clone(),
        }
    }
}

/// The link between a message and a file attached to it.
#[derive(Debug, PartialEq, Eq)]
pub struct MessageAttachment {
    pub message_id: String,
    pub file_id: String,
}

pub ghost struct MessageAttachmentView {
    pub message_id: Seq<char>,
    pub file_id: Seq<char>,
}

impl View for MessageAttachment {
    type V = MessageAttachmentView;

    open spec fn view(&self) -> MessageAttachmentView {
        MessageAttachmentView {
            message_id: self.message_id@,
            file_id: self.file_id@,
        }
    }
}

impl Clone for MessageAttachment {
    fn clone(&self) -> (r: Self)
        ensures
            r@ == self@,
    {
        MessageAttachment {
            message_id: self.message_id.clone(),
            file_id: self.file_id.clone(),
        }
    }
}

/// What is shown of a link in a message.
#[derive(Debug, PartialEq, Eq)]
pub struct LinkPreview {
    pub url: String,
    pub title: Option<String>,
    pub description: Option<String>,
    pub image_url: Option<String>,
    pub site_name: Option<String>,
}

pub ghost struct LinkPreviewView {
    pub url: Seq<char>,
    pub title: Option<Seq<char>>,
    pub description: Option<Seq<char>>,
    pub image_url: Option<Seq<char>>,
    pub site_name: Option<Seq<char>>,
}

impl View for LinkPreview {
    type V = LinkPreviewView;

    open spec fn view(&self) -> LinkPreviewView {
        LinkPreviewView {
            url: self.url@,
            title: opt_text(self.title),
            description: opt_text(self.description),
            image_url: opt_text(self.image_url),
            site_name: opt_text(self.site_name),
        }
    }
}

impl Clone for LinkPreview {
    fn clone(&self) -> (r: Self)
        ensures
            r@ == self@,
    {
        LinkPreview {
            url: self.url.clone(),
            title: clone_opt(&self.title),
            description: clone_opt(&self.description),
            image_url: clone_opt(&self.image_url),
            site_name: clone_opt(&self.site_name),
        }
    }
}

/// A friend or a pending friend request; `status` is `"pending_outgoing"`,
/// `"pending_incoming"`, `"accepted"` or `"blocked"`.
#[derive(Debug, PartialEq, Eq)]
pub struct Friend {
    pub peer_id: String,
    pub display_name: String,
    pub status: String,
    pub created_at: String,
}

pub ghost struct FriendView {
    pub peer_id: Seq<char>,
    pub display_name: Seq<char>,
    pub status: Seq<char>,
    pub created_at: Seq<char>,
}

impl View for Friend {
    type V = FriendView;

    open spec fn view(&self) -> FriendView {
        FriendView {
            peer_id: self.peer_id@,
            display_name: self.display_name@,
            status: self.status@,
            created_at: self.created_at@,
        }
    }
}

impl Clone for Friend {
    fn clone(&self) -> (r: Self)
        ensures
            r@ == self@,
    {
        Friend {
            peer_id: self.peer_id.clone(),
            display_name: self.display_name.clone(),
            status: self.status.clone(),
            created_at: self.created_at.clone(),
        }
    }
}

/// One key of the settings with its value.
#[derive(Debug, PartialEq, Eq)]
pub struct Setting {
    pub key: String,
    pub value: String,
}

pub ghost struct SettingView {
    pub key: Seq<char>,
    pub value: Seq<char>,
}

impl View for Setting {
    type V = SettingView;

    open spec fn view(&self) -> SettingView {
        SettingView {
            key: self.key@,
            value: self.value@,
        }
    }
}

impl Clone for Setting {
    fn clone(&self) -> (r: Self)
        ensures
            r@ == self@,
    {
        Setting {
            key: self.key.clone(),
            value: self.value.clone(),
        }
    }
}

/// An emoji that a room has added.
#[derive(Debug, PartialEq, Eq)]
pub struct CustomEmoji {
    pub id: String,
    pub room_id: String,
    pub name: String,
    pub file_hash: String,
    pub uploaded_by: String,
    pub created_at: String,
}

pub ghost struct CustomEmojiView {
    pub id: Seq<char>,
    pub room_id: Seq<char>,
    pub name: Seq<char>,
    pub file_hash: Seq<char>,
    pub uploaded_by: Seq<char>,
    pub created_at: Seq<char>,
}

impl View for CustomEmoji {
    type V = CustomEmojiView;

    open spec fn view(&self) -> CustomEmojiView {
        CustomEmojiView {
            id: self.id@,
            room_id: self.room_id@,
            name: self.name@,
            file_hash: self.file_hash@,
            uploaded_by: self.uploaded_by@,
            created_at: self.created_at@,
        }
    }
}

impl Clone for CustomEmoji {
    fn clone(&self) -> (r: Self)
        ensures
            r@ == self@,
    {
        CustomEmoji {
            id: self.id.clone(),
            room_id: self.room_id.clone(),
            name: self.name.clone(),
            file_hash: self.file_hash.clone(),
            uploaded_by: self.uploaded_by.clone(),
            created_at: self.created_at.clone(),
        }
    }
}

/// The notification level of a channel or room: `target_type` is `"channel"`
/// or `"room"`, `level` is `"all"`, `"mentions"` or `"none"`.
#[derive(Debug, PartialEq, Eq)]
pub struct NotificationSetting {
    pub target_id: String,
    pub target_type: String,
    pub level: String,
}

pub ghost struct NotificationSettingView {
    pub target_id: Seq<char>,
    pub target_type: Seq<char>,
    pub level: Seq<char>,
}

impl View for NotificationSetting {
    type V = NotificationSettingView;

    open spec fn view(&self) -> NotificationSettingView {
        NotificationSettingView {
            target_id: self.target_id@,
            target_type: self.target_type@,
            level: self.level@,
        }
    }
}

impl Clone for NotificationSetting {
    fn clone(&self) -> (r: Self)
        ensures
            r@ == self@,
    {
        NotificationSetting {
            target_id: self.target_id.clone(),
            target_type: self.target_type.clone(),
            level: self.level.clone(),
        }
    }
}

} // verus!
