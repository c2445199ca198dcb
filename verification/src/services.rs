//! What the services of the application compute between reading and
//! writing: the records that they put into the store, the events that they
//! send, and the defaults of their listings.
//!
//! Identifiers and times are drawn by the caller and handed in.

use vstd::prelude::*;
use crate::events::{AppEvent, AppEventView};
use crate::media::audio::{AudioDevice, AudioDeviceView};
use crate::media::video::{CameraDevice, CameraDeviceView};
use crate::models::{
    CustomEmoji, CustomEmojiView, DmConversation, DmConversationView, DmMessage, DmMessageView,
    DmParticipant, DmParticipantView, FileMetadata, FileMetadataView, Friend, FriendView, Identity,
    IdentityView, Message, MessageAttachment, MessageAttachmentView, MessageView, ModerationAction,
    ModerationActionView, PinnedMessage, PinnedMessageView, Reaction, ReactionView, RoomRole,
    RoomRoleView, SearchResult, SearchResultView, Setting, SettingView,
};
use crate::text::{opt_text, str_equal, texts, views};

verus! {

/// How many messages a listing returns where the caller names no limit.
pub const DEFAULT_MESSAGE_LIMIT: i64 = 50;

/// How many hits a search returns where the caller names no limit.
pub const DEFAULT_SEARCH_LIMIT: i64 = 20;

/// The limit of a listing: what the caller asked for, or the default.
pub fn limit_or(limit: Option<i64>, default: i64) -> (n: i64)
    ensures
        n == (match limit {
            Some(l) => l,
            None => default,
        }),
{
    match limit {
        Some(l) => l,
        None => default,
    }
}

/// The messages of a listing that may be shown: those that are not deleted,
/// in their order.
pub open spec fn without_deleted(messages: Seq<MessageView>) -> Seq<MessageView>
    decreases messages.len(),
{
    if messages.len() == 0 {
        Seq::empty()
    } else if messages.last().deleted_at is None {
        without_deleted(messages.drop_last()).push(messages.last())
    } else {
        without_deleted(messages.drop_last())
    }
}

/// No message that may be shown is deleted, and each was in the listing.
pub proof fn lemma_none_deleted(messages: Seq<MessageView>, i: int)
    requires
        0 <= i < without_deleted(messages).len(),
    ensures
        without_deleted(messages)[i].deleted_at is None,
        messages.contains(without_deleted(messages)[i]),
    decreases messages.len(),
{
    let rest = messages.drop_last();
    let last = messages.last();
    if last.deleted_at is None && i == without_deleted(rest).len() {
        assert(messages[messages.len() - 1] == last);
    } else {
        lemma_none_deleted(rest, i);
        let m = without_deleted(rest)[i];
        let j = choose|j: int| 0 <= j < rest.len() && rest[j] == m;
        assert(messages[j] == m);
    }
}

/// Takes the deleted messages out of a listing. Whatever the store hands
/// out, a listing or a search never shows a message that was deleted.
pub fn hide_deleted(messages: Vec<Message>) -> (shown: Vec<Message>)
    ensures
        views(shown@) == without_deleted(views(messages@)),
        forall|i: int| 0 <= i < shown@.len() ==> (#[trigger] shown@[i]).deleted_at is None,
{
    let mut shown: Vec<Message> = Vec::new();
    let ghost all = views(messages@);
    let mut i: usize = 0;
    assert(all.take(0) =~= Seq::<MessageView>::empty());
    assert(views(shown@) =~= Seq::<MessageView>::empty());
    while i < messages.len()
        invariant
            i <= messages.len(),
            all == views(messages@),
            views(shown@) == without_deleted(all.take(i as int)),
            forall|k: int| 0 <= k < shown@.len() ==> (#[trigger] shown@[k]).deleted_at is None,
        decreases messages.len() - i,
    {
        let ghost done = views(shown@);
        let ghost next = all.take(i + 1);
        assert(next.drop_last() =~= all.take(i as int));
        assert(next.last() == messages@[i as int]@);
        if messages[i].deleted_at.is_none() {
            shown.push(messages[i].clone());
            let ghost added = shown@[shown@.len() - 1];
            assert(added@ == messages@[i as int]@);
            assert(crate::text::opt_text(added.deleted_at) is None);
            assert(views(shown@) =~= done.push(messages@[i as int]@));
        }
        i += 1;
    }
    assert(all.take(all.len() as int) =~= all);
    shown
}

/// A page of a search with the deleted messages taken out.
pub fn shown_search(result: SearchResult) -> (shown: SearchResult)
    ensures
        shown@ == (SearchResultView {
            messages: without_deleted(result@.messages),
            total: result@.total,
        }),
{
    SearchResult { messages: hide_deleted(result.messages), total: result.total }
}

/// An optional string slice as an owned optional string.
pub fn owned_opt(o: Option<&str>) -> (r: Option<String>)
    ensures
        opt_text(r) == (match o {
            Some(s) => Some(s@),
            None => None,
        }),
{
    match o {
        Some(s) => Some(s.to_owned()),
        None => None,
    }
}

/// The message that the local user sends to a channel.
pub fn compose_message(
    id: &str,
    channel_id: &str,
    sender_peer_id: &str,
    sender_display_name: &str,
    content: &str,
    timestamp: &str,
    reply_to_id: Option<&str>,
) -> (r: Message)
    ensures
        r@ == (MessageView {
            id: id@,
            channel_id: channel_id@,
            sender_peer_id: sender_peer_id@,
            sender_display_name: sender_display_name@,
            content: content@,
            timestamp: timestamp@,
            edited_at: None,
            deleted_at: None,
            reply_to_id: match reply_to_id {
                Some(s) => Some(s@),
                None => None,
            },
        }),
{
    Message {
        id: id.to_owned(),
        channel_id: channel_id.to_owned(),
        sender_peer_id: sender_peer_id.to_owned(),
        sender_display_name: sender_display_name.to_owned(),
        content: content.to_owned(),
        timestamp: timestamp.to_owned(),
        edited_at: None,
        deleted_at: None,
        reply_to_id: owned_opt(reply_to_id),
    }
}

/// The reaction that the local user puts on a message.
pub fn compose_reaction(
    id: &str,
    message_id: &str,
    peer_id: &str,
    emoji: &str,
    created_at: &str,
) -> (r: Reaction)
    ensures
        r@ == (ReactionView {
            id: id@,
            message_id: message_id@,
            peer_id: peer_id@,
            emoji: emoji@,
            created_at: created_at@,
        }),
{
    Reaction {
        id: id.to_owned(),
        message_id: message_id.to_owned(),
        peer_id: peer_id.to_owned(),
        emoji: emoji.to_owned(),
        created_at: created_at.to_owned(),
    }
}

/// The pin that the local user puts on a message.
pub fn compose_pin(
    id: &str,
    channel_id: &str,
    message_id: &str,
    pinned_by: &str,
    pinned_at: &str,
) -> (r: PinnedMessage)
    ensures
        r@ == (PinnedMessageView {
            id: id@,
            channel_id: channel_id@,
            message_id: message_id@,
            pinned_by: pinned_by@,
            pinned_at: pinned_at@,
        }),
{
    PinnedMessage {
        id: id.to_owned(),
        channel_id: channel_id.to_owned(),
        message_id: message_id.to_owned(),
        pinned_by: pinned_by.to_owned(),
        pinned_at: pinned_at.to_owned(),
    }
}

/// A conversation with `peer_count` other peers: a group if they are more than one.
pub fn compose_dm_conversation(
    id: &str,
    peer_count: usize,
    name: Option<&str>,
    created_at: &str,
) -> (r: DmConversation)
    ensures
        r@ == (DmConversationView {
            id: id@,
            is_group: peer_count > 1,
            name: match name {
                Some(s) => Some(s@),
                None => None,
            },
            created_at: created_at@,
        }),
{
    DmConversation {
        id: id.to_owned(),
        is_group: peer_count > 1,
        name: owned_opt(name),
        created_at: created_at.to_owned(),
    }
}

/// The direct message that the local user sends.
pub fn compose_dm_message(
    id: &str,
    conversation_id: &str,
    sender_peer_id: &str,
    sender_display_name: &str,
    content: &str,
    timestamp: &str,
) -> (r: DmMessage)
    ensures
        r@ == (DmMessageView {
            id: id@,
            conversation_id: conversation_id@,
            sender_peer_id: sender_peer_id@,
            sender_display_name: sender_display_name@,
            content: content@,
            timestamp: timestamp@,
        }),
{
    DmMessage {
        id: id.to_owned(),
        conversation_id: conversation_id.to_owned(),
        sender_peer_id: sender_peer_id.to_owned(),
        sender_display_name: sender_display_name.to_owned(),
        content: content.to_owned(),
        timestamp: timestamp.to_owned(),
    }
}

/// The friend that a request of the local user makes: pending, outgoing.
pub fn compose_friend_request(peer_id: &str, display_name: &str, created_at: &str) -> (r: Friend)
    ensures
        r@ == (FriendView {
            peer_id: peer_id@,
            display_name: display_name@,
            status: "pending_outgoing"@,
            created_at: created_at@,
        }),
{
    Friend {
        peer_id: peer_id.to_owned(),
        display_name: display_name.to_owned(),
        status: "pending_outgoing".to_owned(),
        created_at: created_at.to_owned(),
    }
}

/// An entry of the moderation log of a room, made by the local user.
pub fn compose_moderation(
    id: &str,
    room_id: &str,
    action_type: &str,
    target_peer_id: &str,
    moderator_peer_id: &str,
    reason: Option<&str>,
    created_at: &str,
    expires_at: Option<&str>,
) -> (r: ModerationAction)
    ensures
        r@ == (ModerationActionView {
            id: id@,
            room_id: room_id@,
            action_type: action_type@,
            target_peer_id: target_peer_id@,
            moderator_peer_id: moderator_peer_id@,
            reason: match reason {
                Some(s) => Some(s@),
                None => None,
            },
            created_at: created_at@,
            expires_at: match expires_at {
                Some(s) => Some(s@),
                None => None,
            },
        }),
{
    ModerationAction {
        id: id.to_owned(),
        room_id: room_id.to_owned(),
        action_type: action_type.to_owned(),
        target_peer_id: target_peer_id.to_owned(),
        moderator_peer_id: moderator_peer_id.to_owned(),
        reason: owned_opt(reason),
        created_at: created_at.to_owned(),
        expires_at: owned_opt(expires_at),
    }
}

/// The role that the local user gives to a peer in a room.
pub fn compose_role(
    id: &str,
    room_id: &str,
    peer_id: &str,
    role: &str,
    assigned_by: &str,
    assigned_at: &str,
) -> (r: RoomRole)
    ensures
        r@ == (RoomRoleView {
            id: id@,
            room_id: room_id@,
            peer_id: peer_id@,
            role: role@,
            assigned_by: assigned_by@,
            assigned_at: assigned_at@,
        }),
{
    RoomRole {
        id: id.to_owned(),
        room_id: room_id.to_owned(),
        peer_id: peer_id.to_owned(),
        role: role.to_owned(),
        assigned_by: assigned_by.to_owned(),
        assigned_at: assigned_at.to_owned(),
    }
}

/// The record of a file that the local user shares.
pub fn compose_file(
    id: &str,
    filename: &str,
    size: i64,
    mime_type: &str,
    sha256_hash: &str,
    chunk_count: i32,
    uploader_peer_id: &str,
    created_at: &str,
) -> (r: FileMetadata)
    ensures
        r@ == (FileMetadataView {
            id: id@,
            filename: filename@,
            size: size,
            mime_type: mime_type@,
            sha256_hash: sha256_hash@,
            chunk_count: chunk_count,
            uploader_peer_id: uploader_peer_id@,
            created_at: created_at@,
        }),
{
    FileMetadata {
        id: id.to_owned(),
        filename: filename.to_owned(),
        size: size,
        mime_type: mime_type.to_owned(),
        sha256_hash: sha256_hash.to_owned(),
        chunk_count: chunk_count,
        uploader_peer_id: uploader_peer_id.to_owned(),
        created_at: created_at.to_owned(),
    }
}

/// The link between a message and a file.
pub fn compose_attachment(message_id: &str, file_id: &str) -> (r: MessageAttachment)
    ensures
        r@ == (MessageAttachmentView {
            message_id: message_id@,
            file_id: file_id@,
        }),
{
    MessageAttachment {
        message_id: message_id.to_owned(),
        file_id: file_id.to_owned(),
    }
}

/// The emoji that the local user adds to a room.
pub fn compose_emoji(
    id: &str,
    room_id: &str,
    name: &str,
    file_hash: &str,
    uploaded_by: &str,
    created_at: &str,
) -> (r: CustomEmoji)
    ensures
        r@ == (CustomEmojiView {
            id: id@,
            room_id: room_id@,
            name: name@,
            file_hash: file_hash@,
            uploaded_by: uploaded_by@,
            created_at: created_at@,
        }),
{
    CustomEmoji {
        id: id.to_owned(),
        room_id: room_id.to_owned(),
        name: name.to_owned(),
        file_hash: file_hash.to_owned(),
        uploaded_by: uploaded_by.to_owned(),
        created_at: created_at.to_owned(),
    }
}

/// The local identity: the peer id with the profile from the store.
pub fn compose_identity(
    peer_id: &str,
    display_name: &str,
    avatar_hash: Option<&str>,
    status_message: Option<&str>,
    status_type: Option<&str>,
) -> (r: Identity)
    ensures
        r@ == (IdentityView {
            peer_id: peer_id@,
            display_name: display_name@,
            avatar_hash: match avatar_hash {
                Some(s) => Some(s@),
                None => None,
            },
            status_message: match status_message {
                Some(s) => Some(s@),
                None => None,
            },
            status_type: match status_type {
                Some(s) => Some(s@),
                None => None,
            },
        }),
{
    Identity {
        peer_id: peer_id.to_owned(),
        display_name: display_name.to_owned(),
        avatar_hash: owned_opt(avatar_hash),
        status_message: owned_opt(status_message),
        status_type: owned_opt(status_type),
    }
}

/// The participants of a new conversation: the local peer first, then the
/// others in the order given, all joined at the same time.
pub open spec fn participants_view(
    conversation_id: Seq<char>,
    own_peer_id: Seq<char>,
    peer_ids: Seq<Seq<char>>,
    joined_at: Seq<char>,
) -> Seq<DmParticipantView> {
    Seq::new(
        peer_ids.len() + 1,
        |i: int|
            DmParticipantView {
                conversation_id,
                peer_id: if i == 0 {
                    own_peer_id
                } else {
                    peer_ids[i - 1]
                },
                joined_at,
            },
    )
}

/// The participants of a new conversation.
pub fn compose_participants(
    conversation_id: &str,
    own_peer_id: &str,
    peer_ids: &Vec<String>,
    joined_at: &str,
) -> (r: Vec<DmParticipant>)
    ensures
        views(r@) == participants_view(conversation_id@, own_peer_id@, texts(peer_ids@), joined_at@),
{
    let mut r: Vec<DmParticipant> = Vec::new();
    r.push(
        DmParticipant {
            conversation_id: conversation_id.to_owned(),
            peer_id: own_peer_id.to_owned(),
            joined_at: joined_at.to_owned(),
        },
    );
    let mut i: usize = 0;
    while i < peer_ids.len()
        invariant
            i <= peer_ids.len(),
            r@.len() == i + 1,
            forall|k: int|
                0 <= k <= i ==> (#[trigger] r@[k])@ == participants_view(
                    conversation_id@,
                    own_peer_id@,
                    texts(peer_ids@),
                    joined_at@,
                )[k],
        decreases peer_ids.len() - i,
    {
        r.push(
            DmParticipant {
                conversation_id: conversation_id.to_owned(),
                peer_id: peer_ids[i].clone(),
                joined_at: joined_at.to_owned(),
            },
        );
        i += 1;
    }
    assert(views(r@) =~= participants_view(
        conversation_id@,
        own_peer_id@,
        texts(peer_ids@),
        joined_at@,
    ));
    r
}

/// The settings that pairs of key and value stand for.
pub open spec fn settings_view(pairs: Seq<(String, String)>) -> Seq<SettingView> {
    Seq::new(pairs.len(), |i: int| SettingView { key: pairs[i].0@, value: pairs[i].1@ })
}

/// The settings that pairs of key and value stand for, in their order.
pub fn settings_from_pairs(pairs: Vec<(String, String)>) -> (r: Vec<Setting>)
    ensures
        views(r@) == settings_view(pairs@),
{
    let mut r: Vec<Setting> = Vec::new();
    let mut i: usize = 0;
    while i < pairs.len()
        invariant
            i <= pairs.len(),
            r@.len() == i,
            forall|k: int| 0 <= k < i ==> (#[trigger] r@[k])@ == settings_view(pairs@)[k],
        decreases pairs.len() - i,
    {
        r.push(Setting { key: pairs[i].0.clone(), value: pairs[i].1.clone() });
        i += 1;
    }
    assert(views(r@) =~= settings_view(pairs@));
    r
}

/// The event that tells that a peer started or stopped to type.
pub fn typing_event(channel_id: &str, peer_id: &str, display_name: &str, typing: bool) -> (e:
    AppEvent)
    ensures
        e@ == (if typing {
            AppEventView::TypingStarted {
                channel_id: channel_id@,
                peer_id: peer_id@,
                display_name: display_name@,
            }
        } else {
            AppEventView::TypingStopped { channel_id: channel_id@, peer_id: peer_id@ }
        }),
{
    if typing {
        AppEvent::TypingStarted {
            channel_id: channel_id.to_owned(),
            peer_id: peer_id.to_owned(),
            display_name: display_name.to_owned(),
        }
    } else {
        AppEvent::TypingStopped { channel_id: channel_id.to_owned(), peer_id: peer_id.to_owned() }
    }
}

/// The audio devices of one direction as shown to the user: each with its
/// name, and the one whose name is that of the default device marked.
pub open spec fn devices_view(names: Seq<Seq<char>>, default_name: Option<Seq<char>>, is_input: bool) -> Seq<
    AudioDeviceView,
> {
    Seq::new(
        names.len(),
        |i: int|
            AudioDeviceView { name: names[i], is_input, is_default: default_name == Some(names[i]) },
    )
}

/// The audio devices of one direction as shown to the user.
pub fn audio_devices(names: &Vec<String>, default_name: Option<&str>, is_input: bool) -> (r: Vec<
    AudioDevice,
>)
    ensures
        views(r@) == devices_view(
            texts(names@),
            match default_name {
                Some(d) => Some(d@),
                None => None,
            },
            is_input,
        ),
{
    let mut r: Vec<AudioDevice> = Vec::new();
    let ghost want = devices_view(
        texts(names@),
        match default_name {
            Some(d) => Some(d@),
            None => None,
        },
        is_input,
    );
    let mut i: usize = 0;
    while i < names.len()
        invariant
            i <= names.len(),
            r@.len() == i,
            want == devices_view(
                texts(names@),
                match default_name {
                    Some(d) => Some(d@),
                    None => None,
                },
                is_input,
            ),
            forall|k: int| 0 <= k < i ==> (#[trigger] r@[k])@ == want[k],
        decreases names.len() - i,
    {
        let is_default = match default_name {
            Some(d) => str_equal(d, names[i].as_str()),
            None => false,
        };
        r.push(AudioDevice { name: names[i].clone(), is_input, is_default });
        i += 1;
    }
    assert(views(r@) =~= want);
    r
}

/// The cameras as shown to the user: each with the index that it reports, or
/// the low thirty-two bits of its place in the list where it reports none,
/// and the first one marked as the default.
pub open spec fn cameras_view(found: Seq<(Option<u32>, String)>) -> Seq<CameraDeviceView> {
    Seq::new(
        found.len(),
        |i: int|
            CameraDeviceView {
                index: match found[i].0 {
                    Some(index) => index,
                    None => (i % 0x1_0000_0000) as u32,
                },
                name: found[i].1@,
                is_default: i == 0,
            },
    )
}

/// The cameras as shown to the user.
pub fn camera_devices(found: &Vec<(Option<u32>, String)>) -> (r: Vec<CameraDevice>)
    ensures
        views(r@) == cameras_view(found@),
{
    let mut r: Vec<CameraDevice> = Vec::new();
    let mut i: usize = 0;
    while i < found.len()
        invariant
            i <= found.len(),
            r@.len() == i,
            forall|k: int| 0 <= k < i ==> (#[trigger] r@[k])@ == cameras_view(found@)[k],
        decreases found.len() - i,
    {
        let index = match found[i].0 {
            Some(index) => index,
            None => (i as u64 % 0x1_0000_0000) as u32,
        };
        r.push(CameraDevice { index, name: found[i].1.clone(), is_default: i == 0 });
        i += 1;
    }
    assert(views(r@) =~= cameras_view(found@));
    r
}

} // verus!
