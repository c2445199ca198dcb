//! Rooms and channels: the channel id that all peers agree on without
//! talking, invite codes, and the steps by which an invite code becomes a
//! room.

use vstd::prelude::*;
use vstd::std_specs::hash::DefaultHasherAdditionalSpecFns;
use vstd::string::*;
use std::collections::hash_map::DefaultHasher;
use std::hash::Hasher;
use crate::models::{Channel, ChannelView, Room, RoomView};
use crate::network::actions::{RoomRef, RoomRefView};
use crate::outside::{fresh_id, is_uuid_text, now_rfc3339, random_index};
use crate::text::{opt_text, opt_view, push_char};

verus! {

/// The hexadecimal digit of a number below sixteen, in lower case.
pub open spec fn hex_char(d: int) -> char {
    if d == 0 {
        '0'
    } else if d == 1 {
        '1'
    } else if d == 2 {
        '2'
    } else if d == 3 {
        '3'
    } else if d == 4 {
        '4'
    } else if d == 5 {
        '5'
    } else if d == 6 {
        '6'
    } else if d == 7 {
        '7'
    } else if d == 8 {
        '8'
    } else if d == 9 {
        '9'
    } else if d == 10 {
        'a'
    } else if d == 11 {
        'b'
    } else if d == 12 {
        'c'
    } else if d == 13 {
        'd'
    } else if d == 14 {
        'e'
    } else {
        'f'
    }
}

/// The last `width` hexadecimal digits of `v`, padded with zeros.
pub open spec fn hex_fixed(v: nat, width: nat) -> Seq<char>
    decreases width,
{
    if width == 0 {
        Seq::empty()
    } else {
        hex_fixed(v / 16, (width - 1) as nat).push(hex_char((v % 16) as int))
    }
}

/// The channel id that a 64-bit hash is written as: five groups of eight,
/// four, four, four and twelve hexadecimal digits, cut out of the hash as
/// its upper half, its second-lowest and lowest sixteen bits, its highest
/// sixteen bits and its lower forty-eight bits.
pub open spec fn channel_id_text(hash: u64) -> Seq<char> {
    let h = hash as nat;
    hex_fixed(h / 0x1_0000_0000, 8) + seq!['-'] + hex_fixed((h / 0x1_0000) % 0x1_0000, 4) + seq![
        '-',
    ] + hex_fixed(h % 0x1_0000, 4) + seq!['-'] + hex_fixed(h / 0x1_0000_0000_0000, 4) + seq!['-']
        + hex_fixed(h % 0x1_0000_0000_0000, 12)
}

/// What hashing a string writes into a hasher, as the `Hash` of `str` does.
pub uninterp spec fn str_hash_writes(s: Seq<char>) -> Seq<Seq<u8>>;

/// The hash of a room id and a channel name: what the default hasher of the
/// standard library makes of the two strings, hashed one after the other.
pub open spec fn channel_hash(room_id: Seq<char>, channel_name: Seq<char>) -> u64 {
    DefaultHasher::spec_finish(str_hash_writes(room_id) + str_hash_writes(channel_name))
}

/// Feeds a string to a hasher with `Hash::hash` of `str`. Claimed: what is
/// written depends on the text alone and follows what was written before.
#[verifier::external_body]
fn hash_str(state: &mut DefaultHasher, s: &str)
    ensures
        final(state)@ == old(state)@ + str_hash_writes(s@),
{
    std::hash::Hash::hash(s, state);
}

pub(crate) fn hex_digit(d: u64) -> (c: char)
    requires
        d < 16,
    ensures
        c == hex_char(d as int),
{
    if d == 0 {
        '0'
    } else if d == 1 {
        '1'
    } else if d == 2 {
        '2'
    } else if d == 3 {
        '3'
    } else if d == 4 {
        '4'
    } else if d == 5 {
        '5'
    } else if d == 6 {
        '6'
    } else if d == 7 {
        '7'
    } else if d == 8 {
        '8'
    } else if d == 9 {
        '9'
    } else if d == 10 {
        'a'
    } else if d == 11 {
        'b'
    } else if d == 12 {
        'c'
    } else if d == 13 {
        'd'
    } else if d == 14 {
        'e'
    } else {
        'f'
    }
}

/// Appends the last `width` hexadecimal digits of `v`.
fn push_hex(out: &mut String, v: u64, width: u8)
    ensures
        final(out)@ == old(out)@ + hex_fixed(v as nat, width as nat),
    decreases width,
{
    if width == 0 {
        assert(out@ =~= old(out)@ + hex_fixed(v as nat, 0));
    } else {
        push_hex(out, v / 16, width - 1);
        push_char(out, hex_digit(v % 16));
        assert(out@ =~= old(out)@ + hex_fixed(v as nat, width as nat));
    }
}

/// Writes a 64-bit hash as a channel id.
pub fn format_channel_id(hash: u64) -> (id: String)
    ensures
        id@ == channel_id_text(hash),
{
    let mut id = String::new();
    push_hex(&mut id, hash / 0x1_0000_0000, 8);
    push_char(&mut id, '-');
    push_hex(&mut id, (hash / 0x1_0000) % 0x1_0000, 4);
    push_char(&mut id, '-');
    push_hex(&mut id, hash % 0x1_0000, 4);
    push_char(&mut id, '-');
    push_hex(&mut id, hash / 0x1_0000_0000_0000, 4);
    push_char(&mut id, '-');
    push_hex(&mut id, hash % 0x1_0000_0000_0000, 12);
    assert(id@ =~= channel_id_text(hash));
    id
}

/// The id of the channel `channel_name` of the room `room_id`. It depends on
/// the two texts alone, so that every peer computes the same id.
pub fn deterministic_channel_id(room_id: &str, channel_name: &str) -> (id: String)
    ensures
        id@ == channel_id_text(channel_hash(room_id@, channel_name@)),
{
    let mut hasher = DefaultHasher::new();
    hash_str(&mut hasher, room_id);
    hash_str(&mut hasher, channel_name);
    let hash = hasher.finish();
    assert(hasher@ =~= str_hash_writes(room_id@) + str_hash_writes(channel_name@));
    format_channel_id(hash)
}

/// A channel id has thirty-six characters.
pub proof fn lemma_channel_id_length(hash: u64)
    ensures
        channel_id_text(hash).len() == 36,
{
    lemma_hex_length((hash as nat) / 0x1_0000_0000, 8);
    lemma_hex_length(((hash as nat) / 0x1_0000) % 0x1_0000, 4);
    lemma_hex_length((hash as nat) % 0x1_0000, 4);
    lemma_hex_length((hash as nat) / 0x1_0000_0000_0000, 4);
    lemma_hex_length((hash as nat) % 0x1_0000_0000_0000, 12);
}

/// A number written with `width` digits has `width` characters.
pub proof fn lemma_hex_length(v: nat, width: nat)
    ensures
        hex_fixed(v, width).len() == width,
    decreases width,
{
    if width > 0 {
        lemma_hex_length(v / 16, (width - 1) as nat);
    }
}

/// The characters of an invite code: capital letters and digits without
/// `0`, `O`, `1`, `I` and `L`.
pub const INVITE_ALPHABET: &'static str = "ABCDEFGHJKMNPQRSTUVWXYZ23456789";

/// The number of characters of an invite code.
pub const INVITE_CODE_LENGTH: usize = 8;

/// The invite code that a row of picks stands for: each pick chooses a
/// character of the alphabet, counting round its end.
pub open spec fn invite_code_text(picks: Seq<usize>) -> Seq<char> {
    Seq::new(picks.len(), |i: int| INVITE_ALPHABET@[(picks[i] % 31) as int])
}

/// Whether a text has the shape of an invite code.
pub open spec fn is_invite_code(code: Seq<char>) -> bool {
    &&& code.len() == INVITE_CODE_LENGTH
    &&& forall|i: int| 0 <= i < code.len() ==> INVITE_ALPHABET@.contains(#[trigger] code[i])
}

/// The invite code that a row of picks stands for.
pub fn invite_code_from(picks: &[usize]) -> (code: String)
    ensures
        code@ == invite_code_text(picks@),
{
    proof {
        reveal_strlit("ABCDEFGHJKMNPQRSTUVWXYZ23456789");
    }
    let mut code = String::new();
    let mut i: usize = 0;
    while i < picks.len()
        invariant
            i <= picks.len(),
            INVITE_ALPHABET@.len() == 31,
            code@ == invite_code_text(picks@.take(i as int)),
        decreases picks.len() - i,
    {
        let ghost before = code@;
        push_char(&mut code, INVITE_ALPHABET.get_char(picks[i] % 31));
        assert(code@ =~= invite_code_text(picks@.take(i + 1)));
        i += 1;
    }
    assert(picks@.take(picks@.len() as int) =~= picks@);
    code
}

/// Eight picks make an invite code.
pub proof fn lemma_invite_code_shape(picks: Seq<usize>)
    requires
        picks.len() == INVITE_CODE_LENGTH,
    ensures
        is_invite_code(invite_code_text(picks)),
{
    reveal_strlit("ABCDEFGHJKMNPQRSTUVWXYZ23456789");
    let code = invite_code_text(picks);
    assert forall|i: int| 0 <= i < code.len() implies INVITE_ALPHABET@.contains(
        #[trigger] code[i],
    ) by {
        let j = (picks[i] % 31) as int;
        assert(INVITE_ALPHABET@[j] == code[i]);
    }
}

/// A new invite code, drawn at random.
pub fn generate_invite_code() -> (code: String)
    ensures
        is_invite_code(code@),
{
    let mut picks: Vec<usize> = Vec::new();
    while picks.len() < INVITE_CODE_LENGTH
        invariant
            picks@.len() <= INVITE_CODE_LENGTH,
        decreases INVITE_CODE_LENGTH - picks@.len(),
    {
        picks.push(random_index(31));
    }
    proof {
        lemma_invite_code_shape(picks@);
    }
    invite_code_from(picks.as_slice())
}

/// The name of the channel that every room starts with.
pub const GENERAL_CHANNEL: &'static str = "general";

/// A channel as it is when it was just made under the id `id`: without
/// topic, in first place.
pub open spec fn channel_with_id_view(
    id: Seq<char>,
    room_id: Seq<char>,
    name: Seq<char>,
    channel_type: Seq<char>,
    now: Seq<char>,
) -> ChannelView {
    ChannelView { id, room_id, name, created_at: now, channel_type, topic: None, position: 0 }
}

/// A channel as it is when it was just made under the id that all peers
/// agree on.
pub open spec fn new_channel_view(
    room_id: Seq<char>,
    name: Seq<char>,
    channel_type: Seq<char>,
    now: Seq<char>,
) -> ChannelView {
    channel_with_id_view(
        channel_id_text(channel_hash(room_id, name)),
        room_id,
        name,
        channel_type,
        now,
    )
}

/// The type of a channel where none is given.
pub open spec fn type_or_text(channel_type: Option<&str>) -> Seq<char> {
    match channel_type {
        Some(t) => t@,
        None => "text"@,
    }
}

/// The channel `name` of a room under the id `id`, made at `now`. Its type
/// is `channel_type`, or text where none is given.
pub fn channel_with_id(
    id: String,
    room_id: &str,
    name: &str,
    channel_type: Option<&str>,
    now: &str,
) -> (channel: Channel)
    ensures
        channel@ == channel_with_id_view(id@, room_id@, name@, type_or_text(channel_type), now@),
{
    Channel {
        id,
        room_id: room_id.to_owned(),
        name: name.to_owned(),
        created_at: now.to_owned(),
        channel_type: match channel_type {
            Some(t) => t.to_owned(),
            None => "text".to_owned(),
        },
        topic: None,
        position: 0,
    }
}

/// The channel `name` of a room under the id that all peers agree on, made
/// at `now`: the channel that a room starts with is made so. Its type is
/// `channel_type`, or text where none is given.
pub fn new_channel(room_id: &str, name: &str, channel_type: Option<&str>, now: &str) -> (channel:
    Channel)
    ensures
        channel@ == new_channel_view(room_id@, name@, type_or_text(channel_type), now@),
{
    channel_with_id(deterministic_channel_id(room_id, name), room_id, name, channel_type, now)
}

/// Creates a channel that a user adds to a room: draws its id at random and
/// reads the clock.
pub fn create_channel(room_id: &str, name: &str, channel_type: Option<&str>) -> (channel: Channel)
    ensures
        exists|id: Seq<char>, now: Seq<char>|
            is_uuid_text(id) && channel@ == #[trigger] channel_with_id_view(
                id,
                room_id@,
                name@,
                type_or_text(channel_type),
                now,
            ),
{
    let id = fresh_id();
    let now = now_rfc3339();
    let channel = channel_with_id(id, room_id, name, channel_type, now.as_str());
    assert(channel@ == channel_with_id_view(
        id@,
        room_id@,
        name@,
        type_or_text(channel_type),
        now@,
    ));
    channel
}

/// A room together with the channel that it starts with.
#[derive(Debug, PartialEq, Eq)]
pub struct RoomSetup {
    pub room: Room,
    pub general: Channel,
}

pub ghost struct RoomSetupView {
    pub room: RoomView,
    pub general: ChannelView,
}

impl View for RoomSetup {
    type V = RoomSetupView;

    open spec fn view(&self) -> RoomSetupView {
        RoomSetupView { room: self.room@, general: self.general@ }
    }
}

/// A room with its first channel, as it is set up at `now`.
pub open spec fn room_setup_view(
    room_id: Seq<char>,
    name: Seq<char>,
    invite_code: Seq<char>,
    owner: Option<Seq<char>>,
    now: Seq<char>,
) -> RoomSetupView {
    RoomSetupView {
        room: RoomView { id: room_id, name, invite_code, created_at: now, owner_peer_id: owner },
        general: new_channel_view(room_id, GENERAL_CHANNEL@, "text"@, now),
    }
}

/// Sets up a room with its `general` channel. The creator of a room passes
/// itself as `owner`, a peer that joins passes none.
pub fn setup_room(room_id: &str, name: &str, invite_code: &str, owner: Option<&str>, now: &str) -> (
setup: RoomSetup)
    ensures
        setup@ == room_setup_view(
            room_id@,
            name@,
            invite_code@,
            match owner {
                Some(o) => Some(o@),
                None => None,
            },
            now@,
        ),
{
    RoomSetup {
        room: Room {
            id: room_id.to_owned(),
            name: name.to_owned(),
            invite_code: invite_code.to_owned(),
            created_at: now.to_owned(),
            owner_peer_id: match owner {
                Some(o) => Some(o.to_owned()),
                None => None,
            },
        },
        general: new_channel(room_id, GENERAL_CHANNEL, None, now),
    }
}

/// Creates a room named `name` for `owner`: draws its id and its invite code
/// and reads the clock.
pub fn create_room(name: &str, owner: &str) -> (setup: RoomSetup)
    ensures
        exists|room_id: Seq<char>, invite_code: Seq<char>, now: Seq<char>|
            is_uuid_text(room_id) && is_invite_code(invite_code) && setup@ == #[trigger] room_setup_view(
                room_id,
                name@,
                invite_code,
                Some(owner@),
                now,
            ),
{
    let room_id = fresh_id();
    let invite_code = generate_invite_code();
    let now = now_rfc3339();
    setup_room(room_id.as_str(), name, invite_code.as_str(), Some(owner), now.as_str())
}

/// Two peers that know the id of a room agree on the id of its `general`
/// channel, and of any channel that they know the name of.
pub proof fn lemma_channel_id_agreement(
    room_a: Seq<char>,
    name_a: Seq<char>,
    now_a: Seq<char>,
    room_b: Seq<char>,
    name_b: Seq<char>,
    now_b: Seq<char>,
)
    requires
        room_a == room_b,
        name_a == name_b,
    ensures
        new_channel_view(room_a, name_a, "text"@, now_a).id == new_channel_view(
            room_b,
            name_b,
            "text"@,
            now_b,
        ).id,
{
}

/// How long the peers are given to answer a lookup, in seconds.
pub const GOSSIP_LOOKUP_SECONDS: u64 = 3;

/// How long the record store is given to answer a lookup, in seconds.
pub const DHT_LOOKUP_SECONDS: u64 = 5;

/// What the user is told when an invite code leads to no room.
pub const ROOM_NOT_FOUND: &'static str =
    "Room not found. Make sure someone with the room is online.";

/// Where the resolution of an invite code stands.
#[derive(Clone, Copy, Debug, PartialEq, Eq, Structural)]
pub enum JoinState {
    /// The local store is being asked for the room.
    CheckingStore,
    /// The peers on the discovery topic are being asked.
    AskingPeers,
    /// The distributed record store is being asked.
    AskingRecords,
    /// The resolution has ended.
    Done,
}

/// What happened while an invite code is resolved.
#[derive(Debug, PartialEq, Eq)]
pub enum JoinEvent {
    /// The local store answered: with the room, or with none.
    StoreAnswered(Option<Room>),
    /// The lookup that is under way was answered: with a room, or with none.
    LookupAnswered(Option<RoomRef>),
    /// The lookup that is under way got no answer in time.
    LookupTimedOut,
}

pub ghost enum JoinEventView {
    StoreAnswered(Option<RoomView>),
    LookupAnswered(Option<RoomRefView>),
    LookupTimedOut,
}

impl View for JoinEvent {
    type V = JoinEventView;

    open spec fn view(&self) -> JoinEventView {
        match *self {
            JoinEvent::StoreAnswered(r) => JoinEventView::StoreAnswered(opt_view(r)),
            JoinEvent::LookupAnswered(r) => JoinEventView::LookupAnswered(opt_view(r)),
            JoinEvent::LookupTimedOut => JoinEventView::LookupTimedOut,
        }
    }
}

/// What is to be done next while an invite code is resolved.
#[derive(Debug, PartialEq, Eq)]
pub enum JoinAction {
    /// Ask the peers and wait this many seconds.
    AskPeers { wait_seconds: u64 },
    /// Ask the record store and wait this many seconds.
    AskRecords { wait_seconds: u64 },
    /// The room was known already: hand it out.
    AlreadyKnown(Room),
    /// The room was found: store it with its first channel, subscribe to it
    /// and hand it out.
    Create(RoomSetup),
    /// No room was found: fail with this message.
    Fail(String),
    /// The event does not belong to this state: do nothing.
    Ignore,
}

pub ghost enum JoinActionView {
    AskPeers { wait_seconds: u64 },
    AskRecords { wait_seconds: u64 },
    AlreadyKnown(RoomView),
    Create(RoomSetupView),
    Fail(Seq<char>),
    Ignore,
}

impl View for JoinAction {
    type V = JoinActionView;

    open spec fn view(&self) -> JoinActionView {
        match *self {
            JoinAction::AskPeers { wait_seconds } => JoinActionView::AskPeers { wait_seconds },
            JoinAction::AskRecords { wait_seconds } => JoinActionView::AskRecords { wait_seconds },
            JoinAction::AlreadyKnown(r) => JoinActionView::AlreadyKnown(r@),
            JoinAction::Create(s) => JoinActionView::Create(s@),
            JoinAction::Fail(m) => JoinActionView::Fail(m@),
            JoinAction::Ignore => JoinActionView::Ignore,
        }
    }
}

/// The next state and the next action of a resolution.
pub ghost struct JoinStep {
    pub state: JoinState,
    pub action: JoinActionView,
}

/// The room that a lookup found, set up for a peer that joins it.
pub open spec fn found_room(found: RoomRefView, invite_code: Seq<char>, now: Seq<char>) -> JoinStep {
    JoinStep {
        state: JoinState::Done,
        action: JoinActionView::Create(
            room_setup_view(found.room_id, found.room_name, invite_code, None, now),
        ),
    }
}

/// The second stage of a resolution: the record store is asked.
pub open spec fn ask_records() -> JoinStep {
    JoinStep {
        state: JoinState::AskingRecords,
        action: JoinActionView::AskRecords { wait_seconds: DHT_LOOKUP_SECONDS },
    }
}

/// The end of a resolution that found nothing.
pub open spec fn not_found() -> JoinStep {
    JoinStep { state: JoinState::Done, action: JoinActionView::Fail(ROOM_NOT_FOUND@) }
}

/// How an invite code is resolved. A room that the store holds is handed
/// out. Else the peers are asked: a room that they name is set up; where
/// they name none, because the question could not be put or nobody
/// answered in time, the record store is asked. A room that it names is set
/// up; only where it names none either does the resolution fail.
pub open spec fn join_step_spec(
    state: JoinState,
    event: JoinEventView,
    invite_code: Seq<char>,
    now: Seq<char>,
) -> JoinStep {
    match (state, event) {
        (JoinState::CheckingStore, JoinEventView::StoreAnswered(Some(room))) => JoinStep {
            state: JoinState::Done,
            action: JoinActionView::AlreadyKnown(room),
        },
        (JoinState::CheckingStore, JoinEventView::StoreAnswered(None)) => JoinStep {
            state: JoinState::AskingPeers,
            action: JoinActionView::AskPeers { wait_seconds: GOSSIP_LOOKUP_SECONDS },
        },
        (JoinState::AskingPeers, JoinEventView::LookupAnswered(Some(found))) => found_room(
            found,
            invite_code,
            now,
        ),
        (JoinState::AskingPeers, JoinEventView::LookupAnswered(None)) => ask_records(),
        (JoinState::AskingPeers, JoinEventView::LookupTimedOut) => ask_records(),
        (JoinState::AskingRecords, JoinEventView::LookupAnswered(Some(found))) => found_room(
            found,
            invite_code,
            now,
        ),
        (JoinState::AskingRecords, JoinEventView::LookupAnswered(None)) => not_found(),
        (JoinState::AskingRecords, JoinEventView::LookupTimedOut) => not_found(),
        _ => JoinStep { state, action: JoinActionView::Ignore },
    }
}

fn finish_found(found: RoomRef, invite_code: &str, now: &str) -> (next: (JoinState, JoinAction))
    ensures
        next.0 == found_room(found@, invite_code@, now@).state,
        next.1@ == found_room(found@, invite_code@, now@).action,
{
    (
        JoinState::Done,
        JoinAction::Create(
            setup_room(found.room_id.as_str(), found.room_name.as_str(), invite_code, None, now),
        ),
    )
}

fn finish_not_found() -> (next: (JoinState, JoinAction))
    ensures
        next.0 == not_found().state,
        next.1@ == not_found().action,
{
    (JoinState::Done, JoinAction::Fail(ROOM_NOT_FOUND.to_owned()))
}

/// Takes the resolution of `invite_code` one step further. `now` is the
/// time that a room found is stamped with.
pub fn join_step(state: JoinState, event: JoinEvent, invite_code: &str, now: &str) -> (next: (
    JoinState,
    JoinAction,
))
    ensures
        next.0 == join_step_spec(state, event@, invite_code@, now@).state,
        next.1@ == join_step_spec(state, event@, invite_code@, now@).action,
{
    match state {
        JoinState::CheckingStore => match event {
            JoinEvent::StoreAnswered(Some(room)) => (JoinState::Done, JoinAction::AlreadyKnown(room)),
            JoinEvent::StoreAnswered(None) => (
                JoinState::AskingPeers,
                JoinAction::AskPeers { wait_seconds: GOSSIP_LOOKUP_SECONDS },
            ),
            _ => (state, JoinAction::Ignore),
        },
        JoinState::AskingPeers => match event {
            JoinEvent::LookupAnswered(Some(found)) => finish_found(found, invite_code, now),
            JoinEvent::LookupAnswered(None) | JoinEvent::LookupTimedOut => (
                JoinState::AskingRecords,
                JoinAction::AskRecords { wait_seconds: DHT_LOOKUP_SECONDS },
            ),
            _ => (state, JoinAction::Ignore),
        },
        JoinState::AskingRecords => match event {
            JoinEvent::LookupAnswered(Some(found)) => finish_found(found, invite_code, now),
            JoinEvent::LookupAnswered(None) => finish_not_found(),
            JoinEvent::LookupTimedOut => finish_not_found(),
            _ => (state, JoinAction::Ignore),
        },
        JoinState::Done => (state, JoinAction::Ignore),
    }
}

/// A lookup that times out twice ends without a room: when neither the peers
/// nor the record store answer in time, the resolution fails.
pub proof fn lemma_silence_finds_nothing(invite_code: Seq<char>, now: Seq<char>)
    ensures
        ({
            let first = join_step_spec(
                JoinState::CheckingStore,
                JoinEventView::StoreAnswered(None),
                invite_code,
                now,
            );
            let second = join_step_spec(first.state, JoinEventView::LookupTimedOut, invite_code, now);
            let third = join_step_spec(second.state, JoinEventView::LookupTimedOut, invite_code, now);
            &&& first.action == JoinActionView::AskPeers { wait_seconds: 3 }
            &&& second.action == JoinActionView::AskRecords { wait_seconds: 5 }
            &&& third == not_found()
        }),
{
}

/// A resolution fails only when both stages have failed: the step that
/// fails is one in which the record store, asked after the peers, named no
/// room or did not answer in time. And whenever the peers name no room,
/// the record store is asked for five seconds.
pub proof fn lemma_fails_only_after_both_stages(
    state: JoinState,
    event: JoinEventView,
    invite_code: Seq<char>,
    now: Seq<char>,
)
    ensures
        join_step_spec(state, event, invite_code, now).action is Fail ==> state
            == JoinState::AskingRecords && (event == JoinEventView::LookupAnswered(None) || event
            == JoinEventView::LookupTimedOut),
        state == JoinState::AskingPeers && (event == JoinEventView::LookupAnswered(None) || event
            == JoinEventView::LookupTimedOut) ==> join_step_spec(state, event, invite_code, now)
            == (JoinStep {
            state: JoinState::AskingRecords,
            action: JoinActionView::AskRecords { wait_seconds: 5 },
        }),
        state == JoinState::AskingRecords && event is LookupAnswered && event->LookupAnswered_0
            is Some ==> join_step_spec(state, event, invite_code, now) == found_room(
            event->LookupAnswered_0->0,
            invite_code,
            now,
        ),
{
}

} // verus!
