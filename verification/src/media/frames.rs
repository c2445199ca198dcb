//! The wire format of video and screen frames on a data channel.
//!
//! A frame that fits goes out as one message: a type byte, `V` for video or
//! `S` for screen, and the JPEG bytes. A larger frame is cut into chunks.
//! Each chunk message starts with a header of ten bytes: `C`, the type byte
//! of the frame, the frame id as four little-endian bytes, the number of
//! chunks and the index of this chunk as two little-endian bytes each.

use vstd::prelude::*;
use vstd::bytes::*;
use vstd::slice::{slice_subrange, slice_to_vec};
use crate::keymap::{Key, KeyMap};
use crate::text::{byte_lists, str_equal};

verus! {

/// The largest message that is put on a data channel.
pub const MAX_DC_MSG_SIZE: usize = 15000;

/// The length of the header of a chunk message.
pub const CHUNK_HEADER_SIZE: usize = 10;

/// The most frame bytes that one chunk carries.
pub const MAX_CHUNK_DATA: usize = 14990;

/// The type byte of a video frame, `V`.
pub const TYPE_VIDEO: u8 = 86;

/// The type byte of a screen frame, `S`.
pub const TYPE_SCREEN: u8 = 83;

/// The first byte of a chunk message, `C`.
pub const TYPE_CHUNK: u8 = 67;

/// Whether a frame of `len` bytes is cut into chunks: it is, as soon as the
/// type byte and the frame together exceed the largest message.
pub open spec fn is_chunked(len: nat) -> bool {
    1 + len > MAX_DC_MSG_SIZE
}

/// The message of a frame that fits into one.
pub open spec fn single_message(type_byte: u8, frame: Seq<u8>) -> Seq<u8> {
    seq![type_byte] + frame
}

/// How many chunks cover `len` bytes.
pub open spec fn chunks_needed(len: nat) -> nat {
    (len + MAX_CHUNK_DATA - 1) as nat / (MAX_CHUNK_DATA as nat)
}

/// The number of chunks as the header carries it: the sixteen low bits of
/// the number needed.
pub open spec fn chunk_total(len: nat) -> u16 {
    (chunks_needed(len) % 0x10000) as u16
}

/// The bytes of the frame that chunk `index` carries.
pub open spec fn chunk_payload(frame: Seq<u8>, index: int) -> Seq<u8> {
    frame.subrange(
        index * MAX_CHUNK_DATA,
        if (index + 1) * MAX_CHUNK_DATA <= frame.len() {
            (index + 1) * MAX_CHUNK_DATA
        } else {
            frame.len() as int
        },
    )
}

/// The header of a chunk message.
pub open spec fn chunk_header(type_byte: u8, frame_id: u32, total: u16, index: u16) -> Seq<u8> {
    seq![TYPE_CHUNK, type_byte] + spec_u32_to_le_bytes(frame_id) + spec_u16_to_le_bytes(total)
        + spec_u16_to_le_bytes(index)
}

/// The message of chunk `index` of a frame.
pub open spec fn chunk_message(type_byte: u8, frame_id: u32, frame: Seq<u8>, index: int) -> Seq<
    u8,
> {
    chunk_header(type_byte, frame_id, chunk_total(frame.len()), index as u16) + chunk_payload(
        frame,
        index,
    )
}

/// The messages of a frame that is cut into chunks, in the order of sending.
pub open spec fn chunk_messages(type_byte: u8, frame_id: u32, frame: Seq<u8>) -> Seq<Seq<u8>> {
    Seq::new(
        chunk_total(frame.len()) as nat,
        |i: int| chunk_message(type_byte, frame_id, frame, i),
    )
}

/// The messages that carry a frame, in the order of sending.
pub open spec fn frame_messages(type_byte: u8, frame_id: u32, frame: Seq<u8>) -> Seq<Seq<u8>> {
    if is_chunked(frame.len()) {
        chunk_messages(type_byte, frame_id, frame)
    } else {
        seq![single_message(type_byte, frame)]
    }
}

/// The chunks needed are the quotient rounded up.
pub proof fn lemma_chunks_needed(len: nat)
    ensures
        chunks_needed(len) == len / 14990 + (if len % 14990 == 0 {
            0nat
        } else {
            1nat
        }),
        chunks_needed(len) * 14990 >= len,
        len > 0 ==> (chunks_needed(len) - 1) * 14990 < len,
{
    let q = len / 14990;
    let r = len % 14990;
    assert(len == q * 14990 + r) by (nonlinear_arith)
        requires
            q == len / 14990,
            r == len % 14990,
    ;
    if r == 0 {
        assert((q * 14990 + 14989) / 14990 == q) by (nonlinear_arith)
            requires
                q >= 0,
        ;
    } else {
        assert((q * 14990 + r + 14989) / 14990 == q + 1) by (nonlinear_arith)
            requires
                q >= 0,
                0 < r < 14990,
        ;
    }
}

/// Appends a slice of bytes to a vector.
fn push_bytes(out: &mut Vec<u8>, bytes: &[u8])
    ensures
        final(out)@ == old(out)@ + bytes@,
{
    out.extend_from_slice(bytes);
    assert(out@ =~= old(out)@ + bytes@);
}

/// Builds the one message of a frame that fits.
pub fn encode_single(type_byte: u8, frame: &[u8]) -> (message: Vec<u8>)
    ensures
        message@ == single_message(type_byte, frame@),
{
    let mut message: Vec<u8> = Vec::new();
    message.push(type_byte);
    push_bytes(&mut message, frame);
    assert(message@ =~= single_message(type_byte, frame@));
    message
}

/// How many chunks cover `len` bytes, as the header carries it.
pub fn count_chunks(len: usize) -> (total: u16)
    ensures
        total == chunk_total(len as nat),
{
    proof {
        lemma_chunks_needed(len as nat);
    }
    let whole = len / MAX_CHUNK_DATA;
    let needed: u64 = if len % MAX_CHUNK_DATA == 0 {
        whole as u64
    } else {
        whole as u64 + 1
    };
    (needed % 0x10000) as u16
}

/// Builds the message of chunk `index` of a frame.
pub fn encode_chunk(type_byte: u8, frame_id: u32, frame: &[u8], total: u16, index: u16) -> (message:
    Vec<u8>)
    requires
        total == chunk_total(frame@.len()),
        index < total,
    ensures
        message@ == chunk_message(type_byte, frame_id, frame@, index as int),
{
    proof {
        lemma_chunks_needed(frame@.len());
        assert(index * 14990 < frame@.len()) by (nonlinear_arith)
            requires
                index < total,
                total <= chunks_needed(frame@.len()),
                frame@.len() > 0 ==> (chunks_needed(frame@.len()) - 1) * 14990 < frame@.len(),
                chunks_needed(frame@.len()) * 14990 >= frame@.len(),
                index >= 0,
        ;
    }
    let start: usize = index as usize * MAX_CHUNK_DATA;
    let end: usize = if frame.len() - start >= MAX_CHUNK_DATA {
        start + MAX_CHUNK_DATA
    } else {
        frame.len()
    };
    let mut message: Vec<u8> = Vec::new();
    message.push(TYPE_CHUNK);
    message.push(type_byte);
    let id_bytes = u32_to_le_bytes(frame_id);
    push_bytes(&mut message, id_bytes.as_slice());
    let total_bytes = u16_to_le_bytes(total);
    push_bytes(&mut message, total_bytes.as_slice());
    let index_bytes = u16_to_le_bytes(index);
    push_bytes(&mut message, index_bytes.as_slice());
    assert(message@ =~= chunk_header(type_byte, frame_id, total, index));
    push_bytes(&mut message, slice_subrange(frame, start, end));
    message
}

/// Builds the messages that carry a frame, in the order of sending.
pub fn encode_frame(type_byte: u8, frame_id: u32, frame: &[u8]) -> (messages: Vec<Vec<u8>>)
    ensures
        byte_lists(messages@) == frame_messages(type_byte, frame_id, frame@),
{
    let mut messages: Vec<Vec<u8>> = Vec::new();
    if frame.len() < MAX_DC_MSG_SIZE {
        messages.push(encode_single(type_byte, frame));
        assert(byte_lists(messages@) =~= seq![single_message(type_byte, frame@)]);
        return messages;
    }
    let total = count_chunks(frame.len());
    let mut index: u16 = 0;
    while index < total
        invariant
            index <= total,
            total == chunk_total(frame@.len()),
            messages@.len() == index,
            forall|k: int|
                0 <= k < index ==> messages@[k]@ == chunk_message(type_byte, frame_id, frame@, k),
        decreases total - index,
    {
        messages.push(encode_chunk(type_byte, frame_id, frame, total, index));
        index += 1;
    }
    assert(byte_lists(messages@) =~= chunk_messages(type_byte, frame_id, frame@));
    messages
}

/// What a message on the data channel says.
#[derive(Debug, PartialEq, Eq)]
pub enum DataMessage {
    /// The message holds no byte.
    Empty,
    /// A whole video frame.
    Video(Vec<u8>),
    /// A whole screen frame.
    Screen(Vec<u8>),
    /// One chunk of a frame.
    Chunk { frame_type: u8, frame_id: u32, total_chunks: u16, chunk_index: u16, data: Vec<u8> },
    /// A chunk message that is shorter than its header.
    Truncated,
    /// A message with a leading byte that the format does not know.
    Unknown(u8),
}

pub ghost enum DataMessageView {
    Empty,
    Video(Seq<u8>),
    Screen(Seq<u8>),
    Chunk { frame_type: u8, frame_id: u32, total_chunks: u16, chunk_index: u16, data: Seq<u8> },
    Truncated,
    Unknown(u8),
}

impl View for DataMessage {
    type V = DataMessageView;

    open spec fn view(&self) -> DataMessageView {
        match *self {
            DataMessage::Empty => DataMessageView::Empty,
            DataMessage::Video(frame) => DataMessageView::Video(frame@),
            DataMessage::Screen(frame) => DataMessageView::Screen(frame@),
            DataMessage::Chunk {
                frame_type,
                frame_id,
                total_chunks,
                chunk_index,
                data,
            } => DataMessageView::Chunk {
                frame_type,
                frame_id,
                total_chunks,
                chunk_index,
                data: data@,
            },
            DataMessage::Truncated => DataMessageView::Truncated,
            DataMessage::Unknown(byte) => DataMessageView::Unknown(byte),
        }
    }
}

/// What a message on the data channel says, by its leading byte.
pub open spec fn parsed(data: Seq<u8>) -> DataMessageView {
    if data.len() == 0 {
        DataMessageView::Empty
    } else if data[0] == TYPE_VIDEO {
        DataMessageView::Video(data.skip(1))
    } else if data[0] == TYPE_SCREEN {
        DataMessageView::Screen(data.skip(1))
    } else if data[0] != TYPE_CHUNK {
        DataMessageView::Unknown(data[0])
    } else if data.len() < CHUNK_HEADER_SIZE {
        DataMessageView::Truncated
    } else {
        DataMessageView::Chunk {
            frame_type: data[1],
            frame_id: spec_u32_from_le_bytes(data.subrange(2, 6)),
            total_chunks: spec_u16_from_le_bytes(data.subrange(6, 8)),
            chunk_index: spec_u16_from_le_bytes(data.subrange(8, 10)),
            data: data.skip(10),
        }
    }
}

/// Reads a message from the data channel.
pub fn parse_message(data: &[u8]) -> (message: DataMessage)
    ensures
        message@ == parsed(data@),
{
    if data.len() == 0 {
        return DataMessage::Empty;
    }
    let lead = data[0];
    if lead == TYPE_VIDEO {
        let frame = slice_to_vec(slice_subrange(data, 1, data.len()));
        assert(frame@ =~= data@.skip(1));
        DataMessage::Video(frame)
    } else if lead == TYPE_SCREEN {
        let frame = slice_to_vec(slice_subrange(data, 1, data.len()));
        assert(frame@ =~= data@.skip(1));
        DataMessage::Screen(frame)
    } else if lead != TYPE_CHUNK {
        DataMessage::Unknown(lead)
    } else if data.len() < CHUNK_HEADER_SIZE {
        DataMessage::Truncated
    } else {
        let rest = slice_to_vec(slice_subrange(data, 10, data.len()));
        assert(rest@ =~= data@.skip(10));
        DataMessage::Chunk {
            frame_type: data[1],
            frame_id: u32_from_le_bytes(slice_subrange(data, 2, 6)),
            total_chunks: u16_from_le_bytes(slice_subrange(data, 6, 8)),
            chunk_index: u16_from_le_bytes(slice_subrange(data, 8, 10)),
            data: rest,
        }
    }
}

/// What a frame under reassembly is known by: the peer that sends it, its
/// type byte and its id.
#[derive(Debug, PartialEq, Eq)]
pub struct FrameKey {
    pub peer_id: String,
    pub frame_type: u8,
    pub frame_id: u32,
}

pub ghost struct FrameKeyText {
    pub peer_id: Seq<char>,
    pub frame_type: u8,
    pub frame_id: u32,
}

impl Key for FrameKey {
    type Text = FrameKeyText;

    open spec fn text(&self) -> FrameKeyText {
        FrameKeyText {
            peer_id: self.peer_id@,
            frame_type: self.frame_type,
            frame_id: self.frame_id,
        }
    }

    fn same(&self, other: &Self) -> (b: bool) {
        self.frame_type == other.frame_type && self.frame_id == other.frame_id && str_equal(
            self.peer_id.as_str(),
            other.peer_id.as_str(),
        )
    }
}

/// The chunks of one frame that have arrived.
pub struct PendingFrame {
    total_chunks: u16,
    chunks: KeyMap<u16, Vec<u8>>,
}

pub ghost struct PendingFrameView {
    /// The number of chunks that the first chunk announced.
    pub total_chunks: u16,
    /// The payload of each chunk that arrived, by chunk index.
    pub chunks: Map<u16, Seq<u8>>,
}

impl View for PendingFrame {
    type V = PendingFrameView;

    closed spec fn view(&self) -> PendingFrameView {
        PendingFrameView { total_chunks: self.total_chunks, chunks: self.chunks@ }
    }
}

/// The state of reassembly: the frames of which chunks have arrived and that
/// are not complete.
pub struct ChunkAssembler {
    pending: KeyMap<FrameKey, PendingFrame>,
}

impl View for ChunkAssembler {
    type V = Map<FrameKeyText, PendingFrameView>;

    closed spec fn view(&self) -> Map<FrameKeyText, PendingFrameView> {
        self.pending@
    }
}

/// The entry of a frame once a chunk was put into it.
pub open spec fn entry_with(
    s: Map<FrameKeyText, PendingFrameView>,
    key: FrameKeyText,
    total_chunks: u16,
    chunk_index: u16,
    data: Seq<u8>,
) -> PendingFrameView {
    if s.contains_key(key) {
        PendingFrameView {
            total_chunks: s[key].total_chunks,
            chunks: s[key].chunks.insert(chunk_index, data),
        }
    } else {
        PendingFrameView { total_chunks, chunks: Map::empty().insert(chunk_index, data) }
    }
}

/// Whether the chunks `0` to `n - 1` have all arrived.
pub open spec fn has_all(chunks: Map<u16, Seq<u8>>, n: nat) -> bool {
    forall|i: u16| (i as nat) < n ==> chunks.contains_key(i)
}

/// Whether a chunk completes its frame: the chunk says that the frame has
/// at least one chunk, and with it every chunk below that number has
/// arrived. A frame of which a piece is missing is never complete.
pub open spec fn completes(
    s: Map<FrameKeyText, PendingFrameView>,
    key: FrameKeyText,
    total_chunks: u16,
    chunk_index: u16,
    data: Seq<u8>,
) -> bool {
    total_chunks > 0 && has_all(
        entry_with(s, key, total_chunks, chunk_index, data).chunks,
        total_chunks as nat,
    )
}

/// Where the chunks `0` to `n - 1` have all arrived, at least `n` chunks
/// have.
pub proof fn lemma_has_all_count(chunks: Map<u16, Seq<u8>>, n: nat)
    requires
        chunks.dom().finite(),
        has_all(chunks, n),
        n <= 0x10000,
    ensures
        chunks.dom().len() >= n,
{
    let below = pieces(Seq::empty(), n).dom();
    lemma_pieces_count(Seq::empty(), n);
    assert(below.subset_of(chunks.dom()));
    vstd::set_lib::lemma_len_subset(below, chunks.dom());
}

/// The payloads of the chunks `0` to `n - 1` in a row. Chunks that are
/// missing are passed over; a complete frame has none.
pub open spec fn assembled(chunks: Map<u16, Seq<u8>>, n: nat) -> Seq<u8>
    decreases n,
{
    if n == 0 {
        Seq::empty()
    } else if chunks.contains_key((n - 1) as u16) {
        assembled(chunks, (n - 1) as nat) + chunks[(n - 1) as u16]
    } else {
        assembled(chunks, (n - 1) as nat)
    }
}

/// The state after a chunk: a frame that is complete leaves, any other is
/// kept with the chunk in it.
pub open spec fn after_chunk(
    s: Map<FrameKeyText, PendingFrameView>,
    key: FrameKeyText,
    total_chunks: u16,
    chunk_index: u16,
    data: Seq<u8>,
) -> Map<FrameKeyText, PendingFrameView> {
    if completes(s, key, total_chunks, chunk_index, data) {
        s.remove(key)
    } else {
        s.insert(key, entry_with(s, key, total_chunks, chunk_index, data))
    }
}

/// The frame that a chunk completes, if it completes one.
pub open spec fn frame_from_chunk(
    s: Map<FrameKeyText, PendingFrameView>,
    key: FrameKeyText,
    total_chunks: u16,
    chunk_index: u16,
    data: Seq<u8>,
) -> Option<Seq<u8>> {
    if completes(s, key, total_chunks, chunk_index, data) {
        Some(
            assembled(
                entry_with(s, key, total_chunks, chunk_index, data).chunks,
                total_chunks as nat,
            ),
        )
    } else {
        None
    }
}

/// How many ids a pending frame may lie behind the frame at hand and still
/// be kept.
pub const MAX_FRAMES_BEHIND: u32 = 4;

/// Whether a pending frame is kept when a chunk of frame `current` arrives
/// from `peer_id` with type `frame_type`: frames of other peers or types
/// are, and so is a frame that is at most four ids behind, counting round
/// the end of the id range. What is more than four ids older is dropped.
pub open spec fn is_kept(key: FrameKeyText, peer_id: Seq<char>, frame_type: u8, current: u32) -> bool {
    key.peer_id != peer_id || key.frame_type != frame_type || current.wrapping_sub(key.frame_id)
        <= MAX_FRAMES_BEHIND
}

/// The state without the frames that have gone stale.
pub open spec fn cleaned(
    s: Map<FrameKeyText, PendingFrameView>,
    peer_id: Seq<char>,
    frame_type: u8,
    current: u32,
) -> Map<FrameKeyText, PendingFrameView> {
    s.restrict(Set::new(|k: FrameKeyText| is_kept(k, peer_id, frame_type, current)))
}

/// The state without the frames of one peer.
pub open spec fn without_peer(s: Map<FrameKeyText, PendingFrameView>, peer_id: Seq<char>) -> Map<
    FrameKeyText,
    PendingFrameView,
> {
    s.restrict(Set::new(|k: FrameKeyText| k.peer_id != peer_id))
}

/// Puts the chunks `0` to `total - 1` in a row, if all of them have
/// arrived.
fn gather(chunks: &KeyMap<u16, Vec<u8>>, total: u16) -> (whole: Option<Vec<u8>>)
    ensures
        match whole {
            Some(full) => has_all(chunks@, total as nat) && full@ == assembled(
                chunks@,
                total as nat,
            ),
            None => !has_all(chunks@, total as nat),
        },
{
    if chunks.len() < total as usize {
        proof {
            if has_all(chunks@, total as nat) {
                lemma_has_all_count(chunks@, total as nat);
            }
        }
        return None;
    }
    let mut full: Vec<u8> = Vec::new();
    let mut i: u16 = 0;
    while i < total
        invariant
            i <= total,
            has_all(chunks@, i as nat),
            full@ == assembled(chunks@, i as nat),
        decreases total - i,
    {
        match chunks.get(&i) {
            Some(chunk) => {
                push_all(&mut full, chunk);
            },
            None => {
                return None;
            },
        }
        i += 1;
    }
    Some(full)
}

/// Appends a slice of bytes to a vector.
fn push_all(out: &mut Vec<u8>, bytes: &Vec<u8>)
    ensures
        final(out)@ == old(out)@ + bytes@,
{
    push_bytes(out, bytes.as_slice());
}

impl ChunkAssembler {
    /// An assembler with no frame pending.
    pub fn new() -> (a: ChunkAssembler)
        ensures
            a@ == Map::<FrameKeyText, PendingFrameView>::empty(),
    {
        ChunkAssembler { pending: KeyMap::new() }
    }

    /// How many frames are pending.
    pub fn pending_frames(&self) -> (n: usize)
        ensures
            self@.dom().finite(),
            n == self@.dom().len(),
    {
        self.pending.len()
    }

    /// Takes in one chunk. Returns the frame, with its peer and type, if the
    /// chunk completes it.
    pub fn add_chunk(
        &mut self,
        peer_id: &str,
        frame_type: u8,
        frame_id: u32,
        total_chunks: u16,
        chunk_index: u16,
        data: Vec<u8>,
    ) -> (frame: Option<(String, u8, Vec<u8>)>)
        ensures
            ({
                let key = FrameKeyText { peer_id: peer_id@, frame_type, frame_id };
                &&& final(self)@ == after_chunk(old(self)@, key, total_chunks, chunk_index, data@)
                &&& match frame {
                    Some(f) => f.0@ == peer_id@ && f.1 == frame_type && Some(f.2@)
                        == frame_from_chunk(old(self)@, key, total_chunks, chunk_index, data@),
                    None => frame_from_chunk(old(self)@, key, total_chunks, chunk_index, data@)
                        is None,
                }
            }),
    {
        let key = FrameKey { peer_id: peer_id.to_owned(), frame_type, frame_id };
        let ghost before = self.pending@;
        let ghost k = key.text();
        let mut entry = match self.pending.remove(&key) {
            Some(e) => e,
            None => PendingFrame { total_chunks, chunks: KeyMap::new() },
        };
        entry.chunks.insert(chunk_index, data);
        assert(entry@ == entry_with(before, k, total_chunks, chunk_index, data@));
        let whole = if total_chunks > 0 {
            gather(&entry.chunks, total_chunks)
        } else {
            None
        };
        match whole {
            Some(full) => Some((peer_id.to_owned(), frame_type, full)),
            None => {
                self.pending.insert(key, entry);
                assert(self.pending@ =~= before.insert(
                    k,
                    entry_with(before, k, total_chunks, chunk_index, data@),
                ));
                None
            },
        }
    }

    /// Keeps, of the frames pending, those for which `keep` holds.
    fn retain(
        &mut self,
        peer_id: &str,
        frame_type: u8,
        current: u32,
        whole_peer: bool,
    )
        ensures
            final(self)@ == (if whole_peer {
                without_peer(old(self)@, peer_id@)
            } else {
                cleaned(old(self)@, peer_id@, frame_type, current)
            }),
    {
        let ghost before = self.pending@;
        let mut taken = KeyMap::new();
        core::mem::swap(&mut taken, &mut self.pending);
        let mut entries = taken.into_entries();
        let ghost all = entries@;
        let mut kept: KeyMap<FrameKey, PendingFrame> = KeyMap::new();
        while entries.len() > 0
            invariant
                entries@.len() <= all.len(),
                entries@ == all.subrange(0, entries@.len() as int),
                forall|i: int|
                    0 <= i < all.len() ==> before.contains_key(#[trigger] all[i].0.text())
                        && before[all[i].0.text()] == all[i].1@,
                forall|k: FrameKeyText|
                    kept@.contains_key(k) <==> ((if whole_peer {
                        k.peer_id != peer_id@
                    } else {
                        is_kept(k, peer_id@, frame_type, current)
                    }) && exists|j: int|
                        entries@.len() <= j < all.len() && #[trigger] all[j].0.text() == k),
                forall|k: FrameKeyText| kept@.contains_key(k) ==> kept@[k] == before[k],
            decreases entries@.len(),
        {
            let ghost n = entries@.len() - 1;
            let (key, entry) = entries.pop().unwrap();
            assert(all[n].0.text() == key.text());
            let keep = if whole_peer {
                !str_equal(key.peer_id.as_str(), peer_id)
            } else {
                !str_equal(key.peer_id.as_str(), peer_id) || key.frame_type != frame_type
                    || current.wrapping_sub(key.frame_id) <= MAX_FRAMES_BEHIND
            };
            if keep {
                kept.insert(key, entry);
            }
            assert(entries@ =~= all.subrange(0, n));
        }
        self.pending = kept;
        proof {
            let want = if whole_peer {
                without_peer(before, peer_id@)
            } else {
                cleaned(before, peer_id@, frame_type, current)
            };
            assert forall|k: FrameKeyText| want.contains_key(k) implies self.pending@.contains_key(
                k,
            ) by {
                assert(before.contains_key(k));
                let j = crate::keymap::key_texts(all).index_of(k);
                assert(crate::keymap::key_texts(all)[j] == k);
                assert(all[j].0.text() == k);
            }
            assert(self.pending@ =~= want);
        }
    }

    /// Drops the frames of `peer_id` with type `frame_type` that are more
    /// than four ids behind `current_frame_id`.
    pub fn cleanup(&mut self, peer_id: &str, frame_type: u8, current_frame_id: u32)
        ensures
            final(self)@ == cleaned(old(self)@, peer_id@, frame_type, current_frame_id),
    {
        self.retain(peer_id, frame_type, current_frame_id, false);
    }

    /// Drops every frame of `peer_id`.
    pub fn forget_peer(&mut self, peer_id: &str)
        ensures
            final(self)@ == without_peer(old(self)@, peer_id@),
    {
        self.retain(peer_id, 0, 0, true);
    }
}

/// Whether `t` is the type byte of a video or a screen frame.
pub open spec fn is_frame_type(t: u8) -> bool {
    t == TYPE_VIDEO || t == TYPE_SCREEN
}

/// The assembler after a message together with the frame that the message
/// hands on, if any, with its type byte.
pub ghost struct Reception {
    pub state: Map<FrameKeyText, PendingFrameView>,
    pub frame: Option<(u8, Seq<u8>)>,
}

/// What a message from `peer_id` does. A whole frame is handed on at once. A
/// chunk first drops the stale frames of its peer and type, then goes into
/// its frame; the frame is handed on when complete, unless its type byte is
/// neither video nor screen. Any other message is dropped.
pub open spec fn received(
    s: Map<FrameKeyText, PendingFrameView>,
    peer_id: Seq<char>,
    data: Seq<u8>,
) -> Reception {
    match parsed(data) {
        DataMessageView::Video(frame) => Reception { state: s, frame: Some((TYPE_VIDEO, frame)) },
        DataMessageView::Screen(frame) => Reception { state: s, frame: Some((TYPE_SCREEN, frame)) },
        DataMessageView::Chunk { frame_type, frame_id, total_chunks, chunk_index, data } => {
            let c = cleaned(s, peer_id, frame_type, frame_id);
            let key = FrameKeyText { peer_id, frame_type, frame_id };
            Reception {
                state: after_chunk(c, key, total_chunks, chunk_index, data),
                frame: match frame_from_chunk(c, key, total_chunks, chunk_index, data) {
                    Some(frame) => if is_frame_type(frame_type) {
                        Some((frame_type, frame))
                    } else {
                        None
                    },
                    None => None,
                },
            }
        },
        _ => Reception { state: s, frame: None },
    }
}

/// The assembler after a row of messages together with the frames that they
/// handed on, in order.
pub ghost struct Receptions {
    pub state: Map<FrameKeyText, PendingFrameView>,
    pub frames: Seq<(u8, Seq<u8>)>,
}

/// What a row of messages from `peer_id` does, one after the other.
pub open spec fn received_all(
    s: Map<FrameKeyText, PendingFrameView>,
    peer_id: Seq<char>,
    messages: Seq<Seq<u8>>,
) -> Receptions
    decreases messages.len(),
{
    if messages.len() == 0 {
        Receptions { state: s, frames: Seq::empty() }
    } else {
        let before = received_all(s, peer_id, messages.drop_last());
        let last = received(before.state, peer_id, messages.last());
        Receptions {
            state: last.state,
            frames: match last.frame {
                Some(f) => before.frames.push(f),
                None => before.frames,
            },
        }
    }
}

impl ChunkAssembler {
    /// Takes in one message from the data channel of `peer_id`. Returns the
    /// frame that the message hands on, with its type byte.
    pub fn receive(&mut self, peer_id: &str, data: &[u8]) -> (frame: Option<(u8, Vec<u8>)>)
        ensures
            final(self)@ == received(old(self)@, peer_id@, data@).state,
            match frame {
                Some(f) => received(old(self)@, peer_id@, data@).frame == Some((f.0, f.1@)),
                None => received(old(self)@, peer_id@, data@).frame is None,
            },
    {
        match parse_message(data) {
            DataMessage::Video(frame) => Some((TYPE_VIDEO, frame)),
            DataMessage::Screen(frame) => Some((TYPE_SCREEN, frame)),
            DataMessage::Chunk { frame_type, frame_id, total_chunks, chunk_index, data } => {
                self.cleanup(peer_id, frame_type, frame_id);
                match self.add_chunk(
                    peer_id,
                    frame_type,
                    frame_id,
                    total_chunks,
                    chunk_index,
                    data,
                ) {
                    Some(whole) => {
                        if frame_type == TYPE_VIDEO || frame_type == TYPE_SCREEN {
                            Some((frame_type, whole.2))
                        } else {
                            None
                        }
                    },
                    None => None,
                }
            },
            _ => None,
        }
    }
}

/// The first `k` pieces of a frame, by chunk index.
pub open spec fn pieces(frame: Seq<u8>, k: nat) -> Map<u16, Seq<u8>> {
    Map::new(|i: u16| (i as nat) < k, |i: u16| chunk_payload(frame, i as int))
}

/// There are `k` first pieces.
pub proof fn lemma_pieces_count(frame: Seq<u8>, k: nat)
    requires
        k <= 0x10000,
    ensures
        pieces(frame, k).dom().finite(),
        pieces(frame, k).dom().len() == k,
    decreases k,
{
    if k == 0 {
        assert(pieces(frame, k).dom() =~= Set::<u16>::empty());
    } else {
        lemma_pieces_count(frame, (k - 1) as nat);
        let before = pieces(frame, (k - 1) as nat).dom();
        assert(pieces(frame, k).dom() =~= before.insert((k - 1) as u16));
        vstd::set::axiom_set_insert_finite(before, (k - 1) as u16);
        vstd::set::axiom_set_insert_len(before, (k - 1) as u16);
    }
}

/// The pieces of a frame in a row are the frame, as far as they reach.
pub proof fn lemma_assembled_pieces(frame: Seq<u8>, n: nat)
    requires
        n <= chunks_needed(frame.len()) <= 0xffff,
    ensures
        assembled(pieces(frame, chunks_needed(frame.len())), n) == frame.subrange(
            0,
            if n * 14990 <= frame.len() {
                (n * 14990) as int
            } else {
                frame.len() as int
            },
        ),
    decreases n,
{
    let total = chunks_needed(frame.len());
    let all = pieces(frame, total);
    lemma_chunks_needed(frame.len());
    if n == 0 {
        assert(assembled(all, n) =~= frame.subrange(0, 0));
    } else {
        let m = (n - 1) as nat;
        lemma_assembled_pieces(frame, m);
        assert(m * 14990 < frame.len()) by (nonlinear_arith)
            requires
                m <= total - 1,
                (total - 1) * 14990 < frame.len(),
        ;
        assert(n * 14990 == m * 14990 + 14990) by (nonlinear_arith)
            requires
                n == m + 1,
        ;
        assert(all.contains_key(m as u16));
        assert(all[m as u16] == chunk_payload(frame, m as int));
        let end: int = if n * 14990 <= frame.len() {
            (n * 14990) as int
        } else {
            frame.len() as int
        };
        let start: int = (m * 14990) as int;
        assert(frame.subrange(0, start) + frame.subrange(start, end) =~= frame.subrange(0, end));
    }
}

/// A chunk message reads back as the chunk that it was built from.
pub proof fn lemma_parse_chunk(type_byte: u8, frame_id: u32, frame: Seq<u8>, index: int)
    requires
        0 <= index < 0x10000,
    ensures
        parsed(chunk_message(type_byte, frame_id, frame, index)) == (DataMessageView::Chunk {
            frame_type: type_byte,
            frame_id,
            total_chunks: chunk_total(frame.len()),
            chunk_index: index as u16,
            data: chunk_payload(frame, index),
        }),
{
    lemma_auto_spec_u32_to_from_le_bytes();
    lemma_auto_spec_u16_to_from_le_bytes();
    let total = chunk_total(frame.len());
    let m = chunk_message(type_byte, frame_id, frame, index);
    let a = spec_u32_to_le_bytes(frame_id);
    let b = spec_u16_to_le_bytes(total);
    let c = spec_u16_to_le_bytes(index as u16);
    let p = chunk_payload(frame, index);
    assert(m =~= seq![TYPE_CHUNK, type_byte] + a + b + c + p);
    assert(m.len() == 10 + p.len());
    assert(m[0] == TYPE_CHUNK);
    assert(m[1] == type_byte);
    assert(m.subrange(2, 6) =~= a);
    assert(m.subrange(6, 8) =~= b);
    assert(m.subrange(8, 10) =~= c);
    assert(m.skip(10) =~= p);
}

/// Dropping stale frames twice is dropping them once, and a frame under the
/// id that the cleaning is done for is kept.
pub proof fn lemma_cleaned_again(
    s: Map<FrameKeyText, PendingFrameView>,
    peer_id: Seq<char>,
    frame_type: u8,
    frame_id: u32,
    entry: PendingFrameView,
)
    ensures
        ({
            let key = FrameKeyText { peer_id, frame_type, frame_id };
            let c = cleaned(s, peer_id, frame_type, frame_id);
            &&& cleaned(c.insert(key, entry), peer_id, frame_type, frame_id) == c.insert(key, entry)
            &&& (!s.contains_key(key) ==> !c.contains_key(key))
        }),
{
    let key = FrameKeyText { peer_id, frame_type, frame_id };
    let c = cleaned(s, peer_id, frame_type, frame_id);
    assert(is_kept(key, peer_id, frame_type, frame_id));
    assert(cleaned(c.insert(key, entry), peer_id, frame_type, frame_id) =~= c.insert(key, entry));
}

/// The state of reassembly after the first `k` chunks of a frame.
pub open spec fn while_receiving(
    s: Map<FrameKeyText, PendingFrameView>,
    peer_id: Seq<char>,
    type_byte: u8,
    frame_id: u32,
    frame: Seq<u8>,
    k: nat,
) -> Map<FrameKeyText, PendingFrameView> {
    if k == 0 {
        s
    } else {
        cleaned(s, peer_id, type_byte, frame_id).insert(
            FrameKeyText { peer_id, frame_type: type_byte, frame_id },
            PendingFrameView {
                total_chunks: chunk_total(frame.len()),
                chunks: pieces(frame, k),
            },
        )
    }
}

/// All chunks of a frame but the last are kept and hand nothing on.
pub proof fn lemma_chunks_pending(
    s: Map<FrameKeyText, PendingFrameView>,
    peer_id: Seq<char>,
    type_byte: u8,
    frame_id: u32,
    frame: Seq<u8>,
    k: nat,
)
    requires
        chunks_needed(frame.len()) <= 0xffff,
        k < chunks_needed(frame.len()),
        !s.contains_key(FrameKeyText { peer_id, frame_type: type_byte, frame_id }),
    ensures
        received_all(s, peer_id, chunk_messages(type_byte, frame_id, frame).take(k as int)) == (
        Receptions {
            state: while_receiving(s, peer_id, type_byte, frame_id, frame, k),
            frames: Seq::empty(),
        }),
    decreases k,
{
    let msgs = chunk_messages(type_byte, frame_id, frame);
    let total = chunk_total(frame.len());
    assert(total == chunks_needed(frame.len()));
    if k == 0 {
        assert(msgs.take(0) =~= Seq::<Seq<u8>>::empty());
    } else {
        let j = (k - 1) as nat;
        lemma_chunks_pending(s, peer_id, type_byte, frame_id, frame, j);
        lemma_chunk_step(s, peer_id, type_byte, frame_id, frame, j);
        assert(msgs.take(k as int).drop_last() =~= msgs.take(j as int));
        assert(msgs.take(k as int).last() == chunk_message(type_byte, frame_id, frame, j as int));
    }
}

/// What chunk `j` of a frame does to the state that the chunks before it
/// left: it joins them, and the last one hands the frame on.
pub proof fn lemma_chunk_step(
    s: Map<FrameKeyText, PendingFrameView>,
    peer_id: Seq<char>,
    type_byte: u8,
    frame_id: u32,
    frame: Seq<u8>,
    j: nat,
)
    requires
        chunks_needed(frame.len()) <= 0xffff,
        j < chunks_needed(frame.len()),
        !s.contains_key(FrameKeyText { peer_id, frame_type: type_byte, frame_id }),
    ensures
        ({
            let r = received(
                while_receiving(s, peer_id, type_byte, frame_id, frame, j),
                peer_id,
                chunk_message(type_byte, frame_id, frame, j as int),
            );
            if j + 1 < chunks_needed(frame.len()) {
                &&& r.state == while_receiving(s, peer_id, type_byte, frame_id, frame, j + 1)
                &&& r.frame is None
            } else {
                &&& r.state == cleaned(s, peer_id, type_byte, frame_id)
                &&& r.frame == (if is_frame_type(type_byte) {
                    Some((type_byte, frame))
                } else {
                    None
                })
            }
        }),
{
    let total = chunk_total(frame.len());
    let key = FrameKeyText { peer_id, frame_type: type_byte, frame_id };
    let before = while_receiving(s, peer_id, type_byte, frame_id, frame, j);
    let held = PendingFrameView { total_chunks: total, chunks: pieces(frame, j) };
    let payload = chunk_payload(frame, j as int);
    let c0 = cleaned(s, peer_id, type_byte, frame_id);
    lemma_parse_chunk(type_byte, frame_id, frame, j as int);
    lemma_cleaned_again(s, peer_id, type_byte, frame_id, held);
    let c = cleaned(before, peer_id, type_byte, frame_id);
    let entry = entry_with(c, key, total, j as u16, payload);
    if j == 0 {
        assert(c == c0);
        assert(entry.chunks =~= pieces(frame, 1));
    } else {
        assert(c == c0.insert(key, held));
        assert(entry.chunks =~= pieces(frame, j + 1));
    }
    assert(entry == PendingFrameView { total_chunks: total, chunks: pieces(frame, j + 1) });
    if j + 1 < chunks_needed(frame.len()) {
        assert(!pieces(frame, j + 1).contains_key((j + 1) as u16));
        assert(!has_all(entry.chunks, total as nat));
        assert(c.insert(key, entry) =~= c0.insert(key, entry));
    } else {
        assert(has_all(entry.chunks, total as nat));
        assert(c.remove(key) =~= c0);
        lemma_assembled_pieces(frame, chunks_needed(frame.len()));
        lemma_chunks_needed(frame.len());
        assert(frame.subrange(0, frame.len() as int) =~= frame);
    }
}

/// A frame that is sent and received comes out as it went in. Whatever the
/// receiver holds of other frames, the messages of a video or screen frame,
/// taken in order, hand on that one frame, byte for byte. This holds for
/// every frame that the header can count the chunks of, and as long as no
/// frame is pending under the same peer, type and id.
pub proof fn lemma_frame_round_trip(
    s: Map<FrameKeyText, PendingFrameView>,
    peer_id: Seq<char>,
    type_byte: u8,
    frame_id: u32,
    frame: Seq<u8>,
)
    requires
        is_frame_type(type_byte),
        chunks_needed(frame.len()) <= 0xffff,
        !s.contains_key(FrameKeyText { peer_id, frame_type: type_byte, frame_id }),
    ensures
        received_all(s, peer_id, frame_messages(type_byte, frame_id, frame)).frames == seq![
            (type_byte, frame),
        ],
{
    let msgs = frame_messages(type_byte, frame_id, frame);
    if is_chunked(frame.len()) {
        lemma_chunks_needed(frame.len());
        let total = chunks_needed(frame.len());
        assert(total >= 1);
        let j = (total - 1) as nat;
        lemma_chunks_pending(s, peer_id, type_byte, frame_id, frame, j);
        lemma_chunk_step(s, peer_id, type_byte, frame_id, frame, j);
        assert(msgs.drop_last() =~= msgs.take(j as int));
        assert(msgs.last() == chunk_message(type_byte, frame_id, frame, j as int));
        assert(received_all(s, peer_id, msgs).frames =~= seq![(type_byte, frame)]);
    } else {
        let m = single_message(type_byte, frame);
        assert(m.skip(1) =~= frame);
        assert(m[0] == type_byte);
        assert(msgs.drop_last() =~= Seq::<Seq<u8>>::empty());
        assert(msgs.last() == m);
        assert(received_all(s, peer_id, msgs.drop_last()).frames =~= Seq::<(u8, Seq<u8>)>::empty());
        assert(received_all(s, peer_id, msgs).frames =~= seq![(type_byte, frame)]);
    }
}

/// No message of a frame is longer than the data channel takes, and a frame
/// goes out in one message exactly if it fits into one together with its
/// type byte.
pub proof fn lemma_message_sizes(type_byte: u8, frame_id: u32, frame: Seq<u8>, i: int)
    requires
        0 <= i < frame_messages(type_byte, frame_id, frame).len(),
    ensures
        frame_messages(type_byte, frame_id, frame)[i].len() <= MAX_DC_MSG_SIZE,
        !is_chunked(frame.len()) <==> frame_messages(type_byte, frame_id, frame) == seq![
            single_message(type_byte, frame),
        ],
        is_chunked(frame.len()) && chunks_needed(frame.len()) <= 0xffff ==> frame_messages(
            type_byte,
            frame_id,
            frame,
        ).len() == chunks_needed(frame.len()) >= 2,
{
    lemma_auto_spec_u32_to_from_le_bytes();
    lemma_auto_spec_u16_to_from_le_bytes();
    lemma_chunks_needed(frame.len());
    let msgs = frame_messages(type_byte, frame_id, frame);
    if is_chunked(frame.len()) {
        let m = chunk_message(type_byte, frame_id, frame, i);
        assert(msgs[i] == m);
        assert(m[0] == TYPE_CHUNK);
        assert(m.len() >= 10);
        if msgs == seq![single_message(type_byte, frame)] {
            assert(msgs[0].len() == 1 + frame.len());
            assert(msgs.len() == 1);
            assert(chunk_payload(frame, 0).len() <= 14990);
            assert(false);
        }
    }
}

/// The pieces of a frame whose chunk indices stand in `order`.
pub open spec fn pieces_in(frame: Seq<u8>, order: Seq<u16>) -> Map<u16, Seq<u8>> {
    Map::new(|i: u16| order.contains(i), |i: u16| chunk_payload(frame, i as int))
}

/// The assembler after some chunks together with the frames that they
/// completed, in order.
pub ghost struct Assembly {
    pub state: Map<FrameKeyText, PendingFrameView>,
    pub frames: Seq<Seq<u8>>,
}

/// What adding the chunks of a frame does, in the order in which `order`
/// names their indices: each chunk announces `total` chunks and carries its
/// piece of the frame.
pub open spec fn chunks_added(
    s: Map<FrameKeyText, PendingFrameView>,
    key: FrameKeyText,
    frame: Seq<u8>,
    total: u16,
    order: Seq<u16>,
) -> Assembly
    decreases order.len(),
{
    if order.len() == 0 {
        Assembly { state: s, frames: Seq::empty() }
    } else {
        let before = chunks_added(s, key, frame, total, order.drop_last());
        let index = order.last();
        let data = chunk_payload(frame, index as int);
        Assembly {
            state: after_chunk(before.state, key, total, index, data),
            frames: match frame_from_chunk(before.state, key, total, index, data) {
                Some(f) => before.frames.push(f),
                None => before.frames,
            },
        }
    }
}

/// Different indices below `n`, fewer than `n` of them, leave one out; `n`
/// of them leave none out.
pub proof fn lemma_indices_named(order: Seq<u16>, n: nat)
    requires
        order.no_duplicates(),
        forall|i: int| 0 <= i < order.len() ==> (#[trigger] order[i] as nat) < n,
        order.len() <= n <= 0x10000,
    ensures
        order.len() < n ==> exists|i: u16| (i as nat) < n && !order.contains(i),
        order.len() == n ==> forall|i: u16| (i as nat) < n ==> order.contains(i),
{
    let below = pieces(Seq::empty(), n).dom();
    lemma_pieces_count(Seq::empty(), n);
    let named = order.to_set();
    assert(named.subset_of(below)) by {
        assert forall|x: u16| named.contains(x) implies below.contains(x) by {
            let j = choose|j: int| 0 <= j < order.len() && order[j] == x;
            assert((order[j] as nat) < n);
        }
    }
    vstd::set_lib::lemma_len_subset(named, below);
    order.unique_seq_to_set();
    if order.len() == n {
        vstd::set_lib::lemma_subset_equality(named, below);
        assert forall|i: u16| (i as nat) < n implies order.contains(i) by {
            assert(below.contains(i));
            assert(named.contains(i));
        }
    } else {
        if forall|i: u16| (i as nat) < n ==> order.contains(i) {
            assert(below.subset_of(named)) by {
                assert forall|x: u16| below.contains(x) implies named.contains(x) by {
                    assert((x as nat) < n);
                }
            }
            vstd::set_lib::lemma_len_subset(below, named);
            assert(false);
        }
    }
}

/// The chunks of a frame may arrive in any order. As long as one is
/// missing, nothing is handed on and what arrived is kept under the key of
/// the frame; the chunk that arrives last hands on the frame, byte for
/// byte, and leaves nothing behind. This holds for every frame that the
/// header can count the chunks of, when no frame is pending under the same
/// key, and each chunk arrives once.
pub proof fn lemma_any_order(
    s: Map<FrameKeyText, PendingFrameView>,
    key: FrameKeyText,
    frame: Seq<u8>,
    order: Seq<u16>,
)
    requires
        !s.contains_key(key),
        1 <= chunks_needed(frame.len()) <= 0xffff,
        order.no_duplicates(),
        forall|i: int|
            0 <= i < order.len() ==> (#[trigger] order[i] as nat) < chunks_needed(frame.len()),
        order.len() <= chunks_needed(frame.len()),
    ensures
        ({
            let total = chunks_needed(frame.len()) as u16;
            let r = chunks_added(s, key, frame, total, order);
            if order.len() == 0 {
                r == (Assembly { state: s, frames: Seq::empty() })
            } else if order.len() < chunks_needed(frame.len()) {
                r == (Assembly {
                    state: s.insert(
                        key,
                        PendingFrameView { total_chunks: total, chunks: pieces_in(frame, order) },
                    ),
                    frames: Seq::empty(),
                })
            } else {
                r == (Assembly { state: s, frames: seq![frame] })
            }
        }),
    decreases order.len(),
{
    let n = chunks_needed(frame.len());
    let total = n as u16;
    if order.len() > 0 {
        let rest = order.drop_last();
        let index = order.last();
        let data = chunk_payload(frame, index as int);
        assert forall|i: int| 0 <= i < rest.len() implies (#[trigger] rest[i] as nat) < n by {
            assert(rest[i] == order[i]);
        }
        assert(rest.no_duplicates()) by {
            assert forall|i: int, j: int|
                0 <= i < rest.len() && 0 <= j < rest.len() && i != j implies rest[i] != rest[j] by {
                assert(rest[i] == order[i] && rest[j] == order[j]);
            }
        }
        lemma_any_order(s, key, frame, rest);
        let before = chunks_added(s, key, frame, total, rest);
        let entry = entry_with(before.state, key, total, index, data);
        assert forall|i: u16| order.contains(i) <==> (rest.contains(i) || i == index) by {
            if order.contains(i) {
                let j = choose|j: int| 0 <= j < order.len() && order[j] == i;
                if j < rest.len() {
                    assert(rest[j] == i);
                }
            }
            if rest.contains(i) {
                let j = choose|j: int| 0 <= j < rest.len() && rest[j] == i;
                assert(order[j] == i);
            }
            assert(order[order.len() - 1] == index);
        }
        if rest.len() == 0 {
            assert(!before.state.contains_key(key));
        } else {
            assert(before.state.contains_key(key));
        }
        assert(entry.chunks =~= pieces_in(frame, order));
        assert(entry.total_chunks == total);
        lemma_indices_named(order, n);
        if order.len() < n {
            let missing = choose|i: u16| (i as nat) < n && !order.contains(i);
            assert(!entry.chunks.contains_key(missing));
            assert(!has_all(entry.chunks, total as nat));
            assert(before.state.insert(key, entry) =~= s.insert(key, entry));
        } else {
            assert(has_all(entry.chunks, total as nat));
            assert(entry.chunks =~= pieces(frame, n));
            lemma_assembled_pieces(frame, n);
            lemma_chunks_needed(frame.len());
            assert(frame.subrange(0, frame.len() as int) =~= frame);
            assert(before.state.remove(key) =~= s);
            assert(before.frames.push(frame) =~= seq![frame]);
        }
    }
}

} // verus!
