//! The peer connections of a voice session, as far as the rules of the
//! session need to know them: which peers are connected, which of them have
//! a data channel, the counter of chunked frames, and the frames that are
//! under reassembly.
//!
//! The connections themselves live with the engine loop, which keeps them
//! by peer id and does to them what the actions say.

use vstd::prelude::*;
use crate::media::frames::{
    encode_frame, frame_messages, is_chunked, received, without_peer, ChunkAssembler, FrameKeyText,
    PendingFrameView, MAX_DC_MSG_SIZE, TYPE_SCREEN, TYPE_VIDEO,
};
use crate::media::signals::{PeerEvent, PeerEventView};
use crate::strmap::{lemma_index_of_unique, with_name, without_index, without_name, StrSet};
use crate::text::{byte_lists, opt_view, texts};

verus! {

/// The label of the data channel that carries video and screen frames.
pub const DATA_CHANNEL_LABEL: &'static str = "media-frames";

/// The first of the two servers that connections ask for their address.
pub const STUN_SERVER_A: &'static str = "stun:stun.l.google.com:19302";

/// The second of the two servers that connections ask for their address.
pub const STUN_SERVER_B: &'static str = "stun:stun1.l.google.com:19302";

/// The kind of the local audio track.
pub const AUDIO_MIME_TYPE: &'static str = "audio/opus";

/// The parameters of the audio codec.
pub const AUDIO_FMTP: &'static str = "minptime=10;useinbandfec=1";

/// The clock rate of the local audio track.
pub const AUDIO_CLOCK_RATE: u32 = 48000;

/// The milliseconds of audio in one sample of the local track.
pub const AUDIO_FRAME_MILLIS: u64 = 20;

/// The most bytes that an encoded block of audio has.
pub const MAX_OPUS_PACKET: usize = 4000;

/// The peer connections of one voice session.
pub struct PeerManager {
    connections: StrSet,
    data_channels: StrSet,
    frame_counter: u32,
    assembler: ChunkAssembler,
}

/// The peer connections of a session as mathematics.
pub ghost struct PeerManagerView {
    /// The peers to which a connection exists, each once, oldest first.
    pub connections: Seq<Seq<char>>,
    /// The peers whose data channel is open, each once, oldest first.
    pub data_channels: Seq<Seq<char>>,
    /// The id that the next chunked frame is sent under.
    pub frame_counter: u32,
    /// The frames under reassembly.
    pub pending: Map<FrameKeyText, PendingFrameView>,
}

impl View for PeerManager {
    type V = PeerManagerView;

    closed spec fn view(&self) -> PeerManagerView {
        PeerManagerView {
            connections: self.connections@,
            data_channels: self.data_channels@,
            frame_counter: self.frame_counter,
            pending: self.assembler@,
        }
    }
}

/// Connections as a new session has them: none.
pub open spec fn no_peers() -> PeerManagerView {
    PeerManagerView {
        connections: Seq::empty(),
        data_channels: Seq::empty(),
        frame_counter: 0,
        pending: Map::empty(),
    }
}

/// The connections after the one to `peer_id` was closed: the peer, its
/// data channel and what was under reassembly from it are gone.
pub open spec fn peer_closed(v: PeerManagerView, peer_id: Seq<char>) -> PeerManagerView {
    PeerManagerView {
        connections: without_name(v.connections, peer_id),
        data_channels: without_name(v.data_channels, peer_id),
        frame_counter: v.frame_counter,
        pending: without_peer(v.pending, peer_id),
    }
}

/// The connections after a connection to `peer_id` was made. A connection
/// that existed before is closed first, so that there is never more than one
/// to a peer.
pub open spec fn peer_opened(v: PeerManagerView, peer_id: Seq<char>) -> PeerManagerView {
    PeerManagerView {
        connections: peer_closed(v, peer_id).connections.push(peer_id),
        ..peer_closed(v, peer_id)
    }
}

/// The connections after the data channel of `peer_id` opened.
pub open spec fn channel_opened(v: PeerManagerView, peer_id: Seq<char>) -> PeerManagerView {
    PeerManagerView { data_channels: with_name(v.data_channels, peer_id), ..v }
}

/// The connections after those to `peers` were closed, one after the other.
pub open spec fn peers_closed(v: PeerManagerView, peers: Seq<Seq<char>>) -> PeerManagerView
    decreases peers.len(),
{
    if peers.len() == 0 {
        v
    } else {
        peers_closed(peer_closed(v, peers[0]), peers.drop_first())
    }
}

/// The connections after all of them were closed.
pub open spec fn all_closed(v: PeerManagerView) -> PeerManagerView {
    peers_closed(v, v.connections)
}

/// The messages that carry a frame to the peers: none where no data channel
/// is open, else those of the frame format, chunked frames under the id of
/// the frame counter.
pub open spec fn frame_dispatch(v: PeerManagerView, type_byte: u8, frame: Seq<u8>) -> Seq<Seq<u8>> {
    if v.data_channels.len() == 0 {
        Seq::empty()
    } else {
        frame_messages(type_byte, v.frame_counter, frame)
    }
}

/// The connections after a frame was sent: a frame that went out in chunks
/// has used up one frame id.
pub open spec fn frame_sent(v: PeerManagerView, frame: Seq<u8>) -> PeerManagerView {
    if v.data_channels.len() > 0 && is_chunked(frame.len()) {
        PeerManagerView { frame_counter: v.frame_counter.wrapping_add(1), ..v }
    } else {
        v
    }
}

/// The event that a frame from a peer is handed to the engine as.
pub open spec fn frame_event(peer_id: Seq<char>, frame: (u8, Seq<u8>)) -> PeerEventView {
    if frame.0 == TYPE_SCREEN {
        PeerEventView::ScreenFrame { peer_id, data: frame.1 }
    } else {
        PeerEventView::VideoFrame { peer_id, data: frame.1 }
    }
}

/// The connections after a message came from the data channel of a peer. A
/// message of a peer without connection is dropped.
pub open spec fn message_received(v: PeerManagerView, peer_id: Seq<char>, data: Seq<u8>) -> PeerManagerView {
    if v.connections.contains(peer_id) {
        PeerManagerView { pending: received(v.pending, peer_id, data).state, ..v }
    } else {
        v
    }
}

/// The event that a message from the data channel of a peer leads to.
pub open spec fn message_event(v: PeerManagerView, peer_id: Seq<char>, data: Seq<u8>) -> Option<
    PeerEventView,
> {
    if v.connections.contains(peer_id) {
        match received(v.pending, peer_id, data).frame {
            Some(frame) => Some(frame_event(peer_id, frame)),
            None => None,
        }
    } else {
        None
    }
}

impl PeerManager {
    /// The connections of a new session: none.
    pub fn new() -> (m: PeerManager)
        ensures
            m@ == no_peers(),
    {
        PeerManager {
            connections: StrSet::new(),
            data_channels: StrSet::new(),
            frame_counter: 0,
            assembler: ChunkAssembler::new(),
        }
    }

    /// Whether a connection to `peer_id` exists.
    pub fn has_peer(&self, peer_id: &str) -> (b: bool)
        ensures
            b == self@.connections.contains(peer_id@),
    {
        self.connections.contains(peer_id)
    }

    /// The peers to which a connection exists, oldest first.
    pub fn connected_peers(&self) -> (peers: Vec<String>)
        ensures
            texts(peers@) == self@.connections,
            self@.connections.no_duplicates(),
    {
        proof {
            use_type_invariant(&self.connections);
        }
        self.connections.to_vec()
    }

    /// The peers whose data channel is open, each once, oldest first.
    pub fn channel_peers(&self) -> (peers: Vec<String>)
        ensures
            texts(peers@) == self@.data_channels,
            self@.data_channels.no_duplicates(),
    {
        proof {
            use_type_invariant(&self.data_channels);
        }
        self.data_channels.to_vec()
    }

    /// Closes the connection to `peer_id`; says whether there was one.
    /// Afterwards there is neither a connection nor a data channel to the
    /// peer.
    pub fn close_peer(&mut self, peer_id: &str) -> (closed: bool)
        ensures
            final(self)@ == peer_closed(old(self)@, peer_id@),
            closed == old(self)@.connections.contains(peer_id@),
            !final(self)@.connections.contains(peer_id@),
            !final(self)@.data_channels.contains(peer_id@),
    {
        proof {
            use_type_invariant(&self.connections);
            use_type_invariant(&self.data_channels);
            lemma_gone(self.connections@, peer_id@);
            lemma_gone(self.data_channels@, peer_id@);
        }
        self.data_channels.remove(peer_id);
        self.assembler.forget_peer(peer_id);
        self.connections.remove(peer_id)
    }

    /// Records that a connection to `peer_id` was made; says whether one
    /// that existed before was replaced. Afterwards there is one connection
    /// to the peer, and no data channel until one is opened on the new
    /// connection.
    pub fn open_connection(&mut self, peer_id: &str) -> (replaced: bool)
        ensures
            final(self)@ == peer_opened(old(self)@, peer_id@),
            replaced == old(self)@.connections.contains(peer_id@),
            final(self)@.connections.contains(peer_id@),
            final(self)@.connections.no_duplicates(),
            !final(self)@.data_channels.contains(peer_id@),
    {
        proof {
            use_type_invariant(&self.connections);
        }
        let ghost before = self.connections@;
        let replaced = self.close_peer(peer_id);
        let ghost between = self.connections@;
        proof {
            lemma_gone(before, peer_id@);
        }
        self.connections.insert(peer_id.to_owned());
        assert(self.connections@ == between.push(peer_id@));
        assert(self.connections@[between.len() as int] == peer_id@);
        proof {
            use_type_invariant(&self.connections);
        }
        replaced
    }

    /// Records that the data channel of `peer_id` is open.
    pub fn open_channel(&mut self, peer_id: &str)
        ensures
            final(self)@ == channel_opened(old(self)@, peer_id@),
    {
        self.data_channels.insert(peer_id.to_owned());
    }

    /// Closes all connections; returns the peers that were connected, oldest
    /// first.
    pub fn close_all(&mut self) -> (peers: Vec<String>)
        ensures
            final(self)@ == all_closed(old(self)@),
            final(self)@.connections == Seq::<Seq<char>>::empty(),
            texts(peers@) == old(self)@.connections,
    {
        let ghost start = self@;
        let ghost all = self@.connections;
        proof {
            use_type_invariant(&self.connections);
        }
        let mut peers: Vec<String> = Vec::new();
        assert(texts(peers@) =~= all.take(0));
        assert(all.skip(0) =~= all);
        while self.connections.len() > 0
            invariant
                all.no_duplicates(),
                peers@.len() <= all.len(),
                texts(peers@) == all.take(peers@.len() as int),
                self@.connections == all.skip(peers@.len() as int),
                peers_closed(self@, self@.connections) == peers_closed(start, all),
            decreases self@.connections.len(),
        {
            let ghost n = peers@.len() as int;
            let ghost left = self@.connections;
            let peer = self.connections.get(0).clone();
            proof {
                assert(left[0] == all[n]);
                assert(left.no_duplicates()) by {
                    assert forall|i: int, j: int|
                        0 <= i < left.len() && 0 <= j < left.len() && i != j implies left[i]
                        != left[j] by {
                        assert(left[i] == all[n + i]);
                        assert(left[j] == all[n + j]);
                    }
                }
                lemma_index_of_unique(left, 0);
                assert(without_index(left, 0) =~= left.drop_first());
                assert(left.drop_first() =~= all.skip(n + 1));
            }
            self.close_peer(peer.as_str());
            peers.push(peer);
            assert(texts(peers@) =~= all.take(n + 1));
        }
        assert(self@.connections =~= Seq::<Seq<char>>::empty());
        assert(all.take(all.len() as int) =~= all);
        peers
    }

    /// The messages that carry a frame to the peers, in the order of
    /// sending. Each goes to every peer with an open data channel.
    fn send_frame(&mut self, type_byte: u8, frame: &[u8]) -> (messages: Vec<Vec<u8>>)
        ensures
            byte_lists(messages@) == frame_dispatch(old(self)@, type_byte, frame@),
            final(self)@ == frame_sent(old(self)@, frame@),
    {
        if self.data_channels.is_empty() {
            let messages: Vec<Vec<u8>> = Vec::new();
            assert(byte_lists(messages@) =~= Seq::<Seq<u8>>::empty());
            return messages;
        }
        let messages = encode_frame(type_byte, self.frame_counter, frame);
        if frame.len() >= MAX_DC_MSG_SIZE {
            self.frame_counter = self.frame_counter.wrapping_add(1);
        }
        messages
    }

    /// The messages that carry a video frame to the peers.
    pub fn send_video_frame(&mut self, jpeg_data: &[u8]) -> (messages: Vec<Vec<u8>>)
        ensures
            byte_lists(messages@) == frame_dispatch(old(self)@, TYPE_VIDEO, jpeg_data@),
            final(self)@ == frame_sent(old(self)@, jpeg_data@),
    {
        self.send_frame(TYPE_VIDEO, jpeg_data)
    }

    /// The messages that carry a screen frame to the peers.
    pub fn send_screen_frame(&mut self, jpeg_data: &[u8]) -> (messages: Vec<Vec<u8>>)
        ensures
            byte_lists(messages@) == frame_dispatch(old(self)@, TYPE_SCREEN, jpeg_data@),
            final(self)@ == frame_sent(old(self)@, jpeg_data@),
    {
        self.send_frame(TYPE_SCREEN, jpeg_data)
    }

    /// Takes in a message from the data channel of `peer_id`. Returns the
    /// frame event that the message leads to, if any.
    pub fn receive(&mut self, peer_id: &str, data: &[u8]) -> (event: Option<PeerEvent>)
        ensures
            final(self)@ == message_received(old(self)@, peer_id@, data@),
            opt_view(event) == message_event(old(self)@, peer_id@, data@),
    {
        if !self.connections.contains(peer_id) {
            return None;
        }
        match self.assembler.receive(peer_id, data) {
            Some(frame) => {
                if frame.0 == TYPE_SCREEN {
                    Some(PeerEvent::ScreenFrame { peer_id: peer_id.to_owned(), data: frame.1 })
                } else {
                    Some(PeerEvent::VideoFrame { peer_id: peer_id.to_owned(), data: frame.1 })
                }
            },
            None => None,
        }
    }
}

/// A name that was taken out of a duplicate-free sequence is not in it.
pub proof fn lemma_gone(s: Seq<Seq<char>>, name: Seq<char>)
    requires
        s.no_duplicates(),
    ensures
        !without_name(s, name).contains(name),
        without_name(s, name).no_duplicates(),
{
    if s.contains(name) {
        let i = s.index_of(name);
        assert(s[i] == name);
        crate::strmap::lemma_without_index(s, i);
    }
}

/// Whether no peer has two connections or two data channels.
pub open spec fn each_peer_once(v: PeerManagerView) -> bool {
    v.connections.no_duplicates() && v.data_channels.no_duplicates()
}

/// Closing the connection to a peer leaves neither a connection nor a data
/// channel to it, and what other peers have stays.
pub proof fn lemma_closed_is_gone(v: PeerManagerView, peer_id: Seq<char>, other: Seq<char>)
    requires
        each_peer_once(v),
        other != peer_id,
    ensures
        each_peer_once(peer_closed(v, peer_id)),
        !peer_closed(v, peer_id).connections.contains(peer_id),
        !peer_closed(v, peer_id).data_channels.contains(peer_id),
        peer_closed(v, peer_id).connections.contains(other) == v.connections.contains(other),
        peer_closed(v, peer_id).data_channels.contains(other) == v.data_channels.contains(other),
{
    lemma_gone(v.connections, peer_id);
    lemma_gone(v.data_channels, peer_id);
    if v.connections.contains(peer_id) {
        let i = v.connections.index_of(peer_id);
        assert(v.connections[i] == peer_id);
        crate::strmap::lemma_without_index(v.connections, i);
    }
    if v.data_channels.contains(peer_id) {
        let i = v.data_channels.index_of(peer_id);
        assert(v.data_channels[i] == peer_id);
        crate::strmap::lemma_without_index(v.data_channels, i);
    }
}

/// Making a connection to a peer never leaves two connections to one peer,
/// and leaves no data channel of a connection that it replaced.
pub proof fn lemma_opened_distinct(v: PeerManagerView, peer_id: Seq<char>)
    requires
        v.connections.no_duplicates(),
    ensures
        peer_opened(v, peer_id).connections.no_duplicates(),
        peer_opened(v, peer_id).connections.contains(peer_id),
        v.data_channels.no_duplicates() ==> peer_opened(v, peer_id).data_channels.no_duplicates()
            && !peer_opened(v, peer_id).data_channels.contains(peer_id),
{
    if v.data_channels.no_duplicates() {
        lemma_gone(v.data_channels, peer_id);
    }
    lemma_gone(v.connections, peer_id);
    let rest = without_name(v.connections, peer_id);
    let r = rest.push(peer_id);
    assert(r[rest.len() as int] == peer_id);
    assert forall|i: int, j: int| 0 <= i < r.len() && 0 <= j < r.len() && i != j implies r[i]
        != r[j] by {
        if i < rest.len() {
            assert(rest[i] == r[i]);
        }
        if j < rest.len() {
            assert(rest[j] == r[j]);
        }
    }
}

/// Closing a connection discards what was under reassembly from its peer.
pub proof fn lemma_closed_forgets(v: PeerManagerView, peer_id: Seq<char>, key: FrameKeyText)
    requires
        key.peer_id == peer_id,
    ensures
        !peer_closed(v, peer_id).pending.contains_key(key),
{
}

} // verus!
