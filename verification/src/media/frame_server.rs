//! The frame server: for video and for screen shares, which peers have a
//! stream, and the latest frame of each peer.
//!
//! A frame that is pushed replaces the latest frame of its peer and goes
//! out to those who follow the stream of the peer, if the peer has one.

use vstd::prelude::*;
use crate::strmap::{with_name, without_name, StrMap, StrSet};
use crate::text::opt_bytes;

verus! {

/// The registry of the frame server.
pub struct FrameServerState {
    video_streams: StrSet,
    screen_streams: StrSet,
    latest_video_frames: StrMap<Vec<u8>>,
    latest_screen_frames: StrMap<Vec<u8>>,
}

/// The registry of the frame server as mathematics.
pub ghost struct FrameServerView {
    /// The peers with a video stream, oldest first.
    pub video_streams: Seq<Seq<char>>,
    /// The peers with a screen stream, oldest first.
    pub screen_streams: Seq<Seq<char>>,
    /// The latest video frame of each peer.
    pub latest_video_frames: Map<Seq<char>, Seq<u8>>,
    /// The latest screen frame of each peer.
    pub latest_screen_frames: Map<Seq<char>, Seq<u8>>,
}

impl View for FrameServerState {
    type V = FrameServerView;

    closed spec fn view(&self) -> FrameServerView {
        FrameServerView {
            video_streams: self.video_streams@,
            screen_streams: self.screen_streams@,
            latest_video_frames: self.latest_video_frames@,
            latest_screen_frames: self.latest_screen_frames@,
        }
    }
}

/// A registry without streams and frames.
pub open spec fn empty_frame_server() -> FrameServerView {
    FrameServerView {
        video_streams: Seq::empty(),
        screen_streams: Seq::empty(),
        latest_video_frames: Map::empty(),
        latest_screen_frames: Map::empty(),
    }
}

impl FrameServerState {
    /// A registry without streams and frames.
    pub fn new() -> (s: Self)
        ensures
            s@ == empty_frame_server(),
    {
        FrameServerState {
            video_streams: StrSet::new(),
            screen_streams: StrSet::new(),
            latest_video_frames: StrMap::new(),
            latest_screen_frames: StrMap::new(),
        }
    }

    /// Gives `peer_id` a video stream; says whether it had none.
    pub fn register_video_stream(&mut self, peer_id: &str) -> (added: bool)
        ensures
            final(self)@ == (FrameServerView {
                video_streams: with_name(old(self)@.video_streams, peer_id@),
                ..old(self)@
            }),
            added == !old(self)@.video_streams.contains(peer_id@),
    {
        self.video_streams.insert(peer_id.to_owned())
    }

    /// Takes the video stream of `peer_id` away, with its latest frame.
    pub fn remove_video_stream(&mut self, peer_id: &str)
        ensures
            final(self)@ == (FrameServerView {
                video_streams: without_name(old(self)@.video_streams, peer_id@),
                latest_video_frames: old(self)@.latest_video_frames.remove(peer_id@),
                ..old(self)@
            }),
    {
        self.video_streams.remove(peer_id);
        self.latest_video_frames.remove(peer_id);
    }

    /// Gives `peer_id` a screen stream; says whether it had none.
    pub fn register_screen_stream(&mut self, peer_id: &str) -> (added: bool)
        ensures
            final(self)@ == (FrameServerView {
                screen_streams: with_name(old(self)@.screen_streams, peer_id@),
                ..old(self)@
            }),
            added == !old(self)@.screen_streams.contains(peer_id@),
    {
        self.screen_streams.insert(peer_id.to_owned())
    }

    /// Takes the screen stream of `peer_id` away, with its latest frame.
    pub fn remove_screen_stream(&mut self, peer_id: &str)
        ensures
            final(self)@ == (FrameServerView {
                screen_streams: without_name(old(self)@.screen_streams, peer_id@),
                latest_screen_frames: old(self)@.latest_screen_frames.remove(peer_id@),
                ..old(self)@
            }),
    {
        self.screen_streams.remove(peer_id);
        self.latest_screen_frames.remove(peer_id);
    }

    /// Takes a video frame of `peer_id`: it becomes the latest frame of the
    /// peer. Says whether the frame is to go out on the stream of the peer,
    /// which it is if the peer has one.
    pub fn push_video_frame(&mut self, peer_id: &str, jpeg_data: Vec<u8>) -> (send: bool)
        ensures
            final(self)@ == (FrameServerView {
                latest_video_frames: old(self)@.latest_video_frames.insert(peer_id@, jpeg_data@),
                ..old(self)@
            }),
            send == old(self)@.video_streams.contains(peer_id@),
    {
        self.latest_video_frames.insert(peer_id.to_owned(), jpeg_data);
        self.video_streams.contains(peer_id)
    }

    /// Takes a screen frame of `peer_id`, as `push_video_frame` takes a
    /// video frame.
    pub fn push_screen_frame(&mut self, peer_id: &str, jpeg_data: Vec<u8>) -> (send: bool)
        ensures
            final(self)@ == (FrameServerView {
                latest_screen_frames: old(self)@.latest_screen_frames.insert(peer_id@, jpeg_data@),
                ..old(self)@
            }),
            send == old(self)@.screen_streams.contains(peer_id@),
    {
        self.latest_screen_frames.insert(peer_id.to_owned(), jpeg_data);
        self.screen_streams.contains(peer_id)
    }

    /// Whether `peer_id` has a video stream.
    pub fn has_video_stream(&self, peer_id: &str) -> (b: bool)
        ensures
            b == self@.video_streams.contains(peer_id@),
    {
        self.video_streams.contains(peer_id)
    }

    /// Whether `peer_id` has a screen stream.
    pub fn has_screen_stream(&self, peer_id: &str) -> (b: bool)
        ensures
            b == self@.screen_streams.contains(peer_id@),
    {
        self.screen_streams.contains(peer_id)
    }

    /// The latest video frame of `peer_id`, if there is one.
    pub fn latest_video_frame(&self, peer_id: &str) -> (frame: Option<Vec<u8>>)
        ensures
            opt_bytes(frame) == (if self@.latest_video_frames.contains_key(peer_id@) {
                Some(self@.latest_video_frames[peer_id@])
            } else {
                None
            }),
    {
        match self.latest_video_frames.get(peer_id) {
            Some(frame) => Some(frame.clone()),
            None => None,
        }
    }

    /// The latest screen frame of `peer_id`, if there is one.
    pub fn latest_screen_frame(&self, peer_id: &str) -> (frame: Option<Vec<u8>>)
        ensures
            opt_bytes(frame) == (if self@.latest_screen_frames.contains_key(peer_id@) {
                Some(self@.latest_screen_frames[peer_id@])
            } else {
                None
            }),
    {
        match self.latest_screen_frames.get(peer_id) {
            Some(frame) => Some(frame.clone()),
            None => None,
        }
    }
}

/// Registering a stream twice is registering it once.
pub proof fn lemma_register_twice(streams: Seq<Seq<char>>, peer_id: Seq<char>)
    ensures
        with_name(with_name(streams, peer_id), peer_id) == with_name(streams, peer_id),
{
    crate::strmap::lemma_with_name(streams, peer_id);
}

/// Removing a stream twice is removing it once.
pub proof fn lemma_remove_twice(streams: Seq<Seq<char>>, peer_id: Seq<char>)
    requires
        streams.no_duplicates(),
    ensures
        without_name(without_name(streams, peer_id), peer_id) == without_name(streams, peer_id),
{
    crate::media::peer::lemma_gone(streams, peer_id);
}

} // verus!
