//! The media engine: the frame format of the data channel, the bounded
//! buffers of the audio path, the peer connections of a voice session and
//! the rules of the session itself.

pub mod audio;
pub mod capture;
pub mod engine;
pub mod frame_server;
pub mod frames;
pub mod peer;
pub mod screen;
pub mod signals;
pub mod video;

use vstd::prelude::*;
use crate::text::{clone_opt, clone_texts, opt_text, texts};

verus! {

/// A command to the media engine.
#[derive(Debug, PartialEq, Eq)]
#[allow(inconsistent_fields)]
pub enum MediaCommand {
    JoinVoice { room_id: String, channel_id: String },
    LeaveVoice,
    SetMuted(bool),
    SetDeafened(bool),
    EnableCamera { device_index: Option<u32> },
    DisableCamera,
    StartScreenShare,
    StopScreenShare,
}

#[allow(inconsistent_fields)]
pub ghost enum MediaCommandView {
    JoinVoice { room_id: Seq<char>, channel_id: Seq<char> },
    LeaveVoice,
    SetMuted(bool),
    SetDeafened(bool),
    EnableCamera { device_index: Option<u32> },
    DisableCamera,
    StartScreenShare,
    StopScreenShare,
}

impl View for MediaCommand {
    type V = MediaCommandView;

    open spec fn view(&self) -> MediaCommandView {
        match *self {
            MediaCommand::JoinVoice { room_id, channel_id } => MediaCommandView::JoinVoice {
                room_id: room_id@,
                channel_id: channel_id@,
            },
            MediaCommand::LeaveVoice => MediaCommandView::LeaveVoice,
            MediaCommand::SetMuted(x) => MediaCommandView::SetMuted(x),
            MediaCommand::SetDeafened(x) => MediaCommandView::SetDeafened(x),
            MediaCommand::EnableCamera { device_index } => MediaCommandView::EnableCamera {
                device_index: device_index,
            },
            MediaCommand::DisableCamera => MediaCommandView::DisableCamera,
            MediaCommand::StartScreenShare => MediaCommandView::StartScreenShare,
            MediaCommand::StopScreenShare => MediaCommandView::StopScreenShare,
        }
    }
}

impl Clone for MediaCommand {
    fn clone(&self) -> (r: Self)
        ensures
            r@ == self@,
    {
        match self {
            MediaCommand::JoinVoice { room_id, channel_id } => MediaCommand::JoinVoice {
                room_id: room_id.clone(),
                channel_id: channel_id.clone(),
            },
            MediaCommand::LeaveVoice => MediaCommand::LeaveVoice,
            MediaCommand::SetMuted(x) => MediaCommand::SetMuted(*x),
            MediaCommand::SetDeafened(x) => MediaCommand::SetDeafened(*x),
            MediaCommand::EnableCamera { device_index } => MediaCommand::EnableCamera {
                device_index: *device_index,
            },
            MediaCommand::DisableCamera => MediaCommand::DisableCamera,
            MediaCommand::StartScreenShare => MediaCommand::StartScreenShare,
            MediaCommand::StopScreenShare => MediaCommand::StopScreenShare,
        }
    }
}

/// A snapshot of the voice session as shown to the user.
#[derive(Debug, PartialEq, Eq)]
pub struct VoiceState {
    pub in_voice: bool,
    pub room_id: Option<String>,
    pub channel_id: Option<String>,
    pub muted: bool,
    pub deafened: bool,
    pub connected_peers: Vec<String>,
    pub camera_enabled: bool,
    pub screen_sharing: bool,
}

pub ghost struct VoiceStateView {
    pub in_voice: bool,
    pub room_id: Option<Seq<char>>,
    pub channel_id: Option<Seq<char>>,
    pub muted: bool,
    pub deafened: bool,
    pub connected_peers: Seq<Seq<char>>,
    pub camera_enabled: bool,
    pub screen_sharing: bool,
}

impl View for VoiceState {
    type V = VoiceStateView;

    open spec fn view(&self) -> VoiceStateView {
        VoiceStateView {
            in_voice: self.in_voice,
            room_id: opt_text(self.room_id),
            channel_id: opt_text(self.channel_id),
            muted: self.muted,
            deafened: self.deafened,
            connected_peers: texts(self.connected_peers@),
            camera_enabled: self.camera_enabled,
            screen_sharing: self.screen_sharing,
        }
    }
}

impl Clone for VoiceState {
    fn clone(&self) -> (r: Self)
        ensures
            r@ == self@,
    {
        VoiceState {
            in_voice: self.in_voice,
            room_id: clone_opt(&self.room_id),
            channel_id: clone_opt(&self.channel_id),
            muted: self.muted,
            deafened: self.deafened,
            connected_peers: clone_texts(&self.connected_peers),
            camera_enabled: self.camera_enabled,
            screen_sharing: self.screen_sharing,
        }
    }
}

/// The snapshot of a session that is in no voice channel.
pub open spec fn idle_voice_state() -> VoiceStateView {
    VoiceStateView {
        in_voice: false,
        room_id: None,
        channel_id: None,
        muted: false,
        deafened: false,
        connected_peers: Seq::empty(),
        camera_enabled: false,
        screen_sharing: false,
    }
}

impl Default for VoiceState {
    fn default() -> (state: Self)
        ensures
            state@ == idle_voice_state(),
    {
        let state = VoiceState {
            in_voice: false,
            room_id: None,
            channel_id: None,
            muted: false,
            deafened: false,
            connected_peers: Vec::new(),
            camera_enabled: false,
            screen_sharing: false,
        };
        assert(texts(state.connected_peers@) =~= Seq::<Seq<char>>::empty());
        state
    }
}

} // verus!
