//! What goes into the rules of the voice session and what comes out of
//! them: the events of the peer connections, the inputs that the engine loop
//! hands over, and the actions that it then carries out in order.

use vstd::prelude::*;
use crate::events::{AppEvent, AppEventView};
use crate::media::{MediaCommand, MediaCommandView, VoiceState, VoiceStateView};
use crate::network::{NetworkCommand, NetworkCommandView};
use crate::text::{byte_lists, clone_byte_lists, clone_opt, clone_texts, opt_text, texts};

verus! {

/// The state of a peer connection, as the connection reports it.
#[derive(Clone, Copy, Debug, PartialEq, Eq, Structural)]
pub enum ConnectionState {
    Unspecified,
    New,
    Connecting,
    Connected,
    Disconnected,
    Failed,
    Closed,
}

/// What a peer connection reports to the engine.
#[derive(Debug, PartialEq, Eq)]
#[allow(inconsistent_fields)]
pub enum PeerEvent {
    /// The connection to a peer changed its state.
    ConnectionStateChanged { peer_id: String, state: ConnectionState },
    /// An audio track of a peer arrived.
    RemoteTrack { peer_id: String },
    /// A connectivity candidate was gathered and is to be sent to the peer.
    IceCandidate { peer_id: String, candidate: String },
    /// A video frame of a peer arrived on the data channel.
    VideoFrame { peer_id: String, data: Vec<u8> },
    /// A screen frame of a peer arrived on the data channel.
    ScreenFrame { peer_id: String, data: Vec<u8> },
}

#[allow(inconsistent_fields)]
pub ghost enum PeerEventView {
    ConnectionStateChanged { peer_id: Seq<char>, state: ConnectionState },
    RemoteTrack { peer_id: Seq<char> },
    IceCandidate { peer_id: Seq<char>, candidate: Seq<char> },
    VideoFrame { peer_id: Seq<char>, data: Seq<u8> },
    ScreenFrame { peer_id: Seq<char>, data: Seq<u8> },
}

impl View for PeerEvent {
    type V = PeerEventView;

    open spec fn view(&self) -> PeerEventView {
        match *self {
            PeerEvent::ConnectionStateChanged { peer_id, state } => PeerEventView::ConnectionStateChanged {
                peer_id: peer_id@,
                state: state,
            },
            PeerEvent::RemoteTrack { peer_id } => PeerEventView::RemoteTrack {
                peer_id: peer_id@,
            },
            PeerEvent::IceCandidate { peer_id, candidate } => PeerEventView::IceCandidate {
                peer_id: peer_id@,
                candidate: candidate@,
            },
            PeerEvent::VideoFrame { peer_id, data } => PeerEventView::VideoFrame {
                peer_id: peer_id@,
                data: data@,
            },
            PeerEvent::ScreenFrame { peer_id, data } => PeerEventView::ScreenFrame {
                peer_id: peer_id@,
                data: data@,
            },
        }
    }
}

impl Clone for PeerEvent {
    fn clone(&self) -> (r: Self)
        ensures
            r@ == self@,
    {
        match self {
            PeerEvent::ConnectionStateChanged { peer_id, state } => PeerEvent::ConnectionStateChanged {
                peer_id: peer_id.clone(),
                state: *state,
            },
            PeerEvent::RemoteTrack { peer_id } => PeerEvent::RemoteTrack {
                peer_id: peer_id.clone(),
            },
            PeerEvent::IceCandidate { peer_id, candidate } => PeerEvent::IceCandidate {
                peer_id: peer_id.clone(),
                candidate: candidate.clone(),
            },
            PeerEvent::VideoFrame { peer_id, data } => PeerEvent::VideoFrame {
                peer_id: peer_id.clone(),
                data: data.clone(),
            },
            PeerEvent::ScreenFrame { peer_id, data } => PeerEvent::ScreenFrame {
                peer_id: peer_id.clone(),
                data: data.clone(),
            },
        }
    }
}

/// What the engine loop hands to the rules.
#[derive(Debug, PartialEq, Eq)]
#[allow(inconsistent_fields)]
pub enum MediaInput {
    /// A command from the application.
    Command(MediaCommand),
    /// A block of captured samples is at hand; `voiced` says whether its level
    /// is above the threshold of speech.
    AudioBlock { voiced: bool },
    /// The camera delivered a frame.
    CameraFrame { jpeg: Vec<u8> },
    /// The screen capture delivered a frame.
    ScreenFrame { jpeg: Vec<u8> },
    /// A peer connection reported something.
    Peer(PeerEvent),
    /// An event of the event bus, among them the signaling of other peers.
    App(AppEvent),
    /// A message arrived on the data channel of a peer.
    DataMessage { peer_id: String, data: Vec<u8> },
    /// How a `CreateEncoder` action went.
    EncoderReady { ok: bool },
    /// How a `StartCamera` action went.
    CameraStarted { ok: bool },
    /// How a `StartScreenCapture` action went.
    ScreenStarted { ok: bool },
    /// How a `CreateDecoder` action went.
    DecoderReady { peer_id: String, ok: bool },
    /// How a `CreateOffer` action went: whether the connection was made,
    /// whether its data channel was opened, and the offer, if one was made.
    OfferReady { peer_id: String, connected: bool, channel_open: bool, sdp: Option<String> },
    /// How an `AcceptOffer` action went: whether a connection was made for it,
    /// and the answer, if one was made.
    AnswerReady { peer_id: String, connected: bool, sdp: Option<String> },
    /// A peer opened its data channel to us.
    DataChannelOpen { peer_id: String },
}

#[allow(inconsistent_fields)]
pub ghost enum MediaInputView {
    Command(MediaCommandView),
    AudioBlock { voiced: bool },
    CameraFrame { jpeg: Seq<u8> },
    ScreenFrame { jpeg: Seq<u8> },
    Peer(PeerEventView),
    App(AppEventView),
    DataMessage { peer_id: Seq<char>, data: Seq<u8> },
    EncoderReady { ok: bool },
    CameraStarted { ok: bool },
    ScreenStarted { ok: bool },
    DecoderReady { peer_id: Seq<char>, ok: bool },
    OfferReady { peer_id: Seq<char>, connected: bool, channel_open: bool, sdp: Option<Seq<char>> },
    AnswerReady { peer_id: Seq<char>, connected: bool, sdp: Option<Seq<char>> },
    DataChannelOpen { peer_id: Seq<char> },
}

impl View for MediaInput {
    type V = MediaInputView;

    open spec fn view(&self) -> MediaInputView {
        match *self {
            MediaInput::Command(x) => MediaInputView::Command(x@),
            MediaInput::AudioBlock { voiced } => MediaInputView::AudioBlock {
                voiced: voiced,
            },
            MediaInput::CameraFrame { jpeg } => MediaInputView::CameraFrame {
                jpeg: jpeg@,
            },
            MediaInput::ScreenFrame { jpeg } => MediaInputView::ScreenFrame {
                jpeg: jpeg@,
            },
            MediaInput::Peer(x) => MediaInputView::Peer(x@),
            MediaInput::App(x) => MediaInputView::App(x@),
            MediaInput::DataMessage { peer_id, data } => MediaInputView::DataMessage {
                peer_id: peer_id@,
                data: data@,
            },
            MediaInput::EncoderReady { ok } => MediaInputView::EncoderReady {
                ok: ok,
            },
            MediaInput::CameraStarted { ok } => MediaInputView::CameraStarted {
                ok: ok,
            },
            MediaInput::ScreenStarted { ok } => MediaInputView::ScreenStarted {
                ok: ok,
            },
            MediaInput::DecoderReady { peer_id, ok } => MediaInputView::DecoderReady {
                peer_id: peer_id@,
                ok: ok,
            },
            MediaInput::OfferReady { peer_id, connected, channel_open, sdp } => MediaInputView::OfferReady {
                peer_id: peer_id@,
                connected: connected,
                channel_open: channel_open,
                sdp: opt_text(sdp),
            },
            MediaInput::AnswerReady { peer_id, connected, sdp } => MediaInputView::AnswerReady {
                peer_id: peer_id@,
                connected: connected,
                sdp: opt_text(sdp),
            },
            MediaInput::DataChannelOpen { peer_id } => MediaInputView::DataChannelOpen {
                peer_id: peer_id@,
            },
        }
    }
}

impl Clone for MediaInput {
    fn clone(&self) -> (r: Self)
        ensures
            r@ == self@,
    {
        match self {
            MediaInput::Command(x) => MediaInput::Command(x.clone()),
            MediaInput::AudioBlock { voiced } => MediaInput::AudioBlock {
                voiced: *voiced,
            },
            MediaInput::CameraFrame { jpeg } => MediaInput::CameraFrame {
                jpeg: jpeg.clone(),
            },
            MediaInput::ScreenFrame { jpeg } => MediaInput::ScreenFrame {
                jpeg: jpeg.clone(),
            },
            MediaInput::Peer(x) => MediaInput::Peer(x.clone()),
            MediaInput::App(x) => MediaInput::App(x.clone()),
            MediaInput::DataMessage { peer_id, data } => MediaInput::DataMessage {
                peer_id: peer_id.clone(),
                data: data.clone(),
            },
            MediaInput::EncoderReady { ok } => MediaInput::EncoderReady {
                ok: *ok,
            },
            MediaInput::CameraStarted { ok } => MediaInput::CameraStarted {
                ok: *ok,
            },
            MediaInput::ScreenStarted { ok } => MediaInput::ScreenStarted {
                ok: *ok,
            },
            MediaInput::DecoderReady { peer_id, ok } => MediaInput::DecoderReady {
                peer_id: peer_id.clone(),
                ok: *ok,
            },
            MediaInput::OfferReady { peer_id, connected, channel_open, sdp } => MediaInput::OfferReady {
                peer_id: peer_id.clone(),
                connected: *connected,
                channel_open: *channel_open,
                sdp: clone_opt(sdp),
            },
            MediaInput::AnswerReady { peer_id, connected, sdp } => MediaInput::AnswerReady {
                peer_id: peer_id.clone(),
                connected: *connected,
                sdp: clone_opt(sdp),
            },
            MediaInput::DataChannelOpen { peer_id } => MediaInput::DataChannelOpen {
                peer_id: peer_id.clone(),
            },
        }
    }
}

/// What the engine loop is to do, in the order given.
#[derive(Debug, PartialEq, Eq)]
#[allow(inconsistent_fields)]
pub enum MediaAction {
    /// Start the microphone; a failure is logged and the session goes on without.
    StartCapture,
    StopCapture,
    /// Start the speaker; a failure is logged.
    StartPlayback,
    StopPlayback,
    /// Silence the speaker, or let it sound again.
    SilencePlayback(bool),
    /// Create the audio encoder and report back with `EncoderReady`.
    CreateEncoder,
    DropEncoder,
    /// Set the smoothed audio level to zero.
    ResetAudioLevel,
    /// Encode the block at hand and write it to the local audio track.
    EncodeAndSend,
    /// Start the camera and report back with `CameraStarted`.
    StartCamera { device_index: Option<u32> },
    StopCamera,
    /// Start the screen capture and report back with `ScreenStarted`.
    StartScreenCapture,
    StopScreenCapture,
    /// Make a fresh local audio track for the connections of a new session.
    ResetPeers,
    /// Drop the local audio track.
    DropPeers,
    /// Close the connection to a peer and its data channel.
    ClosePeer { peer_id: String },
    /// Build a connection to a peer with a data channel, make an offer and
    /// report back with `OfferReady`.
    CreateOffer { peer_id: String },
    /// Take the offer of a peer, on a new connection if `create_connection`
    /// says so, make an answer and report back with `AnswerReady`.
    AcceptOffer { peer_id: String, sdp: String, create_connection: bool },
    /// Hand the answer of a peer to its connection.
    ApplyAnswer { peer_id: String, sdp: String },
    /// Hand a candidate of a peer to its connection.
    AddIceCandidate { peer_id: String, candidate: String },
    /// Create the audio decoder of a peer and report back with
    /// `DecoderReady`.
    CreateDecoder { peer_id: String },
    DropDecoder { peer_id: String },
    ClearDecoders,
    /// Start to read the audio track of a peer into the playback queue.
    StartTrackReader { peer_id: String },
    /// Send each message, in order, on the data channel of each peer.
    DispatchFrame { peers: Vec<String>, messages: Vec<Vec<u8>> },
    RegisterVideoStream { peer_id: String },
    RemoveVideoStream { peer_id: String },
    RegisterScreenStream { peer_id: String },
    RemoveScreenStream { peer_id: String },
    /// Hand a video frame to the frame server under the id of its peer.
    PushVideoFrame { peer_id: String, jpeg: Vec<u8> },
    /// Hand a screen frame to the frame server under the id of its peer.
    PushScreenFrame { peer_id: String, jpeg: Vec<u8> },
    /// Publish the snapshot of the session.
    PublishState(VoiceState),
    /// Send a command to the network core.
    Network(NetworkCommand),
    /// Send an event on the event bus.
    Emit(AppEvent),
}

#[allow(inconsistent_fields)]
pub ghost enum MediaActionView {
    StartCapture,
    StopCapture,
    StartPlayback,
    StopPlayback,
    SilencePlayback(bool),
    CreateEncoder,
    DropEncoder,
    ResetAudioLevel,
    EncodeAndSend,
    StartCamera { device_index: Option<u32> },
    StopCamera,
    StartScreenCapture,
    StopScreenCapture,
    ResetPeers,
    DropPeers,
    ClosePeer { peer_id: Seq<char> },
    CreateOffer { peer_id: Seq<char> },
    AcceptOffer { peer_id: Seq<char>, sdp: Seq<char>, create_connection: bool },
    ApplyAnswer { peer_id: Seq<char>, sdp: Seq<char> },
    AddIceCandidate { peer_id: Seq<char>, candidate: Seq<char> },
    CreateDecoder { peer_id: Seq<char> },
    DropDecoder { peer_id: Seq<char> },
    ClearDecoders,
    StartTrackReader { peer_id: Seq<char> },
    DispatchFrame { peers: Seq<Seq<char>>, messages: Seq<Seq<u8>> },
    RegisterVideoStream { peer_id: Seq<char> },
    RemoveVideoStream { peer_id: Seq<char> },
    RegisterScreenStream { peer_id: Seq<char> },
    RemoveScreenStream { peer_id: Seq<char> },
    PushVideoFrame { peer_id: Seq<char>, jpeg: Seq<u8> },
    PushScreenFrame { peer_id: Seq<char>, jpeg: Seq<u8> },
    PublishState(VoiceStateView),
    Network(NetworkCommandView),
    Emit(AppEventView),
}

impl View for MediaAction {
    type V = MediaActionView;

    open spec fn view(&self) -> MediaActionView {
        match *self {
            MediaAction::StartCapture => MediaActionView::StartCapture,
            MediaAction::StopCapture => MediaActionView::StopCapture,
            MediaAction::StartPlayback => MediaActionView::StartPlayback,
            MediaAction::StopPlayback => MediaActionView::StopPlayback,
            MediaAction::SilencePlayback(x) => MediaActionView::SilencePlayback(x),
            MediaAction::CreateEncoder => MediaActionView::CreateEncoder,
            MediaAction::DropEncoder => MediaActionView::DropEncoder,
            MediaAction::ResetAudioLevel => MediaActionView::ResetAudioLevel,
            MediaAction::EncodeAndSend => MediaActionView::EncodeAndSend,
            MediaAction::StartCamera { device_index } => MediaActionView::StartCamera {
                device_index: device_index,
            },
            MediaAction::StopCamera => MediaActionView::StopCamera,
            MediaAction::StartScreenCapture => MediaActionView::StartScreenCapture,
            MediaAction::StopScreenCapture => MediaActionView::StopScreenCapture,
            MediaAction::ResetPeers => MediaActionView::ResetPeers,
            MediaAction::DropPeers => MediaActionView::DropPeers,
            MediaAction::ClosePeer { peer_id } => MediaActionView::ClosePeer {
                peer_id: peer_id@,
            },
            MediaAction::CreateOffer { peer_id } => MediaActionView::CreateOffer {
                peer_id: peer_id@,
            },
            MediaAction::AcceptOffer { peer_id, sdp, create_connection } => MediaActionView::AcceptOffer {
                peer_id: peer_id@,
                sdp: sdp@,
                create_connection: create_connection,
            },
            MediaAction::ApplyAnswer { peer_id, sdp } => MediaActionView::ApplyAnswer {
                peer_id: peer_id@,
                sdp: sdp@,
            },
            MediaAction::AddIceCandidate { peer_id, candidate } => MediaActionView::AddIceCandidate {
                peer_id: peer_id@,
                candidate: candidate@,
            },
            MediaAction::CreateDecoder { peer_id } => MediaActionView::CreateDecoder {
                peer_id: peer_id@,
            },
            MediaAction::DropDecoder { peer_id } => MediaActionView::DropDecoder {
                peer_id: peer_id@,
            },
            MediaAction::ClearDecoders => MediaActionView::ClearDecoders,
            MediaAction::StartTrackReader { peer_id } => MediaActionView::StartTrackReader {
                peer_id: peer_id@,
            },
            MediaAction::DispatchFrame { peers, messages } => MediaActionView::DispatchFrame {
                peers: texts(peers@),
                messages: byte_lists(messages@),
            },
            MediaAction::RegisterVideoStream { peer_id } => MediaActionView::RegisterVideoStream {
                peer_id: peer_id@,
            },
            MediaAction::RemoveVideoStream { peer_id } => MediaActionView::RemoveVideoStream {
                peer_id: peer_id@,
            },
            MediaAction::RegisterScreenStream { peer_id } => MediaActionView::RegisterScreenStream {
                peer_id: peer_id@,
            },
            MediaAction::RemoveScreenStream { peer_id } => MediaActionView::RemoveScreenStream {
                peer_id: peer_id@,
            },
            MediaAction::PushVideoFrame { peer_id, jpeg } => MediaActionView::PushVideoFrame {
                peer_id: peer_id@,
                jpeg: jpeg@,
            },
            MediaAction::PushScreenFrame { peer_id, jpeg } => MediaActionView::PushScreenFrame {
                peer_id: peer_id@,
                jpeg: jpeg@,
            },
            MediaAction::PublishState(x) => MediaActionView::PublishState(x@),
            MediaAction::Network(x) => MediaActionView::Network(x@),
            MediaAction::Emit(x) => MediaActionView::Emit(x@),
        }
    }
}

impl Clone for MediaAction {
    fn clone(&self) -> (r: Self)
        ensures
            r@ == self@,
    {
        match self {
            MediaAction::StartCapture => MediaAction::StartCapture,
            MediaAction::StopCapture => MediaAction::StopCapture,
            MediaAction::StartPlayback => MediaAction::StartPlayback,
            MediaAction::StopPlayback => MediaAction::StopPlayback,
            MediaAction::SilencePlayback(x) => MediaAction::SilencePlayback(*x),
            MediaAction::CreateEncoder => MediaAction::CreateEncoder,
            MediaAction::DropEncoder => MediaAction::DropEncoder,
            MediaAction::ResetAudioLevel => MediaAction::ResetAudioLevel,
            MediaAction::EncodeAndSend => MediaAction::EncodeAndSend,
            MediaAction::StartCamera { device_index } => MediaAction::StartCamera {
                device_index: *device_index,
            },
            MediaAction::StopCamera => MediaAction::StopCamera,
            MediaAction::StartScreenCapture => MediaAction::StartScreenCapture,
            MediaAction::StopScreenCapture => MediaAction::StopScreenCapture,
            MediaAction::ResetPeers => MediaAction::ResetPeers,
            MediaAction::DropPeers => MediaAction::DropPeers,
            MediaAction::ClosePeer { peer_id } => MediaAction::ClosePeer {
                peer_id: peer_id.clone(),
            },
            MediaAction::CreateOffer { peer_id } => MediaAction::CreateOffer {
                peer_id: peer_id.clone(),
            },
            MediaAction::AcceptOffer { peer_id, sdp, create_connection } => MediaAction::AcceptOffer {
                peer_id: peer_id.clone(),
                sdp: sdp.clone(),
                create_connection: *create_connection,
            },
            MediaAction::ApplyAnswer { peer_id, sdp } => MediaAction::ApplyAnswer {
                peer_id: peer_id.clone(),
                sdp: sdp.clone(),
            },
            MediaAction::AddIceCandidate { peer_id, candidate } => MediaAction::AddIceCandidate {
                peer_id: peer_id.clone(),
                candidate: candidate.clone(),
            },
            MediaAction::CreateDecoder { peer_id } => MediaAction::CreateDecoder {
                peer_id: peer_id.clone(),
            },
            MediaAction::DropDecoder { peer_id } => MediaAction::DropDecoder {
                peer_id: peer_id.clone(),
            },
            MediaAction::ClearDecoders => MediaAction::ClearDecoders,
            MediaAction::StartTrackReader { peer_id } => MediaAction::StartTrackReader {
                peer_id: peer_id.clone(),
            },
            MediaAction::DispatchFrame { peers, messages } => MediaAction::DispatchFrame {
                peers: clone_texts(peers),
                messages: clone_byte_lists(messages),
            },
            MediaAction::RegisterVideoStream { peer_id } => MediaAction::RegisterVideoStream {
                peer_id: peer_id.clone(),
            },
            MediaAction::RemoveVideoStream { peer_id } => MediaAction::RemoveVideoStream {
                peer_id: peer_id.clone(),
            },
            MediaAction::RegisterScreenStream { peer_id } => MediaAction::RegisterScreenStream {
                peer_id: peer_id.clone(),
            },
            MediaAction::RemoveScreenStream { peer_id } => MediaAction::RemoveScreenStream {
                peer_id: peer_id.clone(),
            },
            MediaAction::PushVideoFrame { peer_id, jpeg } => MediaAction::PushVideoFrame {
                peer_id: peer_id.clone(),
                jpeg: jpeg.clone(),
            },
            MediaAction::PushScreenFrame { peer_id, jpeg } => MediaAction::PushScreenFrame {
                peer_id: peer_id.clone(),
                jpeg: jpeg.clone(),
            },
            MediaAction::PublishState(x) => MediaAction::PublishState(x.clone()),
            MediaAction::Network(x) => MediaAction::Network(x.clone()),
            MediaAction::Emit(x) => MediaAction::Emit(x.clone()),
        }
    }
}

} // verus!
