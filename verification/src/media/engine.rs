//! The rules of the voice session: how the media engine reacts to commands,
//! to what its devices and peer connections deliver, and to the signaling of
//! other peers.
//!
//! The engine loop owns the devices and the connections. It hands each thing
//! that happens to `MediaSession::step` and carries out the actions that
//! come back, in order. Where an action asks for a report, the loop hands
//! the report in before anything else. Every decision is taken here.

use vstd::prelude::*;
use crate::events::{AppEvent, AppEventView};
use crate::media::frames::{
    chunk_messages, chunks_needed, frame_messages, is_chunked, lemma_chunks_needed, single_message,
    TYPE_SCREEN, TYPE_VIDEO,
};
use crate::media::peer::{
    channel_opened, frame_dispatch, frame_sent, lemma_gone, lemma_opened_distinct, message_event,
    message_received, no_peers, peer_closed, peer_opened, PeerManager, PeerManagerView,
};
use crate::media::signals::{
    ConnectionState, MediaAction, MediaActionView, MediaInput, MediaInputView, PeerEvent,
    PeerEventView,
};
use crate::media::{MediaCommand, MediaCommandView, VoiceState, VoiceStateView};
use crate::network::{NetworkCommand, NetworkCommandView};
use crate::outside::{fresh_id, is_uuid_text};
use crate::strmap::{with_name, without_name, StrSet};
use crate::text::{
    byte_lists, clone_opt, lemma_bytes_lt_asymmetric, opt_text, opt_view, str_equal, str_less,
    text_lt, texts, views,
};

verus! {

/// What the media engine remembers between events.
pub struct MediaSession {
    my_peer_id: String,
    current_room_id: Option<String>,
    current_channel_id: Option<String>,
    is_muted: bool,
    is_deafened: bool,
    camera_enabled: bool,
    screen_sharing: bool,
    speaking: bool,
    has_encoder: bool,
    peers: Option<PeerManager>,
    remote_decoders: StrSet,
}

/// The state of the media engine as mathematics.
pub ghost struct MediaSessionView {
    /// The id of the local peer.
    pub my_peer_id: Seq<char>,
    /// The room of the voice channel that the session is in.
    pub current_room_id: Option<Seq<char>>,
    /// The voice channel that the session is in; `None` when idle.
    pub current_channel_id: Option<Seq<char>>,
    pub is_muted: bool,
    pub is_deafened: bool,
    pub camera_enabled: bool,
    pub screen_sharing: bool,
    /// Whether the last block that was not muted was voiced.
    pub speaking: bool,
    /// Whether the audio encoder of the session exists.
    pub has_encoder: bool,
    /// The peer connections of the session; `None` when idle.
    pub peers: Option<PeerManagerView>,
    /// The peers whose audio decoder exists, oldest first.
    pub remote_decoders: Seq<Seq<char>>,
}

impl View for MediaSession {
    type V = MediaSessionView;

    closed spec fn view(&self) -> MediaSessionView {
        MediaSessionView {
            my_peer_id: self.my_peer_id@,
            current_room_id: opt_text(self.current_room_id),
            current_channel_id: opt_text(self.current_channel_id),
            is_muted: self.is_muted,
            is_deafened: self.is_deafened,
            camera_enabled: self.camera_enabled,
            screen_sharing: self.screen_sharing,
            speaking: self.speaking,
            has_encoder: self.has_encoder,
            peers: opt_view(self.peers),
            remote_decoders: self.remote_decoders@,
        }
    }
}

/// A state after an input together with what is to be done.
pub ghost struct MediaStep {
    pub state: MediaSessionView,
    pub actions: Seq<MediaActionView>,
}

/// The state of a session that is in no voice channel.
pub open spec fn idle_session(my_peer_id: Seq<char>) -> MediaSessionView {
    MediaSessionView {
        my_peer_id,
        current_room_id: None,
        current_channel_id: None,
        is_muted: false,
        is_deafened: false,
        camera_enabled: false,
        screen_sharing: false,
        speaking: false,
        has_encoder: false,
        peers: None,
        remote_decoders: Seq::empty(),
    }
}

/// The peers to which the session has a connection.
pub open spec fn connections_of(s: MediaSessionView) -> Seq<Seq<char>> {
    match s.peers {
        Some(p) => p.connections,
        None => Seq::empty(),
    }
}

/// Whether the session has a connection to `peer_id`.
pub open spec fn is_connected(s: MediaSessionView, peer_id: Seq<char>) -> bool {
    connections_of(s).contains(peer_id)
}

/// The snapshot of the session as shown to the user.
pub open spec fn snapshot(s: MediaSessionView) -> VoiceStateView {
    VoiceStateView {
        in_voice: s.current_channel_id is Some,
        room_id: s.current_room_id,
        channel_id: s.current_channel_id,
        muted: s.is_muted,
        deafened: s.is_deafened,
        connected_peers: connections_of(s),
        camera_enabled: s.camera_enabled,
        screen_sharing: s.screen_sharing,
    }
}

/// Publishing the snapshot.
pub open spec fn publish(s: MediaSessionView) -> Seq<MediaActionView> {
    seq![MediaActionView::PublishState(snapshot(s))]
}

/// Telling the room where the session is in voice and with which flags.
pub open spec fn broadcast(s: MediaSessionView) -> Seq<MediaActionView> {
    match s.current_room_id {
        Some(room) => seq![
            MediaActionView::Network(
                NetworkCommandView::SendVoiceState {
                    room_id: room,
                    channel_id: s.current_channel_id,
                    muted: s.is_muted,
                    deafened: s.is_deafened,
                    video: s.camera_enabled,
                    screen_sharing: s.screen_sharing,
                },
            ),
        ],
        None => seq![],
    }
}

/// Telling a room that the session has left voice.
pub open spec fn left_command(room: Seq<char>) -> NetworkCommandView {
    NetworkCommandView::SendVoiceState {
        room_id: room,
        channel_id: None,
        muted: false,
        deafened: false,
        video: false,
        screen_sharing: false,
    }
}

/// Telling a room that the session has joined a voice channel of it.
pub open spec fn joined_command(room: Seq<char>, channel: Seq<char>) -> NetworkCommandView {
    NetworkCommandView::SendVoiceState {
        room_id: room,
        channel_id: Some(channel),
        muted: false,
        deafened: false,
        video: false,
        screen_sharing: false,
    }
}

/// Stopping the camera, if it is on.
pub open spec fn camera_stopped(s: MediaSessionView) -> MediaStep {
    if s.camera_enabled {
        MediaStep {
            state: MediaSessionView { camera_enabled: false, ..s },
            actions: seq![
                MediaActionView::StopCamera,
                MediaActionView::RemoveVideoStream { peer_id: s.my_peer_id },
            ],
        }
    } else {
        MediaStep { state: s, actions: seq![] }
    }
}

/// Stopping the screen share, if it is on.
pub open spec fn screen_stopped(s: MediaSessionView) -> MediaStep {
    if s.screen_sharing {
        MediaStep {
            state: MediaSessionView { screen_sharing: false, ..s },
            actions: seq![
                MediaActionView::StopScreenCapture,
                MediaActionView::RemoveScreenStream { peer_id: s.my_peer_id },
            ],
        }
    } else {
        MediaStep { state: s, actions: seq![] }
    }
}

/// Closing the connections to `peers`, one after the other.
pub open spec fn close_actions(peers: Seq<Seq<char>>) -> Seq<MediaActionView> {
    Seq::new(peers.len(), |i: int| MediaActionView::ClosePeer { peer_id: peers[i] })
}

/// The room is told that the session leaves, if it is in one.
pub open spec fn farewell(s: MediaSessionView) -> Seq<MediaActionView> {
    match s.current_room_id {
        Some(room) => seq![MediaActionView::Network(left_command(room))],
        None => seq![],
    }
}

/// The devices of the session are stopped and dropped.
pub open spec fn stop_devices() -> Seq<MediaActionView> {
    seq![
        MediaActionView::StopCapture,
        MediaActionView::StopPlayback,
        MediaActionView::DropEncoder,
        MediaActionView::DropPeers,
        MediaActionView::ClearDecoders,
    ]
}

/// The full teardown of a session: the room is told, every connection is
/// closed, the devices are dropped, and camera and screen share are stopped.
/// What was under reassembly goes with the connections.
pub open spec fn torn_down(s: MediaSessionView) -> MediaStep {
    MediaStep {
        state: idle_session(s.my_peer_id),
        actions: farewell(s) + close_actions(connections_of(s)) + stop_devices() + camera_stopped(
            s,
        ).actions + screen_stopped(s).actions,
    }
}

/// Leaving voice: the teardown, and the snapshot of the idle session.
pub open spec fn left_step(s: MediaSessionView) -> MediaStep {
    MediaStep {
        state: torn_down(s).state,
        actions: torn_down(s).actions + publish(torn_down(s).state),
    }
}

/// The session right after it joined a voice channel.
pub open spec fn joined_session(my_peer_id: Seq<char>, room: Seq<char>, channel: Seq<char>) -> MediaSessionView {
    MediaSessionView {
        current_room_id: Some(room),
        current_channel_id: Some(channel),
        peers: Some(no_peers()),
        ..idle_session(my_peer_id)
    }
}

/// The devices of a new session are started.
pub open spec fn start_devices() -> Seq<MediaActionView> {
    seq![
        MediaActionView::StartCapture,
        MediaActionView::StartPlayback,
        MediaActionView::CreateEncoder,
        MediaActionView::ResetPeers,
    ]
}

/// Joining a voice channel. A session that is in voice is torn down first.
/// Then the devices are started, the snapshot is published and the room is
/// told.
pub open spec fn joined_step(s: MediaSessionView, room: Seq<char>, channel: Seq<char>) -> MediaStep {
    let state = MediaSessionView {
        speaking: if s.current_channel_id is Some {
            false
        } else {
            s.speaking
        },
        remote_decoders: if s.current_channel_id is Some {
            Seq::empty()
        } else {
            s.remote_decoders
        },
        ..joined_session(s.my_peer_id, room, channel)
    };
    MediaStep {
        state,
        actions: (if s.current_channel_id is Some {
            torn_down(s).actions
        } else {
            seq![]
        }) + start_devices() + publish(state) + seq![
            MediaActionView::Network(joined_command(room, channel)),
        ],
    }
}

/// Muting or unmuting. Muting also ends speaking.
pub open spec fn muted_step(s: MediaSessionView, muted: bool) -> MediaStep {
    let state = MediaSessionView {
        is_muted: muted,
        speaking: if muted {
            false
        } else {
            s.speaking
        },
        ..s
    };
    MediaStep {
        state,
        actions: (if muted {
            seq![
                MediaActionView::ResetAudioLevel,
                MediaActionView::Emit(
                    AppEventView::SpeakingChanged { peer_id: s.my_peer_id, speaking: false },
                ),
            ]
        } else {
            seq![]
        }) + publish(state) + broadcast(state),
    }
}

/// Deafening or undeafening: the speaker is silenced while the tracks of the
/// peers go on.
pub open spec fn deafened_step(s: MediaSessionView, deafened: bool) -> MediaStep {
    let state = MediaSessionView { is_deafened: deafened, ..s };
    MediaStep {
        state,
        actions: seq![MediaActionView::SilencePlayback(deafened)] + publish(state) + broadcast(
            state,
        ),
    }
}

/// Whether a camera or a screen share may be started: only in voice, and
/// only if it is not on.
pub open spec fn may_start(s: MediaSessionView, on: bool) -> bool {
    s.current_channel_id is Some && !on
}

/// What a command of the application leads to.
pub open spec fn command_step(s: MediaSessionView, c: MediaCommandView) -> MediaStep {
    match c {
        MediaCommandView::JoinVoice { room_id, channel_id } => joined_step(s, room_id, channel_id),
        MediaCommandView::LeaveVoice => left_step(s),
        MediaCommandView::SetMuted(muted) => muted_step(s, muted),
        MediaCommandView::SetDeafened(deafened) => deafened_step(s, deafened),
        MediaCommandView::EnableCamera { device_index } => MediaStep {
            state: s,
            actions: if may_start(s, s.camera_enabled) {
                seq![MediaActionView::StartCamera { device_index }]
            } else {
                seq![]
            },
        },
        MediaCommandView::DisableCamera => MediaStep {
            state: camera_stopped(s).state,
            actions: camera_stopped(s).actions + publish(camera_stopped(s).state) + broadcast(
                camera_stopped(s).state,
            ),
        },
        MediaCommandView::StartScreenShare => MediaStep {
            state: s,
            actions: if may_start(s, s.screen_sharing) {
                seq![MediaActionView::StartScreenCapture]
            } else {
                seq![]
            },
        },
        MediaCommandView::StopScreenShare => MediaStep {
            state: screen_stopped(s).state,
            actions: screen_stopped(s).actions + publish(screen_stopped(s).state) + broadcast(
                screen_stopped(s).state,
            ),
        },
    }
}

/// The camera reported. One that started and is still wanted is registered
/// and announced; one that started and is not wanted any more is stopped.
pub open spec fn camera_started_step(s: MediaSessionView, ok: bool) -> MediaStep {
    if !ok {
        MediaStep { state: s, actions: seq![] }
    } else if may_start(s, s.camera_enabled) {
        let state = MediaSessionView { camera_enabled: true, ..s };
        MediaStep {
            state,
            actions: seq![MediaActionView::RegisterVideoStream { peer_id: s.my_peer_id }] + publish(
                state,
            ) + broadcast(state),
        }
    } else {
        MediaStep { state: s, actions: seq![MediaActionView::StopCamera] }
    }
}

/// The screen capture reported, as the camera does.
pub open spec fn screen_started_step(s: MediaSessionView, ok: bool) -> MediaStep {
    if !ok {
        MediaStep { state: s, actions: seq![] }
    } else if may_start(s, s.screen_sharing) {
        let state = MediaSessionView { screen_sharing: true, ..s };
        MediaStep {
            state,
            actions: seq![MediaActionView::RegisterScreenStream { peer_id: s.my_peer_id }]
                + publish(state) + broadcast(state),
        }
    } else {
        MediaStep { state: s, actions: seq![MediaActionView::StopScreenCapture] }
    }
}

/// A block of captured audio. A muted session does nothing with it. Else a
/// change between speech and silence is told, and the block is encoded and
/// sent if there is an encoder and a track to write to.
pub open spec fn audio_step(s: MediaSessionView, voiced: bool) -> MediaStep {
    if s.is_muted {
        MediaStep { state: s, actions: seq![] }
    } else {
        MediaStep {
            state: MediaSessionView { speaking: voiced, ..s },
            actions: (if voiced != s.speaking {
                seq![
                    MediaActionView::Emit(
                        AppEventView::SpeakingChanged { peer_id: s.my_peer_id, speaking: voiced },
                    ),
                ]
            } else {
                seq![]
            }) + (if s.has_encoder && s.peers is Some {
                seq![MediaActionView::EncodeAndSend]
            } else {
                seq![]
            }),
        }
    }
}

/// Handing a frame to the frame server under the id of its peer.
pub open spec fn push_frame(type_byte: u8, peer_id: Seq<char>, jpeg: Seq<u8>) -> MediaActionView {
    if type_byte == TYPE_SCREEN {
        MediaActionView::PushScreenFrame { peer_id, jpeg }
    } else {
        MediaActionView::PushVideoFrame { peer_id, jpeg }
    }
}

/// Sending a frame to the peers with an open data channel, if there are any.
pub open spec fn dispatch(p: PeerManagerView, type_byte: u8, jpeg: Seq<u8>) -> Seq<MediaActionView> {
    if frame_dispatch(p, type_byte, jpeg).len() > 0 {
        seq![
            MediaActionView::DispatchFrame {
                peers: p.data_channels,
                messages: frame_dispatch(p, type_byte, jpeg),
            },
        ]
    } else {
        seq![]
    }
}

/// A frame of the camera or of the screen. It is handed to the frame server
/// under the id of the local peer and sent to every peer with an open data
/// channel.
pub open spec fn frame_step(s: MediaSessionView, type_byte: u8, jpeg: Seq<u8>) -> MediaStep {
    match s.peers {
        Some(p) => MediaStep {
            state: MediaSessionView { peers: Some(frame_sent(p, jpeg)), ..s },
            actions: seq![push_frame(type_byte, s.my_peer_id, jpeg)] + dispatch(p, type_byte, jpeg),
        },
        None => MediaStep { state: s, actions: seq![push_frame(type_byte, s.my_peer_id, jpeg)] },
    }
}

/// What is dropped with a peer: its decoder and its streams in the frame
/// server.
pub open spec fn drop_remote(peer_id: Seq<char>) -> Seq<MediaActionView> {
    seq![
        MediaActionView::DropDecoder { peer_id },
        MediaActionView::RemoveVideoStream { peer_id },
        MediaActionView::RemoveScreenStream { peer_id },
    ]
}

/// Whether a connection in this state is over.
pub open spec fn is_over(state: ConnectionState) -> bool {
    state == ConnectionState::Disconnected || state == ConnectionState::Failed || state
        == ConnectionState::Closed
}

/// What a report of a peer connection leads to.
pub open spec fn peer_step(s: MediaSessionView, e: PeerEventView) -> MediaStep {
    match e {
        PeerEventView::ConnectionStateChanged { peer_id, state } => {
            if state == ConnectionState::Connected {
                MediaStep {
                    state: s,
                    actions: seq![MediaActionView::Emit(AppEventView::VoiceConnected { peer_id })]
                        + publish(s),
                }
            } else if is_over(state) {
                let after = MediaSessionView {
                    remote_decoders: without_name(s.remote_decoders, peer_id),
                    ..s
                };
                MediaStep {
                    state: after,
                    actions: seq![
                        MediaActionView::Emit(AppEventView::VoiceDisconnected { peer_id }),
                    ] + drop_remote(peer_id) + publish(after),
                }
            } else {
                MediaStep { state: s, actions: seq![] }
            }
        },
        PeerEventView::RemoteTrack { peer_id } => MediaStep {
            state: s,
            actions: seq![MediaActionView::CreateDecoder { peer_id }],
        },
        PeerEventView::IceCandidate { peer_id, candidate } => MediaStep {
            state: s,
            actions: match s.current_room_id {
                Some(room) => seq![
                    MediaActionView::Network(
                        NetworkCommandView::SendIceCandidate {
                            room_id: room,
                            to_peer_id: peer_id,
                            channel_id: match s.current_channel_id {
                                Some(channel) => channel,
                                None => Seq::empty(),
                            },
                            candidate,
                        },
                    ),
                ],
                None => seq![],
            },
        },
        PeerEventView::VideoFrame { peer_id, data } => MediaStep {
            state: s,
            actions: seq![push_frame(TYPE_VIDEO, peer_id, data)],
        },
        PeerEventView::ScreenFrame { peer_id, data } => MediaStep {
            state: s,
            actions: seq![push_frame(TYPE_SCREEN, peer_id, data)],
        },
    }
}

/// A message from the data channel of a peer goes through reassembly; a
/// frame that comes out is handed to the frame server.
pub open spec fn data_step(s: MediaSessionView, peer_id: Seq<char>, data: Seq<u8>) -> MediaStep {
    match s.peers {
        Some(p) => {
            let after = MediaSessionView { peers: Some(message_received(p, peer_id, data)), ..s };
            match message_event(p, peer_id, data) {
                Some(event) => MediaStep { state: after, actions: peer_step(after, event).actions },
                None => MediaStep { state: after, actions: seq![] },
            }
        },
        None => MediaStep { state: s, actions: seq![] },
    }
}

/// Whether the local peer is the one of the two that offers: the one whose
/// id comes first, byte by byte.
pub open spec fn offers_to(me: Seq<char>, remote: Seq<char>) -> bool {
    text_lt(me, remote)
}

/// Another peer told where it is in voice. A peer in our channel has its
/// streams registered, and is offered a connection if we are the one of the
/// two that offers and have no connection to it. A peer that left voice is
/// dropped with its connection.
pub open spec fn voice_state_step(
    s: MediaSessionView,
    channel: Seq<char>,
    remote: Seq<char>,
    remote_channel: Option<Seq<char>>,
    remote_room: Seq<char>,
    video: bool,
    screen: bool,
) -> MediaStep {
    if remote == s.my_peer_id {
        MediaStep { state: s, actions: seq![] }
    } else if remote_channel == Some(channel) && s.current_room_id == Some(remote_room) {
        MediaStep {
            state: s,
            actions: (if video {
                seq![MediaActionView::RegisterVideoStream { peer_id: remote }]
            } else {
                seq![]
            }) + (if screen {
                seq![MediaActionView::RegisterScreenStream { peer_id: remote }]
            } else {
                seq![]
            }) + (if offers_to(s.my_peer_id, remote) && s.peers is Some && !is_connected(s, remote) {
                seq![MediaActionView::CreateOffer { peer_id: remote }]
            } else {
                seq![]
            }),
        }
    } else if remote_channel is None {
        MediaStep {
            state: MediaSessionView {
                peers: match s.peers {
                    Some(p) => Some(peer_closed(p, remote)),
                    None => None,
                },
                remote_decoders: without_name(s.remote_decoders, remote),
                ..s
            },
            actions: (if is_connected(s, remote) {
                seq![MediaActionView::ClosePeer { peer_id: remote }]
            } else {
                seq![]
            }) + drop_remote(remote),
        }
    } else {
        MediaStep { state: s, actions: seq![] }
    }
}

/// What an event of the event bus leads to. Outside voice every event is
/// dropped, and so is signaling for another channel than ours.
pub open spec fn app_step(s: MediaSessionView, e: AppEventView) -> MediaStep {
    match s.current_channel_id {
        None => MediaStep { state: s, actions: seq![] },
        Some(channel) => match e {
            AppEventView::VoiceStateChanged {
                peer_id,
                display_name,
                channel_id,
                room_id,
                muted,
                deafened,
                video,
                screen_sharing,
            } => voice_state_step(s, channel, peer_id, channel_id, room_id, video, screen_sharing),
            AppEventView::CallOfferReceived { call_id, from_peer_id, channel_id, sdp } => MediaStep {
                state: s,
                actions: if channel_id == channel && s.peers is Some {
                    seq![
                        MediaActionView::AcceptOffer {
                            peer_id: from_peer_id,
                            sdp,
                            create_connection: !is_connected(s, from_peer_id),
                        },
                    ]
                } else {
                    seq![]
                },
            },
            AppEventView::CallAnswerReceived { call_id, from_peer_id, channel_id, sdp } => MediaStep {
                state: s,
                actions: if channel_id == channel && is_connected(s, from_peer_id) {
                    seq![MediaActionView::ApplyAnswer { peer_id: from_peer_id, sdp }]
                } else {
                    seq![]
                },
            },
            AppEventView::IceCandidateReceived { from_peer_id, channel_id, candidate } => MediaStep {
                state: s,
                actions: if channel_id == channel && is_connected(s, from_peer_id) {
                    seq![MediaActionView::AddIceCandidate { peer_id: from_peer_id, candidate }]
                } else {
                    seq![]
                },
            },
            _ => MediaStep { state: s, actions: seq![] },
        },
    }
}

/// The room that signaling goes to: the room of the session, or the empty
/// text where it has none.
pub open spec fn signaling_room(s: MediaSessionView) -> Seq<char> {
    match s.current_room_id {
        Some(room) => room,
        None => Seq::empty(),
    }
}

/// The making of an offer ended. Where the connection for it was made,
/// the connection is recorded, with its data channel if that was made too,
/// and the offer, if there is one, is sent to the peer under a new call id.
/// Where no connection was made, nothing is recorded and nothing is sent:
/// no offer goes out without its connection.
pub open spec fn offer_ready_step(
    s: MediaSessionView,
    peer_id: Seq<char>,
    connected: bool,
    channel_open: bool,
    sdp: Option<Seq<char>>,
    fresh_id: Seq<char>,
) -> MediaStep {
    match s.peers {
        Some(p) if connected => {
            let p1 = peer_opened(p, peer_id);
            let p2 = if channel_open {
                channel_opened(p1, peer_id)
            } else {
                p1
            };
            MediaStep {
                state: MediaSessionView { peers: Some(p2), ..s },
                actions: if sdp is Some && s.current_channel_id is Some {
                    seq![
                        MediaActionView::Network(
                            NetworkCommandView::SendCallOffer {
                                room_id: signaling_room(s),
                                to_peer_id: peer_id,
                                call_id: fresh_id,
                                channel_id: s.current_channel_id->0,
                                sdp: sdp->0,
                            },
                        ),
                    ]
                } else {
                    seq![]
                },
            }
        },
        _ => MediaStep { state: s, actions: seq![] },
    }
}

/// The making of an answer ended. A connection that was made for it is
/// recorded. The answer, if there is one, is sent to the peer under a new
/// call id, provided that a connection to the peer stands: the one just
/// made, or the one that the offer was accepted on.
pub open spec fn answer_ready_step(
    s: MediaSessionView,
    peer_id: Seq<char>,
    connected: bool,
    sdp: Option<Seq<char>>,
    fresh_id: Seq<char>,
) -> MediaStep {
    match s.peers {
        Some(p) => MediaStep {
            state: MediaSessionView {
                peers: Some(
                    if connected {
                        peer_opened(p, peer_id)
                    } else {
                        p
                    },
                ),
                ..s
            },
            actions: if sdp is Some && s.current_channel_id is Some && (connected
                || p.connections.contains(peer_id)) {
                seq![
                    MediaActionView::Network(
                        NetworkCommandView::SendCallAnswer {
                            room_id: signaling_room(s),
                            to_peer_id: peer_id,
                            call_id: fresh_id,
                            channel_id: s.current_channel_id->0,
                            sdp: sdp->0,
                        },
                    ),
                ]
            } else {
                seq![]
            },
        },
        None => MediaStep { state: s, actions: seq![] },
    }
}

/// What an input leads to: the next state and the actions, in order.
pub open spec fn media_step(s: MediaSessionView, input: MediaInputView, fresh_id: Seq<char>) -> MediaStep {
    match input {
        MediaInputView::Command(c) => command_step(s, c),
        MediaInputView::AudioBlock { voiced } => audio_step(s, voiced),
        MediaInputView::CameraFrame { jpeg } => frame_step(s, TYPE_VIDEO, jpeg),
        MediaInputView::ScreenFrame { jpeg } => frame_step(s, TYPE_SCREEN, jpeg),
        MediaInputView::Peer(e) => peer_step(s, e),
        MediaInputView::App(e) => app_step(s, e),
        MediaInputView::DataMessage { peer_id, data } => data_step(s, peer_id, data),
        MediaInputView::EncoderReady { ok } => MediaStep {
            state: MediaSessionView { has_encoder: ok && s.current_channel_id is Some, ..s },
            actions: seq![],
        },
        MediaInputView::CameraStarted { ok } => camera_started_step(s, ok),
        MediaInputView::ScreenStarted { ok } => screen_started_step(s, ok),
        MediaInputView::DecoderReady { peer_id, ok } => if ok {
            MediaStep {
                state: MediaSessionView {
                    remote_decoders: with_name(s.remote_decoders, peer_id),
                    ..s
                },
                actions: seq![MediaActionView::StartTrackReader { peer_id }],
            }
        } else {
            MediaStep { state: s, actions: seq![] }
        },
        MediaInputView::OfferReady { peer_id, connected, channel_open, sdp } => offer_ready_step(
            s,
            peer_id,
            connected,
            channel_open,
            sdp,
            fresh_id,
        ),
        MediaInputView::AnswerReady { peer_id, connected, sdp } => answer_ready_step(
            s,
            peer_id,
            connected,
            sdp,
            fresh_id,
        ),
        MediaInputView::DataChannelOpen { peer_id } => MediaStep {
            state: MediaSessionView {
                peers: match s.peers {
                    Some(p) => Some(channel_opened(p, peer_id)),
                    None => None,
                },
                ..s
            },
            actions: seq![],
        },
    }
}

/// No action.
pub fn no_media_actions() -> (v: Vec<MediaAction>)
    ensures
        views(v@) == Seq::<MediaActionView>::empty(),
{
    let v: Vec<MediaAction> = Vec::new();
    assert(views(v@) =~= Seq::<MediaActionView>::empty());
    v
}

/// Adds one action at the end.
pub fn push_action(acts: &mut Vec<MediaAction>, a: MediaAction)
    ensures
        views(final(acts)@) == views(old(acts)@).push(a@),
        views(final(acts)@) == views(old(acts)@) + seq![a@],
{
    acts.push(a);
    assert(views(acts@) =~= views(old(acts)@).push(a@));
    assert(views(acts@) =~= views(old(acts)@) + seq![a@]);
}

/// Adds actions at the end.
pub fn add_actions(acts: &mut Vec<MediaAction>, more: Vec<MediaAction>)
    ensures
        views(final(acts)@) == views(old(acts)@) + views(more@),
{
    let mut more = more;
    let ghost a0 = acts@;
    let ghost m0 = more@;
    acts.append(&mut more);
    assert(views(acts@) =~= views(a0) + views(m0));
}

/// Whether an optional string is there and has the text of `t`.
fn opt_is(o: &Option<String>, t: &str) -> (b: bool)
    ensures
        b == (opt_text(*o) == Some(t@)),
{
    match o {
        Some(s) => str_equal(s.as_str(), t),
        None => false,
    }
}

/// The actions that drop a peer's decoder and streams.
fn drop_remote_actions(peer_id: &str) -> (acts: Vec<MediaAction>)
    ensures
        views(acts@) == drop_remote(peer_id@),
{
    let mut acts = no_media_actions();
    push_action(&mut acts, MediaAction::DropDecoder { peer_id: peer_id.to_owned() });
    push_action(&mut acts, MediaAction::RemoveVideoStream { peer_id: peer_id.to_owned() });
    push_action(&mut acts, MediaAction::RemoveScreenStream { peer_id: peer_id.to_owned() });
    assert(views(acts@) =~= drop_remote(peer_id@));
    acts
}

/// The action that hands a frame to the frame server.
fn push_frame_action(type_byte: u8, peer_id: String, jpeg: Vec<u8>) -> (a: MediaAction)
    ensures
        a@ == push_frame(type_byte, peer_id@, jpeg@),
{
    if type_byte == TYPE_SCREEN {
        MediaAction::PushScreenFrame { peer_id, jpeg }
    } else {
        MediaAction::PushVideoFrame { peer_id, jpeg }
    }
}

/// The actions that close the connections to `peers`.
fn close_peer_actions(peers: Vec<String>) -> (acts: Vec<MediaAction>)
    ensures
        views(acts@) == close_actions(texts(peers@)),
{
    let mut acts: Vec<MediaAction> = Vec::new();
    let mut i: usize = 0;
    while i < peers.len()
        invariant
            i <= peers.len(),
            acts@.len() == i,
            forall|k: int|
                0 <= k < i ==> acts@[k]@ == (MediaActionView::ClosePeer { peer_id: peers@[k]@ }),
        decreases peers.len() - i,
    {
        acts.push(MediaAction::ClosePeer { peer_id: peers[i].clone() });
        i += 1;
    }
    assert(views(acts@) =~= close_actions(texts(peers@)));
    acts
}

impl MediaSession {
    /// The session of a node that has just started: idle.
    pub fn new(my_peer_id: String) -> (s: MediaSession)
        ensures
            s@ == idle_session(my_peer_id@),
    {
        MediaSession {
            my_peer_id,
            current_room_id: None,
            current_channel_id: None,
            is_muted: false,
            is_deafened: false,
            camera_enabled: false,
            screen_sharing: false,
            speaking: false,
            has_encoder: false,
            peers: None,
            remote_decoders: StrSet::new(),
        }
    }

    /// Whether the session is in a voice channel.
    pub fn in_voice(&self) -> (b: bool)
        ensures
            b == (self@.current_channel_id is Some),
    {
        self.current_channel_id.is_some()
    }

    /// Whether the session has a connection to `peer_id`.
    pub fn has_peer(&self, peer_id: &str) -> (b: bool)
        ensures
            b == is_connected(self@, peer_id@),
    {
        match &self.peers {
            Some(p) => p.has_peer(peer_id),
            None => false,
        }
    }

    /// The snapshot of the session as shown to the user. No peer occurs
    /// twice among its connected peers.
    pub fn snapshot(&self) -> (state: VoiceState)
        ensures
            state@ == snapshot(self@),
            state@.connected_peers.no_duplicates(),
    {
        let connected_peers = match &self.peers {
            Some(p) => p.connected_peers(),
            None => {
                let none: Vec<String> = Vec::new();
                assert(texts(none@) =~= Seq::<Seq<char>>::empty());
                none
            },
        };
        VoiceState {
            in_voice: self.current_channel_id.is_some(),
            room_id: clone_opt(&self.current_room_id),
            channel_id: clone_opt(&self.current_channel_id),
            muted: self.is_muted,
            deafened: self.is_deafened,
            connected_peers,
            camera_enabled: self.camera_enabled,
            screen_sharing: self.screen_sharing,
        }
    }

    fn publish(&self) -> (acts: Vec<MediaAction>)
        ensures
            views(acts@) == publish(self@),
    {
        let mut acts = no_media_actions();
        push_action(&mut acts, MediaAction::PublishState(self.snapshot()));
        acts
    }

    fn broadcast(&self) -> (acts: Vec<MediaAction>)
        ensures
            views(acts@) == broadcast(self@),
    {
        let mut acts = no_media_actions();
        match &self.current_room_id {
            Some(room) => {
                push_action(
                    &mut acts,
                    MediaAction::Network(
                        NetworkCommand::SendVoiceState {
                            room_id: room.clone(),
                            channel_id: clone_opt(&self.current_channel_id),
                            muted: self.is_muted,
                            deafened: self.is_deafened,
                            video: self.camera_enabled,
                            screen_sharing: self.screen_sharing,
                        },
                    ),
                );
            },
            None => {},
        }
        acts
    }

    fn stop_camera(&mut self) -> (acts: Vec<MediaAction>)
        ensures
            final(self)@ == camera_stopped(old(self)@).state,
            views(acts@) == camera_stopped(old(self)@).actions,
    {
        let mut acts = no_media_actions();
        if self.camera_enabled {
            self.camera_enabled = false;
            push_action(&mut acts, MediaAction::StopCamera);
            push_action(
                &mut acts,
                MediaAction::RemoveVideoStream { peer_id: self.my_peer_id.clone() },
            );
        }
        acts
    }

    fn stop_screen(&mut self) -> (acts: Vec<MediaAction>)
        ensures
            final(self)@ == screen_stopped(old(self)@).state,
            views(acts@) == screen_stopped(old(self)@).actions,
    {
        let mut acts = no_media_actions();
        if self.screen_sharing {
            self.screen_sharing = false;
            push_action(&mut acts, MediaAction::StopScreenCapture);
            push_action(
                &mut acts,
                MediaAction::RemoveScreenStream { peer_id: self.my_peer_id.clone() },
            );
        }
        acts
    }

    fn tear_down(&mut self) -> (acts: Vec<MediaAction>)
        ensures
            final(self)@ == torn_down(old(self)@).state,
            views(acts@) == torn_down(old(self)@).actions,
    {
        let mut acts = no_media_actions();
        match &self.current_room_id {
            Some(room) => {
                push_action(
                    &mut acts,
                    MediaAction::Network(
                        NetworkCommand::SendVoiceState {
                            room_id: room.clone(),
                            channel_id: None,
                            muted: false,
                            deafened: false,
                            video: false,
                            screen_sharing: false,
                        },
                    ),
                );
            },
            None => {},
        }
        assert(views(acts@) =~= farewell(old(self)@));
        let closed = match self.peers.take() {
            Some(manager) => {
                let mut manager = manager;
                manager.close_all()
            },
            None => {
                let none: Vec<String> = Vec::new();
                assert(texts(none@) =~= Seq::<Seq<char>>::empty());
                none
            },
        };
        add_actions(&mut acts, close_peer_actions(closed));
        push_action(&mut acts, MediaAction::StopCapture);
        push_action(&mut acts, MediaAction::StopPlayback);
        push_action(&mut acts, MediaAction::DropEncoder);
        push_action(&mut acts, MediaAction::DropPeers);
        push_action(&mut acts, MediaAction::ClearDecoders);
        assert(views(acts@) =~= farewell(old(self)@) + close_actions(connections_of(old(self)@))
            + stop_devices());
        let camera = self.stop_camera();
        add_actions(&mut acts, camera);
        let screen = self.stop_screen();
        add_actions(&mut acts, screen);
        self.current_room_id = None;
        self.current_channel_id = None;
        self.is_muted = false;
        self.is_deafened = false;
        self.speaking = false;
        self.has_encoder = false;
        self.remote_decoders.clear();
        acts
    }

    fn leave(&mut self) -> (acts: Vec<MediaAction>)
        ensures
            final(self)@ == left_step(old(self)@).state,
            views(acts@) == left_step(old(self)@).actions,
    {
        let mut acts = self.tear_down();
        let more = self.publish();
        add_actions(&mut acts, more);
        acts
    }

    fn join(&mut self, room_id: String, channel_id: String) -> (acts: Vec<MediaAction>)
        ensures
            final(self)@ == joined_step(old(self)@, room_id@, channel_id@).state,
            views(acts@) == joined_step(old(self)@, room_id@, channel_id@).actions,
    {
        let mut acts = if self.current_channel_id.is_some() {
            self.tear_down()
        } else {
            no_media_actions()
        };
        let ghost first = views(acts@);
        push_action(&mut acts, MediaAction::StartCapture);
        push_action(&mut acts, MediaAction::StartPlayback);
        push_action(&mut acts, MediaAction::CreateEncoder);
        push_action(&mut acts, MediaAction::ResetPeers);
        assert(views(acts@) =~= first + start_devices());
        self.current_room_id = Some(room_id.clone());
        self.current_channel_id = Some(channel_id.clone());
        self.is_muted = false;
        self.is_deafened = false;
        self.camera_enabled = false;
        self.screen_sharing = false;
        self.has_encoder = false;
        self.peers = Some(PeerManager::new());
        let more = self.publish();
        add_actions(&mut acts, more);
        push_action(
            &mut acts,
            MediaAction::Network(
                NetworkCommand::SendVoiceState {
                    room_id,
                    channel_id: Some(channel_id),
                    muted: false,
                    deafened: false,
                    video: false,
                    screen_sharing: false,
                },
            ),
        );
        acts
    }

    fn set_muted(&mut self, muted: bool) -> (acts: Vec<MediaAction>)
        ensures
            final(self)@ == muted_step(old(self)@, muted).state,
            views(acts@) == muted_step(old(self)@, muted).actions,
    {
        let mut acts = no_media_actions();
        self.is_muted = muted;
        if muted {
            self.speaking = false;
            push_action(&mut acts, MediaAction::ResetAudioLevel);
            push_action(
                &mut acts,
                MediaAction::Emit(
                    AppEvent::SpeakingChanged { peer_id: self.my_peer_id.clone(), speaking: false },
                ),
            );
        }
        let more = self.publish();
        add_actions(&mut acts, more);
        let more = self.broadcast();
        add_actions(&mut acts, more);
        acts
    }

    fn set_deafened(&mut self, deafened: bool) -> (acts: Vec<MediaAction>)
        ensures
            final(self)@ == deafened_step(old(self)@, deafened).state,
            views(acts@) == deafened_step(old(self)@, deafened).actions,
    {
        let mut acts = no_media_actions();
        self.is_deafened = deafened;
        push_action(&mut acts, MediaAction::SilencePlayback(deafened));
        let more = self.publish();
        add_actions(&mut acts, more);
        let more = self.broadcast();
        add_actions(&mut acts, more);
        acts
    }

    fn on_command(&mut self, command: MediaCommand) -> (acts: Vec<MediaAction>)
        ensures
            final(self)@ == command_step(old(self)@, command@).state,
            views(acts@) == command_step(old(self)@, command@).actions,
    {
        match command {
            MediaCommand::JoinVoice { room_id, channel_id } => self.join(room_id, channel_id),
            MediaCommand::LeaveVoice => self.leave(),
            MediaCommand::SetMuted(muted) => self.set_muted(muted),
            MediaCommand::SetDeafened(deafened) => self.set_deafened(deafened),
            MediaCommand::EnableCamera { device_index } => {
                let mut acts = no_media_actions();
                if self.current_channel_id.is_some() && !self.camera_enabled {
                    push_action(&mut acts, MediaAction::StartCamera { device_index });
                }
                acts
            },
            MediaCommand::DisableCamera => {
                let mut acts = self.stop_camera();
                let more = self.publish();
                add_actions(&mut acts, more);
                let more = self.broadcast();
                add_actions(&mut acts, more);
                acts
            },
            MediaCommand::StartScreenShare => {
                let mut acts = no_media_actions();
                if self.current_channel_id.is_some() && !self.screen_sharing {
                    push_action(&mut acts, MediaAction::StartScreenCapture);
                }
                acts
            },
            MediaCommand::StopScreenShare => {
                let mut acts = self.stop_screen();
                let more = self.publish();
                add_actions(&mut acts, more);
                let more = self.broadcast();
                add_actions(&mut acts, more);
                acts
            },
        }
    }

    fn on_camera_started(&mut self, ok: bool) -> (acts: Vec<MediaAction>)
        ensures
            final(self)@ == camera_started_step(old(self)@, ok).state,
            views(acts@) == camera_started_step(old(self)@, ok).actions,
    {
        let mut acts = no_media_actions();
        if !ok {
        } else if self.current_channel_id.is_some() && !self.camera_enabled {
            self.camera_enabled = true;
            push_action(
                &mut acts,
                MediaAction::RegisterVideoStream { peer_id: self.my_peer_id.clone() },
            );
            let more = self.publish();
            add_actions(&mut acts, more);
            let more = self.broadcast();
            add_actions(&mut acts, more);
        } else {
            push_action(&mut acts, MediaAction::StopCamera);
        }
        acts
    }

    fn on_screen_started(&mut self, ok: bool) -> (acts: Vec<MediaAction>)
        ensures
            final(self)@ == screen_started_step(old(self)@, ok).state,
            views(acts@) == screen_started_step(old(self)@, ok).actions,
    {
        let mut acts = no_media_actions();
        if !ok {
        } else if self.current_channel_id.is_some() && !self.screen_sharing {
            self.screen_sharing = true;
            push_action(
                &mut acts,
                MediaAction::RegisterScreenStream { peer_id: self.my_peer_id.clone() },
            );
            let more = self.publish();
            add_actions(&mut acts, more);
            let more = self.broadcast();
            add_actions(&mut acts, more);
        } else {
            push_action(&mut acts, MediaAction::StopScreenCapture);
        }
        acts
    }

    fn on_audio(&mut self, voiced: bool) -> (acts: Vec<MediaAction>)
        ensures
            final(self)@ == audio_step(old(self)@, voiced).state,
            views(acts@) == audio_step(old(self)@, voiced).actions,
    {
        let mut acts = no_media_actions();
        if self.is_muted {
            return acts;
        }
        if voiced != self.speaking {
            self.speaking = voiced;
            push_action(
                &mut acts,
                MediaAction::Emit(
                    AppEvent::SpeakingChanged { peer_id: self.my_peer_id.clone(), speaking: voiced },
                ),
            );
        }
        let ghost first = views(acts@);
        if self.has_encoder && self.peers.is_some() {
            push_action(&mut acts, MediaAction::EncodeAndSend);
        } else {
            assert(views(acts@) =~= first + Seq::<MediaActionView>::empty());
        }
        acts
    }

    fn on_frame(&mut self, type_byte: u8, jpeg: Vec<u8>) -> (acts: Vec<MediaAction>)
        requires
            type_byte == TYPE_VIDEO || type_byte == TYPE_SCREEN,
        ensures
            final(self)@ == frame_step(old(self)@, type_byte, jpeg@).state,
            views(acts@) == frame_step(old(self)@, type_byte, jpeg@).actions,
    {
        let mut acts = no_media_actions();
        match self.peers.take() {
            Some(manager) => {
                let mut manager = manager;
                let ghost before = manager@;
                let peers = manager.channel_peers();
                let messages = if type_byte == TYPE_SCREEN {
                    manager.send_screen_frame(jpeg.as_slice())
                } else {
                    manager.send_video_frame(jpeg.as_slice())
                };
                self.peers = Some(manager);
                push_action(&mut acts, push_frame_action(type_byte, self.my_peer_id.clone(), jpeg));
                let ghost first = views(acts@);
                if messages.len() > 0 {
                    assert(byte_lists(messages@).len() == messages@.len());
                    push_action(&mut acts, MediaAction::DispatchFrame { peers, messages });
                } else {
                    assert(byte_lists(messages@).len() == messages@.len());
                    assert(views(acts@) =~= first + Seq::<MediaActionView>::empty());
                }
            },
            None => {
                push_action(&mut acts, push_frame_action(type_byte, self.my_peer_id.clone(), jpeg));
            },
        }
        acts
    }

    fn on_peer_event(&mut self, event: PeerEvent) -> (acts: Vec<MediaAction>)
        ensures
            final(self)@ == peer_step(old(self)@, event@).state,
            views(acts@) == peer_step(old(self)@, event@).actions,
    {
        let mut acts = no_media_actions();
        match event {
            PeerEvent::ConnectionStateChanged { peer_id, state } => {
                match state {
                    ConnectionState::Connected => {
                        push_action(
                            &mut acts,
                            MediaAction::Emit(AppEvent::VoiceConnected { peer_id }),
                        );
                        let more = self.publish();
                        add_actions(&mut acts, more);
                    },
                    ConnectionState::Disconnected
                    | ConnectionState::Failed
                    | ConnectionState::Closed => {
                        self.remote_decoders.remove(peer_id.as_str());
                        let dropped = drop_remote_actions(peer_id.as_str());
                        push_action(
                            &mut acts,
                            MediaAction::Emit(AppEvent::VoiceDisconnected { peer_id }),
                        );
                        add_actions(&mut acts, dropped);
                        let more = self.publish();
                        add_actions(&mut acts, more);
                    },
                    _ => {},
                }
            },
            PeerEvent::RemoteTrack { peer_id } => {
                push_action(&mut acts, MediaAction::CreateDecoder { peer_id });
            },
            PeerEvent::IceCandidate { peer_id, candidate } => {
                match &self.current_room_id {
                    Some(room) => {
                        let channel_id = match &self.current_channel_id {
                            Some(channel) => channel.clone(),
                            None => String::new(),
                        };
                        push_action(
                            &mut acts,
                            MediaAction::Network(
                                NetworkCommand::SendIceCandidate {
                                    room_id: room.clone(),
                                    to_peer_id: peer_id,
                                    channel_id,
                                    candidate,
                                },
                            ),
                        );
                    },
                    None => {},
                }
            },
            PeerEvent::VideoFrame { peer_id, data } => {
                push_action(&mut acts, push_frame_action(TYPE_VIDEO, peer_id, data));
            },
            PeerEvent::ScreenFrame { peer_id, data } => {
                push_action(&mut acts, push_frame_action(TYPE_SCREEN, peer_id, data));
            },
        }
        acts
    }

    fn on_data(&mut self, peer_id: String, data: Vec<u8>) -> (acts: Vec<MediaAction>)
        ensures
            final(self)@ == data_step(old(self)@, peer_id@, data@).state,
            views(acts@) == data_step(old(self)@, peer_id@, data@).actions,
    {
        match self.peers.take() {
            Some(manager) => {
                let mut manager = manager;
                let event = manager.receive(peer_id.as_str(), data.as_slice());
                self.peers = Some(manager);
                match event {
                    Some(e) => self.on_peer_event(e),
                    None => no_media_actions(),
                }
            },
            None => no_media_actions(),
        }
    }

    fn on_voice_state(
        &mut self,
        channel: &str,
        remote: String,
        remote_channel: Option<String>,
        remote_room: String,
        video: bool,
        screen: bool,
    ) -> (acts: Vec<MediaAction>)
        ensures
            final(self)@ == voice_state_step(
                old(self)@,
                channel@,
                remote@,
                opt_text(remote_channel),
                remote_room@,
                video,
                screen,
            ).state,
            views(acts@) == voice_state_step(
                old(self)@,
                channel@,
                remote@,
                opt_text(remote_channel),
                remote_room@,
                video,
                screen,
            ).actions,
    {
        let mut acts = no_media_actions();
        if str_equal(remote.as_str(), self.my_peer_id.as_str()) {
            return acts;
        }
        if opt_is(&remote_channel, channel) && opt_is(&self.current_room_id, remote_room.as_str()) {
            if video {
                push_action(&mut acts, MediaAction::RegisterVideoStream { peer_id: remote.clone() });
            }
            let ghost first = views(acts@);
            if screen {
                push_action(
                    &mut acts,
                    MediaAction::RegisterScreenStream { peer_id: remote.clone() },
                );
            } else {
                assert(views(acts@) =~= first + Seq::<MediaActionView>::empty());
            }
            let ghost second = views(acts@);
            if str_less(self.my_peer_id.as_str(), remote.as_str()) && self.peers.is_some()
                && !self.has_peer(remote.as_str()) {
                push_action(&mut acts, MediaAction::CreateOffer { peer_id: remote });
            } else {
                assert(views(acts@) =~= second + Seq::<MediaActionView>::empty());
            }
        } else if remote_channel.is_none() {
            let was_connected = self.has_peer(remote.as_str());
            match self.peers.take() {
                Some(manager) => {
                    let mut manager = manager;
                    manager.close_peer(remote.as_str());
                    self.peers = Some(manager);
                },
                None => {},
            }
            self.remote_decoders.remove(remote.as_str());
            if was_connected {
                push_action(&mut acts, MediaAction::ClosePeer { peer_id: remote.clone() });
            }
            let more = drop_remote_actions(remote.as_str());
            add_actions(&mut acts, more);
        }
        acts
    }

    fn on_app_event(&mut self, event: AppEvent) -> (acts: Vec<MediaAction>)
        ensures
            final(self)@ == app_step(old(self)@, event@).state,
            views(acts@) == app_step(old(self)@, event@).actions,
    {
        let channel = match &self.current_channel_id {
            Some(c) => c.clone(),
            None => {
                return no_media_actions();
            },
        };
        let mut acts = no_media_actions();
        match event {
            AppEvent::VoiceStateChanged {
                peer_id,
                display_name,
                channel_id,
                room_id,
                muted,
                deafened,
                video,
                screen_sharing,
            } => {
                return self.on_voice_state(
                    channel.as_str(),
                    peer_id,
                    channel_id,
                    room_id,
                    video,
                    screen_sharing,
                );
            },
            AppEvent::CallOfferReceived { call_id, from_peer_id, channel_id, sdp } => {
                if str_equal(channel_id.as_str(), channel.as_str()) && self.peers.is_some() {
                    let create_connection = !self.has_peer(from_peer_id.as_str());
                    push_action(
                        &mut acts,
                        MediaAction::AcceptOffer { peer_id: from_peer_id, sdp, create_connection },
                    );
                }
            },
            AppEvent::CallAnswerReceived { call_id, from_peer_id, channel_id, sdp } => {
                if str_equal(channel_id.as_str(), channel.as_str()) && self.has_peer(
                    from_peer_id.as_str(),
                ) {
                    push_action(&mut acts, MediaAction::ApplyAnswer { peer_id: from_peer_id, sdp });
                }
            },
            AppEvent::IceCandidateReceived { from_peer_id, channel_id, candidate } => {
                if str_equal(channel_id.as_str(), channel.as_str()) && self.has_peer(
                    from_peer_id.as_str(),
                ) {
                    push_action(
                        &mut acts,
                        MediaAction::AddIceCandidate { peer_id: from_peer_id, candidate },
                    );
                }
            },
            _ => {},
        }
        acts
    }

    /// The room that signaling goes to.
    fn room_for_signaling(&self) -> (room: String)
        ensures
            room@ == signaling_room(self@),
    {
        match &self.current_room_id {
            Some(room) => room.clone(),
            None => String::new(),
        }
    }

    fn on_offer_ready(
        &mut self,
        peer_id: String,
        connected: bool,
        channel_open: bool,
        sdp: Option<String>,
        fresh_id: String,
    ) -> (acts: Vec<MediaAction>)
        ensures
            final(self)@ == offer_ready_step(
                old(self)@,
                peer_id@,
                connected,
                channel_open,
                opt_text(sdp),
                fresh_id@,
            ).state,
            views(acts@) == offer_ready_step(
                old(self)@,
                peer_id@,
                connected,
                channel_open,
                opt_text(sdp),
                fresh_id@,
            ).actions,
    {
        let mut acts = no_media_actions();
        if !connected {
            return acts;
        }
        match self.peers.take() {
            Some(manager) => {
                let mut manager = manager;
                manager.open_connection(peer_id.as_str());
                if channel_open {
                    manager.open_channel(peer_id.as_str());
                }
                self.peers = Some(manager);
                match (sdp, &self.current_channel_id) {
                    (Some(sdp), Some(channel)) => {
                        push_action(
                            &mut acts,
                            MediaAction::Network(
                                NetworkCommand::SendCallOffer {
                                    room_id: self.room_for_signaling(),
                                    to_peer_id: peer_id,
                                    call_id: fresh_id,
                                    channel_id: channel.clone(),
                                    sdp,
                                },
                            ),
                        );
                    },
                    _ => {},
                }
            },
            None => {},
        }
        acts
    }

    fn on_answer_ready(
        &mut self,
        peer_id: String,
        connected: bool,
        sdp: Option<String>,
        fresh_id: String,
    ) -> (acts: Vec<MediaAction>)
        ensures
            final(self)@ == answer_ready_step(
                old(self)@,
                peer_id@,
                connected,
                opt_text(sdp),
                fresh_id@,
            ).state,
            views(acts@) == answer_ready_step(
                old(self)@,
                peer_id@,
                connected,
                opt_text(sdp),
                fresh_id@,
            ).actions,
    {
        let mut acts = no_media_actions();
        match self.peers.take() {
            Some(manager) => {
                let mut manager = manager;
                let stands = connected || manager.has_peer(peer_id.as_str());
                if connected {
                    manager.open_connection(peer_id.as_str());
                }
                self.peers = Some(manager);
                match (sdp, &self.current_channel_id) {
                    (Some(sdp), Some(channel)) if stands => {
                        push_action(
                            &mut acts,
                            MediaAction::Network(
                                NetworkCommand::SendCallAnswer {
                                    room_id: self.room_for_signaling(),
                                    to_peer_id: peer_id,
                                    call_id: fresh_id,
                                    channel_id: channel.clone(),
                                    sdp,
                                },
                            ),
                        );
                    },
                    _ => {},
                }
            },
            None => {},
        }
        acts
    }

    /// Decides on an input, given a new identifier for a call that the input
    /// starts: moves to the next state and returns what is to be done.
    pub fn step_with(&mut self, input: MediaInput, fresh_id: String) -> (acts: Vec<MediaAction>)
        ensures
            final(self)@ == media_step(old(self)@, input@, fresh_id@).state,
            views(acts@) == media_step(old(self)@, input@, fresh_id@).actions,
    {
        match input {
            MediaInput::Command(c) => self.on_command(c),
            MediaInput::AudioBlock { voiced } => self.on_audio(voiced),
            MediaInput::CameraFrame { jpeg } => self.on_frame(TYPE_VIDEO, jpeg),
            MediaInput::ScreenFrame { jpeg } => self.on_frame(TYPE_SCREEN, jpeg),
            MediaInput::Peer(e) => self.on_peer_event(e),
            MediaInput::App(e) => self.on_app_event(e),
            MediaInput::DataMessage { peer_id, data } => self.on_data(peer_id, data),
            MediaInput::EncoderReady { ok } => {
                self.has_encoder = ok && self.current_channel_id.is_some();
                no_media_actions()
            },
            MediaInput::CameraStarted { ok } => self.on_camera_started(ok),
            MediaInput::ScreenStarted { ok } => self.on_screen_started(ok),
            MediaInput::DecoderReady { peer_id, ok } => {
                let mut acts = no_media_actions();
                if ok {
                    self.remote_decoders.insert(peer_id.clone());
                    push_action(&mut acts, MediaAction::StartTrackReader { peer_id });
                }
                acts
            },
            MediaInput::OfferReady { peer_id, connected, channel_open, sdp } => self.on_offer_ready(
                peer_id,
                connected,
                channel_open,
                sdp,
                fresh_id,
            ),
            MediaInput::AnswerReady { peer_id, connected, sdp } => self.on_answer_ready(
                peer_id,
                connected,
                sdp,
                fresh_id,
            ),
            MediaInput::DataChannelOpen { peer_id } => {
                match self.peers.take() {
                    Some(manager) => {
                        let mut manager = manager;
                        manager.open_channel(peer_id.as_str());
                        self.peers = Some(manager);
                    },
                    None => {},
                }
                no_media_actions()
            },
        }
    }

    /// Decides on an input. The id of a call that the input starts is drawn
    /// at random.
    pub fn step(&mut self, input: MediaInput) -> (acts: Vec<MediaAction>)
        ensures
            exists|id: Seq<char>|
                is_uuid_text(id) && final(self)@ == (#[trigger] media_step(
                    old(self)@,
                    input@,
                    id,
                )).state && views(acts@) == media_step(old(self)@, input@, id).actions,
    {
        let id = fresh_id();
        let ghost id_text = id@;
        let acts = self.step_with(input, id);
        assert(self@ == media_step(old(self)@, input@, id_text).state);
        acts
    }
}

/// Whether no peer has two connections in this state.
pub open spec fn one_connection_each(s: MediaSessionView) -> bool {
    connections_of(s).no_duplicates()
}

/// Whether the actions hold an offer to `peer_id`.
pub open spec fn offers(actions: Seq<MediaActionView>, peer_id: Seq<char>) -> bool {
    actions.contains(MediaActionView::CreateOffer { peer_id })
}

/// At most one connection exists per peer: whatever happens, a session in
/// which no peer has two connections stays one.
pub proof fn lemma_one_connection_per_peer(
    s: MediaSessionView,
    input: MediaInputView,
    fresh_id: Seq<char>,
)
    requires
        one_connection_each(s),
    ensures
        one_connection_each(media_step(s, input, fresh_id).state),
{
    let after = media_step(s, input, fresh_id).state;
    match input {
        MediaInputView::App(
            AppEventView::VoiceStateChanged {
                peer_id,
                display_name,
                channel_id,
                room_id,
                muted,
                deafened,
                video,
                screen_sharing,
            },
        ) => {
            if s.peers is Some {
                lemma_gone(s.peers->0.connections, peer_id);
            }
        },
        MediaInputView::OfferReady { peer_id, connected, channel_open, sdp } => {
            if s.peers is Some {
                lemma_opened_distinct(s.peers->0, peer_id);
            }
        },
        MediaInputView::AnswerReady { peer_id, connected, sdp } => {
            if s.peers is Some {
                lemma_opened_distinct(s.peers->0, peer_id);
            }
        },
        _ => {},
    }
}

/// When a peer tells that it is in our voice channel, it is offered a
/// connection exactly if our id comes before its id and we have no
/// connection to it.
pub proof fn lemma_offer_rule(
    s: MediaSessionView,
    remote: Seq<char>,
    video: bool,
    screen: bool,
)
    requires
        s.current_channel_id is Some,
        s.current_room_id is Some,
        s.peers is Some,
        remote != s.my_peer_id,
    ensures
        offers(
            voice_state_step(
                s,
                s.current_channel_id->0,
                remote,
                s.current_channel_id,
                s.current_room_id->0,
                video,
                screen,
            ).actions,
            remote,
        ) <==> (offers_to(s.my_peer_id, remote) && !is_connected(s, remote)),
{
    let step = voice_state_step(
        s,
        s.current_channel_id->0,
        remote,
        s.current_channel_id,
        s.current_room_id->0,
        video,
        screen,
    );
    let offer = MediaActionView::CreateOffer { peer_id: remote };
    let a = if video {
        seq![MediaActionView::RegisterVideoStream { peer_id: remote }]
    } else {
        seq![]
    };
    let b = if screen {
        seq![MediaActionView::RegisterScreenStream { peer_id: remote }]
    } else {
        seq![]
    };
    if offers_to(s.my_peer_id, remote) && !is_connected(s, remote) {
        assert(step.actions == a + b + seq![offer]);
        assert(step.actions[(a.len() + b.len()) as int] == offer);
    } else {
        assert(step.actions =~= a + b);
        if step.actions.contains(offer) {
            let i = choose|i: int| 0 <= i < step.actions.len() && step.actions[i] == offer;
            assert(false);
        }
    }
}

/// Of two peers, at most one offers to the other: the one whose id comes
/// first.
pub proof fn lemma_one_side_offers(a: Seq<char>, b: Seq<char>)
    ensures
        !(offers_to(a, b) && offers_to(b, a)),
        !offers_to(a, a),
{
    lemma_bytes_lt_asymmetric(vstd::utf8::encode_utf8(a), vstd::utf8::encode_utf8(b));
    crate::text::lemma_bytes_lt_irreflexive(vstd::utf8::encode_utf8(a));
}

/// Once the connection to a peer was made for an offer, the peer is not
/// offered a connection again, however often it tells that it is in our
/// channel.
pub proof fn lemma_no_second_offer(
    s: MediaSessionView,
    remote: Seq<char>,
    channel_open: bool,
    sdp: Option<Seq<char>>,
    fresh_id: Seq<char>,
    remote_channel: Option<Seq<char>>,
    remote_room: Seq<char>,
    video: bool,
    screen: bool,
)
    requires
        s.current_channel_id is Some,
        s.peers is Some,
        remote_channel is Some,
    ensures
        ({
            let made = offer_ready_step(s, remote, true, channel_open, sdp, fresh_id).state;
            &&& is_connected(made, remote)
            &&& !offers(
                voice_state_step(
                    made,
                    made.current_channel_id->0,
                    remote,
                    remote_channel,
                    remote_room,
                    video,
                    screen,
                ).actions,
                remote,
            )
        }),
{
    let made = offer_ready_step(s, remote, true, channel_open, sdp, fresh_id).state;
    let p = s.peers->0;
    let opened = peer_opened(p, remote);
    assert(opened.connections[opened.connections.len() - 1] == remote);
    assert(is_connected(made, remote));
    let step = voice_state_step(
        made,
        made.current_channel_id->0,
        remote,
        remote_channel,
        remote_room,
        video,
        screen,
    );
    let offer = MediaActionView::CreateOffer { peer_id: remote };
    if step.actions.contains(offer) {
        let i = choose|i: int| 0 <= i < step.actions.len() && step.actions[i] == offer;
        assert(false);
    }
}

/// Every frame that the camera or the screen delivers is handed to the
/// frame server under the id of the local peer. Where data channels are
/// open it is also sent to every peer that has one: in one message if it
/// fits into one together with its type byte, else in chunks. Left out are
/// the frames whose number of chunks is a multiple of 65536, which the
/// header counts as no chunk at all.
pub proof fn lemma_frame_goes_everywhere(s: MediaSessionView, type_byte: u8, jpeg: Seq<u8>)
    requires
        is_chunked(jpeg.len()) ==> chunks_needed(jpeg.len()) % 0x10000 != 0,
    ensures
        ({
            let pushed = push_frame(type_byte, s.my_peer_id, jpeg);
            match s.peers {
                Some(p) if p.data_channels.len() > 0 => {
                    let messages = frame_messages(type_byte, p.frame_counter, jpeg);
                    &&& frame_step(s, type_byte, jpeg).actions == seq![
                        pushed,
                        MediaActionView::DispatchFrame { peers: p.data_channels, messages },
                    ]
                    &&& !is_chunked(jpeg.len()) ==> messages == seq![
                        single_message(type_byte, jpeg),
                    ]
                    &&& is_chunked(jpeg.len()) ==> messages.len() > 0 && messages
                        == chunk_messages(type_byte, p.frame_counter, jpeg)
                },
                _ => frame_step(s, type_byte, jpeg).actions == seq![pushed],
            }
        }),
{
    let pushed = push_frame(type_byte, s.my_peer_id, jpeg);
    match s.peers {
        Some(p) => {
            if p.data_channels.len() > 0 {
                let messages = frame_messages(type_byte, p.frame_counter, jpeg);
                assert(messages.len() > 0);
                assert(frame_step(s, type_byte, jpeg).actions =~= seq![
                    pushed,
                    MediaActionView::DispatchFrame { peers: p.data_channels, messages },
                ]);
            } else {
                assert(frame_step(s, type_byte, jpeg).actions =~= seq![pushed]);
            }
        },
        None => {},
    }
}

/// A muted session sends no audio: a captured block leads to no action and
/// leaves the state as it is.
pub proof fn lemma_muted_sends_nothing(s: MediaSessionView, voiced: bool, fresh_id: Seq<char>)
    requires
        s.is_muted,
    ensures
        media_step(s, MediaInputView::AudioBlock { voiced }, fresh_id) == (MediaStep {
            state: s,
            actions: seq![],
        }),
{
}

/// Leaving voice discards what was under reassembly: the session is idle
/// afterwards, without connections and without pending frames. A session
/// that joins again starts with no frame pending.
pub proof fn lemma_leave_discards_reassembly(
    s: MediaSessionView,
    room: Seq<char>,
    channel: Seq<char>,
    fresh_id: Seq<char>,
)
    ensures
        media_step(s, MediaInputView::Command(MediaCommandView::LeaveVoice), fresh_id).state
            == idle_session(s.my_peer_id),
        media_step(
            s,
            MediaInputView::Command(MediaCommandView::JoinVoice { room_id: room, channel_id: channel }),
            fresh_id,
        ).state.peers == Some(no_peers()),
{
}

/// A session that joins while it is in voice first tells its old room that
/// it leaves, and tells the new room last that it has joined.
pub proof fn lemma_rejoin_leaves_first(s: MediaSessionView, room: Seq<char>, channel: Seq<char>)
    requires
        s.current_channel_id is Some,
        s.current_room_id is Some,
    ensures
        joined_step(s, room, channel).actions.first() == MediaActionView::Network(
            left_command(s.current_room_id->0),
        ),
        joined_step(s, room, channel).actions.last() == MediaActionView::Network(
            joined_command(room, channel),
        ),
{
    let t = torn_down(s).actions;
    assert(t[0] == MediaActionView::Network(left_command(s.current_room_id->0)));
}

/// The state after a row of inputs, each with the identifier that was
/// drawn for it.
pub open spec fn after_inputs(
    s: MediaSessionView,
    inputs: Seq<(MediaInputView, Seq<char>)>,
) -> MediaSessionView
    decreases inputs.len(),
{
    if inputs.len() == 0 {
        s
    } else {
        media_step(after_inputs(s, inputs.drop_last()), inputs.last().0, inputs.last().1).state
    }
}

/// From the start of a session on, whatever happens in whatever order, no
/// peer ever has two connections.
pub proof fn lemma_never_two_connections(
    my_peer_id: Seq<char>,
    inputs: Seq<(MediaInputView, Seq<char>)>,
)
    ensures
        one_connection_each(after_inputs(idle_session(my_peer_id), inputs)),
    decreases inputs.len(),
{
    if inputs.len() > 0 {
        lemma_never_two_connections(my_peer_id, inputs.drop_last());
        lemma_one_connection_per_peer(
            after_inputs(idle_session(my_peer_id), inputs.drop_last()),
            inputs.last().0,
            inputs.last().1,
        );
    }
}

/// An offer for our channel is accepted on the connection that stands to
/// its sender, or on one new connection where none stands. Either way there
/// is exactly one connection to the sender afterwards, the connections to
/// other peers are as before, and the answer is sent.
pub proof fn lemma_offer_accepted_on_one_connection(
    s: MediaSessionView,
    from: Seq<char>,
    call_id: Seq<char>,
    sdp: Seq<char>,
    answer: Seq<char>,
    fresh_id: Seq<char>,
)
    requires
        s.current_channel_id is Some,
        s.peers is Some,
        one_connection_each(s),
    ensures
        ({
            let create = !is_connected(s, from);
            let offered = media_step(
                s,
                MediaInputView::App(
                    AppEventView::CallOfferReceived {
                        call_id,
                        from_peer_id: from,
                        channel_id: s.current_channel_id->0,
                        sdp,
                    },
                ),
                fresh_id,
            );
            let answered = media_step(
                offered.state,
                MediaInputView::AnswerReady { peer_id: from, connected: create, sdp: Some(answer) },
                fresh_id,
            );
            &&& offered.state == s
            &&& offered.actions == seq![
                MediaActionView::AcceptOffer { peer_id: from, sdp, create_connection: create },
            ]
            &&& connections_of(answered.state) == (if create {
                connections_of(s).push(from)
            } else {
                connections_of(s)
            })
            &&& is_connected(answered.state, from)
            &&& one_connection_each(answered.state)
            &&& answered.actions == seq![
                MediaActionView::Network(
                    NetworkCommandView::SendCallAnswer {
                        room_id: signaling_room(s),
                        to_peer_id: from,
                        call_id: fresh_id,
                        channel_id: s.current_channel_id->0,
                        sdp: answer,
                    },
                ),
            ]
        }),
{
    let p = s.peers->0;
    if !is_connected(s, from) {
        lemma_opened_distinct(p, from);
        assert(peer_opened(p, from).connections == p.connections.push(from));
    }
}

/// Whether an action sends an offer to `remote`.
pub open spec fn is_offer_to(action: MediaActionView, remote: Seq<char>) -> bool {
    match action {
        MediaActionView::Network(
            NetworkCommandView::SendCallOffer { room_id, to_peer_id, call_id, channel_id, sdp },
        ) => to_peer_id == remote,
        _ => false,
    }
}

/// How many of the actions send an offer to `remote`.
pub open spec fn offers_sent(actions: Seq<MediaActionView>, remote: Seq<char>) -> nat
    decreases actions.len(),
{
    if actions.len() == 0 {
        0
    } else {
        offers_sent(actions.drop_last(), remote) + if is_offer_to(actions.last(), remote) {
            1nat
        } else {
            0nat
        }
    }
}

/// Actions of which none sends an offer to `remote` send none; and no more
/// offers are sent than there are actions.
pub proof fn lemma_offers_sent(actions: Seq<MediaActionView>, remote: Seq<char>)
    ensures
        offers_sent(actions, remote) <= actions.len(),
        (forall|i: int| 0 <= i < actions.len() ==> !is_offer_to(actions[i], remote))
            ==> offers_sent(actions, remote) == 0,
    decreases actions.len(),
{
    if actions.len() > 0 {
        lemma_offers_sent(actions.drop_last(), remote);
        assert forall|i: int| 0 <= i < actions.drop_last().len() implies actions.drop_last()[i]
            == actions[i] by {}
    }
}

/// One round between the local peer and a remote peer in its voice channel:
/// the remote peer tells that it is in the channel, and where that leads to
/// the making of an offer, the making ends in some way.
pub ghost struct OfferRound {
    /// What the remote peer tells of itself.
    pub display_name: Seq<char>,
    pub muted: bool,
    pub deafened: bool,
    pub video: bool,
    pub screen_sharing: bool,
    /// How the making of the offer ends, where one is made.
    pub connected: bool,
    pub channel_open: bool,
    pub sdp: Option<Seq<char>>,
    pub call_id: Seq<char>,
}

/// A state together with the number of offers that were sent on the way.
pub ghost struct OffersMade {
    pub state: MediaSessionView,
    pub sent: nat,
}

/// What one round leads to.
pub open spec fn after_round(s: MediaSessionView, remote: Seq<char>, r: OfferRound) -> OffersMade {
    let told = media_step(
        s,
        MediaInputView::App(
            AppEventView::VoiceStateChanged {
                peer_id: remote,
                display_name: r.display_name,
                channel_id: s.current_channel_id,
                room_id: signaling_room(s),
                muted: r.muted,
                deafened: r.deafened,
                video: r.video,
                screen_sharing: r.screen_sharing,
            },
        ),
        r.call_id,
    );
    if offers(told.actions, remote) {
        let made = media_step(
            told.state,
            MediaInputView::OfferReady {
                peer_id: remote,
                connected: r.connected,
                channel_open: r.channel_open,
                sdp: r.sdp,
            },
            r.call_id,
        );
        OffersMade {
            state: made.state,
            sent: offers_sent(told.actions, remote) + offers_sent(made.actions, remote),
        }
    } else {
        OffersMade { state: told.state, sent: offers_sent(told.actions, remote) }
    }
}

/// What a row of rounds leads to.
pub open spec fn after_rounds(
    s: MediaSessionView,
    remote: Seq<char>,
    rounds: Seq<OfferRound>,
) -> OffersMade
    decreases rounds.len(),
{
    if rounds.len() == 0 {
        OffersMade { state: s, sent: 0 }
    } else {
        let before = after_rounds(s, remote, rounds.drop_last());
        let last = after_round(before.state, remote, rounds.last());
        OffersMade { state: last.state, sent: before.sent + last.sent }
    }
}

/// What one round does: it sends at most one offer, none where a
/// connection to the peer stands, and where it sends one, the connection
/// stands afterwards. A connection that stands keeps standing, and the
/// session stays in its channel.
pub proof fn lemma_round(s: MediaSessionView, remote: Seq<char>, r: OfferRound)
    requires
        s.current_channel_id is Some,
    ensures
        ({
            let after = after_round(s, remote, r);
            &&& after.sent <= 1
            &&& is_connected(s, remote) ==> after.sent == 0
            &&& (after.sent == 1 || is_connected(s, remote)) ==> is_connected(after.state, remote)
            &&& after.state.current_channel_id == s.current_channel_id
        }),
{
    let told = media_step(
        s,
        MediaInputView::App(
            AppEventView::VoiceStateChanged {
                peer_id: remote,
                display_name: r.display_name,
                channel_id: s.current_channel_id,
                room_id: signaling_room(s),
                muted: r.muted,
                deafened: r.deafened,
                video: r.video,
                screen_sharing: r.screen_sharing,
            },
        ),
        r.call_id,
    );
    assert(told.state == s);
    lemma_offers_sent(told.actions, remote);
    assert(offers_sent(told.actions, remote) == 0);
    if offers(told.actions, remote) {
        let i = choose|i: int|
            0 <= i < told.actions.len() && told.actions[i] == (MediaActionView::CreateOffer {
                peer_id: remote,
            });
        assert(!is_connected(s, remote));
        assert(s.peers is Some);
        let made = media_step(
            s,
            MediaInputView::OfferReady {
                peer_id: remote,
                connected: r.connected,
                channel_open: r.channel_open,
                sdp: r.sdp,
            },
            r.call_id,
        );
        lemma_offers_sent(made.actions, remote);
        if r.connected {
            let opened = peer_opened(s.peers->0, remote);
            assert(opened.connections[opened.connections.len() - 1] == remote);
        }
    }
}

/// However often a peer tells that it is in our voice channel, and however
/// the making of offers ends, at most one offer is sent to it as long as
/// it does not leave.
pub proof fn lemma_at_most_one_offer(
    s: MediaSessionView,
    remote: Seq<char>,
    rounds: Seq<OfferRound>,
)
    requires
        s.current_channel_id is Some,
    ensures
        after_rounds(s, remote, rounds).sent <= 1,
        after_rounds(s, remote, rounds).sent == 1 || is_connected(s, remote) ==> is_connected(
            after_rounds(s, remote, rounds).state,
            remote,
        ),
        is_connected(s, remote) ==> after_rounds(s, remote, rounds).sent == 0,
        after_rounds(s, remote, rounds).state.current_channel_id == s.current_channel_id,
    decreases rounds.len(),
{
    if rounds.len() > 0 {
        lemma_at_most_one_offer(s, remote, rounds.drop_last());
        lemma_round(after_rounds(s, remote, rounds.drop_last()).state, remote, rounds.last());
    }
}

} // verus!
