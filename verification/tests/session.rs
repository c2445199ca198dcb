use chatr::events::AppEvent;
use chatr::media::engine::MediaSession;
use chatr::media::frames::{encode_frame, TYPE_SCREEN, TYPE_VIDEO};
use chatr::media::signals::{ConnectionState, MediaAction, MediaInput, PeerEvent};
use chatr::media::{MediaCommand, VoiceState};
use chatr::network::NetworkCommand;

fn s(text: &str) -> String {
    text.to_string()
}

fn step(session: &mut MediaSession, input: MediaInput) -> Vec<MediaAction> {
    session.step_with(input, s("call-1"))
}

fn join(session: &mut MediaSession, room: &str, channel: &str) -> Vec<MediaAction> {
    let acts = step(
        session,
        MediaInput::Command(MediaCommand::JoinVoice { room_id: s(room), channel_id: s(channel) }),
    );
    step(session, MediaInput::EncoderReady { ok: true });
    acts
}

fn voice_state(room: &str, channel: Option<&str>, flags: (bool, bool, bool, bool)) -> MediaAction {
    MediaAction::Network(NetworkCommand::SendVoiceState {
        room_id: s(room),
        channel_id: channel.map(s),
        muted: flags.0,
        deafened: flags.1,
        video: flags.2,
        screen_sharing: flags.3,
    })
}

fn snapshot(room: &str, channel: &str, peers: &[&str]) -> VoiceState {
    VoiceState {
        in_voice: true,
        room_id: Some(s(room)),
        channel_id: Some(s(channel)),
        muted: false,
        deafened: false,
        connected_peers: peers.iter().map(|p| s(p)).collect(),
        camera_enabled: false,
        screen_sharing: false,
    }
}

fn remote_state(peer: &str, room: &str, channel: Option<&str>, video: bool, screen: bool) -> MediaInput {
    MediaInput::App(AppEvent::VoiceStateChanged {
        peer_id: s(peer),
        display_name: s("Remote"),
        channel_id: channel.map(s),
        room_id: s(room),
        muted: false,
        deafened: false,
        video,
        screen_sharing: screen,
    })
}

fn connect(session: &mut MediaSession, peer: &str) {
    step(
        session,
        MediaInput::OfferReady { peer_id: s(peer), connected: true, channel_open: true, sdp: Some(s("{o}")) },
    );
}

#[test]
fn a_new_session_is_idle() {
    let session = MediaSession::new(s("peer-0001"));
    assert!(!session.in_voice());
    assert_eq!(session.snapshot(), VoiceState::default());
    assert_eq!(
        VoiceState::default(),
        VoiceState {
            in_voice: false,
            room_id: None,
            channel_id: None,
            muted: false,
            deafened: false,
            connected_peers: vec![],
            camera_enabled: false,
            screen_sharing: false,
        }
    );
}

#[test]
fn join_starts_the_devices_and_tells_the_room() {
    let mut session = MediaSession::new(s("peer-0001"));
    let acts = join(&mut session, "r1", "general");
    assert_eq!(
        acts,
        vec![
            MediaAction::StartCapture,
            MediaAction::StartPlayback,
            MediaAction::CreateEncoder,
            MediaAction::ResetPeers,
            MediaAction::PublishState(snapshot("r1", "general", &[])),
            voice_state("r1", Some("general"), (false, false, false, false)),
        ]
    );
    assert!(session.in_voice());
    assert_eq!(session.snapshot(), snapshot("r1", "general", &[]));
}

#[test]
fn leave_tells_the_room_closes_the_connections_and_goes_idle() {
    let mut session = MediaSession::new(s("peer-0001"));
    join(&mut session, "r1", "general");
    connect(&mut session, "peer-0002");
    connect(&mut session, "peer-0003");
    let acts = step(&mut session, MediaInput::Command(MediaCommand::LeaveVoice));
    assert_eq!(
        acts,
        vec![
            voice_state("r1", None, (false, false, false, false)),
            MediaAction::ClosePeer { peer_id: s("peer-0002") },
            MediaAction::ClosePeer { peer_id: s("peer-0003") },
            MediaAction::StopCapture,
            MediaAction::StopPlayback,
            MediaAction::DropEncoder,
            MediaAction::DropPeers,
            MediaAction::ClearDecoders,
            MediaAction::PublishState(VoiceState::default()),
        ]
    );
    assert!(!session.in_voice());
    assert!(!session.has_peer("peer-0002"));
}

#[test]
fn leave_stops_camera_and_screen_share() {
    let mut session = MediaSession::new(s("me"));
    join(&mut session, "r1", "general");
    step(&mut session, MediaInput::Command(MediaCommand::EnableCamera { device_index: None }));
    step(&mut session, MediaInput::CameraStarted { ok: true });
    step(&mut session, MediaInput::Command(MediaCommand::StartScreenShare));
    step(&mut session, MediaInput::ScreenStarted { ok: true });
    let acts = step(&mut session, MediaInput::Command(MediaCommand::LeaveVoice));
    assert_eq!(
        &acts[acts.len() - 5..],
        &[
            MediaAction::StopCamera,
            MediaAction::RemoveVideoStream { peer_id: s("me") },
            MediaAction::StopScreenCapture,
            MediaAction::RemoveScreenStream { peer_id: s("me") },
            MediaAction::PublishState(VoiceState::default()),
        ]
    );
}

#[test]
fn rejoin_leaves_the_old_room_before_it_joins_the_new() {
    let mut a = MediaSession::new(s("peer-0001"));
    join(&mut a, "R1", "general");
    connect(&mut a, "peer-0002");
    let acts = step(
        &mut a,
        MediaInput::Command(MediaCommand::JoinVoice { room_id: s("R2"), channel_id: s("lobby") }),
    );
    assert_eq!(
        acts,
        vec![
            voice_state("R1", None, (false, false, false, false)),
            MediaAction::ClosePeer { peer_id: s("peer-0002") },
            MediaAction::StopCapture,
            MediaAction::StopPlayback,
            MediaAction::DropEncoder,
            MediaAction::DropPeers,
            MediaAction::ClearDecoders,
            MediaAction::StartCapture,
            MediaAction::StartPlayback,
            MediaAction::CreateEncoder,
            MediaAction::ResetPeers,
            MediaAction::PublishState(snapshot("R2", "lobby", &[])),
            voice_state("R2", Some("lobby"), (false, false, false, false)),
        ]
    );
    assert!(!a.has_peer("peer-0002"));
    assert_eq!(a.snapshot(), snapshot("R2", "lobby", &[]));
    // the fresh session has no encoder until one was made for it
    assert_eq!(step(&mut a, MediaInput::AudioBlock { voiced: false }), vec![]);
}

#[test]
fn only_the_peer_with_the_smaller_id_offers() {
    let mut a = MediaSession::new(s("peer-0001"));
    let mut b = MediaSession::new(s("peer-0002"));
    join(&mut a, "R", "general");
    join(&mut b, "R", "general");
    let at_a = step(&mut a, remote_state("peer-0002", "R", Some("general"), false, false));
    let at_b = step(&mut b, remote_state("peer-0001", "R", Some("general"), false, false));
    assert_eq!(at_a, vec![MediaAction::CreateOffer { peer_id: s("peer-0002") }]);
    assert_eq!(at_b, vec![]);

    let sent = step(
        &mut a,
        MediaInput::OfferReady { peer_id: s("peer-0002"), connected: true, channel_open: true, sdp: Some(s("{offer}")) },
    );
    assert_eq!(
        sent,
        vec![MediaAction::Network(NetworkCommand::SendCallOffer {
            room_id: s("R"),
            to_peer_id: s("peer-0002"),
            call_id: s("call-1"),
            channel_id: s("general"),
            sdp: s("{offer}"),
        })]
    );
    let accept = step(
        &mut b,
        MediaInput::App(AppEvent::CallOfferReceived {
            call_id: s("call-1"),
            from_peer_id: s("peer-0001"),
            channel_id: s("general"),
            sdp: s("{offer}"),
        }),
    );
    assert_eq!(
        accept,
        vec![MediaAction::AcceptOffer { peer_id: s("peer-0001"), sdp: s("{offer}"), create_connection: true }]
    );
    let answered = step(
        &mut b,
        MediaInput::AnswerReady { peer_id: s("peer-0001"), connected: true, sdp: Some(s("{answer}")) },
    );
    assert_eq!(
        answered,
        vec![MediaAction::Network(NetworkCommand::SendCallAnswer {
            room_id: s("R"),
            to_peer_id: s("peer-0001"),
            call_id: s("call-1"),
            channel_id: s("general"),
            sdp: s("{answer}"),
        })]
    );
    let applied = step(
        &mut a,
        MediaInput::App(AppEvent::CallAnswerReceived {
            call_id: s("call-1"),
            from_peer_id: s("peer-0002"),
            channel_id: s("general"),
            sdp: s("{answer}"),
        }),
    );
    assert_eq!(applied, vec![MediaAction::ApplyAnswer { peer_id: s("peer-0002"), sdp: s("{answer}") }]);
    assert_eq!(a.snapshot().connected_peers, vec![s("peer-0002")]);
    assert_eq!(b.snapshot().connected_peers, vec![s("peer-0001")]);
}

#[test]
fn a_connected_peer_is_not_offered_again() {
    let mut a = MediaSession::new(s("peer-0001"));
    join(&mut a, "R", "general");
    assert_eq!(
        step(&mut a, remote_state("peer-0002", "R", Some("general"), false, false)),
        vec![MediaAction::CreateOffer { peer_id: s("peer-0002") }]
    );
    connect(&mut a, "peer-0002");
    for _ in 0..3 {
        assert_eq!(step(&mut a, remote_state("peer-0002", "R", Some("general"), false, false)), vec![]);
    }
    step(
        &mut a,
        MediaInput::Peer(PeerEvent::ConnectionStateChanged { peer_id: s("peer-0002"), state: ConnectionState::Failed }),
    );
    assert_eq!(step(&mut a, remote_state("peer-0002", "R", Some("general"), false, false)), vec![]);
    assert_eq!(a.snapshot().connected_peers, vec![s("peer-0002")]);
}

#[test]
fn an_offer_that_made_no_connection_may_be_made_again() {
    let mut a = MediaSession::new(s("peer-0001"));
    join(&mut a, "R", "general");
    step(&mut a, remote_state("peer-0002", "R", Some("general"), false, false));
    let acts = step(
        &mut a,
        MediaInput::OfferReady { peer_id: s("peer-0002"), connected: false, channel_open: false, sdp: None },
    );
    assert_eq!(acts, vec![]);
    assert_eq!(
        step(&mut a, remote_state("peer-0002", "R", Some("general"), false, false)),
        vec![MediaAction::CreateOffer { peer_id: s("peer-0002") }]
    );
}

#[test]
fn no_offer_goes_out_without_its_connection() {
    let mut a = MediaSession::new(s("peer-0001"));
    join(&mut a, "R", "general");
    step(&mut a, remote_state("peer-0002", "R", Some("general"), false, false));
    let acts = step(
        &mut a,
        MediaInput::OfferReady { peer_id: s("peer-0002"), connected: false, channel_open: true, sdp: Some(s("{o}")) },
    );
    assert_eq!(acts, vec![]);
    assert!(!a.has_peer("peer-0002"));
    assert_eq!(a.snapshot().connected_peers, Vec::<String>::new());
    // the frame of a camera finds no data channel to go out on
    let frame = step(&mut a, MediaInput::CameraFrame { jpeg: vec![1, 2, 3] });
    assert_eq!(frame, vec![MediaAction::PushVideoFrame { peer_id: s("peer-0001"), jpeg: vec![1, 2, 3] }]);
}

#[test]
fn a_peer_is_sent_one_offer_however_often_it_tells_where_it_is() {
    let mut a = MediaSession::new(s("peer-0001"));
    join(&mut a, "R", "general");
    let mut sent = 0;
    let outcomes = [(false, None), (true, Some(s("{o}"))), (true, Some(s("{p}"))), (false, Some(s("{q}")))];
    for round in 0..8 {
        let told = step(&mut a, remote_state("peer-0002", "R", Some("general"), false, false));
        if told == vec![MediaAction::CreateOffer { peer_id: s("peer-0002") }] {
            let (connected, sdp) = outcomes[round % outcomes.len()].clone();
            let made = step(
                &mut a,
                MediaInput::OfferReady { peer_id: s("peer-0002"), connected, channel_open: connected, sdp },
            );
            sent += made.len();
        } else {
            assert_eq!(told, vec![]);
        }
    }
    assert_eq!(sent, 1);
    assert_eq!(a.snapshot().connected_peers, vec![s("peer-0002")]);
}

#[test]
fn no_answer_goes_out_without_a_connection() {
    let mut b = MediaSession::new(s("peer-0002"));
    join(&mut b, "R", "general");
    let acts = step(
        &mut b,
        MediaInput::AnswerReady { peer_id: s("peer-0001"), connected: false, sdp: Some(s("{a}")) },
    );
    assert_eq!(acts, vec![]);
    assert!(!b.has_peer("peer-0001"));
    step(&mut b, MediaInput::AnswerReady { peer_id: s("peer-0001"), connected: true, sdp: None });
    assert!(b.has_peer("peer-0001"));
    // an offer that comes again is accepted on the connection that stands
    let acts = step(
        &mut b,
        MediaInput::AnswerReady { peer_id: s("peer-0001"), connected: false, sdp: Some(s("{a}")) },
    );
    assert_eq!(acts.len(), 1);
    assert_eq!(b.snapshot().connected_peers, vec![s("peer-0001")]);
}

#[test]
fn peers_in_other_channels_or_rooms_are_not_offered() {
    let mut a = MediaSession::new(s("peer-0001"));
    join(&mut a, "R", "general");
    assert_eq!(step(&mut a, remote_state("peer-0002", "R", Some("lobby"), true, true)), vec![]);
    assert_eq!(step(&mut a, remote_state("peer-0002", "Q", Some("general"), true, true)), vec![]);
    assert_eq!(step(&mut a, remote_state("peer-0001", "R", Some("general"), true, true)), vec![]);
}

#[test]
fn streams_of_a_peer_in_our_channel_are_registered() {
    let mut b = MediaSession::new(s("peer-0002"));
    join(&mut b, "R", "general");
    assert_eq!(
        step(&mut b, remote_state("peer-0001", "R", Some("general"), true, true)),
        vec![
            MediaAction::RegisterVideoStream { peer_id: s("peer-0001") },
            MediaAction::RegisterScreenStream { peer_id: s("peer-0001") },
        ]
    );
    let mut a = MediaSession::new(s("peer-0001"));
    join(&mut a, "R", "general");
    assert_eq!(
        step(&mut a, remote_state("peer-0002", "R", Some("general"), false, true)),
        vec![
            MediaAction::RegisterScreenStream { peer_id: s("peer-0002") },
            MediaAction::CreateOffer { peer_id: s("peer-0002") },
        ]
    );
}

#[test]
fn a_peer_that_leaves_voice_is_dropped() {
    let mut a = MediaSession::new(s("peer-0001"));
    join(&mut a, "R", "general");
    connect(&mut a, "peer-0002");
    let acts = step(&mut a, remote_state("peer-0002", "R", None, false, false));
    assert_eq!(
        acts,
        vec![
            MediaAction::ClosePeer { peer_id: s("peer-0002") },
            MediaAction::DropDecoder { peer_id: s("peer-0002") },
            MediaAction::RemoveVideoStream { peer_id: s("peer-0002") },
            MediaAction::RemoveScreenStream { peer_id: s("peer-0002") },
        ]
    );
    assert!(!a.has_peer("peer-0002"));
    let again = step(&mut a, remote_state("peer-0002", "R", None, false, false));
    assert_eq!(again.len(), 3);
    assert_eq!(again[0], MediaAction::DropDecoder { peer_id: s("peer-0002") });
}

#[test]
fn signaling_is_dropped_outside_voice_and_for_other_channels() {
    let mut a = MediaSession::new(s("peer-0001"));
    let offer = |channel: &str| {
        MediaInput::App(AppEvent::CallOfferReceived {
            call_id: s("c"),
            from_peer_id: s("peer-0000"),
            channel_id: s(channel),
            sdp: s("{o}"),
        })
    };
    assert_eq!(step(&mut a, offer("general")), vec![]);
    assert_eq!(step(&mut a, remote_state("peer-0002", "R", Some("general"), true, false)), vec![]);
    join(&mut a, "R", "general");
    assert_eq!(step(&mut a, offer("lobby")), vec![]);
    let ice = |channel: &str, from: &str| {
        MediaInput::App(AppEvent::IceCandidateReceived {
            from_peer_id: s(from),
            channel_id: s(channel),
            candidate: s("{c}"),
        })
    };
    assert_eq!(step(&mut a, ice("general", "peer-0002")), vec![]);
    connect(&mut a, "peer-0002");
    assert_eq!(step(&mut a, ice("lobby", "peer-0002")), vec![]);
    assert_eq!(
        step(&mut a, ice("general", "peer-0002")),
        vec![MediaAction::AddIceCandidate { peer_id: s("peer-0002"), candidate: s("{c}") }]
    );
    let answer = MediaInput::App(AppEvent::CallAnswerReceived {
        call_id: s("c"),
        from_peer_id: s("peer-0009"),
        channel_id: s("general"),
        sdp: s("{a}"),
    });
    assert_eq!(step(&mut a, answer), vec![]);
}

#[test]
fn an_offer_from_a_connected_peer_needs_no_new_connection() {
    let mut b = MediaSession::new(s("peer-0002"));
    join(&mut b, "R", "general");
    step(&mut b, MediaInput::AnswerReady { peer_id: s("peer-0001"), connected: true, sdp: None });
    let acts = step(
        &mut b,
        MediaInput::App(AppEvent::CallOfferReceived {
            call_id: s("c"),
            from_peer_id: s("peer-0001"),
            channel_id: s("general"),
            sdp: s("{o}"),
        }),
    );
    assert_eq!(
        acts,
        vec![MediaAction::AcceptOffer { peer_id: s("peer-0001"), sdp: s("{o}"), create_connection: false }]
    );
    assert_eq!(b.snapshot().connected_peers, vec![s("peer-0001")]);
}

#[test]
fn a_muted_session_sends_no_audio() {
    let mut a = MediaSession::new(s("me"));
    join(&mut a, "R", "general");
    assert_eq!(
        step(&mut a, MediaInput::AudioBlock { voiced: true }),
        vec![
            MediaAction::Emit(AppEvent::SpeakingChanged { peer_id: s("me"), speaking: true }),
            MediaAction::EncodeAndSend,
        ]
    );
    assert_eq!(step(&mut a, MediaInput::AudioBlock { voiced: true }), vec![MediaAction::EncodeAndSend]);
    let muted = step(&mut a, MediaInput::Command(MediaCommand::SetMuted(true)));
    let mut state = snapshot("R", "general", &[]);
    state.muted = true;
    assert_eq!(
        muted,
        vec![
            MediaAction::ResetAudioLevel,
            MediaAction::Emit(AppEvent::SpeakingChanged { peer_id: s("me"), speaking: false }),
            MediaAction::PublishState(state),
            voice_state("R", Some("general"), (true, false, false, false)),
        ]
    );
    for voiced in [true, false, true] {
        assert_eq!(step(&mut a, MediaInput::AudioBlock { voiced }), vec![]);
    }
    let unmuted = step(&mut a, MediaInput::Command(MediaCommand::SetMuted(false)));
    assert_eq!(unmuted.len(), 2);
    assert_eq!(
        step(&mut a, MediaInput::AudioBlock { voiced: true }),
        vec![
            MediaAction::Emit(AppEvent::SpeakingChanged { peer_id: s("me"), speaking: true }),
            MediaAction::EncodeAndSend,
        ]
    );
    assert_eq!(
        step(&mut a, MediaInput::AudioBlock { voiced: false }),
        vec![
            MediaAction::Emit(AppEvent::SpeakingChanged { peer_id: s("me"), speaking: false }),
            MediaAction::EncodeAndSend,
        ]
    );
}

#[test]
fn audio_is_not_encoded_without_an_encoder() {
    let mut a = MediaSession::new(s("me"));
    step(&mut a, MediaInput::Command(MediaCommand::JoinVoice { room_id: s("R"), channel_id: s("c") }));
    step(&mut a, MediaInput::EncoderReady { ok: false });
    assert_eq!(step(&mut a, MediaInput::AudioBlock { voiced: false }), vec![]);
    assert_eq!(
        step(&mut a, MediaInput::AudioBlock { voiced: true }),
        vec![MediaAction::Emit(AppEvent::SpeakingChanged { peer_id: s("me"), speaking: true })]
    );
}

#[test]
fn deafen_silences_playback_and_keeps_the_connections() {
    let mut a = MediaSession::new(s("peer-0001"));
    join(&mut a, "R", "general");
    connect(&mut a, "peer-0002");
    connect(&mut a, "peer-0003");
    let acts = step(&mut a, MediaInput::Command(MediaCommand::SetDeafened(true)));
    let mut state = snapshot("R", "general", &["peer-0002", "peer-0003"]);
    state.deafened = true;
    assert_eq!(
        acts,
        vec![
            MediaAction::SilencePlayback(true),
            MediaAction::PublishState(state),
            voice_state("R", Some("general"), (false, true, false, false)),
        ]
    );
    assert!(a.has_peer("peer-0002") && a.has_peer("peer-0003"));
    let acts = step(&mut a, MediaInput::Command(MediaCommand::SetDeafened(false)));
    assert_eq!(acts[0], MediaAction::SilencePlayback(false));
    assert_eq!(acts.len(), 3);
    assert!(a.has_peer("peer-0002") && a.has_peer("peer-0003"));
}

#[test]
fn camera_needs_a_voice_session() {
    let mut a = MediaSession::new(s("me"));
    assert_eq!(
        step(&mut a, MediaInput::Command(MediaCommand::EnableCamera { device_index: Some(1) })),
        vec![]
    );
    assert_eq!(step(&mut a, MediaInput::Command(MediaCommand::StartScreenShare)), vec![]);
    join(&mut a, "R", "general");
    assert_eq!(
        step(&mut a, MediaInput::Command(MediaCommand::EnableCamera { device_index: Some(1) })),
        vec![MediaAction::StartCamera { device_index: Some(1) }]
    );
    assert_eq!(step(&mut a, MediaInput::CameraStarted { ok: false }), vec![]);
    let mut state = snapshot("R", "general", &[]);
    state.camera_enabled = true;
    assert_eq!(
        step(&mut a, MediaInput::CameraStarted { ok: true }),
        vec![
            MediaAction::RegisterVideoStream { peer_id: s("me") },
            MediaAction::PublishState(state),
            voice_state("R", Some("general"), (false, false, true, false)),
        ]
    );
    assert_eq!(
        step(&mut a, MediaInput::Command(MediaCommand::EnableCamera { device_index: None })),
        vec![]
    );
    assert_eq!(step(&mut a, MediaInput::CameraStarted { ok: true }), vec![MediaAction::StopCamera]);
    let off = step(&mut a, MediaInput::Command(MediaCommand::DisableCamera));
    assert_eq!(
        off,
        vec![
            MediaAction::StopCamera,
            MediaAction::RemoveVideoStream { peer_id: s("me") },
            MediaAction::PublishState(snapshot("R", "general", &[])),
            voice_state("R", Some("general"), (false, false, false, false)),
        ]
    );
}

#[test]
fn screen_share_is_started_and_stopped() {
    let mut a = MediaSession::new(s("me"));
    join(&mut a, "R", "general");
    assert_eq!(
        step(&mut a, MediaInput::Command(MediaCommand::StartScreenShare)),
        vec![MediaAction::StartScreenCapture]
    );
    let started = step(&mut a, MediaInput::ScreenStarted { ok: true });
    assert_eq!(started[0], MediaAction::RegisterScreenStream { peer_id: s("me") });
    assert_eq!(started[2], voice_state("R", Some("general"), (false, false, false, true)));
    assert_eq!(step(&mut a, MediaInput::Command(MediaCommand::StartScreenShare)), vec![]);
    let stopped = step(&mut a, MediaInput::Command(MediaCommand::StopScreenShare));
    assert_eq!(
        &stopped[..2],
        &[MediaAction::StopScreenCapture, MediaAction::RemoveScreenStream { peer_id: s("me") }]
    );
    let idle = step(&mut a, MediaInput::Command(MediaCommand::StopScreenShare));
    assert_eq!(idle.len(), 2);
}

fn jpeg(len: usize) -> Vec<u8> {
    (0..len).map(|i| (i % 253) as u8).collect()
}

#[test]
fn camera_frames_go_to_the_frame_server_and_to_every_open_channel() {
    let mut a = MediaSession::new(s("me"));
    join(&mut a, "R", "general");
    let frame = jpeg(14999);
    assert_eq!(
        step(&mut a, MediaInput::CameraFrame { jpeg: frame.clone() }),
        vec![MediaAction::PushVideoFrame { peer_id: s("me"), jpeg: frame.clone() }]
    );
    connect(&mut a, "peer-b");
    connect(&mut a, "peer-c");
    let mut single = vec![b'V'];
    single.extend_from_slice(&frame);
    assert_eq!(
        step(&mut a, MediaInput::CameraFrame { jpeg: frame.clone() }),
        vec![
            MediaAction::PushVideoFrame { peer_id: s("me"), jpeg: frame.clone() },
            MediaAction::DispatchFrame { peers: vec![s("peer-b"), s("peer-c")], messages: vec![single] },
        ]
    );
}

#[test]
fn large_screen_frames_go_out_in_chunks_under_rising_ids() {
    let mut a = MediaSession::new(s("me"));
    join(&mut a, "R", "general");
    connect(&mut a, "peer-b");
    let frame = jpeg(40000);
    for id in 0..3u32 {
        let acts = step(&mut a, MediaInput::ScreenFrame { jpeg: frame.clone() });
        assert_eq!(
            acts,
            vec![
                MediaAction::PushScreenFrame { peer_id: s("me"), jpeg: frame.clone() },
                MediaAction::DispatchFrame {
                    peers: vec![s("peer-b")],
                    messages: encode_frame(TYPE_SCREEN, id, &frame),
                },
            ]
        );
    }
    // a frame that fits uses up no id
    step(&mut a, MediaInput::CameraFrame { jpeg: jpeg(10) });
    let acts = step(&mut a, MediaInput::CameraFrame { jpeg: jpeg(15000) });
    assert_eq!(
        acts[1],
        MediaAction::DispatchFrame { peers: vec![s("peer-b")], messages: encode_frame(TYPE_VIDEO, 3, &jpeg(15000)) }
    );
}

#[test]
fn frames_outside_voice_only_reach_the_frame_server() {
    let mut a = MediaSession::new(s("me"));
    assert_eq!(
        step(&mut a, MediaInput::ScreenFrame { jpeg: vec![1, 2] }),
        vec![MediaAction::PushScreenFrame { peer_id: s("me"), jpeg: vec![1, 2] }]
    );
}

#[test]
fn data_messages_of_connected_peers_are_reassembled() {
    let mut a = MediaSession::new(s("me"));
    join(&mut a, "R", "general");
    connect(&mut a, "peer-b");
    let frame = jpeg(40000);
    let messages = encode_frame(TYPE_SCREEN, 12, &frame);
    for m in &messages[..2] {
        assert_eq!(step(&mut a, MediaInput::DataMessage { peer_id: s("peer-b"), data: m.clone() }), vec![]);
    }
    assert_eq!(
        step(&mut a, MediaInput::DataMessage { peer_id: s("peer-b"), data: messages[2].clone() }),
        vec![MediaAction::PushScreenFrame { peer_id: s("peer-b"), jpeg: frame }]
    );
    assert_eq!(
        step(&mut a, MediaInput::DataMessage { peer_id: s("peer-b"), data: b"Vabc".to_vec() }),
        vec![MediaAction::PushVideoFrame { peer_id: s("peer-b"), jpeg: b"abc".to_vec() }]
    );
    assert_eq!(step(&mut a, MediaInput::DataMessage { peer_id: s("peer-b"), data: b"?".to_vec() }), vec![]);
    assert_eq!(step(&mut a, MediaInput::DataMessage { peer_id: s("stranger"), data: b"Vabc".to_vec() }), vec![]);
}

#[test]
fn leaving_voice_discards_frames_under_reassembly() {
    let mut a = MediaSession::new(s("me"));
    join(&mut a, "R", "general");
    connect(&mut a, "peer-b");
    let frame = jpeg(40000);
    let messages = encode_frame(TYPE_VIDEO, 5, &frame);
    for m in &messages[..2] {
        step(&mut a, MediaInput::DataMessage { peer_id: s("peer-b"), data: m.clone() });
    }
    step(&mut a, MediaInput::Command(MediaCommand::LeaveVoice));
    assert_eq!(
        step(&mut a, MediaInput::DataMessage { peer_id: s("peer-b"), data: messages[2].clone() }),
        vec![]
    );
    join(&mut a, "R", "general");
    connect(&mut a, "peer-b");
    assert_eq!(
        step(&mut a, MediaInput::DataMessage { peer_id: s("peer-b"), data: messages[2].clone() }),
        vec![]
    );
    for m in &messages[..1] {
        step(&mut a, MediaInput::DataMessage { peer_id: s("peer-b"), data: m.clone() });
    }
    assert_eq!(
        step(&mut a, MediaInput::DataMessage { peer_id: s("peer-b"), data: messages[1].clone() }),
        vec![MediaAction::PushVideoFrame { peer_id: s("peer-b"), jpeg: frame }]
    );
}

#[test]
fn connection_reports_are_told_to_the_user() {
    let mut a = MediaSession::new(s("me"));
    join(&mut a, "R", "general");
    connect(&mut a, "peer-b");
    let report = |state| MediaInput::Peer(PeerEvent::ConnectionStateChanged { peer_id: s("peer-b"), state });
    assert_eq!(
        step(&mut a, report(ConnectionState::Connected)),
        vec![
            MediaAction::Emit(AppEvent::VoiceConnected { peer_id: s("peer-b") }),
            MediaAction::PublishState(snapshot("R", "general", &["peer-b"])),
        ]
    );
    for state in [ConnectionState::Disconnected, ConnectionState::Failed, ConnectionState::Closed] {
        assert_eq!(
            step(&mut a, report(state)),
            vec![
                MediaAction::Emit(AppEvent::VoiceDisconnected { peer_id: s("peer-b") }),
                MediaAction::DropDecoder { peer_id: s("peer-b") },
                MediaAction::RemoveVideoStream { peer_id: s("peer-b") },
                MediaAction::RemoveScreenStream { peer_id: s("peer-b") },
                MediaAction::PublishState(snapshot("R", "general", &["peer-b"])),
            ]
        );
    }
    for state in [ConnectionState::New, ConnectionState::Connecting, ConnectionState::Unspecified] {
        assert_eq!(step(&mut a, report(state)), vec![]);
    }
}

#[test]
fn remote_tracks_get_a_decoder_and_a_reader() {
    let mut a = MediaSession::new(s("me"));
    join(&mut a, "R", "general");
    assert_eq!(
        step(&mut a, MediaInput::Peer(PeerEvent::RemoteTrack { peer_id: s("peer-b") })),
        vec![MediaAction::CreateDecoder { peer_id: s("peer-b") }]
    );
    assert_eq!(step(&mut a, MediaInput::DecoderReady { peer_id: s("peer-b"), ok: false }), vec![]);
    assert_eq!(
        step(&mut a, MediaInput::DecoderReady { peer_id: s("peer-b"), ok: true }),
        vec![MediaAction::StartTrackReader { peer_id: s("peer-b") }]
    );
}

#[test]
fn gathered_candidates_are_sent_to_the_room() {
    let mut a = MediaSession::new(s("me"));
    let candidate = || MediaInput::Peer(PeerEvent::IceCandidate { peer_id: s("peer-b"), candidate: s("{c}") });
    assert_eq!(step(&mut a, candidate()), vec![]);
    join(&mut a, "R", "general");
    assert_eq!(
        step(&mut a, candidate()),
        vec![MediaAction::Network(NetworkCommand::SendIceCandidate {
            room_id: s("R"),
            to_peer_id: s("peer-b"),
            channel_id: s("general"),
            candidate: s("{c}"),
        })]
    );
}

#[test]
fn frames_reported_by_connections_reach_the_frame_server() {
    let mut a = MediaSession::new(s("me"));
    assert_eq!(
        step(&mut a, MediaInput::Peer(PeerEvent::VideoFrame { peer_id: s("peer-b"), data: vec![1] })),
        vec![MediaAction::PushVideoFrame { peer_id: s("peer-b"), jpeg: vec![1] }]
    );
    assert_eq!(
        step(&mut a, MediaInput::Peer(PeerEvent::ScreenFrame { peer_id: s("peer-b"), data: vec![2] })),
        vec![MediaAction::PushScreenFrame { peer_id: s("peer-b"), jpeg: vec![2] }]
    );
}

#[test]
fn step_draws_a_call_id_with_the_shape_of_a_uuid() {
    let mut a = MediaSession::new(s("peer-0001"));
    a.step(MediaInput::Command(MediaCommand::JoinVoice { room_id: s("R"), channel_id: s("general") }));
    let acts = a.step(MediaInput::OfferReady {
        peer_id: s("peer-0002"),
        connected: true,
        channel_open: true,
        sdp: Some(s("{o}")),
    });
    match &acts[0] {
        MediaAction::Network(NetworkCommand::SendCallOffer { call_id, to_peer_id, .. }) => {
            assert_eq!(call_id.len(), 36);
            assert_eq!(call_id.matches('-').count(), 4);
            assert_eq!(to_peer_id, "peer-0002");
        }
        other => panic!("unexpected action {:?}", other),
    }
}

#[test]
fn an_incoming_data_channel_opens_the_way_for_frames() {
    let mut b = MediaSession::new(s("peer-0002"));
    join(&mut b, "R", "general");
    step(&mut b, MediaInput::AnswerReady { peer_id: s("peer-0001"), connected: true, sdp: Some(s("{a}")) });
    let before = step(&mut b, MediaInput::CameraFrame { jpeg: vec![1] });
    assert_eq!(before.len(), 1);
    step(&mut b, MediaInput::DataChannelOpen { peer_id: s("peer-0001") });
    let after = step(&mut b, MediaInput::CameraFrame { jpeg: vec![1] });
    assert_eq!(
        after[1],
        MediaAction::DispatchFrame { peers: vec![s("peer-0001")], messages: vec![vec![b'V', 1]] }
    );
}
