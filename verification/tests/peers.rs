use chatr::media::frames::{encode_frame, TYPE_SCREEN, TYPE_VIDEO};
use chatr::media::peer::{
    PeerManager, AUDIO_CLOCK_RATE, AUDIO_FMTP, AUDIO_MIME_TYPE, DATA_CHANNEL_LABEL, STUN_SERVER_A,
    STUN_SERVER_B,
};
use chatr::media::signals::PeerEvent;

fn s(text: &str) -> String {
    text.to_string()
}

#[test]
fn a_peer_has_at_most_one_connection() {
    let mut peers = PeerManager::new();
    assert!(!peers.has_peer("a"));
    assert!(!peers.open_connection("a"));
    assert!(!peers.open_connection("b"));
    assert!(peers.open_connection("a"));
    assert_eq!(peers.connected_peers(), vec![s("b"), s("a")]);
    assert!(peers.has_peer("a") && peers.has_peer("b"));
}

#[test]
fn replacing_a_connection_closes_its_data_channel() {
    let mut peers = PeerManager::new();
    peers.open_connection("a");
    peers.open_channel("a");
    assert_eq!(peers.channel_peers(), vec![s("a")]);
    assert!(peers.open_connection("a"));
    assert_eq!(peers.channel_peers(), Vec::<String>::new());
    assert_eq!(peers.connected_peers(), vec![s("a")]);
}

#[test]
fn close_peer_says_whether_there_was_a_connection() {
    let mut peers = PeerManager::new();
    peers.open_connection("a");
    peers.open_channel("a");
    peers.open_channel("b");
    assert!(peers.close_peer("a"));
    assert!(!peers.close_peer("a"));
    assert!(!peers.close_peer("b"));
    assert_eq!(peers.connected_peers(), Vec::<String>::new());
    assert_eq!(peers.channel_peers(), Vec::<String>::new());
}

#[test]
fn close_all_returns_the_peers_in_the_order_they_connected() {
    let mut peers = PeerManager::new();
    for p in ["c", "a", "b"] {
        peers.open_connection(p);
        peers.open_channel(p);
    }
    assert_eq!(peers.close_all(), vec![s("c"), s("a"), s("b")]);
    assert_eq!(peers.connected_peers(), Vec::<String>::new());
    assert_eq!(peers.channel_peers(), Vec::<String>::new());
    assert_eq!(peers.close_all(), Vec::<String>::new());
}

#[test]
fn nothing_is_sent_without_an_open_data_channel() {
    let mut peers = PeerManager::new();
    peers.open_connection("a");
    assert_eq!(peers.send_video_frame(&[1, 2, 3]), Vec::<Vec<u8>>::new());
    assert_eq!(peers.send_screen_frame(&vec![0u8; 20000]), Vec::<Vec<u8>>::new());
    peers.open_channel("a");
    // the big frame above used up no frame id
    assert_eq!(peers.send_screen_frame(&vec![0u8; 20000]), encode_frame(TYPE_SCREEN, 0, &vec![0u8; 20000]));
}

#[test]
fn only_chunked_frames_use_up_frame_ids() {
    let mut peers = PeerManager::new();
    peers.open_channel("a");
    assert_eq!(peers.send_video_frame(&[7]), vec![vec![b'V', 7]]);
    assert_eq!(peers.send_screen_frame(&[7]), vec![vec![b'S', 7]]);
    let big = vec![1u8; 15000];
    assert_eq!(peers.send_video_frame(&big), encode_frame(TYPE_VIDEO, 0, &big));
    assert_eq!(peers.send_video_frame(&[7]), vec![vec![b'V', 7]]);
    assert_eq!(peers.send_screen_frame(&big), encode_frame(TYPE_SCREEN, 1, &big));
    assert_eq!(peers.send_video_frame(&big), encode_frame(TYPE_VIDEO, 2, &big));
}

#[test]
fn frames_of_connected_peers_are_received() {
    let mut peers = PeerManager::new();
    assert_eq!(peers.receive("a", b"Vabc"), None);
    peers.open_connection("a");
    assert_eq!(
        peers.receive("a", b"Vabc"),
        Some(PeerEvent::VideoFrame { peer_id: s("a"), data: b"abc".to_vec() })
    );
    assert_eq!(
        peers.receive("a", b"S"),
        Some(PeerEvent::ScreenFrame { peer_id: s("a"), data: vec![] })
    );
    assert_eq!(peers.receive("a", b""), None);
    assert_eq!(peers.receive("a", b"C123"), None);
    assert_eq!(peers.receive("a", b"Q123"), None);
    let frame: Vec<u8> = (0..30000u32).map(|i| i as u8).collect();
    let messages = encode_frame(TYPE_VIDEO, 1, &frame);
    assert_eq!(messages.len(), 3);
    assert_eq!(peers.receive("a", &messages[0]), None);
    assert_eq!(peers.receive("a", &messages[1]), None);
    assert_eq!(
        peers.receive("a", &messages[2]),
        Some(PeerEvent::VideoFrame { peer_id: s("a"), data: frame })
    );
}

#[test]
fn closing_a_peer_discards_its_frames_under_reassembly() {
    let mut peers = PeerManager::new();
    peers.open_connection("a");
    peers.open_connection("b");
    let frame = vec![3u8; 20000];
    let messages = encode_frame(TYPE_VIDEO, 1, &frame);
    assert_eq!(peers.receive("a", &messages[0]), None);
    assert_eq!(peers.receive("b", &messages[0]), None);
    peers.close_peer("a");
    peers.open_connection("a");
    assert_eq!(peers.receive("a", &messages[1]), None);
    assert_eq!(
        peers.receive("b", &messages[1]),
        Some(PeerEvent::VideoFrame { peer_id: s("b"), data: frame })
    );
}

#[test]
fn connections_are_set_up_with_the_agreed_parameters() {
    assert_eq!(DATA_CHANNEL_LABEL, "media-frames");
    assert_eq!(STUN_SERVER_A, "stun:stun.l.google.com:19302");
    assert_eq!(STUN_SERVER_B, "stun:stun1.l.google.com:19302");
    assert_eq!(AUDIO_MIME_TYPE, "audio/opus");
    assert_eq!(AUDIO_FMTP, "minptime=10;useinbandfec=1");
    assert_eq!(AUDIO_CLOCK_RATE, 48000);
}
