use chatr::media::frames::{
    encode_frame, parse_message, ChunkAssembler, DataMessage, CHUNK_HEADER_SIZE, MAX_CHUNK_DATA,
    MAX_DC_MSG_SIZE, TYPE_CHUNK, TYPE_SCREEN, TYPE_VIDEO,
};

fn sample(len: usize) -> Vec<u8> {
    (0..len).map(|i| (i % 251) as u8).collect()
}

#[test]
fn frame_of_14999_bytes_is_one_video_message() {
    let frame = sample(14999);
    let messages = encode_frame(TYPE_VIDEO, 7, &frame);
    assert_eq!(messages.len(), 1);
    assert_eq!(messages[0].len(), 15000);
    assert_eq!(messages[0][0], b'V');
    assert_eq!(&messages[0][1..], &frame[..]);
}

#[test]
fn frame_of_15000_bytes_is_chunked_in_two() {
    let frame = sample(15000);
    let messages = encode_frame(TYPE_VIDEO, 7, &frame);
    assert_eq!(messages.len(), 2);
    assert_eq!(messages[0].len(), MAX_DC_MSG_SIZE);
    assert_eq!(messages[1].len(), CHUNK_HEADER_SIZE + 10);
    for (i, m) in messages.iter().enumerate() {
        assert_eq!(m[0], b'C');
        assert_eq!(m[1], b'V');
        assert_eq!(&m[2..6], &7u32.to_le_bytes());
        assert_eq!(&m[6..8], &2u16.to_le_bytes());
        assert_eq!(&m[8..10], &(i as u16).to_le_bytes());
    }
    assert_eq!(&messages[0][10..], &frame[..MAX_CHUNK_DATA]);
    assert_eq!(&messages[1][10..], &frame[MAX_CHUNK_DATA..]);
}

#[test]
fn empty_frame_is_one_message_of_one_byte() {
    let messages = encode_frame(TYPE_SCREEN, 0, &[]);
    assert_eq!(messages, vec![vec![b'S']]);
}

#[test]
fn large_screen_frame_goes_out_in_three_chunks_and_comes_back_whole() {
    let frame = sample(40000);
    let messages = encode_frame(TYPE_SCREEN, 0x01020304, &frame);
    assert_eq!(messages.len(), 3);
    for (i, m) in messages.iter().enumerate() {
        assert!(m.len() <= MAX_DC_MSG_SIZE);
        assert_eq!(m[0], TYPE_CHUNK);
        assert_eq!(m[1], TYPE_SCREEN);
        assert_eq!(&m[2..6], &[4, 3, 2, 1]);
        assert_eq!(&m[6..8], &[3, 0]);
        assert_eq!(&m[8..10], &[i as u8, 0]);
    }
    let mut assembler = ChunkAssembler::new();
    assert_eq!(assembler.receive("peer-0001", &messages[0]), None);
    assert_eq!(assembler.pending_frames(), 1);
    assert_eq!(assembler.receive("peer-0001", &messages[1]), None);
    let whole = assembler.receive("peer-0001", &messages[2]);
    assert_eq!(whole, Some((TYPE_SCREEN, frame)));
    assert_eq!(assembler.pending_frames(), 0);
}

#[test]
fn chunks_may_arrive_in_any_order() {
    let frame = sample(3 * MAX_CHUNK_DATA);
    let messages = encode_frame(TYPE_VIDEO, 9, &frame);
    assert_eq!(messages.len(), 3);
    let mut assembler = ChunkAssembler::new();
    assert_eq!(assembler.receive("p", &messages[2]), None);
    assert_eq!(assembler.receive("p", &messages[0]), None);
    assert_eq!(assembler.receive("p", &messages[1]), Some((TYPE_VIDEO, frame)));
}

#[test]
fn a_repeated_chunk_does_not_complete_a_frame() {
    let frame = sample(20000);
    let messages = encode_frame(TYPE_VIDEO, 1, &frame);
    assert_eq!(messages.len(), 2);
    let mut assembler = ChunkAssembler::new();
    assert_eq!(assembler.receive("p", &messages[0]), None);
    assert_eq!(assembler.receive("p", &messages[0]), None);
    assert_eq!(assembler.pending_frames(), 1);
    assert_eq!(assembler.receive("p", &messages[1]), Some((TYPE_VIDEO, frame)));
}

#[test]
fn a_frame_with_a_lost_chunk_is_evicted_when_more_than_four_ids_behind() {
    let first = sample(40000);
    let lost = encode_frame(TYPE_VIDEO, 100, &first);
    let mut assembler = ChunkAssembler::new();
    assert_eq!(assembler.receive("p", &lost[0]), None);
    assert_eq!(assembler.receive("p", &lost[2]), None);
    assert_eq!(assembler.pending_frames(), 1);

    let next = sample(30000);
    for m in encode_frame(TYPE_VIDEO, 101, &next).iter().take(1) {
        assert_eq!(assembler.receive("p", m), None);
    }
    let rest = encode_frame(TYPE_VIDEO, 101, &next);
    assert_eq!(assembler.receive("p", &rest[1]), None);
    assert_eq!(assembler.receive("p", &rest[2]), Some((TYPE_VIDEO, next)));
    assert_eq!(assembler.pending_frames(), 1);

    let small = sample(20000);
    let m103 = encode_frame(TYPE_VIDEO, 103, &small);
    assert_eq!(assembler.receive("p", &m103[0]), None);
    assert_eq!(assembler.pending_frames(), 2);
    let m104 = encode_frame(TYPE_VIDEO, 104, &small);
    assert_eq!(assembler.receive("p", &m104[0]), None);
    // frame 100 is four ids behind 104 and is kept
    assert_eq!(assembler.pending_frames(), 3);
    let m105 = encode_frame(TYPE_VIDEO, 105, &small);
    assert_eq!(assembler.receive("p", &m105[0]), None);
    // frame 100 is five ids behind 105 and is gone; 103, 104 and 105 are pending
    assert_eq!(assembler.pending_frames(), 3);
    assert_eq!(assembler.receive("p", &lost[1]), None);
}

#[test]
fn cleanup_keeps_what_is_at_most_four_ids_behind() {
    let mut assembler = ChunkAssembler::new();
    for id in [10u32, 11, 12, 13, 14, 15, 16] {
        assert_eq!(assembler.add_chunk("p", b'V', id, 2, 0, vec![1]), None);
    }
    assert_eq!(assembler.pending_frames(), 7);
    assembler.cleanup("p", b'V', 15);
    // 11 to 15 are at most four behind; 10 is five behind; 16 is ahead, which
    // counts as far behind round the end of the id range
    assert_eq!(assembler.pending_frames(), 5);
    assert_eq!(assembler.add_chunk("p", b'V', 11, 2, 1, vec![2]), Some(("p".to_string(), b'V', vec![1, 2])));
    assert_eq!(assembler.add_chunk("p", b'V', 10, 2, 1, vec![2]), None);
    assert_eq!(assembler.add_chunk("p", b'V', 16, 2, 1, vec![2]), None);
}

#[test]
fn eviction_counts_round_the_end_of_the_id_range() {
    let frame = sample(20000);
    let mut assembler = ChunkAssembler::new();
    let old = encode_frame(TYPE_SCREEN, u32::MAX - 1, &frame);
    assert_eq!(assembler.receive("p", &old[0]), None);
    let near = encode_frame(TYPE_SCREEN, 1, &frame);
    assert_eq!(assembler.receive("p", &near[0]), None);
    assert_eq!(assembler.pending_frames(), 2);
    let far = encode_frame(TYPE_SCREEN, 2, &frame);
    assert_eq!(assembler.receive("p", &far[0]), None);
    assert_eq!(assembler.pending_frames(), 3);
    let further = encode_frame(TYPE_SCREEN, 3, &frame);
    assert_eq!(assembler.receive("p", &further[0]), None);
    assert_eq!(assembler.pending_frames(), 3);
    assert_eq!(assembler.receive("p", &old[1]), None);
}

#[test]
fn eviction_leaves_other_peers_and_types_alone() {
    let frame = sample(20000);
    let mut assembler = ChunkAssembler::new();
    assert_eq!(assembler.receive("a", &encode_frame(TYPE_VIDEO, 1, &frame)[0]), None);
    assert_eq!(assembler.receive("b", &encode_frame(TYPE_SCREEN, 1, &frame)[0]), None);
    assert_eq!(assembler.receive("b", &encode_frame(TYPE_VIDEO, 50, &frame)[0]), None);
    assert_eq!(assembler.pending_frames(), 3);
    assembler.cleanup("a", TYPE_VIDEO, 5);
    assert_eq!(assembler.pending_frames(), 3);
    assembler.cleanup("a", TYPE_VIDEO, 6);
    assert_eq!(assembler.pending_frames(), 2);
    assembler.forget_peer("b");
    assert_eq!(assembler.pending_frames(), 0);
}

#[test]
fn messages_parse_by_their_leading_byte() {
    assert!(matches!(parse_message(&[]), DataMessage::Empty));
    assert!(matches!(parse_message(b"Vabc"), DataMessage::Video(f) if f == b"abc"));
    assert!(matches!(parse_message(b"S"), DataMessage::Screen(f) if f.is_empty()));
    assert!(matches!(parse_message(b"C12345678"), DataMessage::Truncated));
    assert!(matches!(parse_message(b"X1"), DataMessage::Unknown(b'X')));
    match parse_message(&[b'C', b'V', 1, 0, 0, 0, 2, 0, 1, 0, 9, 9]) {
        DataMessage::Chunk { frame_type, frame_id, total_chunks, chunk_index, data } => {
            assert_eq!(frame_type, b'V');
            assert_eq!(frame_id, 1);
            assert_eq!(total_chunks, 2);
            assert_eq!(chunk_index, 1);
            assert_eq!(data, vec![9, 9]);
        }
        other => panic!("not a chunk: {:?}", other),
    }
}

#[test]
fn a_completed_frame_of_unknown_type_is_dropped() {
    let frame = sample(20000);
    let mut assembler = ChunkAssembler::new();
    let messages = encode_frame(b'Q', 3, &frame);
    assert_eq!(assembler.receive("p", &messages[0]), None);
    assert_eq!(assembler.receive("p", &messages[1]), None);
    assert_eq!(assembler.pending_frames(), 0);
}

#[test]
fn add_chunk_returns_the_frame_with_its_peer_and_type() {
    let mut assembler = ChunkAssembler::new();
    assert_eq!(assembler.add_chunk("p", b'V', 1, 2, 1, vec![3, 4]), None);
    assert_eq!(
        assembler.add_chunk("p", b'V', 1, 2, 0, vec![1, 2]),
        Some(("p".to_string(), b'V', vec![1, 2, 3, 4]))
    );
}

#[test]
fn a_frame_with_a_missing_piece_is_not_handed_on() {
    let mut assembler = ChunkAssembler::new();
    assert_eq!(assembler.add_chunk("p", b'V', 1, 2, 7, vec![9]), None);
    assert_eq!(assembler.add_chunk("p", b'V', 1, 2, 0, vec![1]), None);
    assert_eq!(assembler.pending_frames(), 1);
    assert_eq!(
        assembler.add_chunk("p", b'V', 1, 2, 1, vec![2]),
        Some(("p".to_string(), b'V', vec![1, 2]))
    );
    assert_eq!(assembler.pending_frames(), 0);
}

#[test]
fn a_chunk_that_announces_no_chunks_completes_nothing() {
    let mut assembler = ChunkAssembler::new();
    assert_eq!(assembler.add_chunk("p", b'V', 1, 0, 0, vec![1]), None);
    assert_eq!(assembler.pending_frames(), 1);
}
