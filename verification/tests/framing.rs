use totem_studio::framing::{encode, FrameDecoder};

#[test]
fn round_trip_simple() {
    let payload = b"hello";
    let framed = encode(payload);
    let mut dec = FrameDecoder::new();
    let frames = dec.feed(&framed);
    assert_eq!(frames.len(), 1);
    assert_eq!(frames[0], payload);
}

#[test]
fn round_trip_with_special_bytes() {
    let payload = vec![0x01, 0xAB, 0x02, 0xAC, 0x03, 0xAD, 0x04];
    let framed = encode(&payload);
    let mut dec = FrameDecoder::new();
    let frames = dec.feed(&framed);
    assert_eq!(frames.len(), 1);
    assert_eq!(frames[0], payload);
}

#[test]
fn multiple_frames_in_stream() {
    let a = encode(b"one");
    let b_framed = encode(b"two");
    let mut stream = Vec::new();
    stream.extend_from_slice(&a);
    stream.extend_from_slice(&b_framed);

    let mut dec = FrameDecoder::new();
    let frames = dec.feed(&stream);
    assert_eq!(frames.len(), 2);
    assert_eq!(frames[0], b"one");
    assert_eq!(frames[1], b"two");
}

#[test]
fn partial_feed() {
    let framed = encode(b"split");
    let mid = framed.len() / 2;
    let mut dec = FrameDecoder::new();
    let frames1 = dec.feed(&framed[..mid]);
    assert!(frames1.is_empty());
    let frames2 = dec.feed(&framed[mid..]);
    assert_eq!(frames2.len(), 1);
    assert_eq!(frames2[0], b"split");
}

#[test]
fn exact_escape_vector() {
    // Every payload byte equal to a marker is escaped; others pass through.
    let payload = [0x01u8, 0xAB, 0x02, 0xAC, 0x03, 0xAD, 0x04];
    let framed = encode(&payload);
    assert_eq!(
        framed,
        vec![0xAB, 0x01, 0xAC, 0xAB, 0x02, 0xAC, 0xAC, 0x03, 0xAC, 0xAD, 0x04, 0xAD]
    );
    let mut dec = FrameDecoder::new();
    let frames = dec.feed(&framed);
    assert_eq!(frames, vec![payload.to_vec()]);
}

#[test]
fn empty_frame_is_dropped() {
    // A bare start-then-end pair completes a frame with nothing in it, which
    // the decoder drops rather than emits.
    let mut dec = FrameDecoder::new();
    let frames = dec.feed(&[0xAB, 0xAD]);
    assert!(frames.is_empty());
    // The decoder is still usable afterwards.
    let frames = dec.feed(&encode(b"x"));
    assert_eq!(frames, vec![b"x".to_vec()]);
}

#[test]
fn start_marker_discards_partial_frame() {
    let mut dec = FrameDecoder::new();
    // A frame begins and accumulates bytes but never ends...
    let frames = dec.feed(&[0xAB, 0x10, 0x20, 0x30]);
    assert!(frames.is_empty());
    // ...then a fresh frame arrives: only its payload is emitted.
    let frames = dec.feed(&encode(&[0x77, 0x78]));
    assert_eq!(frames, vec![vec![0x77, 0x78]]);
}

#[test]
fn noise_outside_frames_is_ignored() {
    let mut dec = FrameDecoder::new();
    let mut stream = vec![0x55, 0x66, 0x77];
    stream.extend_from_slice(&encode(b"ok"));
    stream.push(0x99);
    let frames = dec.feed(&stream);
    assert_eq!(frames, vec![b"ok".to_vec()]);
}

#[test]
fn frame_split_at_every_boundary() {
    let payload = [0xABu8, 0x00, 0xAC, 0x7F, 0xAD];
    let framed = encode(&payload);
    for mid in 0..=framed.len() {
        let mut dec = FrameDecoder::new();
        let first = dec.feed(&framed[..mid]);
        if mid < framed.len() {
            assert!(first.is_empty());
        }
        let second = dec.feed(&framed[mid..]);
        let mut all = first;
        all.extend(second);
        assert_eq!(all, vec![payload.to_vec()]);
    }
}
