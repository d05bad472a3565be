use kaigi::wire::{
    encode_framed_payload, zero_length_frame, ErrorFrame, FrameChunk, FrameDecoder, FrameError,
    KaigiFrame, MAX_FRAME_LEN,
};

#[test]
fn framed_payload_round_trips_in_one_chunk() {
    let bytes = encode_framed_payload(b"hello").expect("encode");
    assert_eq!(bytes, vec![0, 0, 0, 5, b'h', b'e', b'l', b'l', b'o']);
    let mut dec = FrameDecoder::new();
    dec.push(&bytes);
    let out = dec.try_next_chunk().expect("decode").expect("some");
    assert_eq!(out, FrameChunk::Payload(b"hello".to_vec()));
    assert_eq!(dec.buffer_len(), 0);
}

#[test]
fn framed_payload_waits_for_partial_chunks() {
    let bytes = encode_framed_payload(&[42u8; 9]).expect("encode");
    let split = bytes.len() / 2;
    let mut dec = FrameDecoder::new();
    dec.push(&bytes[..split]);
    assert!(dec.try_next_chunk().expect("decode").is_none());
    assert_eq!(dec.buffer_len(), split);
    dec.push(&bytes[split..]);
    let out = dec.try_next_chunk().expect("decode").expect("some");
    assert_eq!(out, FrameChunk::Payload(vec![42u8; 9]));
    assert_eq!(dec.buffer_len(), 0);
}

#[test]
fn decode_rejects_oversized_declared_length() {
    let mut dec = FrameDecoder::new();
    dec.push(&(MAX_FRAME_LEN as u32 + 1).to_be_bytes());
    let err = dec.try_next_chunk().expect_err("expected error");
    assert_eq!(err, FrameError::DeclaredLengthTooLarge { declared: MAX_FRAME_LEN as u32 + 1 });
    assert!(err.message().contains("exceeds MAX_FRAME_LEN"), "unexpected error: {}", err.message());
}

#[test]
fn decode_zero_length_emits_error_frame() {
    let mut dec = FrameDecoder::new();
    dec.push(&0u32.to_be_bytes());
    let out = dec.try_next_chunk().expect("decode").expect("some");
    assert_eq!(
        out,
        FrameChunk::Frame(KaigiFrame::Error(ErrorFrame { message: "zero-length frame".to_string() }))
    );
    assert_eq!(zero_length_frame(), KaigiFrame::Error(ErrorFrame { message: "zero-length frame".to_string() }));
    assert_eq!(dec.buffer_len(), 0);
}

#[test]
fn encoder_refuses_oversized_payload() {
    let payload = vec![0u8; MAX_FRAME_LEN + 1];
    let err = encode_framed_payload(&payload).expect_err("too large");
    assert_eq!(err, FrameError::FrameTooLarge { len: MAX_FRAME_LEN + 1 });
    assert_eq!(err.message(), format!("frame too large: {} bytes (max {})", MAX_FRAME_LEN + 1, MAX_FRAME_LEN));
}

#[test]
fn decoder_yields_frames_in_order() {
    let mut bytes = encode_framed_payload(b"a").expect("encode");
    bytes.extend(encode_framed_payload(b"bc").expect("encode"));
    let mut dec = FrameDecoder::new();
    dec.push(&bytes);
    assert_eq!(dec.try_next_chunk().unwrap(), Some(FrameChunk::Payload(b"a".to_vec())));
    assert_eq!(dec.try_next_chunk().unwrap(), Some(FrameChunk::Payload(b"bc".to_vec())));
    assert_eq!(dec.try_next_chunk().unwrap(), None);
}
