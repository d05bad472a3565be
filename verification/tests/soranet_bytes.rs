use kaigi::soranet::{
    config_url, decode_hex_32, decode_hex_vec, derive_kaigi_room_id, handshake_frame,
    handshake_frame_len, handshake_params_from_hex, route_open_frame, HexError, SoranetError,
};

#[test]
fn room_id_is_the_blake3_of_tag_and_ids() {
    let channel = [1u8; 32];
    let route = [2u8; 32];
    let stream = [3u8; 32];
    let mut hasher = blake3::Hasher::new();
    hasher.update(b"soranet.kaigi.room_id.v1");
    hasher.update(&channel);
    hasher.update(&route);
    hasher.update(&stream);
    let expected = *hasher.finalize().as_bytes();
    assert_eq!(derive_kaigi_room_id(&channel, &route, &stream), expected);
    assert_ne!(derive_kaigi_room_id(&channel, &stream, &route), expected);
}

#[test]
fn hex_32_decodes_trimmed_text_of_exactly_32_bytes() {
    let text = format!("  {}\n", "0a".repeat(32));
    assert_eq!(decode_hex_32(&text), Ok([0x0au8; 32]));
    assert_eq!(decode_hex_32(&"0a".repeat(31)), Err(HexError::WrongLength { got: 31 }));
    assert_eq!(decode_hex_32("zz"), Err(HexError::DecodeHex));
    assert_eq!(HexError::WrongLength { got: 31 }.message(), "expected 32 bytes, got 31");
}

#[test]
fn hex_vec_decodes_any_length() {
    assert_eq!(decode_hex_vec(" 00ff10 "), Ok(vec![0x00, 0xff, 0x10]));
    assert_eq!(decode_hex_vec(""), Ok(vec![]));
    assert_eq!(decode_hex_vec("abc"), Err(HexError::DecodeHex));
}

#[test]
fn route_open_frame_tags_flags_and_rejects_zero_channel() {
    let mut channel = [0u8; 32];
    assert_eq!(route_open_frame(&channel, true), Err(SoranetError::ZeroChannelId));
    channel[31] = 9;
    let frame = route_open_frame(&channel, true).expect("frame");
    assert_eq!(frame.len(), 34);
    assert_eq!(frame[0], 0x02);
    assert_eq!(frame[1], 0x01);
    assert_eq!(&frame[2..], &channel[..]);
    let unauth = route_open_frame(&channel, false).expect("frame");
    assert_eq!(unauth[1], 0);
    assert_eq!(
        SoranetError::ZeroChannelId.message(),
        "channel_id must not be all zeros"
    );
}

#[test]
fn handshake_frames_carry_a_big_endian_length() {
    let payload = vec![7u8; 300];
    let framed = handshake_frame(&payload).expect("fits");
    assert_eq!(framed[0], 1);
    assert_eq!(framed[1], 44);
    assert_eq!(&framed[2..], &payload[..]);
    assert_eq!(handshake_frame_len([framed[0], framed[1]]), 300);
    let too_big = vec![0u8; 65_536];
    assert_eq!(
        handshake_frame(&too_big),
        Err(SoranetError::PayloadTooLarge { len: 65_536 })
    );
}

#[test]
fn handshake_params_name_the_field_that_fails() {
    let commit = "11".repeat(32);
    let params = handshake_params_from_hex(&commit, "0102", "03", 1, 2, Some("ff")).expect("params");
    assert_eq!(params.descriptor_commit, [0x11u8; 32]);
    assert_eq!(params.client_capabilities, vec![1, 2]);
    assert_eq!(params.relay_capabilities, vec![3]);
    assert_eq!(params.kem_id, 1);
    assert_eq!(params.sig_id, 2);
    assert_eq!(params.resume_hash, Some(vec![0xff]));

    let err = handshake_params_from_hex("11", "01", "03", 1, 1, None).expect_err("short commit");
    assert_eq!(err.message(), "descriptor_commit_hex: expected 32 bytes, got 1");
    let err = handshake_params_from_hex(&commit, "01", "xx", 1, 1, None).expect_err("bad relay");
    assert_eq!(err.message(), "relay_capabilities_hex: decode hex");
    let err = handshake_params_from_hex(&commit, "01", "03", 1, 1, Some("q")).expect_err("resume");
    assert_eq!(err.message(), "resume_hash_hex: decode hex");
}

#[test]
fn config_url_drops_trailing_slashes() {
    assert_eq!(config_url("http://torii:8080//"), "http://torii:8080/v1/config");
    assert_eq!(config_url("http://torii"), "http://torii/v1/config");
}
