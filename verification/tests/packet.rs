use any_games_discord_rich_presence::packet::{
    clear_activity_command, decode_frame, decode_payload, encode_frame, handshake_payload,
    nonce_for, parse_header, set_activity_command, ActivityPayload, FrameError, Opcode,
};

fn empty_activity() -> ActivityPayload {
    ActivityPayload { details: None, state: None, timestamps: None, assets: None, buttons: None, instance: None }
}

#[test]
fn frames_carry_little_endian_header_and_payload() {
    assert_eq!(encode_frame(Opcode::Frame, "{}"), vec![1, 0, 0, 0, 2, 0, 0, 0, b'{', b'}']);
    assert_eq!(encode_frame(Opcode::Pong, "é"), vec![4, 0, 0, 0, 2, 0, 0, 0, 0xc3, 0xa9]);
    assert_eq!(encode_frame(Opcode::Handshake, ""), vec![0; 8]);
}

#[test]
fn frames_decode_back() {
    for (op, text) in [(Opcode::Handshake, "{\"v\":1}"), (Opcode::Close, "{}"), (Opcode::Ping, "héllo")] {
        let bytes = encode_frame(op, text);
        let (dop, dtext, used) = decode_frame(&bytes).unwrap();
        assert_eq!(dop, op);
        assert_eq!(dtext, text);
        assert_eq!(used, bytes.len());
    }
    let mut two = encode_frame(Opcode::Frame, "a");
    two.extend(encode_frame(Opcode::Close, "b"));
    assert_eq!(decode_frame(&two).unwrap().2, 9);
}

#[test]
fn frame_errors() {
    assert_eq!(decode_frame(&[1, 0, 0]), Err(FrameError::IncompleteHeader));
    assert_eq!(decode_frame(&[1, 0, 0, 0, 5, 0, 0, 0, b'a']), Err(FrameError::TruncatedPayload));
    assert_eq!(decode_frame(&[1, 0, 0, 0, 1, 0, 0, 0, 0xff]), Err(FrameError::InvalidUtf8));
    assert_eq!(decode_payload(vec![0xc3]), Err(FrameError::InvalidUtf8));
    assert_eq!(decode_payload(b"ok".to_vec()), Ok("ok".to_string()));
}

#[test]
fn headers_and_opcodes() {
    assert_eq!(parse_header(&[3, 0, 0, 0, 0, 1, 0, 0]), (Opcode::Ping, 256));
    assert_eq!(parse_header(&[9, 0, 0, 0, 1, 0, 0, 1]), (Opcode::Frame, 0x0100_0001));
    assert_eq!(Opcode::from(0), Opcode::Handshake);
    assert_eq!(Opcode::from(2), Opcode::Close);
    assert_eq!(Opcode::from(77), Opcode::Frame);
    assert_eq!(Opcode::Pong.code(), 4);
}

#[test]
fn commands_and_nonces() {
    assert_eq!(nonce_for(0), "0");
    assert_eq!(nonce_for(1_715_000_000_123), "1715000000123");
    let set = set_activity_command(42, empty_activity(), 17);
    assert_eq!(set.cmd, "SET_ACTIVITY");
    assert_eq!(set.args.pid, 42);
    assert!(set.args.activity.is_some());
    assert_eq!(set.nonce, "17");
    let clear = clear_activity_command(7, 1000);
    assert!(clear.args.activity.is_none());
    assert_eq!(clear.nonce, "1000");
    let hs = handshake_payload("123");
    assert_eq!(hs.v, 1);
    assert_eq!(hs.client_id, "123");
}
