//! The Discord IPC wire format: opcodes, frames and the payloads sent
//! in them.
//!
//! A frame is the opcode as a little-endian `u32`, the payload length in
//! bytes as a little-endian `u32`, then the payload: UTF-8 JSON text.

use vstd::prelude::*;
use vstd::utf8::{decode_utf8, encode_utf8, encode_utf8_decode_utf8, encode_utf8_valid_utf8, valid_utf8};

verus! {

/// The kind of an IPC frame.
#[derive(Debug, PartialEq, Eq, Structural)]
pub enum Opcode {
    Handshake,
    Frame,
    Close,
    Ping,
    Pong,
}

impl Clone for Opcode {
    fn clone(&self) -> (r: Self)
        ensures
            r == *self,
    {
        match self {
            Opcode::Handshake => Opcode::Handshake,
            Opcode::Frame => Opcode::Frame,
            Opcode::Close => Opcode::Close,
            Opcode::Ping => Opcode::Ping,
            Opcode::Pong => Opcode::Pong,
        }
    }
}

impl Copy for Opcode {}

/// The number that stands for an opcode on the wire.
pub open spec fn opcode_code(op: Opcode) -> u32 {
    match op {
        Opcode::Handshake => 0,
        Opcode::Frame => 1,
        Opcode::Close => 2,
        Opcode::Ping => 3,
        Opcode::Pong => 4,
    }
}

/// The opcode a number on the wire stands for; unknown numbers read as
/// `Frame`.
pub open spec fn opcode_of(val: u32) -> Opcode {
    if val == 0 {
        Opcode::Handshake
    } else if val == 2 {
        Opcode::Close
    } else if val == 3 {
        Opcode::Ping
    } else if val == 4 {
        Opcode::Pong
    } else {
        Opcode::Frame
    }
}

impl Opcode {
    /// The number that stands for this opcode on the wire.
    pub fn code(&self) -> (r: u32)
        ensures
            r == opcode_code(*self),
    {
        match self {
            Opcode::Handshake => 0,
            Opcode::Frame => 1,
            Opcode::Close => 2,
            Opcode::Ping => 3,
            Opcode::Pong => 4,
        }
    }
}

impl From<u32> for Opcode {
    fn from(val: u32) -> (r: Self) {
        match val {
            0 => Opcode::Handshake,
            1 => Opcode::Frame,
            2 => Opcode::Close,
            3 => Opcode::Ping,
            4 => Opcode::Pong,
            _ => Opcode::Frame,
        }
    }
}

impl vstd::std_specs::convert::FromSpecImpl<u32> for Opcode {
    open spec fn obeys_from_spec() -> bool {
        true
    }

    open spec fn from_spec(val: u32) -> Opcode {
        opcode_of(val)
    }
}

// ---------------------------------------------------------------------------
// Frames
// ---------------------------------------------------------------------------

/// The four little-endian bytes of `x`.
pub open spec fn le_bytes(x: u32) -> Seq<u8> {
    seq![(x & 0xff) as u8, ((x >> 8u32) & 0xff) as u8, ((x >> 16u32) & 0xff) as u8, ((x >> 24u32) & 0xff) as u8]
}

/// The `u32` whose little-endian bytes are `b0`..`b3`.
pub open spec fn le_value(b0: u8, b1: u8, b2: u8, b3: u8) -> u32 {
    (b0 as u32) | ((b1 as u32) << 8u32) | ((b2 as u32) << 16u32) | ((b3 as u32) << 24u32)
}

/// The bytes of a frame that carries `payload` (given as bytes); the length
/// field holds the payload's length truncated to 32 bits.
pub open spec fn frame_bytes(op: Opcode, payload: Seq<u8>) -> Seq<u8> {
    le_bytes(opcode_code(op)) + le_bytes(payload.len() as u32) + payload
}

/// Why a buffer does not hold a frame.
#[derive(Debug, PartialEq, Eq, Structural)]
pub enum FrameError {
    /// Fewer than the eight header bytes
    IncompleteHeader,
    /// Fewer payload bytes than the header announces
    TruncatedPayload,
    /// The payload is not valid UTF-8
    InvalidUtf8,
}

proof fn lemma_le_roundtrip(x: u32)
    ensures
        le_value(
            (x & 0xff) as u8,
            ((x >> 8u32) & 0xff) as u8,
            ((x >> 16u32) & 0xff) as u8,
            ((x >> 24u32) & 0xff) as u8,
        ) == x,
{
    assert(((x & 0xff) as u8 as u32) | ((((x >> 8u32) & 0xff) as u8 as u32) << 8u32) | ((((x
        >> 16u32) & 0xff) as u8 as u32) << 16u32) | ((((x >> 24u32) & 0xff) as u8 as u32) << 24u32)
        == x) by (bit_vector);
}

/// The four little-endian bytes of `x`, appended to `out`.
fn push_le_u32(out: &mut Vec<u8>, x: u32)
    ensures
        final(out)@ == old(out)@ + le_bytes(x),
{
    out.push((x & 0xff) as u8);
    out.push(((x >> 8u32) & 0xff) as u8);
    out.push(((x >> 16u32) & 0xff) as u8);
    out.push(((x >> 24u32) & 0xff) as u8);
    assert(final(out)@ =~= old(out)@ + le_bytes(x));
}

/// The `u32` whose little-endian bytes are `b0`..`b3`.
pub fn read_le_u32(b0: u8, b1: u8, b2: u8, b3: u8) -> (r: u32)
    ensures
        r == le_value(b0, b1, b2, b3),
{
    (b0 as u32) | ((b1 as u32) << 8u32) | ((b2 as u32) << 16u32) | ((b3 as u32) << 24u32)
}

/// The bytes of an IPC frame with the given opcode and text payload.
pub fn encode_frame(opcode: Opcode, payload: &str) -> (r: Vec<u8>)
    ensures
        r@ == frame_bytes(opcode, encode_utf8(payload@)),
{
    let bytes = payload.as_bytes();
    let len = payload.len();
    let mut out: Vec<u8> = Vec::new();
    push_le_u32(&mut out, opcode.code());
    push_le_u32(&mut out, len as u32);
    let ghost head = out@;
    let mut i: usize = 0;
    while i < bytes.len()
        invariant
            i <= bytes@.len(),
            out@ == head + bytes@.subrange(0, i as int),
        decreases bytes@.len() - i,
    {
        out.push(bytes[i]);
        i = i + 1;
        assert(out@ =~= head + bytes@.subrange(0, i as int));
    }
    assert(bytes@.subrange(0, bytes@.len() as int) =~= bytes@);
    out
}

/// The opcode and payload length announced by a frame header.
pub fn parse_header(header: &[u8]) -> (r: (Opcode, u32))
    requires
        header@.len() == 8,
    ensures
        r.0 == opcode_of(le_value(header@[0], header@[1], header@[2], header@[3])),
        r.1 == le_value(header@[4], header@[5], header@[6], header@[7]),
{
    let code = read_le_u32(header[0], header[1], header[2], header[3]);
    let len = read_le_u32(header[4], header[5], header[6], header[7]);
    (Opcode::from(code), len)
}

/// `String::from_utf8`: the text the bytes encode, if they are valid UTF-8.
#[verifier::external_body]
fn utf8_text(bytes: Vec<u8>) -> (r: Option<String>)
    ensures
        r is Some <==> valid_utf8(bytes@),
        r matches Some(s) ==> s@ == decode_utf8(bytes@),
{
    match String::from_utf8(bytes) {
        Ok(s) => Some(s),
        Err(_) => None,
    }
}

/// The text of a frame payload, if it is valid UTF-8.
pub fn decode_payload(bytes: Vec<u8>) -> (r: Result<String, FrameError>)
    ensures
        r is Ok <==> valid_utf8(bytes@),
        r matches Ok(s) ==> s@ == decode_utf8(bytes@),
        r matches Err(e) ==> e == FrameError::InvalidUtf8,
{
    match utf8_text(bytes) {
        Some(s) => Ok(s),
        None => Err(FrameError::InvalidUtf8),
    }
}

/// What the start of `bytes` decodes to: the frame's opcode, its payload
/// text and the number of bytes it takes, or why there is no frame.
pub open spec fn frame_decoding(bytes: Seq<u8>) -> Result<(Opcode, Seq<char>, int), FrameError> {
    if bytes.len() < 8 {
        Err(FrameError::IncompleteHeader)
    } else {
        let len = le_value(bytes[4], bytes[5], bytes[6], bytes[7]);
        if bytes.len() < 8 + len {
            Err(FrameError::TruncatedPayload)
        } else {
            let body = bytes.subrange(8, 8 + len as int);
            if !valid_utf8(body) {
                Err(FrameError::InvalidUtf8)
            } else {
                Ok((opcode_of(le_value(bytes[0], bytes[1], bytes[2], bytes[3])), decode_utf8(body), 8 + len))
            }
        }
    }
}

/// The frame at the start of `bytes`: its opcode, its payload text and the
/// number of bytes it takes.
pub fn decode_frame(bytes: &[u8]) -> (r: Result<(Opcode, String, usize), FrameError>)
    ensures
        match (r, frame_decoding(bytes@)) {
            (Ok((op, text, used)), Ok((op2, text2, used2))) => op == op2 && text@ == text2 && used
                == used2,
            (Err(e), Err(e2)) => e == e2,
            _ => false,
        },
{
    if bytes.len() < 8 {
        return Err(FrameError::IncompleteHeader);
    }
    let code = read_le_u32(bytes[0], bytes[1], bytes[2], bytes[3]);
    let len = read_le_u32(bytes[4], bytes[5], bytes[6], bytes[7]);
    if bytes.len() - 8 < len as usize {
        return Err(FrameError::TruncatedPayload);
    }
    let end = 8 + len as usize;
    let mut body: Vec<u8> = Vec::new();
    let mut i: usize = 8;
    while i < end
        invariant
            8 <= i <= end,
            end <= bytes@.len(),
            body@ == bytes@.subrange(8, i as int),
        decreases end - i,
    {
        body.push(bytes[i]);
        i = i + 1;
        assert(body@ =~= bytes@.subrange(8, i as int));
    }
    match decode_payload(body) {
        Ok(text) => Ok((Opcode::from(code), text, end)),
        Err(e) => Err(e),
    }
}

/// Decoding a frame gives back the opcode and the text it was built from,
/// and tells how many bytes it took; this holds for every payload whose
/// length in bytes fits the 32-bit length field.
pub proof fn frame_roundtrip(op: Opcode, payload: Seq<char>)
    requires
        encode_utf8(payload).len() <= u32::MAX,
    ensures
        frame_decoding(frame_bytes(op, encode_utf8(payload))) == Ok::<
            (Opcode, Seq<char>, int),
            FrameError,
        >((op, payload, 8 + encode_utf8(payload).len() as int)),
{
    let p = encode_utf8(payload);
    let bytes = frame_bytes(op, p);
    lemma_le_roundtrip(opcode_code(op));
    lemma_le_roundtrip(p.len() as u32);
    assert(bytes.subrange(8, 8 + p.len() as int) =~= p);
    encode_utf8_valid_utf8(payload);
    encode_utf8_decode_utf8(payload);
}

/// Every opcode reads back as itself from its wire number.
pub proof fn opcode_roundtrip(op: Opcode)
    ensures
        opcode_of(opcode_code(op)) == op,
{
}

} // verus!

verus! {

// ---------------------------------------------------------------------------
// Payloads
// ---------------------------------------------------------------------------

/// The first message of a connection.
pub struct HandshakePayload {
    /// Protocol version
    pub v: u32,
    /// Discord application Client ID
    pub client_id: String,
}

/// Start and end of the activity, in seconds since the Unix epoch.
pub struct ActivityTimestamps {
    pub start: Option<u64>,
    pub end: Option<u64>,
}

/// Images of the activity and their hover texts.
pub struct ActivityAssets {
    pub large_image: Option<String>,
    pub large_text: Option<String>,
    pub small_image: Option<String>,
    pub small_text: Option<String>,
}

/// A clickable button under the activity.
pub struct ActivityButton {
    pub label: String,
    pub url: String,
}

/// The Rich Presence activity.
pub struct ActivityPayload {
    pub details: Option<String>,
    pub state: Option<String>,
    pub timestamps: Option<ActivityTimestamps>,
    pub assets: Option<ActivityAssets>,
    pub buttons: Option<Vec<ActivityButton>>,
    pub instance: Option<bool>,
}

/// Arguments of the `SET_ACTIVITY` command; no activity clears the presence.
pub struct SetActivityArgs {
    pub pid: u32,
    pub activity: Option<ActivityPayload>,
}

/// A command frame's body.
pub struct SetActivityCommand {
    pub cmd: String,
    pub args: SetActivityArgs,
    pub nonce: String,
}

/// The command name that sets or clears the presence.
pub const SET_ACTIVITY: &'static str = "SET_ACTIVITY";

/// The decimal digit for `d`.
pub open spec fn digit_char(d: nat) -> char {
    if d == 0 { '0' } else if d == 1 { '1' } else if d == 2 { '2' } else if d == 3 { '3' }
    else if d == 4 { '4' } else if d == 5 { '5' } else if d == 6 { '6' } else if d == 7 { '7' }
    else if d == 8 { '8' } else { '9' }
}

/// The decimal representation of `n`, without leading zeros.
pub open spec fn decimal(n: nat) -> Seq<char>
    decreases n,
{
    if n < 10 {
        seq![digit_char(n)]
    } else {
        decimal(n / 10).push(digit_char(n % 10))
    }
}

fn digit(d: u128) -> (r: char)
    requires
        d < 10,
    ensures
        r == digit_char(d as nat),
{
    if d == 0 { '0' } else if d == 1 { '1' } else if d == 2 { '2' } else if d == 3 { '3' }
    else if d == 4 { '4' } else if d == 5 { '5' } else if d == 6 { '6' } else if d == 7 { '7' }
    else if d == 8 { '8' } else { '9' }
}

fn decimal_chars(n: u128) -> (r: Vec<char>)
    ensures
        r@ == decimal(n as nat),
    decreases n,
{
    if n < 10 {
        let mut v: Vec<char> = Vec::new();
        v.push(digit(n));
        assert(v@ =~= seq![digit_char(n as nat)]);
        v
    } else {
        let mut v = decimal_chars(n / 10);
        v.push(digit(n % 10));
        v
    }
}

/// The decimal representation of `n`.
pub fn decimal_string(n: u128) -> (r: String)
    ensures
        r@ == decimal(n as nat),
{
    crate::text::string_from_chars(&decimal_chars(n))
}

/// The nonce of a command sent at `millis` milliseconds since the Unix
/// epoch: their decimal representation.
pub fn nonce_for(millis: u128) -> (r: String)
    ensures
        r@ == decimal(millis as nat),
{
    decimal_string(millis)
}

/// The handshake that opens a connection for `client_id` (protocol version 1).
pub fn handshake_payload(client_id: &str) -> (r: HandshakePayload)
    ensures
        r.v == 1,
        r.client_id@ == client_id@,
{
    HandshakePayload { v: 1, client_id: client_id.to_owned() }
}

/// The command that publishes `activity` for process `pid`, sent at
/// `millis` milliseconds since the Unix epoch.
pub fn set_activity_command(pid: u32, activity: ActivityPayload, millis: u128) -> (r:
    SetActivityCommand)
    ensures
        r.cmd@ == SET_ACTIVITY@,
        r.args.pid == pid,
        r.args.activity == Some(activity),
        r.nonce@ == decimal(millis as nat),
{
    SetActivityCommand {
        cmd: SET_ACTIVITY.to_owned(),
        args: SetActivityArgs { pid, activity: Some(activity) },
        nonce: nonce_for(millis),
    }
}

/// The command that clears the presence of process `pid`, sent at `millis`
/// milliseconds since the Unix epoch.
pub fn clear_activity_command(pid: u32, millis: u128) -> (r: SetActivityCommand)
    ensures
        r.cmd@ == SET_ACTIVITY@,
        r.args.pid == pid,
        r.args.activity is None,
        r.nonce@ == decimal(millis as nat),
{
    SetActivityCommand {
        cmd: SET_ACTIVITY.to_owned(),
        args: SetActivityArgs { pid, activity: None },
        nonce: nonce_for(millis),
    }
}

/// The payload of the frame that closes a connection: an empty JSON object.
pub const CLOSE_PAYLOAD: &'static str = "{}";

} // verus!
