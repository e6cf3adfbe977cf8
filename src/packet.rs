//! The RCON packet: its wire layout, how it is encoded and how a frame is
//! decoded and checked.

use crate::error::RconError;
use vstd::prelude::*;
use vstd::utf8::*;

verus! {

/// Type of a packet that asks the server to run a console command.
pub const EXEC_COMMAND: i32 = 2;

/// Type of a packet that carries the password.
pub const AUTHENTICATE: i32 = 3;

/// The smallest declared size: id, type and the two terminating NULs.
pub const MIN_PACKET_SIZE: i32 = 10;

/// The largest declared size a frame may carry.
pub const MAX_PACKET_SIZE: i32 = 4096;

/// The most payload bytes that fit in a frame of the largest size.
pub const MAX_PAYLOAD: usize = 4086;

/// One unit of exchange: a correlation id, a type and a text payload, with
/// the size that its frame declares.
pub struct Packet {
    pub size: i32,
    pub id: i32,
    pub kind: i32,
    pub payload: String,
}

/// The declared size of a packet whose payload encodes to `n` bytes.
pub open spec fn packet_size(n: int) -> int {
    4 + 4 + n + 2
}

/// Whether a declared size is one that a frame may carry.
pub open spec fn size_in_range(n: int) -> bool {
    MIN_PACKET_SIZE <= n <= MAX_PACKET_SIZE
}

/// The bytes of a frame: size, id and type, the payload, and two NULs.
pub open spec fn frame(size: i32, id: i32, kind: i32, payload: Seq<u8>) -> Seq<u8> {
    le_bytes(size) + le_bytes(id) + le_bytes(kind) + payload + seq![0u8, 0u8]
}

/// The size that the first four bytes of a frame declare.
pub open spec fn declared_size_of(b: Seq<u8>) -> int {
    from_le_bytes(b.subrange(0, 4)) as int
}

/// Whether `b` starts with a whole frame whose declared size is in range.
pub open spec fn is_complete_frame(b: Seq<u8>) -> bool {
    &&& b.len() >= 4
    &&& size_in_range(declared_size_of(b))
    &&& b.len() >= 4 + declared_size_of(b)
}

/// The declared number of bytes that follow the size field.
pub open spec fn frame_body(b: Seq<u8>) -> Seq<u8> {
    b.subrange(4, 4 + declared_size_of(b))
}

/// The id at the start of a packet body.
pub open spec fn body_id(body: Seq<u8>) -> i32 {
    from_le_bytes(body.subrange(0, 4))
}

/// The type that follows the id in a packet body.
pub open spec fn body_kind(body: Seq<u8>) -> i32 {
    from_le_bytes(body.subrange(4, 8))
}

/// The payload bytes of a body: after id and type, before the last two bytes.
pub open spec fn body_payload(body: Seq<u8>) -> Seq<u8> {
    body.subrange(8, body.len() - 2)
}

/// The text that lossy UTF-8 decoding makes of some bytes.
pub uninterp spec fn lossy_utf8(b: Seq<u8>) -> Seq<char>;

/// Relies on `String::from_utf8_lossy`: its result depends on the bytes
/// alone, and valid UTF-8 comes back decoded as it is.
#[verifier::external_body]
fn utf8_lossy(b: &[u8]) -> (r: String)
    ensures
        r@ == lossy_utf8(b@),
        valid_utf8(b@) ==> r@ == decode_utf8(b@),
{
    String::from_utf8_lossy(b).into_owned()
}

/// Spec view of a little-endian 32-bit signed integer as four bytes.
pub open spec fn le_bytes(x: i32) -> Seq<u8> {
    let u: int = if x >= 0 { x as int } else { x as int + 0x1_0000_0000 };
    seq![(u % 256) as u8, ((u / 256) % 256) as u8, ((u / 65536) % 256) as u8, (u / 16777216) as u8]
}

/// The signed 32-bit integer that four little-endian bytes hold.
pub open spec fn from_le_bytes(b: Seq<u8>) -> i32
    recommends
        b.len() == 4,
{
    let u: int = b[0] + 256 * b[1] + 65536 * b[2] + 16777216 * b[3];
    (if u < 0x8000_0000 { u } else { u - 0x1_0000_0000 }) as i32
}

/// Reading back the four bytes of an integer gives the integer.
pub proof fn lemma_le_bytes_round_trip(x: i32)
    ensures
        le_bytes(x).len() == 4,
        from_le_bytes(le_bytes(x)) == x,
{
    let u: int = if x >= 0 { x as int } else { x as int + 0x1_0000_0000 };
    assert(0 <= u < 0x1_0000_0000);
    let a = u % 256;
    let q1 = u / 256;
    let b = q1 % 256;
    let q2 = q1 / 256;
    let c = q2 % 256;
    let d = q2 / 256;
    assert(u == a + 256 * q1) by (nonlinear_arith)
        requires a == u % 256, q1 == u / 256;
    assert(q1 == b + 256 * q2) by (nonlinear_arith)
        requires b == q1 % 256, q2 == q1 / 256;
    assert(q2 == c + 256 * d) by (nonlinear_arith)
        requires c == q2 % 256, d == q2 / 256;
    assert(u / 65536 == q2) by (nonlinear_arith)
        requires q1 == u / 256, q2 == q1 / 256, 0 <= u;
    assert(u / 16777216 == d) by (nonlinear_arith)
        requires q2 == u / 65536, d == q2 / 256, 0 <= u;
    assert(0 <= a < 256 && 0 <= b < 256 && 0 <= c < 256) by (nonlinear_arith)
        requires a == u % 256, b == q1 % 256, c == q2 % 256, 0 <= u;
    assert(0 <= d < 256) by (nonlinear_arith)
        requires d == u / 16777216, 0 <= u < 0x1_0000_0000;
    let s = le_bytes(x);
    assert(s[0] == a && s[1] == b && s[2] == c && s[3] == d);
    assert(s[0] + 256 * s[1] + 65536 * s[2] + 16777216 * s[3] == u) by (nonlinear_arith)
        requires u == a + 256 * q1, q1 == b + 256 * q2, q2 == c + 256 * d,
            s[0] == a, s[1] == b, s[2] == c, s[3] == d;
}

/// Appends the four little-endian bytes of `x`.
pub fn push_i32_le(buf: &mut Vec<u8>, x: i32)
    ensures
        final(buf)@ == old(buf)@ + le_bytes(x),
{
    let u: u32 = if x >= 0 { x as u32 } else { (x as i64 + 0x1_0000_0000i64) as u32 };
    assert(u as int == if x >= 0 { x as int } else { x as int + 0x1_0000_0000 });
    buf.push((u % 256) as u8);
    buf.push(((u / 256) % 256) as u8);
    buf.push(((u / 65536) % 256) as u8);
    buf.push((u / 16777216) as u8);
    assert(buf@ =~= old(buf)@ + le_bytes(x));
}


/// Reads the signed 32-bit integer held by four little-endian bytes.
pub fn read_i32_le(b: &[u8], at: usize) -> (r: i32)
    requires
        at + 4 <= b@.len(),
    ensures
        r == from_le_bytes(b@.subrange(at as int, at + 4)),
{
    let u: u32 = b[at] as u32 + 256 * (b[at + 1] as u32) + 65536 * (b[at + 2] as u32)
        + 16777216 * (b[at + 3] as u32);
    let ghost w = b@.subrange(at as int, at + 4);
    assert(w[0] == b@[at as int] && w[1] == b@[at + 1] && w[2] == b@[at + 2] && w[3] == b@[at + 3]);
    if u < 0x8000_0000 {
        u as i32
    } else {
        (u as i64 - 0x1_0000_0000i64) as i32
    }
}


/// Builds a packet for `payload`, with the size its frame declares.
pub fn build_packet(id: i32, kind: i32, payload: &str) -> (p: Packet)
    requires
        packet_size(encode_utf8(payload@).len() as int) <= i32::MAX,
    ensures
        p.size == packet_size(encode_utf8(payload@).len() as int),
        p.id == id,
        p.kind == kind,
        p.payload@ == payload@,
{
    let payload_len = payload.len();
    Packet { size: (4 + 4 + payload_len as i32 + 2), id, kind, payload: payload.to_owned() }
}


impl Packet {
    /// The frame of this packet as it goes on the wire: the declared size,
    /// id and type in little-endian order, the payload, then two NULs.
    pub fn to_bytes(&self) -> (r: Vec<u8>)
        ensures
            r@ == frame(self.size, self.id, self.kind, encode_utf8(self.payload@)),
    {
        let mut buf: Vec<u8> = Vec::new();
        push_i32_le(&mut buf, self.size);
        push_i32_le(&mut buf, self.id);
        push_i32_le(&mut buf, self.kind);
        let bytes = self.payload.as_str().as_bytes();
        let ghost head = buf@;
        let mut i: usize = 0;
        while i < bytes.len()
            invariant
                i <= bytes@.len(),
                buf@ == head + bytes@.subrange(0, i as int),
            decreases bytes@.len() - i,
        {
            buf.push(bytes[i]);
            i = i + 1;
            assert(buf@ =~= head + bytes@.subrange(0, i as int));
        }
        buf.push(0);
        buf.push(0);
        assert(bytes@.subrange(0, bytes@.len() as int) =~= bytes@);
        assert(buf@ =~= frame(self.size, self.id, self.kind, encode_utf8(self.payload@)));
        buf
    }
}

/// Reads the size field of a frame and checks that it lies in `[10, 4096]`.
pub fn frame_size(header: [u8; 4]) -> (r: Result<i32, RconError>)
    ensures
        match r {
            Ok(n) => n == from_le_bytes(header@) && size_in_range(n as int),
            Err(e) => e == RconError::Framing && !size_in_range(from_le_bytes(header@) as int),
        },
{
    let size = read_i32_le(header.as_slice(), 0);
    assert(header@.subrange(0, 4) =~= header@);
    if MIN_PACKET_SIZE <= size && size <= MAX_PACKET_SIZE {
        Ok(size)
    } else {
        Err(RconError::Framing)
    }
}

/// Decodes the body of a frame, the bytes that follow the size field; the
/// payload is decoded lossily, so that no reply text can be refused.
pub fn decode_body(size: i32, body: &[u8]) -> (r: Result<Packet, RconError>)
    ensures
        match r {
            Ok(p) => {
                &&& body@.len() >= 10
                &&& p.size == size
                &&& p.id == body_id(body@)
                &&& p.kind == body_kind(body@)
                &&& p.payload@ == lossy_utf8(body_payload(body@))
                &&& valid_utf8(body_payload(body@)) ==> p.payload@ == decode_utf8(body_payload(body@))
            },
            Err(e) => e == RconError::Framing && body@.len() < 10,
        },
{
    if body.len() < 8 {
        return Err(RconError::Framing);
    }
    let id = read_i32_le(body, 0);
    let kind = read_i32_le(body, 4);
    if body.len() < 10 {
        return Err(RconError::Framing);
    }
    let payload = utf8_lossy(&body[8..body.len() - 2]);
    Ok(Packet { size, id, kind, payload })
}

/// Decodes the frame at the start of `bytes`; what follows the frame is
/// left alone.
pub fn decode(bytes: &[u8]) -> (r: Result<Packet, RconError>)
    ensures
        match r {
            Ok(p) => {
                let body = frame_body(bytes@);
                &&& is_complete_frame(bytes@)
                &&& p.size as int == declared_size_of(bytes@)
                &&& p.id == body_id(body)
                &&& p.kind == body_kind(body)
                &&& p.payload@ == lossy_utf8(body_payload(body))
                &&& valid_utf8(body_payload(body)) ==> p.payload@ == decode_utf8(body_payload(body))
            },
            Err(e) => e == RconError::Framing && !is_complete_frame(bytes@),
        },
{
    if bytes.len() < 4 {
        return Err(RconError::Framing);
    }
    let header: [u8; 4] = [bytes[0], bytes[1], bytes[2], bytes[3]];
    assert(header@ =~= bytes@.subrange(0, 4));
    let size = match frame_size(header) {
        Ok(n) => n,
        Err(e) => return Err(e),
    };
    let end = 4 + size as usize;
    if bytes.len() < end {
        return Err(RconError::Framing);
    }
    decode_body(size, &bytes[4..end])
}

/// A frame whose declared size lies outside `[10, 4096]` is never
/// complete, so decoding it fails with a framing error.
pub proof fn lemma_size_out_of_range_rejected(b: Seq<u8>)
    requires
        b.len() >= 4,
        declared_size_of(b) < MIN_PACKET_SIZE || declared_size_of(b) > MAX_PACKET_SIZE,
    ensures
        !is_complete_frame(b),
{
}

/// Round trip: the frame of a packet that `build_packet` makes is complete,
/// and decoding it gives back the id, the type and the payload text.
pub proof fn lemma_round_trip(id: i32, kind: i32, payload: Seq<char>)
    requires
        encode_utf8(payload).len() <= MAX_PAYLOAD,
    ensures
        ({
            let b = frame(packet_size(encode_utf8(payload).len() as int) as i32, id, kind, encode_utf8(payload));
            let body = frame_body(b);
            &&& is_complete_frame(b)
            &&& declared_size_of(b) == packet_size(encode_utf8(payload).len() as int)
            &&& b.len() == 4 + declared_size_of(b)
            &&& body_id(body) == id
            &&& body_kind(body) == kind
            &&& valid_utf8(body_payload(body))
            &&& decode_utf8(body_payload(body)) == payload
        }),
{
    let bytes = encode_utf8(payload);
    let n = packet_size(bytes.len() as int);
    let size = n as i32;
    let b = frame(size, id, kind, bytes);
    lemma_le_bytes_round_trip(size);
    lemma_le_bytes_round_trip(id);
    lemma_le_bytes_round_trip(kind);
    assert(b.subrange(0, 4) =~= le_bytes(size));
    assert(declared_size_of(b) == n);
    let body = frame_body(b);
    assert(body =~= le_bytes(id) + le_bytes(kind) + bytes + seq![0u8, 0u8]);
    assert(body.subrange(0, 4) =~= le_bytes(id));
    assert(body.subrange(4, 8) =~= le_bytes(kind));
    assert(body_payload(body) =~= bytes);
    encode_utf8_valid_utf8(payload);
    encode_utf8_decode_utf8(payload);
}

} // verus!
