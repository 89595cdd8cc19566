//! The framing that carries an encoded packet on a stream: a four-byte length
//! header, then the encoded packet itself.
//!
//! The chat protocol writes the header most significant byte first; the older
//! `tty_msg` protocol writes it in the byte order of the machine.
use vstd::prelude::*;
use vstd::endian::{endianness, Endian};

verus! {

/// The number of bytes in a frame header.
pub const HEADER_LEN: usize = 4;

/// The four bytes of `x`, most significant first.
pub open spec fn be_bytes(x: u32) -> Seq<u8> {
    seq![
        (x / 0x100_0000) as u8,
        ((x / 0x1_0000) % 0x100) as u8,
        ((x / 0x100) % 0x100) as u8,
        (x % 0x100) as u8,
    ]
}

/// The four bytes of `x`, least significant first.
pub open spec fn le_bytes(x: u32) -> Seq<u8> {
    seq![
        (x % 0x100) as u8,
        ((x / 0x100) % 0x100) as u8,
        ((x / 0x1_0000) % 0x100) as u8,
        (x / 0x100_0000) as u8,
    ]
}

/// The number that four bytes denote, read most significant first.
pub open spec fn be_value(b: Seq<u8>) -> int {
    b[0] * 0x100_0000 + b[1] * 0x1_0000 + b[2] * 0x100 + b[3]
}

/// The number that four bytes denote, read least significant first.
pub open spec fn le_value(b: Seq<u8>) -> int {
    b[3] * 0x100_0000 + b[2] * 0x1_0000 + b[1] * 0x100 + b[0]
}

/// The four bytes of `x` in the byte order of the machine.
pub open spec fn native_bytes(x: u32) -> Seq<u8> {
    match endianness() {
        Endian::Big => be_bytes(x),
        Endian::Little => le_bytes(x),
    }
}

/// The number that four bytes denote in the byte order of the machine.
pub open spec fn native_value(b: Seq<u8>) -> int {
    match endianness() {
        Endian::Big => be_value(b),
        Endian::Little => le_value(b),
    }
}

/// The length that a header holds for a payload of `len` bytes: the length
/// modulo 2^32, as a cast to `u32` leaves it.
pub open spec fn header_len_field(len: nat) -> u32 {
    (len % 0x1_0000_0000) as u32
}

/// The frame of a payload: the big-endian header of its length, then the payload.
pub open spec fn frame(payload: Seq<u8>) -> Seq<u8> {
    be_bytes(header_len_field(payload.len())) + payload
}

/// The frame of a payload in the byte order of the machine.
pub open spec fn native_frame(payload: Seq<u8>) -> Seq<u8> {
    native_bytes(header_len_field(payload.len())) + payload
}

/// The first frame in `buf`: its payload and the number of bytes it takes;
/// `None` while `buf` does not yet hold a whole frame.
pub open spec fn first_frame(buf: Seq<u8>) -> Option<(Seq<u8>, int)> {
    if buf.len() < HEADER_LEN {
        None
    } else {
        let n = be_value(buf.take(HEADER_LEN as int));
        if buf.len() < HEADER_LEN + n {
            None
        } else {
            Some((buf.subrange(HEADER_LEN as int, HEADER_LEN + n), HEADER_LEN + n))
        }
    }
}

/// The big-endian bytes of `x`.
pub fn u32_to_be_bytes(x: u32) -> (res: [u8; 4])
    ensures
        res@ == be_bytes(x),
{
    let b0: u8 = (x / 0x100_0000) as u8;
    let b1: u8 = ((x / 0x1_0000) % 0x100) as u8;
    let b2: u8 = ((x / 0x100) % 0x100) as u8;
    let b3: u8 = (x % 0x100) as u8;
    let res: [u8; 4] = [b0, b1, b2, b3];
    assert(res@ =~= be_bytes(x));
    res
}

/// The number that four big-endian bytes denote.
pub fn u32_from_be_bytes(b: [u8; 4]) -> (res: u32)
    ensures
        res == be_value(b@),
{
    let b0: u32 = b[0] as u32;
    let b1: u32 = b[1] as u32;
    let b2: u32 = b[2] as u32;
    let b3: u32 = b[3] as u32;
    b0 * 0x100_0000 + b1 * 0x1_0000 + b2 * 0x100 + b3
}

/// Calls `u32::to_ne_bytes`. Its contract claims what std documents: the four
/// bytes of `x` in the machine's byte order, taken as vstd's `endianness()`, which
/// is one fixed order on the machine that runs the code.
#[verifier::external_body]
fn u32_to_ne_bytes(x: u32) -> (res: [u8; 4])
    ensures
        res@ == native_bytes(x),
{
    x.to_ne_bytes()
}

/// Calls `u32::from_ne_bytes`. Its contract claims what std documents: the number
/// that the four bytes denote in the machine's byte order, the same order as that
/// of `u32_to_ne_bytes`.
#[verifier::external_body]
fn u32_from_ne_bytes(b: [u8; 4]) -> (res: u32)
    ensures
        res == native_value(b@),
{
    u32::from_ne_bytes(b)
}

/// The length field of a header for a payload of `len` bytes.
fn len_field(len: usize) -> (res: u32)
    ensures
        res == header_len_field(len as nat),
{
    let wide: u64 = len as u64;
    let res: u32 = (wide % 0x1_0000_0000) as u32;
    res
}

/// Puts a header in front of the payload.
fn prepend_header(header: [u8; 4], contents: &[u8]) -> (res: Vec<u8>)
    ensures
        res@ == header@ + contents@,
{
    let mut out: Vec<u8> = Vec::new();
    out.push(header[0]);
    out.push(header[1]);
    out.push(header[2]);
    out.push(header[3]);
    assert(out@ =~= header@);
    let mut i: usize = 0;
    while i < contents.len()
        invariant
            0 <= i <= contents.len(),
            out@ =~= header@ + contents@.take(i as int),
        decreases contents.len() - i,
    {
        out.push(contents[i]);
        i = i + 1;
        assert(contents@.take(i as int) =~= contents@.take(i - 1) + seq![contents@[i - 1]]);
    }
    assert(contents@.take(contents.len() as int) =~= contents@);
    out
}

/// The frame of an encoded packet: the big-endian header of its length, then
/// the encoded packet. A length of 2^32 bytes or more is written modulo 2^32.
pub fn frame_bytes(contents: &[u8]) -> (res: Vec<u8>)
    ensures
        res@ == frame(contents@),
{
    let header = u32_to_be_bytes(len_field(contents.len()));
    prepend_header(header, contents)
}

/// The frame of an encoded packet with its header in the byte order of the
/// machine. A length of 2^32 bytes or more is written modulo 2^32.
pub fn native_frame_bytes(contents: &[u8]) -> (res: Vec<u8>)
    ensures
        res@ == native_frame(contents@),
{
    let header = u32_to_ne_bytes(len_field(contents.len()));
    prepend_header(header, contents)
}

/// The payload length that a big-endian frame header announces.
pub fn payload_len(header: [u8; 4]) -> (res: u32)
    ensures
        res == be_value(header@),
{
    u32_from_be_bytes(header)
}

/// The payload length that a native-endian frame header announces.
pub fn native_payload_len(header: [u8; 4]) -> (res: u32)
    ensures
        res == native_value(header@),
{
    u32_from_ne_bytes(header)
}

/// The first frame in `buf`: its payload and the number of bytes it takes;
/// `None` while `buf` does not yet hold a whole frame.
pub fn split_frame(buf: &[u8]) -> (res: Option<(Vec<u8>, usize)>)
    ensures
        match res {
            Some((payload, used)) => first_frame(buf@) == Some((payload@, used as int)),
            None => first_frame(buf@) is None,
        },
{
    if buf.len() < HEADER_LEN {
        return None;
    }
    let header: [u8; 4] = [buf[0], buf[1], buf[2], buf[3]];
    assert(header@ =~= buf@.take(HEADER_LEN as int));
    let n: u32 = payload_len(header);
    if buf.len() - HEADER_LEN < n as usize {
        return None;
    }
    let end: usize = HEADER_LEN + n as usize;
    let mut payload: Vec<u8> = Vec::new();
    let mut i: usize = HEADER_LEN;
    while i < end
        invariant
            HEADER_LEN <= i <= end,
            end <= buf.len(),
            payload@ =~= buf@.subrange(HEADER_LEN as int, i as int),
        decreases end - i,
    {
        payload.push(buf[i]);
        i = i + 1;
    }
    Some((payload, end))
}

/// Reading back the four bytes of a number gives the number, in either byte order.
pub proof fn lemma_bytes_roundtrip(x: u32)
    ensures
        be_value(be_bytes(x)) == x,
        le_value(le_bytes(x)) == x,
        native_value(native_bytes(x)) == x,
{
    let b0 = x / 0x100_0000;
    let b1 = (x / 0x1_0000) % 0x100;
    let b2 = (x / 0x100) % 0x100;
    let b3 = x % 0x100;
    assert(x == b0 * 0x100_0000 + b1 * 0x1_0000 + b2 * 0x100 + b3) by (bit_vector)
        requires
            b0 == x / 0x100_0000,
            b1 == (x / 0x1_0000) % 0x100,
            b2 == (x / 0x100) % 0x100,
            b3 == x % 0x100,
    ;
}

/// Writing the number that four bytes denote gives the same four bytes back.
pub proof fn lemma_value_roundtrip(b: Seq<u8>)
    requires
        b.len() == 4,
    ensures
        be_value(b) <= u32::MAX,
        le_value(b) <= u32::MAX,
        be_bytes(be_value(b) as u32) == b,
        le_bytes(le_value(b) as u32) == b,
{
    let b0 = b[0];
    let b1 = b[1];
    let b2 = b[2];
    let b3 = b[3];
    let x: u32 = (b0 * 0x100_0000 + b1 * 0x1_0000 + b2 * 0x100 + b3) as u32;
    assert(x / 0x100_0000 == b0 && (x / 0x1_0000) % 0x100 == b1 && (x / 0x100) % 0x100 == b2
        && x % 0x100 == b3) by (bit_vector)
        requires
            x == b0 as u32 * 0x100_0000 + b1 as u32 * 0x1_0000 + b2 as u32 * 0x100 + b3 as u32,
    ;
    assert(be_bytes(x) =~= b);
    let y: u32 = (b3 * 0x100_0000 + b2 * 0x1_0000 + b1 * 0x100 + b0) as u32;
    assert(y / 0x100_0000 == b3 && (y / 0x1_0000) % 0x100 == b2 && (y / 0x100) % 0x100 == b1
        && y % 0x100 == b0) by (bit_vector)
        requires
            y == b3 as u32 * 0x100_0000 + b2 as u32 * 0x1_0000 + b1 as u32 * 0x100 + b0 as u32,
    ;
    assert(le_bytes(y) =~= b);
}

/// A frame read back from the front of a stream gives the payload that was
/// framed, and the bytes that follow it are left for the next frame.
pub proof fn lemma_frame_roundtrip(payload: Seq<u8>, rest: Seq<u8>)
    requires
        payload.len() <= u32::MAX,
    ensures
        first_frame(frame(payload) + rest) == Some((payload, HEADER_LEN + payload.len())),
{
    let x = header_len_field(payload.len());
    assert(x == payload.len());
    lemma_bytes_roundtrip(x);
    let buf = frame(payload) + rest;
    assert(buf.take(HEADER_LEN as int) =~= be_bytes(x));
    assert(buf.subrange(HEADER_LEN as int, HEADER_LEN + payload.len()) =~= payload);
}

/// A native-endian header read back on the same machine gives the length that
/// was written.
pub proof fn lemma_native_header_roundtrip(payload: Seq<u8>)
    requires
        payload.len() <= u32::MAX,
    ensures
        native_value(native_frame(payload).take(HEADER_LEN as int)) == payload.len(),
        native_frame(payload).skip(HEADER_LEN as int) == payload,
{
    let x = header_len_field(payload.len());
    lemma_bytes_roundtrip(x);
    assert(native_frame(payload).take(HEADER_LEN as int) =~= native_bytes(x));
    assert(native_frame(payload).skip(HEADER_LEN as int) =~= payload);
}

/// A frame is taken from the front of a buffer exactly when the buffer holds the
/// four header bytes and all the payload bytes that the header announces; the
/// payload is then exactly the announced number of bytes after the header, and the
/// frame takes the header and those bytes, no more.
pub proof fn lemma_first_frame(buf: Seq<u8>)
    ensures
        match first_frame(buf) {
            Some((p, used)) => {
                &&& buf.len() >= HEADER_LEN
                &&& p.len() == be_value(buf.take(HEADER_LEN as int))
                &&& used == HEADER_LEN + p.len()
                &&& used <= buf.len()
                &&& p == buf.subrange(HEADER_LEN as int, used)
            },
            None => buf.len() < HEADER_LEN || buf.len() < HEADER_LEN + be_value(
                buf.take(HEADER_LEN as int),
            ),
        },
        buf.len() >= HEADER_LEN && buf.len() >= HEADER_LEN + be_value(buf.take(HEADER_LEN as int))
            ==> first_frame(buf) is Some,
{
}

/// A frame is the four header bytes, which read back as the payload's length
/// (below 2^32), followed by the whole payload.
pub proof fn lemma_frame_layout(payload: Seq<u8>)
    requires
        payload.len() <= u32::MAX,
    ensures
        frame(payload).len() == HEADER_LEN + payload.len(),
        be_value(frame(payload).take(HEADER_LEN as int)) == payload.len(),
        frame(payload).skip(HEADER_LEN as int) == payload,
{
    let x = header_len_field(payload.len());
    lemma_bytes_roundtrip(x);
    assert(frame(payload).take(HEADER_LEN as int) =~= be_bytes(x));
    assert(frame(payload).skip(HEADER_LEN as int) =~= payload);
}

} // verus!
