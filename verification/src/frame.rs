//! The wire format: a four-byte length header, then that many bytes of JSON
//! text.
//!
//! The header is the body's length as an unsigned 32-bit integer, least
//! significant byte first. The byte order is fixed, so that a frame means the
//! same on every machine.

use crate::errors::Error;
use vstd::prelude::*;

verus! {

/// The number of bytes in a frame's header.
pub const HEADER_SIZE: usize = 4;

/// The longest body that a written frame may carry: one mebibyte.
pub const MAX_MESSAGE_SIZE: usize = 1048576;

/// The header that announces a body of `len` bytes.
pub open spec fn header_of(len: nat) -> Seq<u8> {
    seq![
        (len % 256) as u8,
        (len / 256 % 256) as u8,
        (len / 65536 % 256) as u8,
        (len / 16777216 % 256) as u8,
    ]
}

/// The body length that the first four bytes of `header` announce.
pub open spec fn declared_length(header: Seq<u8>) -> nat {
    (header[0] as nat) + 256 * (header[1] as nat) + 65536 * (header[2] as nat) + 16777216 * (
    header[3] as nat)
}

/// The frame that carries `body`.
pub open spec fn frame_of(body: Seq<u8>) -> Seq<u8> {
    header_of(body.len()) + body
}

/// Reading a header back gives the length it was written for.
pub proof fn lemma_length_round_trip(len: nat)
    requires
        len <= u32::MAX,
    ensures
        header_of(len).len() == HEADER_SIZE,
        declared_length(header_of(len)) == len,
{
    let n = len as int;
    assert(n == 256 * (n / 256) + n % 256);
    assert(n / 256 == 256 * (n / 65536) + n / 256 % 256);
    assert(n / 65536 == 256 * (n / 16777216) + n / 65536 % 256);
    assert(n / 16777216 % 256 == n / 16777216);
}

/// Writing the length that a header announces gives that header again.
pub proof fn lemma_header_round_trip(header: Seq<u8>)
    requires
        header.len() == HEADER_SIZE,
    ensures
        declared_length(header) <= u32::MAX,
        header_of(declared_length(header)) == header,
{
    let b0 = header[0] as int;
    let b1 = header[1] as int;
    let b2 = header[2] as int;
    let b3 = header[3] as int;
    let n = declared_length(header) as int;
    let high = b2 + 256 * b3;
    let upper = b1 + 256 * high;
    assert(n == b0 + 256 * upper);
    assert(n % 256 == b0 && n / 256 == upper);
    assert(upper % 256 == b1 && upper / 256 == high);
    assert(high % 256 == b2 && high / 256 == b3);
    assert(n / 65536 == high);
    assert(n / 16777216 == b3);
    assert(header_of(n as nat) =~= header);
}

/// Encodes a body length as a header.
pub fn encode_length(len: u32) -> (header: [u8; 4])
    ensures
        header@ == header_of(len as nat),
{
    let header = [
        (len % 256) as u8,
        (len / 256 % 256) as u8,
        (len / 65536 % 256) as u8,
        (len / 16777216 % 256) as u8,
    ];
    assert(header@ =~= header_of(len as nat));
    header
}

/// Decodes the body length that a header announces.
pub fn decode_length(header: &[u8; 4]) -> (len: u32)
    ensures
        len == declared_length(header@),
{
    let b0: u32 = header[0] as u32;
    let b1: u32 = header[1] as u32;
    let b2: u32 = header[2] as u32;
    let b3: u32 = header[3] as u32;
    b0 + 256 * b1 + 65536 * b2 + 16777216 * b3
}

/// Builds the frame for `body`, unless the body is longer than a frame may
/// carry.
pub fn encode_frame(body: &[u8]) -> (r: Result<Vec<u8>, Error>)
    ensures
        body@.len() <= MAX_MESSAGE_SIZE ==> (r matches Ok(frame) && frame@ == frame_of(body@)),
        body@.len() > MAX_MESSAGE_SIZE ==> (r matches Err(Error::MessageTooLarge { size }) && size
            == body@.len()),
{
    let len = body.len();
    if len > MAX_MESSAGE_SIZE {
        return Err(Error::MessageTooLarge { size: len });
    }
    let header = encode_length(len as u32);
    let mut frame: Vec<u8> = Vec::with_capacity(HEADER_SIZE + len);
    frame.push(header[0]);
    frame.push(header[1]);
    frame.push(header[2]);
    frame.push(header[3]);
    let mut i: usize = 0;
    while i < len
        invariant
            len == body@.len(),
            i <= len,
            frame@ == header_of(len as nat) + body@.take(i as int),
        decreases len - i,
    {
        frame.push(body[i]);
        i += 1;
        assert(body@.take(i as int) =~= body@.take(i - 1).push(body@[i - 1]));
    }
    assert(body@.take(len as int) =~= body@);
    Ok(frame)
}

} // verus!
