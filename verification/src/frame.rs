//! Framing: every message travels as four bytes of length, most significant
//! first, and then that many bytes.

use crate::path::append_bytes;
use crate::text::{decimal, decimal_text, prefixed};
use vstd::prelude::*;
use vstd::string::*;

verus! {

/// The largest payload that a reader accepts: 64 MiB.
pub const MAX_FRAME_SIZE: usize = 67108864;

/// The number of bytes before the payload.
pub const HEADER_SIZE: usize = 4;

/// The four bytes of `n`, most significant first.
pub open spec fn be_bytes(n: nat) -> Seq<u8> {
    seq![
        (n / 16777216 % 256) as u8,
        (n / 65536 % 256) as u8,
        (n / 256 % 256) as u8,
        (n % 256) as u8,
    ]
}

/// The number that the first four bytes of `bytes` write, most significant first.
pub open spec fn be_value(bytes: Seq<u8>) -> nat {
    (bytes[0] * 16777216 + bytes[1] * 65536 + bytes[2] * 256 + bytes[3]) as nat
}

/// `payload` as it travels: its length modulo 2^32, then itself.
pub open spec fn framed(payload: Seq<u8>) -> Seq<u8> {
    be_bytes(payload.len() % 4294967296) + payload
}

/// Why a frame could not be read.
#[derive(Debug)]
pub enum FrameError {
    /// The input ends `missing` bytes before the next thing to be read does.
    UnexpectedEof { missing: usize },
    /// The header announces a payload of `len` bytes, which is more than a reader accepts.
    TooLarge { len: usize },
}

/// What is said of a payload that is too large.
pub fn too_large_message(len: usize) -> (res: String)
    ensures
        res@ == "frame too large: "@ + decimal(len as nat) + " bytes"@,
{
    let number = decimal_text(len as u64);
    prefixed("frame too large: ", number.as_str()).concat(" bytes")
}

/// A payload and the number of input bytes that its frame took.
#[derive(Debug)]
pub struct Frame {
    pub payload: Vec<u8>,
    pub consumed: usize,
}

/// Four bytes that write `len` modulo 2^32.
pub fn frame_header(len: usize) -> (res: [u8; 4])
    ensures
        res@ == be_bytes(len as nat % 4294967296),
{
    let n: u64 = len as u64 % 4294967296;
    let res: [u8; 4] = [
        (n / 16777216) as u8,
        (n / 65536 % 256) as u8,
        (n / 256 % 256) as u8,
        (n % 256) as u8,
    ];
    assert(res@ =~= be_bytes(len as nat % 4294967296));
    res
}

/// The length of the payload that a header announces.
pub fn frame_len(header: &[u8]) -> (res: Result<usize, FrameError>)
    requires
        header@.len() >= 4,
    ensures
        res == (if be_value(header@) > MAX_FRAME_SIZE {
            Err(FrameError::TooLarge { len: be_value(header@) as usize })
        } else {
            Ok(be_value(header@) as usize)
        }),
{
    let n: u32 = header[0] as u32 * 16777216 + header[1] as u32 * 65536 + header[2] as u32 * 256
        + header[3] as u32;
    let len: usize = n as usize;
    if len > MAX_FRAME_SIZE {
        Err(FrameError::TooLarge { len })
    } else {
        Ok(len)
    }
}

/// Writes `data` as a frame behind what `writer` holds.
pub fn write_frame(writer: &mut Vec<u8>, data: &[u8])
    ensures
        final(writer)@ == old(writer)@ + framed(data@),
{
    let ghost before = writer@;
    let header = frame_header(data.len());
    append_bytes(writer, &header);
    append_bytes(writer, data);
    assert(writer@ =~= before + framed(data@));
}

/// What reading a frame off the front of `input` gives: the payload and the size of
/// the frame, or the reason why there is no frame to be had.
pub open spec fn read_result(input: Seq<u8>) -> Result<(Seq<u8>, nat), FrameError> {
    if input.len() < HEADER_SIZE {
        Err(FrameError::UnexpectedEof { missing: (HEADER_SIZE - input.len()) as usize })
    } else if be_value(input) > MAX_FRAME_SIZE {
        Err(FrameError::TooLarge { len: be_value(input) as usize })
    } else if input.len() < HEADER_SIZE + be_value(input) {
        Err(
            FrameError::UnexpectedEof {
                missing: (HEADER_SIZE + be_value(input) - input.len()) as usize,
            },
        )
    } else {
        Ok(
            (
                input.subrange(HEADER_SIZE as int, HEADER_SIZE + be_value(input)),
                HEADER_SIZE as nat + be_value(input),
            ),
        )
    }
}

/// Reads one frame off the front of `input`.
pub fn read_frame(input: &[u8]) -> (res: Result<Frame, FrameError>)
    ensures
        match read_result(input@) {
            Ok((payload, consumed)) => res matches Ok(frame) && frame.payload@ == payload
                && frame.consumed == consumed,
            Err(e) => res == Err::<Frame, FrameError>(e),
        },
{
    let available: usize = input.len();
    if available < HEADER_SIZE {
        return Err(FrameError::UnexpectedEof { missing: HEADER_SIZE - available });
    }
    let len: usize = match frame_len(input) {
        Ok(len) => len,
        Err(e) => return Err(e),
    };
    if available < HEADER_SIZE + len {
        return Err(FrameError::UnexpectedEof { missing: HEADER_SIZE + len - available });
    }
    let mut payload: Vec<u8> = Vec::new();
    append_bytes(&mut payload, &input[HEADER_SIZE..HEADER_SIZE + len]);
    assert(payload@ =~= input@.subrange(HEADER_SIZE as int, HEADER_SIZE + be_value(input@)));
    Ok(Frame { payload, consumed: HEADER_SIZE + len })
}

/// The bytes of a number write that number.
pub proof fn be_value_of_be_bytes(n: nat, rest: Seq<u8>)
    requires
        n < 4294967296,
    ensures
        be_value(be_bytes(n) + rest) == n,
{
    let b = be_bytes(n) + rest;
    assert(n / 16777216 % 256 == n / 16777216);
    assert(n == (n / 16777216) * 16777216 + (n / 65536 % 256) * 65536 + (n / 256 % 256) * 256 + n
        % 256);
}

/// Reading what was written gives it back, whatever follows it on the wire, and
/// takes exactly the bytes that were written, so that the next read starts with what
/// follows.
pub proof fn read_of_write(payload: Seq<u8>, rest: Seq<u8>)
    requires
        payload.len() <= MAX_FRAME_SIZE,
    ensures
        read_result(framed(payload) + rest) == Ok::<(Seq<u8>, nat), FrameError>(
            (payload, framed(payload).len()),
        ),
        (framed(payload) + rest).skip(framed(payload).len() as int) == rest,
{
    be_value_of_be_bytes(payload.len() % 4294967296, payload + rest);
    let input = framed(payload) + rest;
    assert(input =~= be_bytes(payload.len() % 4294967296) + (payload + rest));
    assert(input.subrange(HEADER_SIZE as int, HEADER_SIZE + payload.len()) =~= payload);
    assert(input.skip(framed(payload).len() as int) =~= rest);
}

/// A payload above the limit, of less than 2^32 bytes, is refused by the reader with
/// its length.
pub proof fn oversized_write_is_refused(payload: Seq<u8>, rest: Seq<u8>)
    requires
        MAX_FRAME_SIZE < payload.len() < 4294967296,
    ensures
        read_result(framed(payload) + rest) == Err::<(Seq<u8>, nat), FrameError>(
            FrameError::TooLarge { len: payload.len() as usize },
        ),
{
    be_value_of_be_bytes(payload.len() % 4294967296, payload + rest);
    assert(framed(payload) + rest =~= be_bytes(payload.len() % 4294967296) + (payload + rest));
}

} // verus!
