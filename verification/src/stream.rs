//! Reading and writing messages on a byte queue in memory: bytes are written
//! at the back and read from the front.

use crate::errors::Error;
use crate::frame::{
    declared_length, encode_frame, frame_of, header_of, lemma_length_round_trip, HEADER_SIZE,
    MAX_MESSAGE_SIZE,
};
use crate::json::{json_decode, json_encode, serialize_json, text_of};
use crate::reader::{decoded, is_truncated, missing, FrameReader, Progress};
use serde_json::Error as JsonError;
use serde_json::Value;
use std::collections::VecDeque;
use vstd::prelude::*;

verus! {

/// Whether `stream` begins with a whole frame.
pub open spec fn has_frame(stream: Seq<u8>) -> bool {
    stream.len() >= HEADER_SIZE && stream.len() >= HEADER_SIZE + declared_length(stream)
}

/// The body of the frame that `stream` begins with.
pub open spec fn first_body(stream: Seq<u8>) -> Seq<u8> {
    stream.subrange(HEADER_SIZE as int, HEADER_SIZE + declared_length(stream))
}

/// What is left of `stream` after one read: the bytes behind the first frame,
/// or nothing if the stream ends before the frame does.
pub open spec fn after_read(stream: Seq<u8>) -> Seq<u8> {
    if has_frame(stream) {
        stream.skip(HEADER_SIZE + declared_length(stream))
    } else {
        Seq::<u8>::empty()
    }
}

/// Whether `r` is the result of reading one message from `stream`.
pub open spec fn read_result(stream: Seq<u8>, r: Result<Value, Error>) -> bool {
    if stream.len() == 0 {
        r matches Err(Error::NoMoreInput)
    } else if !has_frame(stream) {
        is_truncated(r)
    } else {
        r == decoded(json_decode(first_body(stream)))
    }
}

/// Whether `r` and `after` are the result of writing a serialisation outcome
/// behind `before`.
pub open spec fn sent(
    before: Seq<u8>,
    encoded: Result<Seq<u8>, JsonError>,
    after: Seq<u8>,
    r: Result<(), Error>,
) -> bool {
    match encoded {
        Err(err) => after == before && r == Err::<(), Error>(Error::Serde(err)),
        Ok(text) => if text.len() > MAX_MESSAGE_SIZE {
            after == before && r == Err::<(), Error>(
                Error::MessageTooLarge { size: text.len() as usize },
            )
        } else {
            after == before + frame_of(text) && r == Ok::<(), Error>(())
        },
    }
}

/// Takes up to `n` bytes from the front of `input`.
fn take_front(input: &mut VecDeque<u8>, n: usize) -> (chunk: Vec<u8>)
    ensures
        chunk@.len() == if n <= old(input)@.len() { n as int } else { old(input)@.len() as int },
        chunk@ + final(input)@ == old(input)@,
{
    let mut chunk: Vec<u8> = Vec::new();
    let ghost whole = input@;
    while chunk.len() < n && input.len() > 0
        invariant
            chunk@.len() <= n,
            chunk@ + input@ == whole,
        decreases input@.len(),
    {
        let ghost front = chunk@;
        let ghost back = input@;
        match input.pop_front() {
            Some(byte) => {
                chunk.push(byte);
                assert(chunk@ + input@ =~= front + back);
            },
            None => {},
        }
    }
    chunk
}

/// Reads one message from the front of `input`.
///
/// An empty input is the regular end: `NoMoreInput`. An input that ends
/// inside a frame, be it in the header or in the body, is an `Io` failure and
/// is used up. Otherwise the first frame is taken off the input and its body
/// parsed, whatever length it announces: a malformed body is a `Serde`
/// failure.
pub fn read_input(input: &mut VecDeque<u8>) -> (r: Result<Value, Error>)
    ensures
        read_result(old(input)@, r),
        final(input)@ == after_read(old(input)@),
{
    let ghost whole = input@;
    let mut reader = FrameReader::new();
    let mut progress = reader.start();
    loop
        invariant
            whole == old(input)@,
            progress is Read ==> missing(reader@) > 0 && progress == Progress::Read(
                missing(reader@) as usize,
            ) && reader@ + input@ == whole,
            progress matches Progress::Done(r) ==> read_result(whole, r) && input@ == after_read(
                whole,
            ),
        decreases input@.len(), (if progress is Read { 1nat } else { 0nat }),
    {
        match progress {
            Progress::Done(r) => {
                return r;
            },
            Progress::Read(n) => {
                let ghost held = reader@;
                let chunk = take_front(input, n);
                progress = reader.accept(chunk.as_slice());
                proof {
                    // What the reader holds is a prefix of the stream, and
                    // what it has not taken is still in the input.
                    let now = held + chunk@;
                    assert(now + input@ =~= whole);
                    if chunk@.len() == 0 {
                        assert(held =~= whole);
                    } else if missing(now) <= 0 {
                        assert(declared_length(now) == declared_length(whole));
                        assert(now.skip(HEADER_SIZE as int) =~= first_body(whole));
                        assert(input@ =~= after_read(whole));
                    }
                }
            },
        }
    }
}

/// Writes the frame for a serialisation outcome at the back of `output`.
///
/// A failed serialisation is a `Serde` failure. A text of more than
/// `MAX_MESSAGE_SIZE` bytes is refused with its length. In both cases nothing
/// is written.
pub fn send_encoded(output: &mut VecDeque<u8>, encoded: Result<Vec<u8>, JsonError>) -> (r: Result<
    (),
    Error,
>)
    ensures
        sent(old(output)@, text_of(encoded), final(output)@, r),
{
    let text = match encoded {
        Ok(text) => text,
        Err(err) => {
            return Err(Error::from(err));
        },
    };
    let frame = match encode_frame(text.as_slice()) {
        Ok(frame) => frame,
        Err(err) => {
            return Err(err);
        },
    };
    let ghost before = output@;
    let mut i: usize = 0;
    while i < frame.len()
        invariant
            i <= frame@.len(),
            output@ == before + frame@.take(i as int),
        decreases frame@.len() - i,
    {
        output.push_back(frame[i]);
        i += 1;
        assert(frame@.take(i as int) =~= frame@.take(i - 1).push(frame@[i - 1]));
    }
    assert(frame@.take(frame@.len() as int) =~= frame@);
    Ok(())
}

/// Serialises `value` and writes its frame at the back of `output`.
pub fn send_message(output: &mut VecDeque<u8>, value: &Value) -> (r: Result<(), Error>)
    ensures
        sent(old(output)@, json_encode(*value), final(output)@, r),
{
    send_encoded(output, serialize_json(value))
}

/// A frame that was written is read back as it was: a stream that begins
/// with the frame for `text` begins with a whole frame, the body of that frame
/// is `text`, and a read leaves what stood behind the frame.
pub proof fn lemma_frame_round_trip(text: Seq<u8>, rest: Seq<u8>)
    requires
        text.len() <= MAX_MESSAGE_SIZE,
    ensures
        has_frame(frame_of(text) + rest),
        first_body(frame_of(text) + rest) == text,
        after_read(frame_of(text) + rest) == rest,
{
    let stream = frame_of(text) + rest;
    lemma_length_round_trip(text.len());
    assert(declared_length(stream) == declared_length(header_of(text.len())));
    assert(first_body(stream) =~= text);
    assert(after_read(stream) =~= rest);
}

/// Writing a value to an empty stream and then reading that stream gives
/// what the parser makes of the value's own text, and uses the stream up.
/// Where the parser gives the value back for its text, the message read is
/// the value written.
pub proof fn lemma_write_then_read(
    value: Value,
    text: Seq<u8>,
    stream: Seq<u8>,
    written: Result<(), Error>,
    read: Result<Value, Error>,
)
    requires
        json_encode(value) == Ok::<Seq<u8>, JsonError>(text),
        text.len() <= MAX_MESSAGE_SIZE,
        sent(Seq::<u8>::empty(), json_encode(value), stream, written),
        read_result(stream, read),
    ensures
        written is Ok,
        read == decoded(json_decode(text)),
        after_read(stream) == Seq::<u8>::empty(),
        json_decode(text) == Ok::<Value, JsonError>(value) ==> read == Ok::<Value, Error>(value),
{
    lemma_frame_round_trip(text, Seq::<u8>::empty());
    assert(stream =~= frame_of(text) + Seq::<u8>::empty());
}

/// The size boundary of a write: a text is written if and only if it is at
/// most `MAX_MESSAGE_SIZE` bytes long. One of exactly that length is written
/// whole; one that is a byte longer is refused with its length, and nothing is
/// written.
pub proof fn lemma_size_boundary(
    before: Seq<u8>,
    text: Seq<u8>,
    after: Seq<u8>,
    r: Result<(), Error>,
)
    requires
        sent(before, Ok(text), after, r),
    ensures
        r is Ok <==> text.len() <= MAX_MESSAGE_SIZE,
        text.len() == MAX_MESSAGE_SIZE ==> r is Ok && after == before + frame_of(text)
            && after.len() == before.len() + HEADER_SIZE + MAX_MESSAGE_SIZE,
        text.len() == MAX_MESSAGE_SIZE + 1 ==> after == before && r == Err::<(), Error>(
            Error::MessageTooLarge { size: (MAX_MESSAGE_SIZE + 1) as usize },
        ),
{
}

/// The end of the input: a read gives `NoMoreInput` if and only if the stream
/// holds no byte at all. A stream that ends after one to three bytes of a
/// header gives an `Io` failure.
pub proof fn lemma_end_of_input(stream: Seq<u8>, r: Result<Value, Error>)
    requires
        read_result(stream, r),
    ensures
        r matches Err(Error::NoMoreInput) <==> stream.len() == 0,
        1 <= stream.len() < HEADER_SIZE ==> r matches Err(Error::Io(_)),
{
}

/// A malformed body: a whole frame whose body the parser refuses reads as a
/// `Serde` failure around the parser's own, and a read is a `Serde` failure
/// only then.
pub proof fn lemma_malformed_body(stream: Seq<u8>, r: Result<Value, Error>)
    requires
        read_result(stream, r),
    ensures
        has_frame(stream) && json_decode(first_body(stream)) is Err ==> r == Err::<Value, Error>(
            Error::Serde(json_decode(first_body(stream))->Err_0),
        ),
        r matches Err(Error::Serde(_)) ==> has_frame(stream) && json_decode(
            first_body(stream),
        ) is Err,
{
}

} // verus!
