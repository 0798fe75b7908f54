//! Reading one frame from a stream, a chunk at a time.
//!
//! A `FrameReader` holds what has arrived of the current frame and says how
//! many bytes to ask the stream for next. Whoever owns the stream performs the
//! reads and hands each outcome back, until the reader is done with the frame.

use crate::errors::{Error, IoFault, IoKind};
use crate::frame::{declared_length, decode_length, HEADER_SIZE};
use crate::json::{json_decode, parse_json};
use serde_json::Error as JsonError;
use serde_json::Value;
use vstd::prelude::*;
use vstd::slice::slice_subrange;

verus! {

/// How many bytes are still to come of the frame that begins with
/// `received`: the rest of the header, or the rest of the body that the
/// header announces.
pub open spec fn missing(received: Seq<u8>) -> int {
    if received.len() < HEADER_SIZE {
        HEADER_SIZE - received.len()
    } else {
        HEADER_SIZE + declared_length(received) - received.len()
    }
}

/// The message that a parsed body stands for: the value, or the `Serde`
/// error around the parser's failure.
pub open spec fn decoded(parsed: Result<Value, JsonError>) -> Result<Value, Error> {
    match parsed {
        Ok(value) => Ok(value),
        Err(err) => Err(Error::Serde(err)),
    }
}

/// Turns the parser's verdict on a body into the reader's result.
pub fn message_from(parsed: Result<Value, JsonError>) -> (r: Result<Value, Error>)
    ensures
        r == decoded(parsed),
{
    match parsed {
        Ok(value) => Ok(value),
        Err(err) => Err(Error::from(err)),
    }
}

/// Whether `r` is the failure of a stream that ended inside a frame.
pub open spec fn is_truncated(r: Result<Value, Error>) -> bool {
    r matches Err(Error::Io(fault)) && fault.is_unexpected_eof()
}

/// What the owner of the stream does next.
pub enum Progress {
    /// Ask the stream for at most this many bytes and hand on what arrives.
    Read(usize),
    /// The frame is over: here is its message, or why there is none.
    Done(Result<Value, Error>),
}

/// The part of the current frame that has arrived so far.
pub struct FrameReader {
    received: Vec<u8>,
}

impl View for FrameReader {
    type V = Seq<u8>;

    closed spec fn view(&self) -> Seq<u8> {
        self.received@
    }
}

/// What `accept` makes of a chunk: `before` and `after` are the bytes held
/// before and after the call.
pub open spec fn accepted(
    before: Seq<u8>,
    chunk: Seq<u8>,
    after: Seq<u8>,
    progress: Progress,
) -> bool {
    let room = missing(before);
    let used = if chunk.len() <= room {
        chunk
    } else {
        chunk.take(room)
    };
    let now = before + used;
    if chunk.len() == 0 {
        &&& after == Seq::<u8>::empty()
        &&& progress matches Progress::Done(r)
        &&& if before.len() == 0 {
            r matches Err(Error::NoMoreInput)
        } else {
            is_truncated(r)
        }
    } else if missing(now) > 0 {
        &&& after == now
        &&& progress == Progress::Read(missing(now) as usize)
    } else {
        &&& after == Seq::<u8>::empty()
        &&& progress == Progress::Done(decoded(json_decode(now.skip(HEADER_SIZE as int))))
    }
}

/// What `fault` makes of a stream fault.
pub open spec fn faulted(
    before: Seq<u8>,
    fault: IoFault,
    after: Seq<u8>,
    progress: Progress,
) -> bool {
    if fault.kind == IoKind::Interrupted {
        &&& after == before
        &&& progress == Progress::Read(missing(before) as usize)
    } else {
        &&& after == Seq::<u8>::empty()
        &&& progress == Progress::Done(Err(Error::Io(fault)))
    }
}

impl FrameReader {
    /// The bytes held are the beginning of a frame that is not complete yet.
    #[verifier::type_invariant]
    closed spec fn pending(self) -> bool {
        missing(self.received@) > 0
    }

    /// A reader at a frame boundary.
    pub fn new() -> (reader: FrameReader)
        ensures
            reader@ == Seq::<u8>::empty(),
    {
        FrameReader { received: Vec::new() }
    }

    /// The number of bytes that the current frame still lacks.
    pub fn wanted(&self) -> (n: usize)
        ensures
            n == missing(self@),
            n > 0,
    {
        proof {
            use_type_invariant(&*self);
        }
        rest_of(&self.received)
    }

    /// The first move on a frame: how much to read.
    pub fn start(&self) -> (progress: Progress)
        ensures
            missing(self@) > 0,
            progress == Progress::Read(missing(self@) as usize),
    {
        Progress::Read(self.wanted())
    }

    /// Takes what a read brought. An empty chunk means that the stream has
    /// ended: at a frame boundary that is the regular end of the input,
    /// inside a frame it is a fault. Bytes beyond those asked for are not
    /// taken. Once the frame is complete its body is parsed, and the reader
    /// stands at the next frame boundary.
    pub fn accept(&mut self, chunk: &[u8]) -> (progress: Progress)
        ensures
            missing(old(self)@) > 0,
            accepted(old(self)@, chunk@, final(self)@, progress),
    {
        proof {
            use_type_invariant(&*self);
        }
        let mut received: Vec<u8> = Vec::new();
        std::mem::swap(&mut received, &mut self.received);
        if chunk.len() == 0 {
            return Progress::Done(
                if received.len() == 0 {
                    Err(Error::NoMoreInput)
                } else {
                    Err(Error::Io(IoFault::unexpected_eof()))
                },
            );
        }
        let room = rest_of(&received);
        let take = if chunk.len() <= room {
            chunk.len()
        } else {
            room
        };
        let ghost before = received@;
        let mut i: usize = 0;
        while i < take
            invariant
                i <= take <= chunk@.len(),
                received@ == before + chunk@.take(i as int),
            decreases take - i,
        {
            received.push(chunk[i]);
            i += 1;
            assert(chunk@.take(i as int) =~= chunk@.take(i - 1).push(chunk@[i - 1]));
        }
        proof {
            assert(chunk@.take(chunk@.len() as int) =~= chunk@);
            assert(declared_length(received@) == declared_length(before) || before.len()
                < HEADER_SIZE);
        }
        let rest = rest_of(&received);
        if rest > 0 {
            self.received = received;
            Progress::Read(rest)
        } else {
            let body = slice_subrange(received.as_slice(), HEADER_SIZE, received.len());
            assert(body@ =~= received@.skip(HEADER_SIZE as int));
            Progress::Done(message_from(parse_json(body)))
        }
    }

    /// Takes the fault that a read ended in. An interrupted read is repeated;
    /// any other fault ends the frame, and the reader stands at a frame
    /// boundary again.
    pub fn fault(&mut self, fault: IoFault) -> (progress: Progress)
        ensures
            missing(old(self)@) > 0,
            faulted(old(self)@, fault, final(self)@, progress),
    {
        match fault.kind {
            IoKind::Interrupted => Progress::Read(self.wanted()),
            _ => {
                proof {
                    use_type_invariant(&*self);
                }
                self.received = Vec::new();
                Progress::Done(Err(Error::Io(fault)))
            },
        }
    }
}

/// The number of bytes that the frame beginning with `received` still
/// lacks.
fn rest_of(received: &Vec<u8>) -> (n: usize)
    requires
        missing(received@) >= 0,
    ensures
        n == missing(received@),
{
    let have = received.len();
    if have < HEADER_SIZE {
        HEADER_SIZE - have
    } else {
        let header = [received[0], received[1], received[2], received[3]];
        let length = decode_length(&header) as usize;
        length - (have - HEADER_SIZE)
    }
}

} // verus!
