//! The decisions of the dispatch loop.
//!
//! The loop reads a frame, hands the message to a handler, and writes the
//! handler's answer as a frame, until the input ends. Reading, calling the
//! handler and writing belong to whoever owns the streams; `step` says, after
//! each of them, what comes next.

use crate::errors::Error;
use serde_json::Value;
use vstd::prelude::*;

verus! {

/// The body of an error frame: a JSON object with the one member `error`.
#[derive(Debug)]
pub struct ErrorReply {
    pub error: String,
}

/// What the loop does when the answer of a handler cannot be written.
#[derive(Clone, Copy, Debug, PartialEq, Eq, Structural)]
pub enum OnWriteFault {
    /// Leave the loop: a broken output cannot be mended in mid-session.
    Stop,
    /// Report the failure to the peer in an error frame and go on.
    Report,
}

impl Default for OnWriteFault {
    fn default() -> (policy: OnWriteFault)
        ensures
            policy == OnWriteFault::Stop,
    {
        OnWriteFault::Stop
    }
}

/// What has just happened in the loop. `T` is the type of the handler's
/// answers.
pub enum Event<T> {
    /// The loop begins.
    Started,
    /// The fault interceptor is in place.
    Installed,
    /// A read has ended with this result.
    Read(Result<Value, Error>),
    /// The handler has returned its answer, or its error as text.
    Handled(Result<T, String>),
    /// Writing the handler's answer has ended with this result.
    Responded(Result<(), Error>),
    /// Writing an error frame has ended with this result.
    Reported(Result<(), Error>),
}

/// What the loop does next.
pub enum Action<T> {
    /// Install the fault interceptor.
    Install,
    /// Read the next frame.
    Read,
    /// Hand this message to the handler.
    Handle(Value),
    /// Write this answer as a frame.
    Respond(T),
    /// Write this error frame.
    Report(ErrorReply),
    /// Leave the loop: the input has ended at a frame boundary.
    Stop,
    /// Leave the loop: an answer could not be written.
    Fail(Error),
}

/// Whether `action` is what follows `event` under `policy`.
///
/// The interceptor is installed once, before the first read. A message goes to
/// the handler, and the handler's answer to the peer. Every failure of a read
/// but the regular end of the input, and every error of the handler, is
/// reported in an error frame, after which the loop reads on. A failure to
/// write an error frame is passed over. The loop stops only at the regular
/// end of the input, or, under `OnWriteFault::Stop`, when an answer cannot be
/// written. `Error::NoMoreInput` is a signal to stop and never the content of
/// an error frame.
pub open spec fn follows<T>(policy: OnWriteFault, event: Event<T>, action: Action<T>) -> bool {
    match event {
        Event::Started => action is Install,
        Event::Installed => action is Read,
        Event::Read(Ok(message)) => action == Action::<T>::Handle(message),
        Event::Read(Err(Error::NoMoreInput)) => action is Stop,
        Event::Read(Err(err)) => action matches Action::Report(reply) && err.renders(
            reply.error@,
        ),
        Event::Handled(Ok(answer)) => action == Action::Respond(answer),
        Event::Handled(Err(text)) => action matches Action::Report(reply) && reply.error@
            == text@,
        Event::Responded(Ok(_)) => action is Read,
        Event::Responded(Err(err)) => if policy == OnWriteFault::Stop || err is NoMoreInput {
            action == Action::<T>::Fail(err)
        } else {
            action matches Action::Report(reply) && err.renders(reply.error@)
        },
        Event::Reported(_) => action is Read,
    }
}

/// Decides what the loop does after `event`.
pub fn step<T>(policy: OnWriteFault, event: Event<T>) -> (action: Action<T>)
    ensures
        follows(policy, event, action),
{
    match event {
        Event::Started => Action::Install,
        Event::Installed => Action::Read,
        Event::Read(Ok(message)) => Action::Handle(message),
        Event::Read(Err(Error::NoMoreInput)) => Action::Stop,
        Event::Read(Err(err)) => Action::Report(ErrorReply { error: err.to_string() }),
        Event::Handled(Ok(answer)) => Action::Respond(answer),
        Event::Handled(Err(text)) => Action::Report(ErrorReply { error: text }),
        Event::Responded(Ok(_)) => Action::Read,
        Event::Responded(Err(Error::NoMoreInput)) => Action::Fail(Error::NoMoreInput),
        Event::Responded(Err(err)) => match policy {
            OnWriteFault::Stop => Action::Fail(err),
            OnWriteFault::Report => Action::Report(ErrorReply { error: err.to_string() }),
        },
        Event::Reported(_) => Action::Read,
    }
}

/// The end of the input is never reported to the peer: whatever the policy
/// and the event, an error frame that follows is not made from
/// `Error::NoMoreInput`, and the only event after which the loop stops
/// regularly is a read that found the input at its end.
pub proof fn lemma_end_of_input_is_not_reported<T>(
    policy: OnWriteFault,
    event: Event<T>,
    action: Action<T>,
)
    requires
        follows(policy, event, action),
    ensures
        action is Stop <==> event == Event::<T>::Read(Err(Error::NoMoreInput)),
        action is Report ==> !(event matches Event::Read(Err(Error::NoMoreInput)))
            && !(event matches Event::Responded(Err(Error::NoMoreInput))),
{
}

} // verus!
