//! The turns of the server: one client at a time, and a pause when nobody
//! is there.

use vstd::prelude::*;

verus! {

/// How long the server waits, in milliseconds, before it looks for a client
/// again after it found none.
pub const IDLE_WAIT_MILLIS: u64 = 500;

/// What the server learns when it looks for a client or has answered one.
#[derive(Clone, Copy, Debug, PartialEq, Eq)]
pub enum Event {
    /// The server has started.
    Started,
    /// Looking for a client failed.
    AcceptFailed,
    /// No client is waiting.
    NoClient,
    /// The wait of an idle server is over.
    Waited,
    /// A client is there, with its request or without one.
    Client,
    /// The answer was sent.
    Sent,
    /// The answer could not be sent.
    SendFailed,
}

/// What the server does next.
#[derive(Clone, Copy, Debug, PartialEq, Eq)]
pub enum Turn {
    /// Look for the next client.
    Accept,
    /// Wait for so many milliseconds.
    Wait(u64),
    /// Answer the client that is there.
    Answer,
    /// Stop serving.
    Stop,
}

/// The turn that follows an event.
pub open spec fn turn_after(event: Event) -> Turn {
    match event {
        Event::Started => Turn::Accept,
        Event::AcceptFailed => Turn::Stop,
        Event::NoClient => Turn::Wait(IDLE_WAIT_MILLIS),
        Event::Waited => Turn::Accept,
        Event::Client => Turn::Answer,
        Event::Sent => Turn::Accept,
        Event::SendFailed => Turn::Stop,
    }
}

/// The turn that follows an event: a client is answered before the next one
/// is looked for, an idle server waits before it looks again, and a failure
/// to accept or to send stops the server.
pub fn next_turn(event: Event) -> (turn: Turn)
    ensures
        turn == turn_after(event),
{
    match event {
        Event::Started => Turn::Accept,
        Event::AcceptFailed => Turn::Stop,
        Event::NoClient => Turn::Wait(IDLE_WAIT_MILLIS),
        Event::Waited => Turn::Accept,
        Event::Client => Turn::Answer,
        Event::Sent => Turn::Accept,
        Event::SendFailed => Turn::Stop,
    }
}

} // verus!
