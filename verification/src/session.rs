//! Connections to the feeds: what to do with what a connection brings, and how long to wait before
//! the next one.

use vstd::math::min;
use vstd::prelude::*;

verus! {

/// Longest pause between two connections, in seconds.
pub const MAX_BACKOFF_S: u64 = 60;

/// What a connection brings.
#[derive(Debug)]
pub enum Incoming {
    /// The stream is over.
    Ended,
    /// The stream broke.
    Failed,
    /// A message of text.
    Text,
    /// The other side closes.
    Closed,
    /// Any other message.
    Other,
    /// It is time for a ping.
    PingDue,
    /// The market that is followed changed, or there is none for now.
    MarketChanged(Option<String>),
}

/// What to do with it.
#[derive(Debug)]
pub enum Step {
    /// Leave the session, in order.
    Stop,
    /// Leave the session with the error of the stream.
    Fail,
    /// Read the message.
    Read,
    /// Send a ping.
    Ping,
    /// Subscribe to this market, on the same connection.
    Subscribe(String),
    /// Nothing.
    Wait,
}

/// What to do with what a connection brings.
pub open spec fn step_of(incoming: Incoming) -> Step {
    match incoming {
        Incoming::Ended | Incoming::Closed => Step::Stop,
        Incoming::Failed => Step::Fail,
        Incoming::Text => Step::Read,
        Incoming::PingDue => Step::Ping,
        Incoming::MarketChanged(Some(id)) => Step::Subscribe(id),
        Incoming::MarketChanged(None) | Incoming::Other => Step::Wait,
    }
}

/// What to do with what a connection brings.
pub fn step(incoming: Incoming) -> (r: Step)
    ensures
        r == step_of(incoming),
{
    match incoming {
        Incoming::Ended | Incoming::Closed => Step::Stop,
        Incoming::Failed => Step::Fail,
        Incoming::Text => Step::Read,
        Incoming::PingDue => Step::Ping,
        Incoming::MarketChanged(Some(id)) => Step::Subscribe(id),
        Incoming::MarketChanged(None) | Incoming::Other => Step::Wait,
    }
}

/// The pause after the pause `backoff`: twice as long, up to the longest.
pub open spec fn next_backoff_of(backoff: int) -> int {
    min(backoff * 2, MAX_BACKOFF_S as int)
}

/// The pause after `n` connections, in seconds.
pub open spec fn backoff_after(n: nat) -> int
    decreases n,
{
    if n == 0 {
        1
    } else {
        next_backoff_of(backoff_after((n - 1) as nat))
    }
}

/// The pause after the pause `backoff`.
pub fn next_backoff(backoff: u64) -> (r: u64)
    ensures
        r == next_backoff_of(backoff as int),
{
    if backoff >= MAX_BACKOFF_S / 2 {
        MAX_BACKOFF_S
    } else {
        backoff * 2
    }
}

/// The pause of `backoff` seconds in milliseconds, longer by a part of a second that the caller
/// draws: clients that lost one server at once do not come back at once.
pub fn jittered_ms(backoff: u64, draw: u64) -> (r: u64)
    requires
        backoff <= MAX_BACKOFF_S,
    ensures
        r == backoff * 1000 + draw % 1000,
{
    backoff * 1000 + draw % 1000
}

/// The pauses start at one second, never shrink and never exceed the longest.
pub proof fn pauses_grow_and_stop(n: nat)
    ensures
        1 <= backoff_after(n) <= backoff_after(n + 1) <= MAX_BACKOFF_S,
    decreases n,
{
    reveal_with_fuel(backoff_after, 2);
    if n > 0 {
        pauses_grow_and_stop((n - 1) as nat);
    }
}

/// Each pause is twice the one before, up to a minute, from one second on.
pub proof fn pauses_double(n: nat)
    ensures
        backoff_after(0) == 1,
        2 * backoff_after(n) <= 60 ==> backoff_after(n + 1) == 2 * backoff_after(n),
        2 * backoff_after(n) > 60 ==> backoff_after(n + 1) == 60,
{
}

/// What a connection brings has one answer: it is left once it is over, given up where it fails, read
/// where it tells something, kept alive when that is due, and asked for another market where there is
/// one.
pub proof fn connection_is_answered(incoming: Incoming)
    ensures
        step_of(incoming) is Stop <==> incoming is Ended || incoming is Closed,
        step_of(incoming) is Fail <==> incoming is Failed,
        step_of(incoming) is Read <==> incoming is Text,
        step_of(incoming) is Ping <==> incoming is PingDue,
        step_of(incoming) is Subscribe <==> incoming is MarketChanged && incoming->0 is Some,
        step_of(incoming) is Subscribe ==> step_of(incoming)->0 == incoming->0->0,
        step_of(incoming) is Wait <==> incoming is Other || (incoming is MarketChanged
            && incoming->0 is None),
{
}

/// From the sixth connection on the pause is the longest one.
pub proof fn pauses_reach_the_longest(n: nat)
    requires
        n >= 6,
    ensures
        backoff_after(n) == MAX_BACKOFF_S,
    decreases n,
{
    reveal_with_fuel(backoff_after, 7);
    if n > 6 {
        pauses_reach_the_longest((n - 1) as nat);
    }
}

} // verus!
