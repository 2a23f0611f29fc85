//! The real-time feed: its events and its reconnect delays.

use vstd::prelude::*;

use crate::models::StatusResource;

verus! {

/// An event from the real-time feed.
#[derive(Debug, Clone)]
pub enum SocketEvent {
    /// A new broadcast status.
    Status(StatusResource),
    /// The listener count changed.
    Listeners(u32),
    /// The current song's reaction total changed.
    Reactions(u32),
    Disconnected,
    Reconnected,
}

/// The first reconnect delay, in seconds.
pub const SOCKET_INITIAL_BACKOFF_SECS: u64 = 1;
/// The longest reconnect delay, in seconds.
pub const SOCKET_MAX_BACKOFF_SECS: u64 = 30;

/// The delay after a failed connection that waited `secs`: doubled, at most 30 s.
pub fn next_socket_backoff(secs: u64) -> (next: u64)
    ensures
        next == (if 2 * secs <= SOCKET_MAX_BACKOFF_SECS { 2 * secs } else { SOCKET_MAX_BACKOFF_SECS as int }),
{
    if secs <= SOCKET_MAX_BACKOFF_SECS / 2 {
        secs * 2
    } else {
        SOCKET_MAX_BACKOFF_SECS
    }
}

/// What the feed loop does after a connection attempt.
#[derive(Debug, Clone, Copy, PartialEq, Eq, Structural)]
pub enum FeedStep {
    /// Connected: stay on this connection; a later failure starts over from
    /// the first delay.
    Stay { backoff_secs: u64 },
    /// The attempt failed: report the feed as disconnected, wait `wait_secs`,
    /// and try again, waiting `backoff_secs` after the next failure.
    Retry { wait_secs: u64, backoff_secs: u64 },
}

/// A reconnect delay doubled, at most 30 s.
pub open spec fn doubled_backoff(secs: u64) -> int {
    if 2 * secs <= SOCKET_MAX_BACKOFF_SECS {
        2 * secs
    } else {
        SOCKET_MAX_BACKOFF_SECS as int
    }
}

/// The step after an attempt made while the current delay is `backoff_secs`: a
/// success resets the delay to its first value; a failure waits the current
/// delay and doubles it, up to 30 s (see [`next_socket_backoff`]).
pub fn feed_step(connected: bool, backoff_secs: u64) -> (step: FeedStep)
    ensures
        connected ==> step == (FeedStep::Stay { backoff_secs: SOCKET_INITIAL_BACKOFF_SECS }),
        !connected ==> (step matches FeedStep::Retry { wait_secs, backoff_secs: next } && wait_secs == backoff_secs
            && next == doubled_backoff(backoff_secs)),
{
    if connected {
        FeedStep::Stay { backoff_secs: SOCKET_INITIAL_BACKOFF_SECS }
    } else {
        FeedStep::Retry { wait_secs: backoff_secs, backoff_secs: next_socket_backoff(backoff_secs) }
    }
}

/// A listener or reaction count from the feed: an unsigned JSON number, kept to
/// its low 32 bits; anything else is ignored.
pub fn count_from(value: Option<u64>) -> (n: Option<u32>)
    ensures
        n == match value {
            Some(v) => Some(v as u32),
            None => None::<u32>,
        },
{
    match value {
        Some(v) => Some(v as u32),
        None => None,
    }
}

/// The event for a listener-count message.
pub fn listeners_event(value: Option<u64>) -> (e: Option<SocketEvent>)
    ensures
        match value {
            Some(v) => e matches Some(SocketEvent::Listeners(n)) && n == v as u32,
            None => e is None,
        },
{
    match count_from(value) {
        Some(n) => Some(SocketEvent::Listeners(n)),
        None => None,
    }
}

/// The event for a reaction-count message.
pub fn reactions_event(value: Option<u64>) -> (e: Option<SocketEvent>)
    ensures
        match value {
            Some(v) => e matches Some(SocketEvent::Reactions(n)) && n == v as u32,
            None => e is None,
        },
{
    match count_from(value) {
        Some(n) => Some(SocketEvent::Reactions(n)),
        None => None,
    }
}

} // verus!
