//! The playback loop's decisions: when to reconnect, how long to back off, and
//! when buffered audio goes to the output.
//!
//! The audio thread pulls decoded audio from a source and feeds the output in
//! batches. The reconnect policy and the batching rules live here; opening
//! sources, decoding and the audio device are the caller's.

use vstd::prelude::*;

verus! {

/// Whether a playback session is finite (a downloaded preview) or infinite (a
/// live radio stream that should be reconnected on a transient end).
#[derive(Debug, Clone, Copy, PartialEq, Eq, Structural)]
pub enum StreamMode {
    OneShot,
    Live,
}

/// The first reconnect delay, in milliseconds.
pub const INITIAL_BACKOFF_MS: u64 = 200;
/// The longest reconnect delay, in milliseconds.
pub const MAX_BACKOFF_MS: u64 = 5000;
/// Cap on buffers queued at the output. Each carries its own volume control, so
/// too many make volume changes lag; too few risk underruns (about 0.8 s at
/// 0.1 s per buffer).
pub const MAX_QUEUED_BUFFERS: usize = 8;

/// How an attempt to play went.
#[derive(Debug)]
pub enum SessionEnd {
    /// A stop was requested.
    Stopped,
    /// The source could not be opened, or ended, transiently.
    Ended,
    /// The source failed permanently (e.g. an unsupported codec).
    Permanent(String),
}

/// What the loop does after an attempt.
#[derive(Debug)]
pub enum LoopDecision {
    /// Leave the loop quietly.
    Exit,
    /// Report this message to the user and leave the loop.
    ReportAndExit(String),
    /// Wait this many milliseconds (returning at once on a stop), then open the
    /// source again.
    RetryAfter(u64),
}

/// The reconnect state: the delay before the next attempt.
#[derive(Debug, Clone, Copy, PartialEq, Eq, Structural)]
pub struct Reconnect {
    pub backoff_ms: u64,
}

/// The delay after `b`: doubled, capped at the maximum.
pub open spec fn next_backoff(b: u64) -> u64 {
    if 2 * b >= MAX_BACKOFF_MS { MAX_BACKOFF_MS } else { (2 * b) as u64 }
}

impl Reconnect {
    /// The state before the first attempt.
    pub fn new() -> (r: Reconnect)
        ensures
            r.backoff_ms == INITIAL_BACKOFF_MS,
    {
        Reconnect { backoff_ms: INITIAL_BACKOFF_MS }
    }

    /// A source opened: the next failure starts again from the first delay.
    pub fn on_open(&mut self)
        ensures
            final(self).backoff_ms == INITIAL_BACKOFF_MS,
    {
        self.backoff_ms = INITIAL_BACKOFF_MS;
    }

    /// Decide after an attempt. A stop, or any end of a one-shot session, leaves
    /// quietly; a permanent failure is reported and never retried; a transient
    /// end of a live stream is retried after the current delay, which then
    /// doubles up to the maximum.
    pub fn after(&mut self, mode: StreamMode, end: SessionEnd) -> (d: LoopDecision)
        requires
            old(self).backoff_ms <= MAX_BACKOFF_MS,
        ensures
            final(self).backoff_ms <= MAX_BACKOFF_MS,
            match end {
                SessionEnd::Stopped => d is Exit && *final(self) == *old(self),
                SessionEnd::Permanent(m) => d matches LoopDecision::ReportAndExit(r) && r@ == m@
                    && *final(self) == *old(self),
                SessionEnd::Ended => if mode == StreamMode::OneShot {
                    d is Exit && *final(self) == *old(self)
                } else {
                    d == LoopDecision::RetryAfter(old(self).backoff_ms)
                        && final(self).backoff_ms == next_backoff(old(self).backoff_ms)
                },
            },
    {
        match end {
            SessionEnd::Stopped => LoopDecision::Exit,
            SessionEnd::Permanent(m) => LoopDecision::ReportAndExit(m),
            SessionEnd::Ended => {
                if mode == StreamMode::OneShot {
                    LoopDecision::Exit
                } else {
                    let wait = self.backoff_ms;
                    self.backoff_ms = if wait >= MAX_BACKOFF_MS / 2 {
                        MAX_BACKOFF_MS
                    } else {
                        wait * 2
                    };
                    LoopDecision::RetryAfter(wait)
                }
            },
        }
    }
}

/// The delay after `n` consecutive transient failures of a live stream.
pub open spec fn backoff_after(n: nat) -> u64
    decreases n,
{
    if n == 0 {
        INITIAL_BACKOFF_MS
    } else {
        next_backoff(backoff_after((n - 1) as nat))
    }
}

/// Reconnect delays start at 200 ms, never fall below it, never exceed 5 s, and
/// reach 5 s after five consecutive failures, staying there.
pub proof fn lemma_backoff_bounds(n: nat)
    ensures
        INITIAL_BACKOFF_MS <= backoff_after(n) <= MAX_BACKOFF_MS,
        n >= 5 ==> backoff_after(n) == MAX_BACKOFF_MS,
        n <= 4 ==> backoff_after(n) < MAX_BACKOFF_MS,
    decreases n,
{
    if n > 0 {
        lemma_backoff_bounds((n - 1) as nat);
    }
    if n <= 5 {
        reveal_with_fuel(backoff_after, 6);
    }
}

/// How many samples make one output batch: a tenth of a second of audio (at
/// least one sample).
pub open spec fn batch_threshold(sample_rate: u32, channels: u16) -> int {
    let t = (sample_rate / 10) as int * (if channels >= 1 { channels as int } else { 1 });
    if t >= 1 { t } else { 1 }
}

/// The output batching state: how many samples are pending and their format.
#[derive(Debug, Clone, Copy, PartialEq, Eq, Structural)]
pub struct FeederState {
    pub pending: usize,
    pub sample_rate: u32,
    pub channels: u16,
}

/// What to do with a decoded chunk.
#[derive(Debug, Clone, Copy, PartialEq, Eq, Structural)]
pub struct FeedPlan {
    /// Send the pending batch first, in its old format (the format changed).
    pub flush_first: bool,
    /// After adding the chunk, the pending batch is due for the output.
    pub batch_ready: bool,
}

impl FeederState {
    /// Nothing pending, no format yet.
    pub fn new() -> (f: FeederState)
        ensures
            f.pending == 0 && f.sample_rate == 0 && f.channels == 0,
    {
        FeederState { pending: 0, sample_rate: 0, channels: 0 }
    }

    /// Add a chunk of `len` samples in the given format. A format change first
    /// flushes what is pending; a batch is due once a tenth of a second has
    /// accumulated.
    pub fn on_chunk(&mut self, sample_rate: u32, channels: u16, len: usize) -> (p: FeedPlan)
        requires
            old(self).pending + len <= usize::MAX,
        ensures
            p.flush_first == ((old(self).sample_rate != sample_rate || old(self).channels != channels)
                && old(self).pending > 0),
            final(self).sample_rate == sample_rate,
            final(self).channels == channels,
            final(self).pending == (if p.flush_first { 0 } else { old(self).pending as int }) + len,
            p.batch_ready == (final(self).pending >= batch_threshold(sample_rate, channels)),
    {
        let flush_first = (self.sample_rate != sample_rate || self.channels != channels)
            && self.pending > 0;
        if flush_first {
            self.pending = 0;
        }
        self.sample_rate = sample_rate;
        self.channels = channels;
        self.pending = self.pending + len;
        let ch: u64 = if channels >= 1 { channels as u64 } else { 1 };
        let per: u64 = (sample_rate / 10) as u64;
        assert(per * ch <= 429496729 * 65535) by (nonlinear_arith)
            requires
                per <= 429496729,
                ch <= 65535,
        ;
        let t = per * ch;
        let threshold = if t >= 1 { t } else { 1 };
        FeedPlan { flush_first, batch_ready: self.pending as u64 >= threshold }
    }

    /// The pending batch went to the output.
    pub fn on_flushed(&mut self)
        ensures
            final(self).pending == 0,
            final(self).sample_rate == old(self).sample_rate,
            final(self).channels == old(self).channels,
    {
        self.pending = 0;
    }
}

/// Whether the output can take another batch now.
pub fn output_has_room(queued: usize) -> (b: bool)
    ensures
        b == (queued < MAX_QUEUED_BUFFERS),
{
    queued < MAX_QUEUED_BUFFERS
}

} // verus!
