//! The non-blocking hand-off of key events from the keyboard hook to the
//! database writer: a bounded channel that drops events when full, shared
//! counters, and the batching decisions of the writer loop.

use vstd::prelude::*;
use std::sync::atomic::AtomicU64;
use std::sync::atomic::Ordering;
use std::sync::mpsc::SyncSender;
use std::sync::mpsc::TrySendError;
use std::sync::Arc;
use crate::event::KeyEvent;

verus! {

/// Number of events written to the database in one batch.
pub const BATCH_SIZE: usize = 50;

/// Interval after which the writer flushes a partial batch, in milliseconds.
pub const FLUSH_INTERVAL_MS: u64 = 100;

/// Capacity of the channel between the hook and the writer.
pub const CHANNEL_CAPACITY: usize = 4096;

/// Counters of the writer, shared between the hook and the writer thread.
pub struct WriterStats {
    /// Events that the hook tried to send.
    pub received: AtomicU64,
    /// Events written to the database.
    pub written: AtomicU64,
    /// Events dropped because the channel was full.
    pub dropped: AtomicU64,
}

impl WriterStats {
    /// All counters at zero.
    pub fn new() -> (s: Self) {
        WriterStats { received: AtomicU64::new(0), written: AtomicU64::new(0), dropped: AtomicU64::new(0) }
    }

    /// Counts `n` more events written to the database.
    pub fn add_written(&self, n: u64) {
        self.written.fetch_add(n, Ordering::Relaxed);
    }
}

impl Default for WriterStats {
    fn default() -> (s: Self) {
        WriterStats::new()
    }
}

#[verifier::external_type_specification]
#[verifier::external_body]
#[verifier::reject_recursive_types(T)]
pub struct ExSyncSender<T>(SyncSender<T>);

/// `SyncSender::clone`: another handle on the same channel. Nothing is
/// claimed of it beyond its type.
pub assume_specification<T>[<SyncSender<T> as Clone>::clone](tx: &SyncSender<T>) -> SyncSender<T>;

/// What became of one attempt to hand an event to the writer.
#[derive(Debug, Clone, Copy, PartialEq, Eq, Structural)]
pub enum SendOutcome {
    /// The event is queued.
    Sent,
    /// The channel was full; the event is dropped.
    Full,
    /// The writer is gone; the event is lost.
    Disconnected,
}

/// Hands an event to the channel with `SyncSender::try_send`, which never
/// blocks. Nothing is claimed of the outcome, which depends on the writer.
#[verifier::external_body]
fn try_send_event(tx: &SyncSender<KeyEvent>, event: KeyEvent) -> SendOutcome {
    match tx.try_send(event) {
        Ok(()) => SendOutcome::Sent,
        Err(TrySendError::Full(_)) => SendOutcome::Full,
        Err(TrySendError::Disconnected(_)) => SendOutcome::Disconnected,
    }
}

/// The sending side of the writer: cheap to clone, never blocks.
#[derive(Clone)]
pub struct HookWriter {
    tx: SyncSender<KeyEvent>,
    stats: Arc<WriterStats>,
}

impl HookWriter {
    /// The sending end of the channel that this handle sends on.
    pub closed spec fn sender(&self) -> SyncSender<KeyEvent> {
        self.tx
    }

    /// The counters that this handle shares with the writer thread.
    pub closed spec fn counters(&self) -> Arc<WriterStats> {
        self.stats
    }

    /// A writer handle on a channel whose receiving end the writer thread
    /// drains, with the counters it shares with that thread.
    pub fn from_parts(tx: SyncSender<KeyEvent>, stats: Arc<WriterStats>) -> (w: Self)
        ensures
            w.sender() == tx,
            w.counters() == stats,
    {
        HookWriter { tx, stats }
    }

    /// Sends an event without blocking: every call counts as received; an
    /// event that finds the channel full counts as dropped.
    pub fn send(&self, event: KeyEvent) -> (o: SendOutcome) {
        self.stats.received.fetch_add(1, Ordering::Relaxed);
        let o = try_send_event(&self.tx, event);
        match o {
            SendOutcome::Full => {
                self.stats.dropped.fetch_add(1, Ordering::Relaxed);
            },
            _ => {},
        }
        o
    }

    /// Events sent so far.
    pub fn received(&self) -> u64 {
        self.stats.received.load(Ordering::Relaxed)
    }

    /// Events written to the database so far.
    pub fn written(&self) -> u64 {
        self.stats.written.load(Ordering::Relaxed)
    }

    /// Events dropped so far because the channel was full.
    pub fn dropped(&self) -> u64 {
        self.stats.dropped.load(Ordering::Relaxed)
    }
}

/// What the writer loop learned from its last wait on the channel.
#[derive(Debug, Clone, Copy, PartialEq, Eq, Structural)]
pub enum RecvOutcome {
    /// An event arrived; it and whatever followed it (up to a full batch)
    /// are in the batch.
    Received,
    /// The flush interval passed without an event.
    Timeout,
    /// Every sender is gone.
    Disconnected,
}

/// What the writer loop does next.
#[derive(Debug, Clone, Copy, PartialEq, Eq, Structural)]
pub enum WriterAction {
    /// Keep waiting.
    Wait,
    /// Write the batch, then keep waiting.
    Flush,
    /// Write the batch, then stop.
    FlushAndStop,
    /// Stop.
    Stop,
}

/// The writer's decision: a full batch is written as soon as it is full; a
/// partial batch when the interval passes or the senders are gone; the
/// loop ends when the senders are gone.
pub open spec fn spec_writer_step(batch_len: nat, outcome: RecvOutcome) -> WriterAction {
    match outcome {
        RecvOutcome::Received => if batch_len >= BATCH_SIZE { WriterAction::Flush } else { WriterAction::Wait },
        RecvOutcome::Timeout => if batch_len > 0 { WriterAction::Flush } else { WriterAction::Wait },
        RecvOutcome::Disconnected => if batch_len > 0 { WriterAction::FlushAndStop } else { WriterAction::Stop },
    }
}

/// Decides the writer's next action (see [`spec_writer_step`]).
pub fn writer_step(batch_len: usize, outcome: RecvOutcome) -> (a: WriterAction)
    ensures
        a == spec_writer_step(batch_len as nat, outcome),
{
    match outcome {
        RecvOutcome::Received => if batch_len >= BATCH_SIZE { WriterAction::Flush } else { WriterAction::Wait },
        RecvOutcome::Timeout => if batch_len > 0 { WriterAction::Flush } else { WriterAction::Wait },
        RecvOutcome::Disconnected => if batch_len > 0 { WriterAction::FlushAndStop } else { WriterAction::Stop },
    }
}

/// Whether the writer keeps draining the channel into the batch: only
/// while the batch is not full.
pub fn keeps_draining(batch_len: usize) -> (b: bool)
    ensures
        b == (batch_len < BATCH_SIZE),
{
    batch_len < BATCH_SIZE
}

/// Laws of the writer loop: a non-empty batch is never left behind when
/// the senders go away, an empty batch is never written, and the loop
/// stops exactly when the senders are gone.
pub proof fn law_writer_never_loses_batch(batch_len: nat, outcome: RecvOutcome)
    ensures
        outcome == RecvOutcome::Disconnected && batch_len > 0
            ==> spec_writer_step(batch_len, outcome) == WriterAction::FlushAndStop,
        batch_len == 0 ==> spec_writer_step(batch_len, outcome) != WriterAction::Flush
            && spec_writer_step(batch_len, outcome) != WriterAction::FlushAndStop,
        (spec_writer_step(batch_len, outcome) == WriterAction::Stop
            || spec_writer_step(batch_len, outcome) == WriterAction::FlushAndStop)
            <==> outcome == RecvOutcome::Disconnected,
        batch_len >= BATCH_SIZE && outcome != RecvOutcome::Disconnected
            ==> spec_writer_step(batch_len, outcome) == WriterAction::Flush,
{
}

} // verus!
