//! Collects file events into batches bounded by size and by time.

use vstd::prelude::*;
use crate::file_system::file_event::FileEvent;

verus! {

/// A buffer of events that is handed on when it is full or when the flush
/// timeout has passed since the last batch. Time is a count of milliseconds
/// that the caller reads from a monotonic clock.
#[derive(Debug)]
pub struct EventBatcher {
    batch_size: usize,
    batch_timeout_ms: u64,
    events: Vec<FileEvent>,
    last_emit_ms: u64,
}

impl EventBatcher {
    /// The events collected since the last batch, in the order they came.
    pub closed spec fn pending(&self) -> Seq<FileEvent> {
        self.events@
    }

    /// The number of events at which a batch is due.
    pub closed spec fn batch_size(&self) -> nat {
        self.batch_size as nat
    }

    /// The milliseconds after which a batch is due.
    pub closed spec fn batch_timeout(&self) -> nat {
        self.batch_timeout_ms as nat
    }

    /// When the last batch was handed on.
    pub closed spec fn last_emit(&self) -> nat {
        self.last_emit_ms as nat
    }

    /// The milliseconds that have passed at `now_ms` since the last batch; none
    /// where the clock has not moved forward.
    pub open spec fn elapsed(&self, now_ms: u64) -> nat {
        if now_ms >= self.last_emit() {
            (now_ms - self.last_emit()) as nat
        } else {
            0
        }
    }

    /// Whether the flush timeout has passed at `now_ms`.
    pub open spec fn timed_out(&self, now_ms: u64) -> bool {
        self.elapsed(now_ms) >= self.batch_timeout()
    }

    /// Whether a buffer of `held` events is due at `now_ms`.
    pub open spec fn due(&self, held: nat, now_ms: u64) -> bool {
        held >= self.batch_size() || self.timed_out(now_ms)
    }

    /// Whether the flush timeout has passed at `now_ms`.
    pub fn is_timed_out(&self, now_ms: u64) -> (r: bool)
        ensures
            r == self.timed_out(now_ms),
    {
        let elapsed: u64 = if now_ms >= self.last_emit_ms {
            now_ms - self.last_emit_ms
        } else {
            0
        };
        elapsed >= self.batch_timeout_ms
    }

    /// An empty batcher whose clock starts at `now_ms`.
    pub fn new(batch_size: usize, batch_timeout_ms: u64, now_ms: u64) -> (r: Self)
        ensures
            r.pending() == Seq::<FileEvent>::empty(),
            r.batch_size() == batch_size,
            r.batch_timeout() == batch_timeout_ms,
            r.last_emit() == now_ms,
    {
        EventBatcher { batch_size, batch_timeout_ms, events: Vec::new(), last_emit_ms: now_ms }
    }

    /// The number of events that wait for the next batch.
    pub fn pending_len(&self) -> (r: usize)
        ensures
            r == self.pending().len(),
    {
        self.events.len()
    }

    /// Whether the buffer is due at `now_ms`.
    pub fn should_emit(&self, now_ms: u64) -> (r: bool)
        ensures
            r == self.due(self.pending().len(), now_ms),
    {
        self.events.len() >= self.batch_size || self.is_timed_out(now_ms)
    }

    /// Hands on what the buffer holds, unless it is empty.
    pub fn emit_batch(&mut self, now_ms: u64) -> (r: Option<Vec<FileEvent>>)
        ensures
            final(self).batch_size() == old(self).batch_size(),
            final(self).batch_timeout() == old(self).batch_timeout(),
            final(self).pending() == Seq::<FileEvent>::empty(),
            old(self).pending().len() == 0 ==> r is None && final(self).last_emit() == old(self).last_emit(),
            old(self).pending().len() > 0 ==> r is Some && r->Some_0@ == old(self).pending()
                && final(self).last_emit() == now_ms,
    {
        if self.events.len() == 0 {
            return None;
        }
        let mut batch: Vec<FileEvent> = Vec::new();
        std::mem::swap(&mut batch, &mut self.events);
        self.last_emit_ms = now_ms;
        Some(batch)
    }

    /// Appends `event`, and hands on the whole buffer if it is then due.
    pub fn add_event(&mut self, event: FileEvent, now_ms: u64) -> (r: Option<Vec<FileEvent>>)
        ensures
            final(self).batch_size() == old(self).batch_size(),
            final(self).batch_timeout() == old(self).batch_timeout(),
            old(self).due(old(self).pending().len() + 1, now_ms) ==> r is Some && r->Some_0@ == old(self).pending().push(event) && final(self).pending() == Seq::<FileEvent>::empty()
                && final(self).last_emit() == now_ms,
            !old(self).due(old(self).pending().len() + 1, now_ms) ==> r is None && final(self).pending() == old(self).pending().push(event) && final(self).last_emit() == old(self).last_emit(),
    {
        self.events.push(event);
        if self.should_emit(now_ms) {
            self.emit_batch(now_ms)
        } else {
            None
        }
    }

    /// The periodic check: hands on a non-empty buffer whose timeout has passed.
    pub fn check_timeout(&mut self, now_ms: u64) -> (r: Option<Vec<FileEvent>>)
        ensures
            final(self).batch_size() == old(self).batch_size(),
            final(self).batch_timeout() == old(self).batch_timeout(),
            r is Some <==> old(self).pending().len() > 0 && old(self).timed_out(now_ms),
            r is Some ==> r->Some_0@ == old(self).pending() && final(self).pending() == Seq::<
                FileEvent,
            >::empty() && final(self).last_emit() == now_ms,
            r is None ==> final(self).pending() == old(self).pending() && final(self).last_emit()
                == old(self).last_emit(),
    {
        if self.events.len() > 0 && self.is_timed_out(now_ms) {
            self.emit_batch(now_ms)
        } else {
            None
        }
    }
}

} // verus!
