//! The worker loop's per-cycle decisions: feed the probe result to the
//! tracker, append the message's line to the shared buffer, and decide
//! when a size-triggered flush attempt is due.
//!
//! The loop itself — probe, cycle, sleep, repeat — runs on a background
//! thread with the caller, which performs the probe before each cycle and
//! the flush attempt after it; nothing of its outcome feeds back here.

use vstd::prelude::*;
use crate::buffer::LogBuffer;
use crate::status::{line_of, lines_of, Message, Status};
use crate::tracker::{messages_of, step_message, Tracker};

verus! {

/// Cumulative appended bytes at which the worker invokes a flush: 5 KiB.
pub const FLUSH_THRESHOLD: usize = 5120;

/// The bytes one poll cycle appends to the buffer: the transition
/// message's line, or nothing for a silent cycle.
pub open spec fn appended_bytes(prev: Status, cur: Status) -> Seq<u8> {
    match step_message(prev, cur) {
        Some(m) => line_of(m),
        None => Seq::empty(),
    }
}

/// The running byte count right after the append of a cycle that starts
/// at count `counter` and moves from status `prev` to `cur`.
pub open spec fn counter_mid(counter: int, prev: Status, cur: Status) -> int {
    counter + appended_bytes(prev, cur).len()
}

/// Whether that cycle invokes a flush attempt.
pub open spec fn flush_signalled(counter: int, prev: Status, cur: Status) -> bool {
    counter_mid(counter, prev, cur) >= FLUSH_THRESHOLD
}

/// The running byte count at the end of that cycle: reset to zero
/// unconditionally when a flush attempt was invoked, whatever the
/// attempt's outcome.
pub open spec fn counter_after(counter: int, prev: Status, cur: Status) -> int {
    if flush_signalled(counter, prev, cur) {
        0
    } else {
        counter_mid(counter, prev, cur)
    }
}

/// The worker loop's state between cycles: the tracker and the running
/// count of bytes appended since the last flush attempt.
pub struct Worker {
    pub tracker: Tracker,
    pub counter: usize,
}

impl Worker {
    /// Validity: the running count sits below the threshold, because
    /// every cycle that reaches the threshold resets it.
    pub open spec fn inv(&self) -> bool {
        self.counter < FLUSH_THRESHOLD
    }

    pub fn new(initial: Status) -> (w: Worker)
        ensures
            w.inv(),
            w.tracker.previous == initial,
            w.counter == 0,
    {
        Worker { tracker: Tracker::new(initial), counter: 0 }
    }

    /// One poll cycle, the probe and the sleep excluded: feeds the probe
    /// result to the tracker, appends the message's line (if any) to the
    /// shared buffer, and says whether this cycle must invoke a flush
    /// attempt. The append happens before the threshold check, and the
    /// running count is reset unconditionally whenever the attempt is
    /// due — lock contention during the attempt leaves it at zero too.
    pub fn cycle(&mut self, buffer: &mut LogBuffer, current: Status) -> (flush: bool)
        requires
            old(self).inv(),
        ensures
            final(self).inv(),
            final(self).tracker.previous == current,
            final(buffer)@ =~= old(buffer)@ + appended_bytes(
                old(self).tracker.previous,
                current,
            ),
            flush == flush_signalled(
                old(self).counter as int,
                old(self).tracker.previous,
                current,
            ),
            final(self).counter == counter_after(
                old(self).counter as int,
                old(self).tracker.previous,
                current,
            ),
    {
        let message = self.tracker.step(current);
        let mut appended: usize = 0;
        match message {
            Some(m) => {
                let line = m.line();
                appended = line.len();
                buffer.append(line);
            },
            None => {},
        }
        let flush = appended >= FLUSH_THRESHOLD - self.counter;
        if flush {
            self.counter = 0;
        } else {
            self.counter = self.counter + appended;
        }
        flush
    }
}

/// All bytes a run of cycles appends to the buffer.
pub open spec fn appended_run(prev: Status, probes: Seq<Status>) -> Seq<u8>
    decreases probes.len(),
{
    if probes.len() == 0 {
        Seq::empty()
    } else {
        appended_bytes(prev, probes[0]) + appended_run(probes[0], probes.drop_first())
    }
}

proof fn lemma_lines_of_cons(m: Message, msgs: Seq<Message>)
    ensures
        lines_of(seq![m] + msgs) =~= line_of(m) + lines_of(msgs),
{
    let s = seq![m] + msgs;
    assert(s[0] == m);
    assert(s.drop_first() =~= msgs);
}

/// Law: over any run of cycles, the bytes appended to the buffer are
/// exactly the lines of the messages the tracker emits, in order.
pub proof fn lemma_run_appends_message_lines(prev: Status, probes: Seq<Status>)
    ensures
        appended_run(prev, probes) =~= lines_of(messages_of(prev, probes)),
    decreases probes.len(),
{
    if probes.len() > 0 {
        lemma_run_appends_message_lines(probes[0], probes.drop_first());
        match step_message(prev, probes[0]) {
            Some(m) => {
                lemma_lines_of_cons(m, messages_of(probes[0], probes.drop_first()));
            },
            None => {},
        }
    }
}

/// The running byte count after a whole run of cycles.
pub open spec fn counter_after_run(counter: int, prev: Status, probes: Seq<Status>) -> int
    decreases probes.len(),
{
    if probes.len() == 0 {
        counter
    } else {
        counter_after_run(counter_after(counter, prev, probes[0]), probes[0], probes.drop_first())
    }
}

/// How many flush attempts a whole run of cycles invokes.
pub open spec fn flushes_in_run(counter: int, prev: Status, probes: Seq<Status>) -> nat
    decreases probes.len(),
{
    if probes.len() == 0 {
        0
    } else {
        (if flush_signalled(counter, prev, probes[0]) {
            1nat
        } else {
            0nat
        }) + flushes_in_run(
            counter_after(counter, prev, probes[0]),
            probes[0],
            probes.drop_first(),
        )
    }
}

/// The status the tracker holds entering cycle `k` of a run.
pub open spec fn prev_at(prev: Status, probes: Seq<Status>, k: int) -> Status {
    if k == 0 {
        prev
    } else {
        probes[k - 1]
    }
}

/// Whether cycle `k` of a run invokes a flush attempt.
pub open spec fn signals_at(counter: int, prev: Status, probes: Seq<Status>, k: int) -> bool {
    flush_signalled(
        counter_after_run(counter, prev, probes.take(k)),
        prev_at(prev, probes, k),
        probes[k],
    )
}

proof fn lemma_run_prefix_shift(counter: int, prev: Status, probes: Seq<Status>, k: int)
    requires
        probes.len() >= 1,
        0 <= k <= probes.len() - 1,
    ensures
        counter_after_run(counter, prev, probes.take(k + 1)) == counter_after_run(
            counter_after(counter, prev, probes[0]),
            probes[0],
            probes.drop_first().take(k),
        ),
{
    assert(probes.take(k + 1).len() == k + 1);
    assert(probes.take(k + 1)[0] == probes[0]);
    assert(probes.take(k + 1).drop_first() =~= probes.drop_first().take(k));
}

/// Law: in a run of cycles whose cumulative appended bytes first reach
/// the threshold at the last cycle, exactly one flush attempt is invoked
/// over the whole run, and the running count stands at zero immediately
/// after it — regardless of whether that attempt obtained the lock.
pub proof fn lemma_exactly_one_flush(counter: int, prev: Status, probes: Seq<Status>)
    requires
        probes.len() >= 1,
        forall|k: int| 0 <= k < probes.len() - 1 ==> !signals_at(counter, prev, probes, k),
        signals_at(counter, prev, probes, probes.len() - 1),
    ensures
        flushes_in_run(counter, prev, probes) == 1,
        counter_after_run(counter, prev, probes) == 0,
    decreases probes.len(),
{
    let first = probes[0];
    let rest = probes.drop_first();
    assert(probes.take(0) =~= Seq::<Status>::empty());
    if probes.len() == 1 {
        assert(signals_at(counter, prev, probes, 0));
        assert(flush_signalled(counter, prev, first));
        assert(counter_after(counter, prev, first) == 0);
        assert(rest.len() == 0);
        assert(flushes_in_run(0, first, rest) == 0);
        assert(counter_after_run(0, first, rest) == 0);
        assert(flushes_in_run(counter, prev, probes) == 1 + flushes_in_run(0, first, rest));
        assert(counter_after_run(counter, prev, probes) == counter_after_run(0, first, rest));
    } else {
        assert(!signals_at(counter, prev, probes, 0));
        assert(!flush_signalled(counter, prev, first));
        let c1 = counter_after(counter, prev, first);
        assert forall|k: int| 0 <= k < rest.len() - 1 implies !signals_at(c1, first, rest, k) by {
            lemma_run_prefix_shift(counter, prev, probes, k);
            if k == 0 {
                assert(prev_at(first, rest, 0) == prev_at(prev, probes, 1));
            } else {
                assert(rest[k - 1] == probes[k]);
            }
            assert(rest[k] == probes[k + 1]);
            assert(!signals_at(counter, prev, probes, k + 1));
        }
        lemma_run_prefix_shift(counter, prev, probes, probes.len() - 2);
        if rest.len() - 1 == 0 {
            assert(prev_at(first, rest, 0) == prev_at(prev, probes, 1));
        } else {
            assert(rest[rest.len() - 2] == probes[probes.len() - 2]);
        }
        assert(rest[rest.len() - 1] == probes[probes.len() - 1]);
        assert(signals_at(c1, first, rest, rest.len() - 1));
        lemma_exactly_one_flush(c1, first, rest);
        assert(flushes_in_run(counter, prev, probes) == flushes_in_run(c1, first, rest));
        assert(counter_after_run(counter, prev, probes) == counter_after_run(c1, first, rest));
    }
}

} // verus!
