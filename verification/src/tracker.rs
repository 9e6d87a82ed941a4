//! The status tracker: compares each probe result with the last-known
//! status and decides which transition message, if any, to emit.

use vstd::prelude::*;
use crate::status::{Message, Status};

verus! {

/// The message (if any) produced by one poll cycle that moves from status
/// `prev` to status `cur`. Only a `Down` -> `Down` cycle is silent.
pub open spec fn step_message(prev: Status, cur: Status) -> Option<Message> {
    match (prev, cur) {
        (Status::Down, Status::Up) => Some(Message::Recovered),
        (Status::Up, Status::Down) => Some(Message::Failure),
        (Status::Up, Status::Up) => Some(Message::StillHealthy),
        (Status::Down, Status::Down) => None,
    }
}

/// Pure transition step: no state, no side effects.
pub fn transition_message(prev: Status, cur: Status) -> (m: Option<Message>)
    ensures
        m == step_message(prev, cur),
{
    match (prev, cur) {
        (Status::Down, Status::Up) => Some(Message::Recovered),
        (Status::Up, Status::Down) => Some(Message::Failure),
        (Status::Up, Status::Up) => Some(Message::StillHealthy),
        (Status::Down, Status::Down) => None,
    }
}

/// Holds the last-known status between poll cycles.
pub struct Tracker {
    pub previous: Status,
}

impl Tracker {
    pub fn new(initial: Status) -> (t: Tracker)
        ensures
            t.previous == initial,
    {
        Tracker { previous: initial }
    }

    /// One poll cycle: emits the transition message for the move from the
    /// last-known status to `current`, and carries `current` forward
    /// unconditionally, whether or not a message was produced.
    pub fn step(&mut self, current: Status) -> (m: Option<Message>)
        ensures
            final(self).previous == current,
            m == step_message(old(self).previous, current),
    {
        let m = transition_message(self.previous, current);
        self.previous = current;
        m
    }
}

/// All messages emitted, in order, when the tracker starts at `prev` and
/// consumes the probe results `probes` one cycle at a time.
pub open spec fn messages_of(prev: Status, probes: Seq<Status>) -> Seq<Message>
    decreases probes.len(),
{
    if probes.len() == 0 {
        Seq::empty()
    } else {
        let rest = messages_of(probes[0], probes.drop_first());
        match step_message(prev, probes[0]) {
            Some(m) => seq![m] + rest,
            None => rest,
        }
    }
}

/// Law: a poll cycle produces a message exactly when it is not the case
/// that both the previous and the current status are `Down`; a `Down` ->
/// `Down` cycle emits nothing and only carries the state forward.
pub proof fn lemma_message_iff(prev: Status, cur: Status)
    ensures
        (step_message(prev, cur) is Some) <==> !(prev == Status::Down && cur == Status::Down),
{
}

/// Law: while the target stays down, the tracker stays silent.
pub proof fn lemma_down_silent(probes: Seq<Status>)
    requires
        forall|i: int| 0 <= i < probes.len() ==> probes[i] == Status::Down,
    ensures
        messages_of(Status::Down, probes) =~= Seq::<Message>::empty(),
    decreases probes.len(),
{
    if probes.len() > 0 {
        assert(probes[0] == Status::Down);
        assert forall|i: int| 0 <= i < probes.drop_first().len() implies probes.drop_first()[i]
            == Status::Down by {
            assert(probes.drop_first()[i] == probes[i + 1]);
        }
        lemma_down_silent(probes.drop_first());
    }
}

/// Law: starting from `Up`, a run of consecutive failing probes emits
/// exactly one message — the failure message, on the first failing probe;
/// the later failing probes emit nothing.
pub proof fn lemma_single_failure(probes: Seq<Status>)
    requires
        probes.len() >= 1,
        forall|i: int| 0 <= i < probes.len() ==> probes[i] == Status::Down,
    ensures
        messages_of(Status::Up, probes) =~= seq![Message::Failure],
{
    assert(probes[0] == Status::Down);
    assert forall|i: int| 0 <= i < probes.drop_first().len() implies probes.drop_first()[i]
        == Status::Down by {
        assert(probes.drop_first()[i] == probes[i + 1]);
    }
    lemma_down_silent(probes.drop_first());
}

} // verus!
