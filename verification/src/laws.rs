//! What holds of every buffer, proved over the model.
//!
//! The first part is about single transitions of [`State`]. The second part is
//! about runs: the states that a buffer goes through while bytes are pulled
//! into it and consumed from it.

use crate::state::{grown, State, INIT_BUFFER_SIZE, MAX_BUFFER_SIZE};
use vstd::prelude::*;

verus! {

/// A buffer without storage is well formed, holds no byte and has capacity 0.
pub proof fn lemma_pristine()
    ensures
        State::pristine().wf(),
        State::pristine().len() == 0,
        State::pristine().capacity() == 0,
        State::pristine().unread() == Seq::<u8>::empty(),
{
}

/// Consuming `n` of the unread bytes keeps the invariant and the storage, and
/// leaves the unread bytes without their first `n`.
pub proof fn lemma_consume(s: State, n: nat)
    requires
        s.wf(),
        n <= s.len(),
    ensures
        s.consume(n).wf(),
        s.consume(n).unread() == s.unread().skip(n as int),
        s.consume(n).len() == s.len() - n,
        s.consume(n).storage == s.storage,
{
}

/// Capacity management keeps the invariant and the unread bytes, and never
/// shrinks the storage.
pub proof fn lemma_reserve(s: State)
    requires
        s.wf(),
    ensures
        s.reserve().wf(),
        s.reserve().unread() == s.unread(),
        s.reserve().capacity() >= s.capacity(),
{
}

/// After capacity management there is spare room, unless the unread bytes are
/// at the ceiling.
pub proof fn lemma_reserve_makes_room(s: State)
    requires
        s.wf(),
    ensures
        s.reserve().spare() == 0 <==> s.len() == MAX_BUFFER_SIZE,
{
}

/// Unread bytes at the ceiling fill the whole storage, which is then at the
/// ceiling too, and capacity management changes nothing.
pub proof fn lemma_max_size(s: State)
    requires
        s.wf(),
        s.len() >= MAX_BUFFER_SIZE,
    ensures
        s.len() == MAX_BUFFER_SIZE,
        s.capacity() == MAX_BUFFER_SIZE,
        s.consume_pos == 0,
        s.spare() == 0,
        s.reserve() == s,
{
}

/// A pull keeps the invariant and the storage size, and appends the bytes it
/// delivered to the unread bytes.
pub proof fn lemma_pulled(s: State, n: nat, next: State)
    requires
        s.wf(),
        s.pulled(n, next),
    ensures
        next.wf(),
        next.capacity() == s.capacity(),
        next.len() == s.len() + n,
        next.unread().take(s.len() as int) == s.unread(),
{
    let filled = s.fill_pos as int;
    assert forall|i: int| 0 <= i < filled implies next.storage[i] == s.storage[i] by {
        assert(next.storage.subrange(0, filled)[i] == s.storage.subrange(0, filled)[i]);
    }
    assert(next.unread().take(s.len() as int) =~= s.unread());
}

/// The capacity that follows `capacity` when the storage grows.
pub open spec fn next_capacity(capacity: nat) -> nat {
    if capacity == 0 {
        INIT_BUFFER_SIZE as nat
    } else {
        grown(capacity)
    }
}

/// Whether `capacity` is one of the sizes that a storage can have.
pub open spec fn is_rung(capacity: nat) -> bool {
    ||| capacity == 0
    ||| capacity == 4096
    ||| capacity == 16384
    ||| capacity == 65536
    ||| capacity == 262144
    ||| capacity == 417792
}

/// The sizes of a storage form a ladder: 0, 4096, 16384, 65536, 262144 and
/// 417792, each followed by the next and the last by itself.
pub proof fn lemma_ladder()
    ensures
        next_capacity(0) == 4096,
        next_capacity(4096) == 16384,
        next_capacity(16384) == 65536,
        next_capacity(65536) == 262144,
        next_capacity(262144) == 417792,
        next_capacity(417792) == 417792,
        forall|c: nat| is_rung(c) ==> is_rung(#[trigger] next_capacity(c)),
{
}

/// Capacity management takes the capacity to the next one exactly when there
/// is no spare room, no slack at the head, and the ceiling is not reached.
/// Otherwise it keeps the capacity: at the ceiling the storage never grows.
pub proof fn lemma_reserve_capacity(s: State)
    requires
        s.wf(),
    ensures
        s.reserve().capacity() == if s.spare() == 0 && s.consume_pos == 0 && s.capacity()
            < MAX_BUFFER_SIZE {
            next_capacity(s.capacity())
        } else {
            s.capacity()
        },
        s.capacity() < MAX_BUFFER_SIZE ==> s.capacity() < next_capacity(s.capacity())
            <= MAX_BUFFER_SIZE,
        s.capacity() == MAX_BUFFER_SIZE ==> s.reserve().capacity() == MAX_BUFFER_SIZE,
{
}

/// What happens to a buffer between two of its states. An operation that
/// fails in `consume` is no event, since it changes nothing; `reset` is none
/// either, since it starts a new run.
pub enum Event {
    /// `read_from` added this many bytes, after capacity management. A failed
    /// pull adds none.
    Pull(nat),
    /// `consume` took this many bytes.
    Consume(nat),
}

impl Event {
    /// The number of bytes that the event added to the buffer.
    pub open spec fn delivered(self) -> nat {
        match self {
            Event::Pull(n) => n,
            Event::Consume(_) => 0,
        }
    }

    /// The number of bytes that the event took from the buffer.
    pub open spec fn consumed(self) -> nat {
        match self {
            Event::Pull(_) => 0,
            Event::Consume(n) => n,
        }
    }
}

/// Whether `event` can take a buffer from `before` to `after`.
pub open spec fn step(before: State, event: Event, after: State) -> bool {
    match event {
        Event::Pull(n) => before.reserve().pulled(n, after),
        Event::Consume(n) => n <= before.len() && after == before.consume(n),
    }
}

/// Whether `states` are the states of a buffer that starts well formed and
/// goes through `events`, one state before each event and one after the last.
pub open spec fn is_run(states: Seq<State>, events: Seq<Event>) -> bool {
    &&& states.len() == events.len() + 1
    &&& states[0].wf()
    &&& forall|i: int|
        0 <= i < events.len() ==> step(states[i], #[trigger] events[i], states[i + 1])
}

/// Total number of bytes that `events` added.
pub open spec fn delivered(events: Seq<Event>) -> nat
    decreases events.len(),
{
    if events.len() == 0 {
        0
    } else {
        delivered(events.drop_last()) + events.last().delivered()
    }
}

/// Total number of bytes that `events` took.
pub open spec fn consumed(events: Seq<Event>) -> nat
    decreases events.len(),
{
    if events.len() == 0 {
        0
    } else {
        consumed(events.drop_last()) + events.last().consumed()
    }
}

/// One event keeps the invariant, changes the number of unread bytes by what
/// it delivered or consumed, and keeps the capacity or takes it to the next.
pub proof fn lemma_step(before: State, event: Event, after: State)
    requires
        before.wf(),
        step(before, event, after),
    ensures
        after.wf(),
        after.len() + event.consumed() == before.len() + event.delivered(),
        after.capacity() == before.capacity() || after.capacity() == next_capacity(
            before.capacity(),
        ),
        before.capacity() == MAX_BUFFER_SIZE ==> after.capacity() == MAX_BUFFER_SIZE,
{
}

/// A run without its last event is a run.
proof fn lemma_run_prefix(states: Seq<State>, events: Seq<Event>)
    requires
        is_run(states, events),
        events.len() > 0,
    ensures
        is_run(states.drop_last(), events.drop_last()),
        step(states[states.len() - 2], events.last(), states.last()),
{
    let shorter = states.drop_last();
    let fewer = events.drop_last();
    assert forall|i: int| 0 <= i < fewer.len() implies step(
        shorter[i],
        #[trigger] fewer[i],
        shorter[i + 1],
    ) by {
        assert(step(states[i], events[i], states[i + 1]));
    }
    let k = events.len() - 1;
    assert(step(states[k], events[k], states[k + 1]));
}

/// Every state of a run satisfies the invariant: its cursors are ordered and
/// inside the storage, its storage is within the ceiling, and where it holds no
/// unread byte both cursors are at offset 0.
pub proof fn lemma_run_invariant(states: Seq<State>, events: Seq<Event>)
    requires
        is_run(states, events),
    ensures
        forall|i: int|
            0 <= i < states.len() ==> {
                let s = #[trigger] states[i];
                &&& s.wf()
                &&& 0 <= s.consume_pos <= s.fill_pos <= s.capacity() <= MAX_BUFFER_SIZE
                &&& (s.consume_pos == s.fill_pos ==> s.consume_pos == 0 && s.fill_pos == 0)
            },
    decreases events.len(),
{
    if events.len() > 0 {
        lemma_run_prefix(states, events);
        lemma_run_invariant(states.drop_last(), events.drop_last());
        let k = events.len() - 1;
        assert(states.drop_last()[k] == states[k]);
        lemma_step(states[k], events.last(), states.last());
        assert forall|i: int| 0 <= i < states.len() implies (#[trigger] states[i]).wf() by {
            if i < states.len() - 1 {
                assert(states.drop_last()[i] == states[i]);
            }
        }
    }
}

/// The unread bytes at the end of a run number those at its start, plus all
/// that were delivered, minus all that were consumed.
pub proof fn lemma_run_accounting(states: Seq<State>, events: Seq<Event>)
    requires
        is_run(states, events),
    ensures
        states.last().len() == states[0].len() + delivered(events) - consumed(events),
    decreases events.len(),
{
    if events.len() > 0 {
        lemma_run_prefix(states, events);
        lemma_run_accounting(states.drop_last(), events.drop_last());
        lemma_run_invariant(states, events);
        let k = events.len() - 1;
        assert(states.drop_last().last() == states[k]);
        assert(states.drop_last()[0] == states[0]);
        lemma_step(states[k], events.last(), states.last());
    }
}

/// Along a run the capacity never shrinks and never exceeds the ceiling: once
/// it has reached the ceiling it stays there.
pub proof fn lemma_run_ceiling(states: Seq<State>, events: Seq<Event>)
    requires
        is_run(states, events),
    ensures
        forall|i: int, j: int|
            0 <= i <= j < states.len() ==> (#[trigger] states[i]).capacity() <= (
            #[trigger] states[j]).capacity() <= MAX_BUFFER_SIZE,
        forall|i: int, j: int|
            0 <= i <= j < states.len() && (#[trigger] states[i]).capacity() == MAX_BUFFER_SIZE
                ==> (#[trigger] states[j]).capacity() == MAX_BUFFER_SIZE,
    decreases events.len(),
{
    lemma_run_invariant(states, events);
    if events.len() > 0 {
        let shorter = states.drop_last();
        let k = events.len() - 1;
        lemma_run_prefix(states, events);
        lemma_run_ceiling(shorter, events.drop_last());
        lemma_step(states[k], events.last(), states.last());
        assert forall|i: int, j: int| 0 <= i <= j < states.len() implies (
        #[trigger] states[i]).capacity() <= (#[trigger] states[j]).capacity() by {
            if i < states.len() - 1 {
                assert(shorter[i] == states[i]);
                assert(shorter[k] == states[k]);
                if j < states.len() - 1 {
                    assert(shorter[j] == states[j]);
                }
            }
        }
    }
}

/// In a run that starts from a storage on the ladder, such as a buffer without
/// storage, every capacity is on the ladder and each event keeps the capacity
/// or takes it one rung up.
pub proof fn lemma_run_ladder(states: Seq<State>, events: Seq<Event>)
    requires
        is_run(states, events),
        is_rung(states[0].capacity()),
    ensures
        forall|i: int| 0 <= i < states.len() ==> is_rung(#[trigger] states[i].capacity()),
        forall|i: int|
            0 <= i < events.len() ==> {
                let before = (#[trigger] states[i]).capacity();
                let after = states[i + 1].capacity();
                after == before || after == next_capacity(before)
            },
    decreases events.len(),
{
    if events.len() > 0 {
        let shorter = states.drop_last();
        let k = events.len() - 1;
        lemma_run_prefix(states, events);
        lemma_run_ladder(shorter, events.drop_last());
        lemma_run_invariant(states, events);
        lemma_step(states[k], events.last(), states.last());
        lemma_ladder();
        assert(shorter[k] == states[k]);
        assert(is_rung(shorter[k].capacity()));
        assert forall|i: int| 0 <= i < states.len() implies is_rung(
            #[trigger] states[i].capacity(),
        ) by {
            if i < states.len() - 1 {
                assert(shorter[i] == states[i]);
            }
        }
        assert forall|i: int| 0 <= i < events.len() implies {
            let before = (#[trigger] states[i]).capacity();
            let after = states[i + 1].capacity();
            after == before || after == next_capacity(before)
        } by {
            if i < k {
                assert(shorter[i] == states[i]);
                assert(shorter[i + 1] == states[i + 1]);
            }
        }
    }
}

} // verus!
