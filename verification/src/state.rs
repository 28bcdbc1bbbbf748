//! The mathematical model of a buffer: its storage, its two cursors, and the
//! transitions that the executable operations implement.

use vstd::prelude::*;

verus! {

/// Number of bytes allocated by the first reservation.
pub const INIT_BUFFER_SIZE: usize = 4096;

/// Hard ceiling on the storage of one buffer, in bytes.
pub const MAX_BUFFER_SIZE: usize = 8192 + 4096 * 100;

/// `n` zero bytes.
pub open spec fn zeros(n: nat) -> Seq<u8> {
    Seq::new(n, |i: int| 0u8)
}

/// The capacity that a full buffer of capacity `capacity` grows to: four times
/// as much, clamped to [`MAX_BUFFER_SIZE`].
pub open spec fn grown(capacity: nat) -> nat {
    if capacity * 4 < MAX_BUFFER_SIZE {
        capacity * 4
    } else {
        MAX_BUFFER_SIZE as nat
    }
}

/// What a buffer is: a storage region and two cursors into it.
///
/// The bytes in `[consume_pos, fill_pos)` are the unread data, the bytes in
/// `[fill_pos, capacity)` are spare room for the next pull, and the bytes below
/// `consume_pos` are slack that compaction reclaims.
pub struct State {
    /// Every byte of the storage region, filled or not.
    pub storage: Seq<u8>,
    /// Offset of the first unread byte.
    pub consume_pos: nat,
    /// Offset one past the last filled byte.
    pub fill_pos: nat,
}

impl State {
    /// Size of the storage region.
    pub open spec fn capacity(self) -> nat {
        self.storage.len()
    }

    /// Number of unread bytes.
    pub open spec fn len(self) -> nat {
        (self.fill_pos - self.consume_pos) as nat
    }

    /// The unread bytes, oldest first.
    pub open spec fn unread(self) -> Seq<u8> {
        self.storage.subrange(self.consume_pos as int, self.fill_pos as int)
    }

    /// Number of bytes that a pull can deliver without any reservation.
    pub open spec fn spare(self) -> nat {
        (self.capacity() - self.fill_pos) as nat
    }

    /// The invariant of every buffer: the cursors are ordered and inside the
    /// storage, the storage is within the ceiling, and an empty buffer has both
    /// cursors at offset 0.
    pub open spec fn wf(self) -> bool {
        &&& self.consume_pos <= self.fill_pos <= self.capacity() <= MAX_BUFFER_SIZE
        &&& (self.consume_pos == self.fill_pos ==> self.fill_pos == 0)
    }

    /// The state of a buffer that owns no storage.
    pub open spec fn pristine() -> State {
        State { storage: Seq::empty(), consume_pos: 0, fill_pos: 0 }
    }

    /// The state after `n` unread bytes were consumed. Consuming everything
    /// brings both cursors back to offset 0.
    pub open spec fn consume(self, n: nat) -> State
        recommends
            n <= self.len(),
    {
        if n == self.len() {
            State { consume_pos: 0, fill_pos: 0, ..self }
        } else {
            State { consume_pos: self.consume_pos + n, ..self }
        }
    }

    /// The state after the unread bytes were moved to the front of the storage.
    /// The bytes behind them keep their values.
    pub open spec fn compacted(self) -> State {
        State {
            storage: self.unread() + self.storage.skip(self.len() as int),
            consume_pos: 0,
            fill_pos: self.len(),
        }
    }

    /// The state after `additional` zero bytes were added to the storage.
    pub open spec fn extended(self, additional: nat) -> State {
        State { storage: self.storage + zeros(additional), ..self }
    }

    /// The state after capacity management, which runs before every pull:
    /// - without storage, allocate [`INIT_BUFFER_SIZE`] zero bytes;
    /// - with the tail exhausted and slack at the head, compact;
    /// - with the tail exhausted, no slack, and room under the ceiling, grow to
    ///   [`grown`] capacity, the new bytes being zero;
    /// - otherwise change nothing.
    pub open spec fn reserve(self) -> State {
        if self.capacity() == 0 {
            self.extended(INIT_BUFFER_SIZE as nat)
        } else if self.consume_pos > 0 && self.fill_pos == self.capacity() {
            self.compacted()
        } else if self.fill_pos == self.capacity() && self.capacity() < MAX_BUFFER_SIZE {
            self.extended((grown(self.capacity()) - self.capacity()) as nat)
        } else {
            self
        }
    }

    /// How many bytes a pull that reports `reported` bytes has added: as many
    /// as it reports, but no more than the spare room, which is all that it
    /// was given to write into.
    pub open spec fn accepted(self, reported: nat) -> nat {
        if reported <= self.spare() {
            reported
        } else {
            self.spare()
        }
    }

    /// The state after `n` bytes of spare room were marked as filled.
    pub open spec fn advance(self, n: nat) -> State
        recommends
            n <= self.spare(),
    {
        State { fill_pos: self.fill_pos + n, ..self }
    }

    /// Whether `next` is this state after a pull that delivered `n` bytes: the
    /// cursors are those of `self.advance(n)`, the storage has the same size,
    /// and every byte that was filled before the pull has kept its value. The
    /// pull may have written anything into the room that was spare.
    pub open spec fn pulled(self, n: nat, next: State) -> bool {
        &&& n <= self.spare()
        &&& next.consume_pos == self.consume_pos
        &&& next.fill_pos == self.fill_pos + n
        &&& next.storage.len() == self.storage.len()
        &&& next.storage.subrange(0, self.fill_pos as int) == self.storage.subrange(
            0,
            self.fill_pos as int,
        )
    }
}

} // verus!
