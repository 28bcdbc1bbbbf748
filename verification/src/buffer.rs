//! The buffer and its operations.

use crate::laws::{lemma_consume, lemma_pulled, lemma_reserve};
use crate::source::pull;
use crate::state::{zeros, State, INIT_BUFFER_SIZE, MAX_BUFFER_SIZE};
use vstd::prelude::*;

verus! {

/// Why an operation on a buffer failed.
#[derive(Debug)]
pub enum BufferError {
    /// The pull from the source failed; the source's error is carried as it
    /// came.
    UnderlyingIO(std::io::Error),
    /// `consume` was asked for more bytes than are unread.
    InvalidConsumeLength,
}

/// A growable byte buffer with a hard ceiling of [`MAX_BUFFER_SIZE`] bytes.
#[derive(Debug)]
pub struct Buffer {
    storage: Vec<u8>,
    consume_pos: usize,
    fill_pos: usize,
}

impl View for Buffer {
    type V = State;

    closed spec fn view(&self) -> State {
        State {
            storage: self.storage@,
            consume_pos: self.consume_pos as nat,
            fill_pos: self.fill_pos as nat,
        }
    }
}

/// Moves `storage[from..to]` to the front of `storage`. The ranges may overlap.
/// The bytes behind the moved ones keep their values.
fn move_to_front(storage: &mut Vec<u8>, from: usize, to: usize)
    requires
        from <= to <= old(storage)@.len(),
    ensures
        final(storage)@ == old(storage)@.subrange(from as int, to as int) + old(storage)@.skip(
            to - from,
        ),
{
    let count: usize = to - from;
    let mut i: usize = 0;
    while i < count
        invariant
            count == to - from,
            from <= to <= storage@.len(),
            i <= count,
            storage@.len() == old(storage)@.len(),
            forall|j: int| 0 <= j < i ==> storage@[j] == old(storage)@[from + j],
            forall|j: int| i <= j < storage@.len() ==> storage@[j] == old(storage)@[j],
        decreases count - i,
    {
        let byte: u8 = storage[from + i];
        storage[i] = byte;
        i += 1;
    }
}

/// Appends `additional` zero bytes to `buf`.
fn grow_zerofill(buf: &mut Vec<u8>, additional: usize)
    requires
        old(buf)@.len() + additional <= usize::MAX,
    ensures
        final(buf)@ == old(buf)@ + zeros(additional as nat),
{
    let len: usize = buf.len();
    buf.resize(len + additional, 0u8);
}

impl Default for Buffer {
    /// A buffer without storage.
    fn default() -> (buffer: Buffer)
        ensures
            buffer.wf(),
            buffer@ == State::pristine(),
    {
        Buffer::new()
    }
}

impl Buffer {
    /// Whether the buffer satisfies its invariant, [`State::wf`]. The fields
    /// are private, `new` and `default` establish the invariant and every
    /// operation keeps it, so every buffer that exists at run time satisfies it.
    pub open spec fn wf(&self) -> bool {
        self@.wf()
    }

    /// A buffer without storage.
    pub fn new() -> (buffer: Buffer)
        ensures
            buffer.wf(),
            buffer@ == State::pristine(),
    {
        Buffer { storage: Vec::new(), consume_pos: 0, fill_pos: 0 }
    }

    /// Discards storage and cursors: the buffer is again as `new` made it.
    pub fn reset(&mut self)
        ensures
            final(self).wf(),
            final(self)@ == State::pristine(),
    {
        *self = Buffer::new();
    }

    /// Number of unread bytes.
    pub fn len(&self) -> (n: usize)
        requires
            self.wf(),
        ensures
            n == self@.len(),
    {
        self.fill_pos - self.consume_pos
    }

    /// Whether the unread bytes have reached the ceiling. No pull can add to
    /// such a buffer.
    pub fn is_max_size(&self) -> (at_max: bool)
        requires
            self.wf(),
        ensures
            at_max == (self@.len() >= MAX_BUFFER_SIZE),
    {
        self.len() >= MAX_BUFFER_SIZE
    }

    /// Whether there is no unread byte.
    pub fn is_empty(&self) -> (empty: bool)
        requires
            self.wf(),
        ensures
            empty == (self@.len() == 0),
    {
        self.len() == 0
    }

    /// The unread bytes, oldest first.
    pub fn bytes(&self) -> (unread: &[u8])
        requires
            self.wf(),
        ensures
            unread@ == self@.unread(),
    {
        &self.storage[self.consume_pos..self.fill_pos]
    }

    /// Size of the storage that the buffer holds at present.
    pub fn capacity(&self) -> (n: usize)
        ensures
            n == self@.capacity(),
    {
        self.storage.len()
    }

    /// Marks the first `n` unread bytes as consumed. Fails, changing nothing,
    /// exactly when fewer than `n` bytes are unread.
    pub fn consume(&mut self, n: usize) -> (res: Result<(), BufferError>)
        requires
            old(self).wf(),
        ensures
            final(self).wf(),
            n <= old(self)@.len() ==> {
                &&& res is Ok
                &&& final(self)@ == old(self)@.consume(n as nat)
                &&& final(self)@.unread() == old(self)@.unread().skip(n as int)
            },
            n > old(self)@.len() ==> {
                &&& res == Err::<(), BufferError>(BufferError::InvalidConsumeLength)
                &&& final(self)@ == old(self)@
            },
    {
        let unread: usize = self.fill_pos - self.consume_pos;
        if n > unread {
            return Err(BufferError::InvalidConsumeLength);
        }
        proof {
            lemma_consume(self@, n as nat);
        }
        if n == unread {
            self.consume_pos = 0;
            self.fill_pos = 0;
        } else {
            self.consume_pos += n;
        }
        Ok(())
    }

    /// Pulls once from `source` into the spare room behind the filled bytes,
    /// after capacity management has made what room it can, and returns the
    /// number of bytes that were added.
    ///
    /// Whatever the source does, the buffer is afterwards in the state that
    /// capacity management left, with that many more bytes filled: the bytes
    /// that were unread before are still there, in order, followed by the new
    /// ones. A failed pull adds none, and its error is returned. A count of 0
    /// comes from a source that delivered nothing or from a buffer without
    /// spare room, which after capacity management is one whose unread bytes
    /// are at the ceiling.
    ///
    /// The source is not verified. What it reports is taken in by
    /// [`Buffer::complete_read`], whose contract says what comes of each
    /// outcome.
    pub fn read_from<R: std::io::Read>(&mut self, source: &mut R) -> (res: Result<
        usize,
        BufferError,
    >)
        requires
            old(self).wf(),
        ensures
            final(self).wf(),
            match res {
                Ok(n) => {
                    &&& old(self)@.reserve().pulled(n as nat, final(self)@)
                    &&& final(self)@.len() == old(self)@.len() + n
                },
                Err(e) => {
                    &&& e is UnderlyingIO
                    &&& old(self)@.reserve().pulled(0, final(self)@)
                    &&& final(self)@.len() == old(self)@.len()
                },
            },
            final(self)@.unread().take(old(self)@.len() as int) == old(self)@.unread(),
    {
        self.maybe_reserve();
        let ghost reserved = self@;
        let outcome = pull(source, &mut self.storage, self.fill_pos);
        let res = self.complete_read(outcome);
        proof {
            lemma_reserve(old(self)@);
            lemma_pulled(reserved, (self@.len() - reserved.len()) as nat, self@);
        }
        res
    }

    /// Takes in the outcome of one pull into the spare room.
    ///
    /// A count is honoured up to the spare room, which is all that a pull can
    /// have delivered: that many bytes become unread data, and their number is
    /// returned. An error changes nothing and is returned inside
    /// [`BufferError::UnderlyingIO`].
    pub fn complete_read(&mut self, outcome: Result<usize, std::io::Error>) -> (res: Result<
        usize,
        BufferError,
    >)
        requires
            old(self).wf(),
        ensures
            final(self).wf(),
            match outcome {
                Ok(reported) => {
                    let n = old(self)@.accepted(reported as nat);
                    &&& res == Ok::<usize, BufferError>(n as usize)
                    &&& final(self)@ == old(self)@.advance(n)
                },
                Err(e) => {
                    &&& res == Err::<usize, BufferError>(BufferError::UnderlyingIO(e))
                    &&& final(self)@ == old(self)@
                },
            },
    {
        match outcome {
            Ok(reported) => {
                let spare: usize = self.storage.len() - self.fill_pos;
                let n: usize = if reported <= spare {
                    reported
                } else {
                    spare
                };
                self.fill_pos += n;
                Ok(n)
            },
            Err(e) => Err(BufferError::UnderlyingIO(e)),
        }
    }

    /// Capacity management, run before every pull: makes room behind the
    /// filled bytes where that is possible, as [`State::reserve`] says.
    fn maybe_reserve(&mut self)
        requires
            old(self).wf(),
        ensures
            final(self).wf(),
            final(self)@ == old(self)@.reserve(),
    {
        let cap: usize = self.storage.len();
        if cap == 0 {
            grow_zerofill(&mut self.storage, INIT_BUFFER_SIZE);
        } else if self.consume_pos > 0 && self.fill_pos == cap {
            let count: usize = self.fill_pos - self.consume_pos;
            move_to_front(&mut self.storage, self.consume_pos, self.fill_pos);
            self.fill_pos = count;
            self.consume_pos = 0;
        } else if self.fill_pos == cap && cap < MAX_BUFFER_SIZE {
            let target: usize = if cap * 4 < MAX_BUFFER_SIZE {
                cap * 4
            } else {
                MAX_BUFFER_SIZE
            };
            grow_zerofill(&mut self.storage, target - cap);
        }
    }
}

} // verus!
