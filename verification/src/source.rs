//! The byte source, as far as the buffer sees it.
//!
//! A source is any `std::io::Read`. What it does is not verified: the items of
//! this module state what the buffer may rely on, whatever the source does.

use vstd::prelude::*;

verus! {

/// `std::io::Error`, the error of a failed pull. Its contents are not looked at.
#[verifier::external_type_specification]
#[verifier::external_body]
pub struct ExIoError(std::io::Error);

/// Issues one `Read::read` on `source`, handing it `storage[from..]` as the
/// slice to write into, and returns what `read` returned.
///
/// Claimed without proof: `storage` keeps its length and the bytes below
/// `from`, since `read` gets no access to either. Nothing is claimed of the
/// bytes from `from` on, nor of the returned count: an implementation may write
/// anywhere in the slice and may report any number.
#[verifier::external_body]
pub(crate) fn pull<R: std::io::Read>(source: &mut R, storage: &mut Vec<u8>, from: usize) -> (outcome:
    Result<usize, std::io::Error>)
    requires
        from <= old(storage)@.len(),
    ensures
        final(storage)@.len() == old(storage)@.len(),
        final(storage)@.subrange(0, from as int) == old(storage)@.subrange(0, from as int),
{
    source.read(&mut storage[from..])
}

} // verus!
