//! The buffer that a range read hands out.

use smallvec::SmallVec;
use vstd::prelude::*;

verus! {

/// A short run of bytes copied out of a view. Up to 8 bytes are kept in
/// place, longer runs on the heap.
///
/// The bytes are held by a `smallvec::SmallVec<[u8; 8]>`, which Verus does
/// not look into: what it holds is known by the name [`small_bytes`] only.
#[verifier::external_body]
#[derive(Debug)]
pub struct SmallVecU8 {
    inner: SmallVec<[u8; 8]>,
}

/// The bytes that a [`SmallVecU8`] holds, in order.
pub uninterp spec fn small_bytes(v: SmallVecU8) -> Seq<u8>;

impl vstd::view::View for SmallVecU8 {
    type V = Seq<u8>;

    open spec fn view(&self) -> Seq<u8> {
        small_bytes(*self)
    }
}

impl SmallVecU8 {
    /// `SmallVec::from_slice`: the new vector holds a copy of the slice's
    /// items, in the slice's order.
    #[verifier::external_body]
    pub(crate) fn copy_of(bytes: &[u8]) -> (r: SmallVecU8)
        ensures
            small_bytes(r) == bytes@,
    {
        SmallVecU8 { inner: SmallVec::from_slice(bytes) }
    }

    /// `SmallVec::as_slice`: the slice shows all the items that the vector
    /// holds, in order.
    #[verifier::external_body]
    fn held(&self) -> (r: &[u8])
        ensures
            r@ == small_bytes(*self),
    {
        self.inner.as_slice()
    }

    /// The bytes as a slice.
    pub fn as_slice(&self) -> (r: &[u8])
        ensures
            r@ == self@,
    {
        self.held()
    }
}

} // verus!
