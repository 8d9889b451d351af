//! The cursor abstraction, [`View`], and its realization over bytes held in
//! memory, [`BorrowView`].
//!
//! A `BorrowView` can be skipped as far as its container's end and as far as
//! its bound, whichever is nearer, and no further. The bound does not limit
//! `read_byte` and `transcribe`, which go by the container's true length
//! alone.

use super::cursor::{lemma_bound_tightens, Cursor};
use super::small::SmallVecU8;
use super::{clone_keeps_bytes, DerefU8, ReadError, Result};
use vstd::prelude::*;
use vstd::slice::slice_subrange;
use vstd::view::View as _;

verus! {

/// A view on immutable binary data.
///
/// Views tend to be only valid for a segment. You can never navigate back.
/// You can "navigate forward", which really just restricts the view by
/// making the first couple of bytes inaccessible.
///
/// Reading may have side effects. For instance, if the view comes from a
/// network stream, then this may tell the remote end which segment was now
/// requested.
///
/// Many of these methods return a `Result`, which can be used to tell the
/// caller to re-try later.
///
/// Transcribe amounts are given in `usize`, because the result must fit into
/// memory. Skip amounts are given in `u64`, because the underlying file may
/// be larger than memory.
///
/// The contracts here say what holds of every view when a call succeeds.
/// When it succeeds is for each kind of view to say.
pub trait View: Clone {
    /// The bytes of the underlying data from this view's position on, as far
    /// as this view can ever read them.
    spec fn ahead(&self) -> Seq<u8>;

    /// Try to read a single byte. This does not change the position of the
    /// view.
    ///
    /// This is the same as `transcribe(1)` and taking the one byte it gives.
    fn read_byte(&self) -> (r: Result<u8>)
        ensures
            r matches Ok(b) ==> self.ahead().len() >= 1 && b == self.ahead()[0],
    ;

    /// Try to read a range of bytes. If we cannot read the full range right
    /// away, then return failure.
    ///
    /// Beware of transcribing too carelessly. Transcribing allocates memory.
    fn transcribe(&self, len: usize) -> (r: Result<SmallVecU8>)
        ensures
            r matches Ok(v) ==> len <= self.ahead().len() && v@ == self.ahead().take(len as int),
    ;

    /// Create a new view that skips a number of bytes.
    ///
    /// Should only return `Err` for permanent failures, such as when we try
    /// to skip "strictly past" the end of a file on disk. Skipping to the
    /// end of a file is legal.
    fn skip(self, bytes: u64) -> (r: Result<Self>)
        ensures
            r matches Ok(v) ==> bytes <= self.ahead().len(),
            r matches Ok(v) ==> v.ahead() == self.ahead().skip(bytes as int),
    ;

    /// Create a new view that can read no more than `len` bytes (from here).
    /// There is no guarantee that we can actually read `len` bytes.
    ///
    /// If this view is already bound, then this function cannot loosen the
    /// bound.
    fn bound(self, len: u64) -> (r: Self)
        ensures
            r.ahead().is_prefix_of(self.ahead()),
    ;

    /// If `Some`, then we know that there are at maximum so many bytes in
    /// this view. There is no guarantee that so many bytes will actually be
    /// available.
    fn bound_len(&self) -> (r: Option<usize>)
        ensures
            r matches Some(n) ==> self.ahead().len() <= n,
    ;

    /// Return the number of bytes that are immediately available, if such
    /// knowledge is available. This may never be more than `bound_len`.
    ///
    /// A view that does not say otherwise has no such knowledge, and
    /// returns `None`.
    fn hint_available_bytes(&self) -> (r: Option<usize>)
        ensures
            r matches Some(n) ==> n <= self.ahead().len(),
        default_ensures
            r is None,
    {
        None
    }
}

/// A view over bytes held in memory, by any container that can show them.
///
/// A view never stands past its bound: no constructor, skip or bound makes
/// one that does. This is the type's invariant, [`Self::stands_within_bound`],
/// which `use_type_invariant` hands to whoever holds a view.
#[derive(Debug)]
pub struct BorrowView<T: Clone + DerefU8> {
    handle: T,
    offset: usize,  // Can never skip beyond memory
    bound_offset: Option<usize>,  // Offset of first byte that skipping may not pass
}

impl<T: Clone + DerefU8> BorrowView<T> {
    /// The view stands at its bound or before it, where it has one.
    #[verifier::type_invariant]
    pub open spec fn stands_within_bound(self) -> bool {
        self@.within_bound()
    }
}

impl<T: Clone + DerefU8> Clone for BorrowView<T> {
    /// Copies the cursor and clones the handle. The copy stands where this
    /// view stands, under the same bound; it holds the same bytes wherever
    /// cloning a `T` keeps them.
    fn clone(&self) -> (r: Self)
        ensures
            r@.offset == self@.offset,
            r@.bound_offset == self@.bound_offset,
            clone_keeps_bytes::<T>() ==> r@ == self@,
    {
        proof {
            use_type_invariant(self);
        }
        let handle = self.handle.clone();
        assert(cloned::<T>(self.handle, handle));
        BorrowView { handle, offset: self.offset, bound_offset: self.bound_offset }
    }
}

impl<T: Clone + DerefU8> vstd::view::View for BorrowView<T> {
    type V = Cursor;

    closed spec fn view(&self) -> Cursor {
        Cursor {
            bytes: self.handle.bytes(),
            offset: self.offset as nat,
            bound_offset: match self.bound_offset {
                Some(b) => Some(b as nat),
                None => None,
            },
        }
    }
}

impl<T: Clone + DerefU8> BorrowView<T> {
    /// A view of all of `handle`'s bytes, without a bound.
    pub fn new(handle: T) -> (r: Self)
        ensures
            r@ == Cursor::at(handle.bytes(), 0),
    {
        Self::new_offset(handle, 0)
    }

    /// A view of `handle`'s bytes from `offset` on, without a bound.
    pub fn new_offset(handle: T, offset: usize) -> (r: Self)
        ensures
            r@ == Cursor::at(handle.bytes(), offset as nat),
    {
        BorrowView { handle, offset, bound_offset: None }
    }
}

impl<T: Clone + DerefU8> DerefU8 for BorrowView<T> {
    /// All the bytes of the container, wherever the view stands.
    open spec fn bytes(&self) -> Seq<u8> {
        self@.bytes
    }

    fn deref_u8(&self) -> (r: &[u8]) {
        self.handle.deref_u8()
    }

    proof fn lemma_bytes_fit(&self) {
        self.handle.lemma_bytes_fit();
    }
}

impl<T: Clone + DerefU8> View for BorrowView<T> {
    open spec fn ahead(&self) -> Seq<u8> {
        self@.ahead()
    }

    /// The byte at the cursor, or `EndOfStream` where the cursor stands at
    /// the container's end or beyond. The bound is not asked.
    fn read_byte(&self) -> (r: Result<u8>)
        ensures
            match self@.window(1) {
                Some(w) => r matches Ok(b) && b == w[0],
                None => r matches Err(e) && e is EndOfStream,
            },
    {
        let bytes = self.handle.deref_u8();
        if self.offset < bytes.len() {
            Ok(bytes[self.offset])
        } else {
            Err(ReadError::EndOfStream)
        }
    }

    /// A copy of the `len` bytes at the cursor, or `EndOfStream` where the
    /// container does not hold that many from there on. The bound is not
    /// asked.
    fn transcribe(&self, len: usize) -> (r: Result<SmallVecU8>)
        ensures
            match self@.window(len as nat) {
                Some(w) => r matches Ok(v) && v@ == w,
                None => r matches Err(e) && e is EndOfStream,
            },
    {
        let bytes = self.handle.deref_u8();
        let total = bytes.len();
        if let Some(end) = self.offset.checked_add(len) {
            if end <= total {
                return Ok(SmallVecU8::copy_of(slice_subrange(bytes, self.offset, end)));
            }
        }
        Err(ReadError::EndOfStream)
    }

    /// The view `bytes` further on; or `EndOfStream` where that lies strictly
    /// past the container's end, or past the bound. Landing exactly on the
    /// end, or on the bound, is legal. The offset is never let wrap: a sum
    /// that no `usize` holds lies past every container's end.
    fn skip(self, bytes: u64) -> (r: Result<Self>)
        ensures
            match self@.skipped(bytes as nat) {
                Some(c) => r matches Ok(v) && v@ == c,
                None => r matches Err(e) && e is EndOfStream,
            },
    {
        let total = self.handle.deref_u8().len();
        let bytes2: usize = match usize::try_from(bytes) {
            Ok(n) => n,
            Err(_) => return Err(ReadError::EndOfStream),
        };
        let new_offset = match self.offset.checked_add(bytes2) {
            Some(sum) => sum,
            None => return Err(ReadError::EndOfStream),
        };
        if new_offset > total {
            return Err(ReadError::EndOfStream);
        }
        if let Some(bound) = self.bound_offset {
            if new_offset > bound {
                return Err(ReadError::EndOfStream);
            }
        }
        let skipped =
            BorrowView { handle: self.handle, offset: new_offset, bound_offset: self.bound_offset };
        assert(skipped@.ahead() =~= self@.ahead().skip(bytes as int));
        Ok(skipped)
    }

    /// The same view under the nearer of its old bound and the place `len`
    /// bytes from here, that place stopping at the largest `usize`. A `len`
    /// that does not fit in a `usize` changes nothing.
    fn bound(self, len: u64) -> (r: Self)
        ensures
            r@ == self@.bounded(len as nat),
    {
        let mut this = self;
        match (this.bound_offset, usize::try_from(len)) {
            (_, Err(_)) => {},  // bound past memory does nothing
            (None, Ok(len2)) => {
                this.bound_offset = Some(this.offset.saturating_add(len2));
            },
            (Some(cur), Ok(len2)) => {
                let suggested_bound_offset = this.offset.saturating_add(len2);
                if suggested_bound_offset < cur {
                    this.bound_offset = Some(suggested_bound_offset);
                }
            },
        }
        this
    }

    /// The number of bytes from the cursor to the container's end: for
    /// bytes in memory the true extent is always known.
    fn bound_len(&self) -> (r: Option<usize>)
        ensures
            r == Some(self@.remaining() as usize),
    {
        Some(self.handle.deref_u8().len().saturating_sub(self.offset))
    }

    /// The same as `bound_len`: all the bytes of a container in memory are
    /// there to be read at once.
    fn hint_available_bytes(&self) -> (r: Option<usize>)
        ensures
            r == Some(self@.remaining() as usize),
    {
        Some(self.handle.deref_u8().len().saturating_sub(self.offset))
    }
}

impl<T: Clone + DerefU8> BorrowView<T> {
    /// The cursor of a view is one that a machine can hold.
    pub proof fn lemma_fits(&self)
        ensures
            self@.fits(),
    {
        self.handle.lemma_bytes_fit();
    }

    /// Cloning a view keeps its cursor, and so its bytes, where cloning its
    /// container keeps the bytes.
    pub proof fn lemma_clone_keeps_cursor()
        requires
            clone_keeps_bytes::<T>(),
        ensures
            forall|a: Self, b: Self| #[trigger] cloned::<Self>(a, b) ==> a@ == b@,
            clone_keeps_bytes::<Self>(),
    {
    }

    /// A clone of a view, bound by `n` and then by `m`, is the view bound by
    /// the smaller of the two, where cloning the container keeps its bytes:
    /// the two accept the same skips, and what they skip to reads the same.
    pub proof fn lemma_bound_tightens_clone(view: Self, twin: Self, n: nat, m: nat, s: nat)
        requires
            clone_keeps_bytes::<T>(),
            cloned::<Self>(view, twin),
        ensures
            twin@.bounded(n).bounded(m) == view@.bounded(if n <= m { n } else { m }),
            twin@.bounded(n).bounded(m).skipped(s) == view@.bounded(
                if n <= m { n } else { m },
            ).skipped(s),
    {
        Self::lemma_clone_keeps_cursor();
        lemma_bound_tightens(view@, n, m);
    }
}

} // verus!
