//! The mathematical model of a cursor over bytes in memory, and the laws of
//! skipping and bounding that follow from it.

use vstd::prelude::*;

verus! {

/// What a cursor over bytes in memory is, apart from who owns the bytes.
pub struct Cursor {
    /// All the bytes of the container, from its start.
    pub bytes: Seq<u8>,
    /// The place of the next byte to read, counted from the container's
    /// start. It may lie beyond the container's end.
    pub offset: nat,
    /// The place that skipping may reach but not pass, if there is one,
    /// counted from the container's start.
    pub bound_offset: Option<nat>,
}

impl Cursor {
    /// The cursor at `offset` in `bytes`, without a bound.
    pub open spec fn at(bytes: Seq<u8>, offset: nat) -> Cursor {
        Cursor { bytes, offset, bound_offset: None }
    }

    /// The place `n` bytes further on, or the largest `usize` where that is
    /// nearer.
    pub open spec fn reach(self, n: nat) -> nat {
        if self.offset + n > usize::MAX {
            usize::MAX as nat
        } else {
            self.offset + n
        }
    }

    /// The cursor after a skip of `n` bytes, or `None` where the skip is
    /// refused: it would end strictly past the container's end, or past the
    /// bound. A skip that ends exactly at the end, or at the bound, is
    /// accepted.
    pub open spec fn skipped(self, n: nat) -> Option<Cursor> {
        if self.offset + n > self.bytes.len() {
            None
        } else if self.bound_offset is Some && self.offset + n > self.bound_offset->0 {
            None
        } else {
            Some(Cursor { offset: self.offset + n, ..self })
        }
    }

    /// The cursor after a request to read no more than `n` bytes from here
    /// on. The bound becomes the nearer of the old one and the place `n`
    /// bytes further on; a request for more than a `usize` holds changes
    /// nothing.
    pub open spec fn bounded(self, n: nat) -> Cursor {
        if n > usize::MAX {
            self
        } else if self.bound_offset is Some && self.bound_offset->0 <= self.reach(n) {
            self
        } else {
            Cursor { bound_offset: Some(self.reach(n)), ..self }
        }
    }

    /// The `len` bytes at the cursor, or `None` where the container does not
    /// hold that many from there on.
    pub open spec fn window(self, len: nat) -> Option<Seq<u8>> {
        if self.offset + len <= self.bytes.len() {
            Some(self.bytes.subrange(self.offset as int, (self.offset + len) as int))
        } else {
            None
        }
    }

    /// The number of bytes from the cursor to the container's end.
    pub open spec fn remaining(self) -> nat {
        if self.offset <= self.bytes.len() {
            (self.bytes.len() - self.offset) as nat
        } else {
            0
        }
    }

    /// Whether a machine can hold this cursor: the bytes can be counted in a
    /// `usize`, and the offset and the bound are `usize` values.
    pub open spec fn fits(self) -> bool {
        &&& self.bytes.len() <= usize::MAX
        &&& self.offset <= usize::MAX
        &&& self.bound_offset matches Some(b) ==> b <= usize::MAX
    }

    /// Whether the cursor stands within its bound: at it or before it,
    /// where there is one.
    pub open spec fn within_bound(self) -> bool {
        self.bound_offset matches Some(b) ==> self.offset <= b
    }

    /// The bytes from the cursor to the container's end.
    pub open spec fn ahead(self) -> Seq<u8> {
        if self.offset <= self.bytes.len() {
            self.bytes.skip(self.offset as int)
        } else {
            Seq::empty()
        }
    }
}

/// A window of one byte holds the byte at the cursor and no other, and there
/// is one exactly where the cursor stands before the container's end. So
/// reading a byte is transcribing one byte and taking the first.
pub proof fn lemma_window_of_one(c: Cursor)
    ensures
        c.window(1) is Some <==> c.offset < c.bytes.len(),
        c.window(1) matches Some(w) ==> w == seq![c.bytes[c.offset as int]],
{
    if c.window(1) is Some {
        assert(c.window(1)->0 =~= seq![c.bytes[c.offset as int]]);
    }
}

/// The window at a cursor is the front of what lies ahead of it.
pub proof fn lemma_window_is_front(c: Cursor, len: nat)
    ensures
        c.window(len) is Some <==> len <= c.remaining() && c.offset <= c.bytes.len(),
        c.window(len) matches Some(w) ==> w == c.ahead().take(len as int),
{
    if c.window(len) is Some {
        assert(c.window(len)->0 =~= c.ahead().take(len as int));
    }
}

/// A skip never moves a cursor back, changes neither the bytes nor the
/// bound, and ends within both the container and the bound.
pub proof fn lemma_skip_moves_forward(c: Cursor, n: nat)
    ensures
        c.skipped(n) matches Some(d) ==> d.offset == c.offset + n && d.bytes == c.bytes
            && d.bound_offset == c.bound_offset && d.offset <= d.bytes.len() && d.within_bound()
            && d.ahead() == c.ahead().skip(n as int),
{
    if c.skipped(n) is Some {
        assert(c.skipped(n)->0.ahead() =~= c.ahead().skip(n as int));
    }
}

/// A skip is accepted exactly where it ends neither past the container's
/// end nor past the bound. So a skip of nothing is accepted wherever the
/// cursor stands within both.
pub proof fn lemma_skip_accepted(c: Cursor, n: nat)
    ensures
        c.skipped(n) is Some <==> c.offset + n <= c.bytes.len() && (c.bound_offset matches Some(b)
            ==> c.offset + n <= b),
        c.within_bound() && c.offset <= c.bytes.len() ==> c.skipped(0) == Some(c),
{
}

/// Skipping `a` bytes and then `b` bytes is skipping `a + b` bytes at once:
/// both end at the same cursor, or both are refused.
pub proof fn lemma_skip_composes(c: Cursor, a: nat, b: nat)
    ensures
        c.skipped(a + b) == match c.skipped(a) {
            Some(d) => d.skipped(b),
            None => None,
        },
{
}

/// Skipping exactly to the end of the container succeeds, unless a bound
/// lies before the end, and leaves nothing to read.
pub proof fn lemma_skip_to_end(c: Cursor)
    requires
        c.offset <= c.bytes.len(),
        c.bound_offset matches Some(b) ==> c.bytes.len() <= b,
    ensures
        c.skipped(c.remaining()) matches Some(end) && end.offset == c.bytes.len()
            && end.remaining() == 0 && end.window(1) is None,
{
}

/// From the end of the container, and from anywhere in it, a skip that
/// would end past the end is refused, bound or no bound. One byte past the
/// end is already too far.
pub proof fn lemma_skip_past_end(c: Cursor, n: nat)
    ensures
        c.offset + n > c.bytes.len() ==> c.skipped(n) is None,
        c.offset == c.bytes.len() ==> c.skipped(1) is None,
        c.offset <= c.bytes.len() ==> c.skipped(c.remaining() + 1) is None,
{
}

/// Bounding by `n` and then by `m` is bounding by the smaller of the two, in
/// either order, and a bound never widens: whatever skip the bounded cursor
/// accepts, the cursor accepted before.
pub proof fn lemma_bound_tightens(c: Cursor, n: nat, m: nat)
    ensures
        c.bounded(n).bounded(m) == c.bounded(if n <= m { n } else { m }),
        c.bounded(n).bounded(m) == c.bounded(m).bounded(n),
        c.bound_offset matches Some(b) ==> c.bounded(n).bound_offset matches Some(b2) && b2 <= b,
        c.bounded(n).offset == c.offset && c.bounded(n).bytes == c.bytes,
        forall|k: nat| c.bounded(n).skipped(k) is Some ==> c.skipped(k) is Some,
{
}

/// A bound holds skips back and nothing else: within the container, the
/// cursor bounded by `n` accepts the skips of up to `n` bytes that it
/// accepted before, and reads what it read before.
pub proof fn lemma_bound_limits_skips(c: Cursor, n: nat, k: nat)
    requires
        c.fits(),
    ensures
        c.bounded(n).skipped(k) is Some <==> c.skipped(k) is Some && k <= n,
        c.bounded(n).window(k) == c.window(k),
        c.bounded(n).remaining() == c.remaining(),
        c.within_bound() ==> c.bounded(n).within_bound(),
{
}

} // verus!
