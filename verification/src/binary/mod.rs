//! Reading immutable binary data piece by piece: the failures a read can end
//! in, the containers a cursor can stand on, and (in [`view`]) the cursor
//! itself.

pub mod cursor;
pub mod small;
pub mod view;

pub use self::cursor::Cursor;
pub use self::small::SmallVecU8;
pub use self::view::{BorrowView, View};

use std::rc::Rc;
use std::sync::Arc;
use vstd::prelude::*;
use vstd::std_specs::cmp::PartialEqSpec;
use vstd::string::StringExecFns;
use vstd::view::View as _;

verus! {

pub type Result<T> = std::result::Result<T, ReadError>;

/// A custom read failure, carried by [`ReadError::Other`] next to
/// `EndOfStream`.
///
/// All that is asked of such a failure is that it can say what went wrong.
pub trait ViewReadError {
    /// What this failure has to say of itself.
    fn describe(&self) -> String;
}

/// A reason why we could not read enough data. These may be intermittent
/// errors: for streams that pull from the network asynchronously,
/// `EndOfStream` can mean that the data has not arrived yet.
pub enum ReadError {
    EndOfStream,
    Other(Box<dyn ViewReadError>),
}

/// The text of a failure other than `EndOfStream`, given what its cause says
/// of itself.
pub open spec fn other_text(cause: Seq<char>) -> Seq<char> {
    "other: "@ + cause
}

/// Builds the text of a failure other than `EndOfStream` from the text of
/// its cause.
pub fn other_message(cause: &str) -> (r: String)
    ensures
        r@ == other_text(cause@),
{
    String::from_str("other: ").concat(cause)
}

impl ReadError {
    /// The text of this failure, for people to read: `end of stream`, or
    /// `other: ` and then what the cause says of itself.
    pub fn message(&self) -> (r: String)
        ensures
            match self {
                ReadError::EndOfStream => r@ == "end of stream"@,
                ReadError::Other(_) => exists|cause: Seq<char>| r@ == other_text(cause),
            },
    {
        match self {
            ReadError::EndOfStream => String::from_str("end of stream"),
            ReadError::Other(cause) => {
                let said = cause.describe();
                other_message(said.as_str())
            },
        }
    }
}

/// Convenient for tests. Two `Other` values are never equal, not even a value
/// and itself: what they carry cannot be compared.
impl PartialEq for ReadError {
    fn eq(&self, other: &Self) -> (r: bool) {
        match self {
            ReadError::EndOfStream => match other {
                ReadError::EndOfStream => true,
                _ => false,
            },
            _ => false,
        }
    }
}

impl vstd::std_specs::cmp::PartialEqSpecImpl for ReadError {
    open spec fn obeys_eq_spec() -> bool {
        true
    }

    open spec fn eq_spec(&self, other: &Self) -> bool {
        *self is EndOfStream && *other is EndOfStream
    }
}

/// `EndOfStream` equals `EndOfStream`, and nothing else equals anything: a
/// failure that is `Other` differs from every failure, itself included.
pub proof fn lemma_only_end_of_stream_is_equal(a: ReadError, b: ReadError)
    ensures
        ReadError::EndOfStream.eq_spec(&ReadError::EndOfStream),
        a is Other ==> !a.eq_spec(&b) && !b.eq_spec(&a) && !a.eq_spec(&a),
        a.eq_spec(&b) <==> a is EndOfStream && b is EndOfStream,
{
}

/// Similar to `Deref<Target = [u8]>`, but with convenient automatic impls: a
/// container that can show its bytes, however it owns them.
pub trait DerefU8 {
    /// The bytes that the container holds.
    spec fn bytes(&self) -> Seq<u8>;

    /// The container's bytes as a slice.
    fn deref_u8(&self) -> (r: &[u8])
        ensures
            r@ == self.bytes(),
    ;

    /// The bytes can be counted in a `usize`, as those of every slice can.
    proof fn lemma_bytes_fit(&self)
        ensures
            self.bytes().len() <= usize::MAX,
    ;
}

impl DerefU8 for [u8] {
    open spec fn bytes(&self) -> Seq<u8> {
        self@
    }

    fn deref_u8(&self) -> (r: &[u8]) {
        self
    }

    proof fn lemma_bytes_fit(&self) {
        assert(self.len() == self@.len());
    }
}

impl DerefU8 for Vec<u8> {
    open spec fn bytes(&self) -> Seq<u8> {
        self@
    }

    fn deref_u8(&self) -> (r: &[u8]) {
        self.as_slice()
    }

    proof fn lemma_bytes_fit(&self) {
        assert(self.len() == self@.len());
    }
}

impl<T: DerefU8 + ?Sized> DerefU8 for &T {
    open spec fn bytes(&self) -> Seq<u8> {
        (**self).bytes()
    }

    fn deref_u8(&self) -> (r: &[u8]) {
        (**self).deref_u8()
    }

    proof fn lemma_bytes_fit(&self) {
        (**self).lemma_bytes_fit();
    }
}

impl<T: DerefU8 + ?Sized> DerefU8 for Box<T> {
    open spec fn bytes(&self) -> Seq<u8> {
        (**self).bytes()
    }

    fn deref_u8(&self) -> (r: &[u8]) {
        (**self).deref_u8()
    }

    proof fn lemma_bytes_fit(&self) {
        (**self).lemma_bytes_fit();
    }
}

impl<T: DerefU8 + ?Sized> DerefU8 for Rc<T> {
    open spec fn bytes(&self) -> Seq<u8> {
        (**self).bytes()
    }

    fn deref_u8(&self) -> (r: &[u8]) {
        (**self).deref_u8()
    }

    proof fn lemma_bytes_fit(&self) {
        (**self).lemma_bytes_fit();
    }
}

impl<T: DerefU8 + ?Sized> DerefU8 for Arc<T> {
    open spec fn bytes(&self) -> Seq<u8> {
        (**self).bytes()
    }

    fn deref_u8(&self) -> (r: &[u8]) {
        (**self).deref_u8()
    }

    proof fn lemma_bytes_fit(&self) {
        (**self).lemma_bytes_fit();
    }
}

/// Whether cloning a `T` keeps its bytes: every clone of a container shows
/// the bytes that the container shows.
pub open spec fn clone_keeps_bytes<T: Clone + DerefU8>() -> bool {
    forall|a: T, b: T| #[trigger] cloned::<T>(a, b) ==> a.bytes() == b.bytes()
}

/// Cloning a `Vec<u8>` keeps its bytes.
pub proof fn lemma_vec_clone_keeps_bytes()
    ensures
        clone_keeps_bytes::<Vec<u8>>(),
{
}

/// Cloning a reference keeps the bytes, whatever it refers to: the clone
/// refers to the same container.
pub proof fn lemma_ref_clone_keeps_bytes<'a, T: DerefU8 + ?Sized>()
    ensures
        clone_keeps_bytes::<&'a T>(),
{
}

/// Cloning a `Box<T>` keeps the bytes where cloning a `T` does.
pub proof fn lemma_box_clone_keeps_bytes<T: Clone + DerefU8>()
    requires
        clone_keeps_bytes::<T>(),
    ensures
        clone_keeps_bytes::<Box<T>>(),
{
}

} // verus!
