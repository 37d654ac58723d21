use vstd::prelude::*;

verus! {

/// A type that reserves one of its own values to stand for absence.
///
/// An implementer picks the sentinel `NULL` and a predicate `is_null` that
/// holds of it; every value on which `is_null` is false is a live value.
/// `is_null` need not be equality with `NULL`, but an implementer proves that
/// `NULL` itself is null.
pub trait Nullable: Sized {
    /// The value that stands for absence.
    const NULL: Self;

    /// Whether `self` counts as absent.
    spec fn spec_is_null(&self) -> bool;

    /// Returns `true` if the value is null.
    fn is_null(&self) -> (r: bool)
        ensures
            r == self.spec_is_null(),
    ;

    /// The sentinel itself counts as absent.
    proof fn lemma_null_is_null()
        ensures
            Self::NULL.spec_is_null(),
    ;
}

/// The absent case of `Option` is the sentinel.
impl<T> Nullable for Option<T> {
    const NULL: Self = None;

    open spec fn spec_is_null(&self) -> bool {
        self is None
    }

    fn is_null(&self) -> (r: bool) {
        self.is_none()
    }

    proof fn lemma_null_is_null() {
    }
}

/// `i8::MAX` is the sentinel; every other value is live.
impl Nullable for i8 {
    const NULL: Self = i8::MAX;

    open spec fn spec_is_null(&self) -> bool {
        *self == i8::MAX
    }

    fn is_null(&self) -> (r: bool) {
        *self == i8::MAX
    }

    proof fn lemma_null_is_null() {
    }
}

/// `i16::MAX` is the sentinel; every other value is live.
impl Nullable for i16 {
    const NULL: Self = i16::MAX;

    open spec fn spec_is_null(&self) -> bool {
        *self == i16::MAX
    }

    fn is_null(&self) -> (r: bool) {
        *self == i16::MAX
    }

    proof fn lemma_null_is_null() {
    }
}

/// `i32::MAX` is the sentinel; every other value is live.
impl Nullable for i32 {
    const NULL: Self = i32::MAX;

    open spec fn spec_is_null(&self) -> bool {
        *self == i32::MAX
    }

    fn is_null(&self) -> (r: bool) {
        *self == i32::MAX
    }

    proof fn lemma_null_is_null() {
    }
}

/// `i64::MAX` is the sentinel; every other value is live.
impl Nullable for i64 {
    const NULL: Self = i64::MAX;

    open spec fn spec_is_null(&self) -> bool {
        *self == i64::MAX
    }

    fn is_null(&self) -> (r: bool) {
        *self == i64::MAX
    }

    proof fn lemma_null_is_null() {
    }
}

/// `i128::MAX` is the sentinel; every other value is live.
impl Nullable for i128 {
    const NULL: Self = i128::MAX;

    open spec fn spec_is_null(&self) -> bool {
        *self == i128::MAX
    }

    fn is_null(&self) -> (r: bool) {
        *self == i128::MAX
    }

    proof fn lemma_null_is_null() {
    }
}

/// `isize::MAX` is the sentinel; every other value is live.
impl Nullable for isize {
    const NULL: Self = isize::MAX;

    open spec fn spec_is_null(&self) -> bool {
        *self == isize::MAX
    }

    fn is_null(&self) -> (r: bool) {
        *self == isize::MAX
    }

    proof fn lemma_null_is_null() {
    }
}

/// `u8::MAX` is the sentinel; every other value is live.
impl Nullable for u8 {
    const NULL: Self = u8::MAX;

    open spec fn spec_is_null(&self) -> bool {
        *self == u8::MAX
    }

    fn is_null(&self) -> (r: bool) {
        *self == u8::MAX
    }

    proof fn lemma_null_is_null() {
    }
}

/// `u16::MAX` is the sentinel; every other value is live.
impl Nullable for u16 {
    const NULL: Self = u16::MAX;

    open spec fn spec_is_null(&self) -> bool {
        *self == u16::MAX
    }

    fn is_null(&self) -> (r: bool) {
        *self == u16::MAX
    }

    proof fn lemma_null_is_null() {
    }
}

/// `u32::MAX` is the sentinel; every other value is live.
impl Nullable for u32 {
    const NULL: Self = u32::MAX;

    open spec fn spec_is_null(&self) -> bool {
        *self == u32::MAX
    }

    fn is_null(&self) -> (r: bool) {
        *self == u32::MAX
    }

    proof fn lemma_null_is_null() {
    }
}

/// `u64::MAX` is the sentinel; every other value is live.
impl Nullable for u64 {
    const NULL: Self = u64::MAX;

    open spec fn spec_is_null(&self) -> bool {
        *self == u64::MAX
    }

    fn is_null(&self) -> (r: bool) {
        *self == u64::MAX
    }

    proof fn lemma_null_is_null() {
    }
}

/// `u128::MAX` is the sentinel; every other value is live.
impl Nullable for u128 {
    const NULL: Self = u128::MAX;

    open spec fn spec_is_null(&self) -> bool {
        *self == u128::MAX
    }

    fn is_null(&self) -> (r: bool) {
        *self == u128::MAX
    }

    proof fn lemma_null_is_null() {
    }
}

/// `usize::MAX` is the sentinel; every other value is live.
impl Nullable for usize {
    const NULL: Self = usize::MAX;

    open spec fn spec_is_null(&self) -> bool {
        *self == usize::MAX
    }

    fn is_null(&self) -> (r: bool) {
        *self == usize::MAX
    }

    proof fn lemma_null_is_null() {
    }
}

} // verus!
