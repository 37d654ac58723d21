use vstd::prelude::*;

use crate::nullable::Nullable;
use vstd::std_specs::convert::FromSpec;
use vstd::std_specs::iter::IteratorSpec;

verus! {

/// An optional that takes exactly the room of one `T`.
///
/// No tag is stored: the container is `None` when the stored value is null
/// under [`Nullable`], and `Some` of the stored value otherwise.
#[derive(Debug, PartialEq, Eq, Clone, Copy, Hash, PartialOrd, Ord)]
pub struct IOption<T: Nullable>(T);

impl<T: Nullable> View for IOption<T> {
    type V = Option<T>;

    /// The optional that the slot stands for.
    open spec fn view(&self) -> Option<T> {
        if self.raw().spec_is_null() {
            None
        } else {
            Some(self.raw())
        }
    }
}

impl<T: Nullable> IOption<T> {
    /// The value held in the slot, null or not.
    pub closed spec fn raw(&self) -> T {
        self.0
    }

    /// Stores `value` as it is: `None` if it is null, `Some(value)` otherwise.
    pub fn new(value: T) -> (r: Self)
        ensures
            r.raw() == value,
    {
        IOption(value)
    }

    /// The empty container, holding `T::NULL`.
    pub fn none() -> (r: Self)
        ensures
            r.raw() == T::NULL,
            r@ is None,
    {
        proof {
            T::lemma_null_is_null();
        }
        IOption(T::NULL)
    }

    /// Whether the stored value is null.
    pub fn is_none(&self) -> (r: bool)
        ensures
            r == (self@ is None),
    {
        self.0.is_null()
    }

    /// Whether the stored value is live.
    pub fn is_some(&self) -> (r: bool)
        ensures
            r == (self@ is Some),
    {
        !self.is_none()
    }

    /// The stored value, which is `T::NULL` or another null value when empty.
    pub fn into_inner(self) -> (r: T)
        ensures
            r == self.raw(),
    {
        self.0
    }

    /// Borrows the stored value when present.
    pub fn as_ref(&self) -> (r: Option<&T>)
        ensures
            self@ is None ==> r is None,
            self@ is Some ==> r == Some(&self.raw()),
    {
        if self.is_none() {
            None
        } else {
            Some(&self.0)
        }
    }

    /// Borrows the stored value mutably when present. Writing a null value
    /// through the borrow leaves the container empty.
    pub fn as_mut(&mut self) -> (r: Option<&mut T>)
        ensures
            old(self)@ is None ==> r is None && *final(self) == *old(self),
            old(self)@ is Some ==> r is Some,
            (match r {
                Some(b) => *b == old(self).raw() && final(self).raw() == *final(b),
                None => true,
            }),
    {
        if self.is_none() {
            None
        } else {
            Some(&mut self.0)
        }
    }

    /// Applies `f` to the value when present. `f` is not called on an empty
    /// container, and a null result of `f` gives an empty container.
    pub fn map<U, F>(self, f: F) -> (r: IOption<U>)
        where
            U: Nullable,
            F: FnOnce(T) -> U,
        requires
            self@ is Some ==> f.requires((self.raw(),)),
        ensures
            self@ is None ==> r.raw() == U::NULL && r@ is None,
            self@ is Some ==> f.ensures((self.raw(),), r.raw()),
    {
        if self.is_none() {
            IOption::none()
        } else {
            IOption::new(f(self.into_inner()))
        }
    }

    /// `f` of the value when present, else `default`.
    pub fn map_or<U, F>(self, default: U, f: F) -> (r: U)
        where
            U: Nullable,
            F: FnOnce(T) -> U,
        requires
            self@ is Some ==> f.requires((self.raw(),)),
        ensures
            self@ is None ==> r == default,
            self@ is Some ==> f.ensures((self.raw(),), r),
    {
        if self.is_none() {
            default
        } else {
            f(self.into_inner())
        }
    }

    /// `f` of the value when present, else `default()`.
    pub fn map_or_else<U, D, F>(self, default: D, f: F) -> (r: U)
        where
            U: Nullable,
            D: FnOnce() -> U,
            F: FnOnce(T) -> U,
        requires
            self@ is None ==> default.requires(()),
            self@ is Some ==> f.requires((self.raw(),)),
        ensures
            self@ is None ==> default.ensures((), r),
            self@ is Some ==> f.ensures((self.raw(),), r),
    {
        if self.is_none() {
            default()
        } else {
            f(self.into_inner())
        }
    }

    /// `Ok` of the value when present, else `Err(err)`.
    pub fn ok_or<E>(self, err: E) -> (r: Result<T, E>)
        ensures
            self@ is None ==> r == Err::<T, E>(err),
            self@ is Some ==> r == Ok::<T, E>(self.raw()),
    {
        if self.is_none() {
            Err(err)
        } else {
            Ok(self.into_inner())
        }
    }

    /// `Ok` of the value when present, else `Err(err())`.
    pub fn ok_or_else<E, F>(self, err: F) -> (r: Result<T, E>)
        where
            F: FnOnce() -> E,
        requires
            self@ is None ==> err.requires(()),
        ensures
            self@ is None ==> r is Err && err.ensures((), r->Err_0),
            self@ is Some ==> r == Ok::<T, E>(self.raw()),
    {
        if self.is_none() {
            Err(err())
        } else {
            Ok(self.into_inner())
        }
    }

    /// Empty when `self` is empty, else `other`.
    pub fn and<U>(self, other: IOption<U>) -> (r: IOption<U>)
        where
            U: Nullable,
        ensures
            self@ is None ==> r.raw() == U::NULL && r@ is None,
            self@ is Some ==> r == other,
    {
        if self.is_none() {
            IOption::none()
        } else {
            other
        }
    }

    /// Empty when `self` is empty (without calling `f`), else `f` of the value.
    pub fn and_then<U, F>(self, f: F) -> (r: IOption<U>)
        where
            U: Nullable,
            F: FnOnce(T) -> IOption<U>,
        requires
            self@ is Some ==> f.requires((self.raw(),)),
        ensures
            self@ is None ==> r.raw() == U::NULL && r@ is None,
            self@ is Some ==> f.ensures((self.raw(),), r),
    {
        if self.is_none() {
            IOption::none()
        } else {
            f(self.into_inner())
        }
    }

    /// `self` when present, else `other`.
    pub fn or(self, other: IOption<T>) -> (r: IOption<T>)
        ensures
            self@ is None ==> r == other,
            self@ is Some ==> r == self,
    {
        if self.is_none() {
            other
        } else {
            self
        }
    }

    /// `self` when present (without calling `f`), else `f()`.
    pub fn or_else<F>(self, f: F) -> (r: IOption<T>)
        where
            F: FnOnce() -> IOption<T>,
        requires
            self@ is None ==> f.requires(()),
        ensures
            self@ is None ==> f.ensures((), r),
            self@ is Some ==> r == self,
    {
        if self.is_none() {
            f()
        } else {
            self
        }
    }

    /// The value. Unwrapping an empty container is a caller's error: it is
    /// ruled out by the precondition rather than reported at run time.
    pub fn unwrap(self) -> (r: T)
        requires
            self@ is Some,
        ensures
            r == self.raw(),
    {
        self.into_inner()
    }

    /// The value when present, else `default`.
    pub fn unwrap_or(self, default: T) -> (r: T)
        ensures
            self@ is None ==> r == default,
            self@ is Some ==> r == self.raw(),
    {
        if self.is_none() {
            default
        } else {
            self.into_inner()
        }
    }

    /// The value when present (without calling `f`), else `f()`.
    pub fn unwrap_or_else<F>(self, f: F) -> (r: T)
        where
            F: FnOnce() -> T,
        requires
            self@ is None ==> f.requires(()),
        ensures
            self@ is None ==> f.ensures((), r),
            self@ is Some ==> r == self.raw(),
    {
        if self.is_none() {
            f()
        } else {
            self.into_inner()
        }
    }

    /// The value, as `unwrap`; `msg` names what was expected to be present.
    /// As with `unwrap`, an empty container is ruled out by the precondition.
    pub fn expect(self, msg: &str) -> (r: T)
        requires
            self@ is Some,
        ensures
            r == self.raw(),
    {
        self.into_inner()
    }

    /// An iterator that yields a borrow of the value when present, and
    /// nothing when empty.
    pub fn iter(&self) -> (r: core::option::IntoIter<&T>)
        ensures
            r.obeys_prophetic_iter_laws(),
            IteratorSpec::remaining(&r) == (if self@ is Some {
                seq![&self.raw()]
            } else {
                Seq::<&T>::empty()
            }),
    {
        option_into_iter(self.as_ref())
    }

    /// An iterator that yields a mutable borrow of the value when present,
    /// and nothing when empty.
    pub fn iter_mut(&mut self) -> (r: core::option::IntoIter<&mut T>)
        ensures
            r.obeys_prophetic_iter_laws(),
            IteratorSpec::remaining(&r).len() == (if old(self)@ is Some {
                1int
            } else {
                0int
            }),
            old(self)@ is Some ==> *IteratorSpec::remaining(&r)[0] == old(self).raw()
                && final(self).raw() == *final(IteratorSpec::remaining(&r)[0]),
            old(self)@ is None ==> *final(self) == *old(self),
    {
        option_into_iter(self.as_mut())
    }

    /// Keeps the value when it is present and `predicate` holds of it; else
    /// empty. `predicate` is not called on an empty container.
    pub fn filter<P>(self, predicate: P) -> (r: IOption<T>)
        where
            P: FnOnce(&T) -> bool,
        requires
            self@ is Some ==> predicate.requires((&self.raw(),)),
        ensures
            self@ is None ==> r.raw() == T::NULL && r@ is None,
            self@ is Some ==> {
                ||| predicate.ensures((&self.raw(),), true) && r == self && r@ == self@
                ||| predicate.ensures((&self.raw(),), false) && r.raw() == T::NULL && r@ is None
            },
    {
        proof {
            T::lemma_null_is_null();
        }
        let inner = self.into_inner();
        if inner.is_null() || !predicate(&inner) {
            IOption::new(T::NULL)
        } else {
            IOption::new(inner)
        }
    }

    /// Moves the contents out and leaves the container empty.
    pub fn take(&mut self) -> (r: IOption<T>)
        ensures
            r == *old(self),
            final(self).raw() == T::NULL,
            final(self)@ is None,
    {
        let mut r = IOption::none();
        core::mem::swap(self, &mut r);
        r
    }

    /// Stores `value` and hands back what was there before.
    pub fn replace(&mut self, value: T) -> (r: IOption<T>)
        ensures
            r == *old(self),
            final(self).raw() == value,
    {
        let mut r = IOption::new(value);
        core::mem::swap(self, &mut r);
        r
    }

    /// Stores `value` if the container is empty, then borrows the stored value.
    /// Afterwards the container holds a value, so an empty container takes
    /// only a value that is not null.
    pub fn get_or_insert(&mut self, value: T) -> (r: &mut T)
        requires
            old(self)@ is Some || !value.spec_is_null(),
        ensures
            old(self)@ is None ==> *r == value,
            old(self)@ is Some ==> *r == old(self).raw(),
            !(*r).spec_is_null(),
            final(self).raw() == *final(r),
    {
        if self.is_none() {
            *self = IOption::new(value);
        }
        &mut self.0
    }

    /// Stores `f()` if the container is empty, then borrows the stored value.
    /// `f` is not called when a value is present; when the container is
    /// empty, `f` must give a value that is not null.
    pub fn get_or_insert_with<F>(&mut self, f: F) -> (r: &mut T)
        where
            F: FnOnce() -> T,
        requires
            old(self)@ is None ==> f.requires(()),
            old(self)@ is Some || forall|v: T| f.ensures((), v) ==> !v.spec_is_null(),
        ensures
            old(self)@ is None ==> f.ensures((), *r),
            old(self)@ is Some ==> *r == old(self).raw(),
            !(*r).spec_is_null(),
            final(self).raw() == *final(r),
    {
        if self.is_none() {
            *self = IOption::new(f());
        }
        &mut self.0
    }

    /// Stores `T::default()` if the container is empty, then borrows the
    /// stored value. An empty container takes the default only where it is
    /// not null.
    pub fn get_or_insert_default(&mut self) -> (r: &mut T)
        where
            T: Default,
        requires
            old(self)@ is Some || forall|d: T| T::default.ensures((), d) ==> !d.spec_is_null(),
        ensures
            old(self)@ is None ==> T::default.ensures((), *r),
            old(self)@ is Some ==> *r == old(self).raw(),
            !(*r).spec_is_null(),
            final(self).raw() == *final(r),
    {
        if self.is_none() {
            *self = IOption::new(T::default());
        }
        &mut self.0
    }
}

impl<T: Nullable> Default for IOption<T> {
    /// The empty container.
    fn default() -> (r: Self)
        ensures
            r.raw() == T::NULL,
            r@ is None,
    {
        IOption::none()
    }
}

impl<T: Nullable> From<Option<T>> for IOption<T> {
    /// `Some(v)` stores `v`; `None` stores `T::NULL`.
    fn from(option: Option<T>) -> (r: Self) {
        match option {
            Some(value) => IOption::new(value),
            None => IOption::none(),
        }
    }
}

impl<T: Nullable> vstd::std_specs::convert::FromSpecImpl<Option<T>> for IOption<T> {
    open spec fn obeys_from_spec() -> bool {
        true
    }

    closed spec fn from_spec(v: Option<T>) -> Self {
        match v {
            Some(value) => IOption(value),
            None => IOption(T::NULL),
        }
    }
}

impl<T: Nullable> From<IOption<T>> for Option<T> {
    /// `None` when the container is empty, else `Some` of its value.
    fn from(ioption: IOption<T>) -> (r: Self) {
        if ioption.is_none() {
            None
        } else {
            Some(ioption.into_inner())
        }
    }
}

impl<T: Nullable> vstd::std_specs::convert::FromSpecImpl<IOption<T>> for Option<T> {
    open spec fn obeys_from_spec() -> bool {
        true
    }

    open spec fn from_spec(v: IOption<T>) -> Self {
        v@
    }
}

impl<T: Nullable> From<T> for IOption<T> {
    /// The same as `IOption::new`.
    fn from(value: T) -> (r: Self) {
        IOption::new(value)
    }
}

impl<T: Nullable> vstd::std_specs::convert::FromSpecImpl<T> for IOption<T> {
    open spec fn obeys_from_spec() -> bool {
        true
    }

    closed spec fn from_spec(v: T) -> Self {
        IOption(v)
    }
}

/// What each conversion into a container stores: `from(v)` stores `v`, as
/// `new` does; `from(Some(v))` stores `v` and `from(None)` stores `T::NULL`.
pub proof fn lemma_from_stores<T: Nullable>(v: T, o: Option<T>)
    ensures
        <IOption<T> as FromSpec<T>>::from_spec(v).raw() == v,
        <IOption<T> as FromSpec<Option<T>>>::from_spec(o).raw() == (match o {
            Some(x) => x,
            None => T::NULL,
        }),
{
}

/// Turning a container into an `Option` and back gives the same container
/// when it holds a value, and the empty container holding `T::NULL` when
/// it does not.
pub proof fn lemma_round_trip_through_option<T: Nullable>(x: IOption<T>)
    ensures
        ({
            let back = <IOption<T> as FromSpec<Option<T>>>::from_spec(
                <Option<T> as FromSpec<IOption<T>>>::from_spec(x),
            );
            &&& back@ == x@
            &&& x@ is Some ==> back == x
            &&& x@ is None ==> back.raw() == T::NULL
        }),
{
    T::lemma_null_is_null();
}

/// Turning an `Option` whose value, if any, is not null into a container and
/// back gives the same `Option`.
pub proof fn lemma_round_trip_from_option<T: Nullable>(o: Option<T>)
    requires
        o matches Some(v) ==> !v.spec_is_null(),
    ensures
        <Option<T> as FromSpec<IOption<T>>>::from_spec(
            <IOption<T> as FromSpec<Option<T>>>::from_spec(o),
        ) == o,
{
    T::lemma_null_is_null();
}

#[verifier::external_type_specification]
#[verifier::external_body]
#[verifier::reject_recursive_types(A)]
pub struct ExOptionIntoIter<A>(core::option::IntoIter<A>);

/// Relies on `Option::into_iter`: an iterator that yields the option's item,
/// if there is one, and then ends.
#[verifier::external_body]
fn option_into_iter<A>(o: Option<A>) -> (r: core::option::IntoIter<A>)
    ensures
        r.obeys_prophetic_iter_laws(),
        IteratorSpec::remaining(&r) == (match o {
            Some(a) => seq![a],
            None => Seq::<A>::empty(),
        }),
{
    o.into_iter()
}

} // verus!
