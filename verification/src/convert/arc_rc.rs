//! Convenience conversions for `Arc` and `Rc`.
use vstd::prelude::*;
use std::rc::Rc;
use std::sync::Arc;

verus! {

/// `Arc::make_mut`: a mutable reference to the value, after which the `Arc` holds its value
/// alone: the value is the one held, or, where other pointers shared it, a clone of it; what is
/// written through the reference is what the `Arc` then holds.
#[verifier::external_body]
fn arc_make_mut<T: Clone>(this: &mut Arc<T>) -> (r: &mut T)
    ensures
        cloned::<T>(**old(this), *r),
        **final(this) == *final(r),
{
    Arc::make_mut(this)
}

/// `Rc::make_mut`: a mutable reference to the value, after which the `Rc` holds its value
/// alone: the value is the one held, or, where other pointers shared it, a clone of it; what is
/// written through the reference is what the `Rc` then holds.
#[verifier::external_body]
fn rc_make_mut<T: Clone>(this: &mut Rc<T>) -> (r: &mut T)
    ensures
        cloned::<T>(**old(this), *r),
        **final(this) == *final(r),
{
    Rc::make_mut(this)
}

/// `Arc::try_unwrap`: the value, where this is the only strong pointer to it; otherwise the
/// pointer back.
#[verifier::external_body]
fn arc_try_unwrap<T>(this: Arc<T>) -> (r: Result<T, Arc<T>>)
    ensures
        match r {
            Ok(t) => t == *this,
            Err(e) => e == this,
        },
{
    Arc::try_unwrap(this)
}

/// A mutable reference to the inner value, which the container then holds alone.
pub trait MakeMutable {
    type Inner: Clone;

    /// A mutable reference to the inner value, cloning it first where it is shared.
    fn make_mutable(&mut self) -> &mut Self::Inner;
}

impl<T: Clone> MakeMutable for Arc<T> {
    type Inner = T;

    fn make_mutable(&mut self) -> (r: &mut T)
        ensures
            cloned::<T>(**old(self), *r),
            **final(self) == *final(r),
    {
        arc_make_mut(self)
    }
}

impl<T: Clone> MakeMutable for Rc<T> {
    type Inner = T;

    fn make_mutable(&mut self) -> (r: &mut T)
        ensures
            cloned::<T>(**old(self), *r),
            **final(self) == *final(r),
    {
        rc_make_mut(self)
    }
}

/// A mutable reference to the inner value, which the container then holds alone.
pub trait InnerMutable {
    type Inner: Clone;

    /// A mutable reference to the inner value, cloning it first where it is shared.
    fn inner_mutable(&mut self) -> &mut Self::Inner;
}

impl<T: Clone> InnerMutable for Arc<T> {
    type Inner = T;

    fn inner_mutable(&mut self) -> (r: &mut T)
        ensures
            cloned::<T>(**old(self), *r),
            **final(self) == *final(r),
    {
        arc_make_mut(self)
    }
}

impl<T: Clone> InnerMutable for Rc<T> {
    type Inner = T;

    fn inner_mutable(&mut self) -> (r: &mut T)
        ensures
            cloned::<T>(**old(self), *r),
            **final(self) == *final(r),
    {
        rc_make_mut(self)
    }
}

/// The inner value, if this is its only strong pointer; otherwise a clone of it.
pub trait TakeOrCloneInner<T> {
    fn take_or_clone_inner(self) -> T;
}

impl<T: Clone> TakeOrCloneInner<T> for Arc<T> {
    fn take_or_clone_inner(self) -> (r: T)
        ensures
            cloned::<T>(*self, r),
    {
        match arc_try_unwrap(self) {
            Ok(inner) => inner,
            Err(data) => (*data).clone(),
        }
    }
}

impl<T: Clone> TakeOrCloneInner<T> for Rc<T> {
    fn take_or_clone_inner(self) -> (r: T)
        ensures
            cloned::<T>(*self, r),
    {
        match Rc::try_unwrap(self) {
            Ok(inner) => inner,
            Err(data) => (*data).clone(),
        }
    }
}

/// Implemented for every type, as itself, and for `Arc` and `Rc` as their inner value taken
/// or cloned; as a bound, it lets a type be either a value or a pointer to one.
pub trait TakeOrCloneInnerBlanket<T> {
    fn take_or_clone_inner_blanket(self) -> T;
}

impl<T> TakeOrCloneInnerBlanket<T> for T {
    /// Returns the argument unchanged.
    fn take_or_clone_inner_blanket(self) -> (r: T)
        ensures
            r == self,
    {
        self
    }
}

impl<T: Clone> TakeOrCloneInnerBlanket<T> for Arc<T> {
    fn take_or_clone_inner_blanket(self) -> (r: T)
        ensures
            cloned::<T>(*self, r),
    {
        self.take_or_clone_inner()
    }
}

impl<T: Clone> TakeOrCloneInnerBlanket<T> for Rc<T> {
    fn take_or_clone_inner_blanket(self) -> (r: T)
        ensures
            cloned::<T>(*self, r),
    {
        self.take_or_clone_inner()
    }
}

} // verus!
