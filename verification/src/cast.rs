//! The erasure primitive: an opaque owned handle for one value of an
//! arbitrary concrete type, with checked typed access.
//!
//! A handle retains its value's runtime type identity only so that a
//! typed access can be checked and so that the value is dropped
//! correctly; the identity is no part of the verified model, which
//! treats a handle as opaque. An access naming the wrong type yields
//! the empty result instead of undefined behavior.

use core::any::Any;
use vstd::prelude::*;

verus! {

/// An opaque owned handle holding exactly one value of some concrete
/// type, produced by [`AsAny::asany`]. The verified model sees nothing
/// inside it; the containers of this crate move handles around and
/// reach the values only through the checked accessors of this module.
///
/// Relies on `Box<dyn core::any::Any>`: the box owns the value and
/// drops it correctly even when it is never taken back out.
#[verifier::external_body]
pub struct ErasedValue {
    inner: Box<dyn Any>,
}

/// Erasure: takes ownership of a concrete value and boxes it into an
/// opaque handle. The model keeps no connection between the handle and
/// the value it holds, so nothing is stated of the result.
///
/// Relies on `Box::new`.
#[verifier::external_body]
pub(crate) fn erase<T: 'static>(value: T) -> ErasedValue {
    ErasedValue { inner: Box::new(value) }
}

/// Checked downcast to a shared reference.
///
/// Relies on `<dyn core::any::Any>::downcast_ref`: `Some` exactly when
/// the handle's value is of type `T`, `None` otherwise. Which of the
/// two comes back is outside the verified model.
#[verifier::external_body]
pub(crate) fn deref_as<'a, T: 'static>(handle: &'a ErasedValue) -> Option<&'a T> {
    handle.inner.downcast_ref::<T>()
}

/// Checked downcast to a mutable reference.
///
/// Relies on `<dyn core::any::Any>::downcast_mut`: `Some` exactly when
/// the handle's value is of type `T`; on `None` the handle is left as
/// it was.
#[verifier::external_body]
pub(crate) fn deref_mut_as<'a, T: 'static>(handle: &'a mut ErasedValue) -> (r: Option<&'a mut T>)
    ensures
        r is None ==> *final(handle) == *old(handle),
{
    handle.inner.downcast_mut::<T>()
}

/// Checked downcast by ownership transfer.
///
/// Relies on `Box::<dyn core::any::Any>::downcast`: `Ok` with the
/// contained value exactly when it is of type `T`; on the wrong type
/// the very handle that went in comes back in `Err`.
#[verifier::external_body]
pub(crate) fn unerase_as<T: 'static>(handle: ErasedValue) -> (r: Result<T, ErasedValue>)
    ensures
        r matches Err(h) ==> h == handle,
{
    match handle.inner.downcast::<T>() {
        Ok(value) => Ok(*value),
        Err(inner) => Err(ErasedValue { inner }),
    }
}

/// Conversion of an owned value of any concrete type into an erased
/// handle. A blanket implementation covers every sized type, so the
/// containers of this crate accept arbitrary values.
pub trait AsAny: Sized {
    /// Erase `self` into an opaque owned handle.
    fn asany(self) -> ErasedValue;
}

impl<T: 'static> AsAny for T {
    fn asany(self) -> ErasedValue {
        erase(self)
    }
}

} // verus!
