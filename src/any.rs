use vstd::prelude::*;

verus! {

/// Run-time type tests and downcasts for every `'static` type.
pub trait AsAny {
    /// The value is of type `T`.
    fn is<T: 'static>(&self) -> bool;

    /// The value as a `T`, if it is one.
    fn downcast_ref<T: 'static>(&self) -> Option<&T>;

    /// The value as a mutable `T`, if it is one.
    fn downcast_mut<T: 'static>(&mut self) -> Option<&mut T>;
}

impl<S: 'static> AsAny for S {
    fn is<T: 'static>(&self) -> bool {
        self.downcast_ref::<T>().is_some()
    }

    fn downcast_ref<T: 'static>(&self) -> Option<&T> {
        any_ref::<S, T>(self)
    }

    fn downcast_mut<T: 'static>(&mut self) -> Option<&mut T> {
        any_mut::<S, T>(self)
    }
}

/// Relies on `<dyn Any>::downcast_ref`: `Some` exactly when `S` is `T`.
#[verifier::external_body]
fn any_ref<S: 'static, T: 'static>(s: &S) -> Option<&T> {
    (s as &dyn std::any::Any).downcast_ref::<T>()
}

/// Relies on `<dyn Any>::downcast_mut`: `Some` exactly when `S` is `T`.
#[verifier::external_body]
fn any_mut<S: 'static, T: 'static>(s: &mut S) -> Option<&mut T> {
    (s as &mut dyn std::any::Any).downcast_mut::<T>()
}

} // verus!
