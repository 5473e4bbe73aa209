use vstd::prelude::*;

verus! {

/// What generated code records of a component trait: where it is declared and
/// the handle of the call site its spans use.
pub struct TraitDescription<M> {
    pub module: &'static str,
    pub trait_name: &'static str,
    pub metadata: M,
}

/// What generated code records of one method of a component trait.
pub struct MethodDescription<M> {
    pub module: &'static str,
    pub trait_name: &'static str,
    pub method_name: &'static str,
    pub metadata: M,
}

/// A component: an implementation of a component trait, owned in a box and
/// reached through it.
pub struct Component<T: ?Sized> {
    value: Box<T>,
}

impl<T: ?Sized> Component<T> {
    /// The boxed implementation.
    pub closed spec fn inner(&self) -> Box<T> {
        self.value
    }

    pub fn new<M>(value: Box<T>, _trait_description: &'static TraitDescription<M>) -> (r: Self)
        ensures
            r.inner() == value,
    {
        Component { value }
    }
}

impl<T: ?Sized> core::ops::Deref for Component<T> {
    type Target = T;

    fn deref(&self) -> (r: &T)
        ensures
            r == &*self.inner(),
    {
        &self.value
    }
}

impl<T: ?Sized> core::ops::DerefMut for Component<T> {
    fn deref_mut(&mut self) -> (r: &mut T)
        ensures
            &*r == &*old(self).inner(),
            &*final(self).inner() == &*final(r),
    {
        &mut self.value
    }
}

} // verus!
