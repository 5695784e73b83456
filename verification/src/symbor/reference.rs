use vstd::prelude::*;
use core::ops::Deref;

verus! {

///Safe wrapper around const reference.
///
/// This type is intended to be used only inside structures that hold the symbols of a library.
/// In other cases you can as well use normal Rust reference.
#[derive(Debug)]
pub struct Ref<'lib, T: 'lib> {
    reference: &'lib T,
}

impl<'lib, T> Clone for Ref<'lib, T> {
    fn clone(&self) -> (r: Self)
        ensures
            r@ == self@,
    {
        Ref { reference: self.reference }
    }
}

impl<'lib, T> Copy for Ref<'lib, T> {}

impl<'lib, T> View for Ref<'lib, T> {
    type V = T;

    closed spec fn view(&self) -> T {
        *self.reference
    }
}

impl<'lib, T> Ref<'lib, T> {
    /// Wraps `reference`.
    pub fn new(reference: &'lib T) -> (r: Ref<'lib, T>)
        ensures
            r@ == *reference,
    {
        Ref { reference }
    }
}

impl<'lib, T> Deref for Ref<'lib, T> {
    type Target = T;

    fn deref(&self) -> (r: &T)
        ensures
            *r == self@,
    {
        self.reference
    }
}

} // verus!
