use vstd::prelude::*;
use core::marker::PhantomData;

verus! {

/// The untyped address of a symbol of a library, as the loader gave it (0 for null).
#[derive(Debug)]
pub struct RawPointer<'lib> {
    pointer: usize,
    pd: PhantomData<&'lib ()>,
}

impl<'lib> Clone for RawPointer<'lib> {
    fn clone(&self) -> (r: Self)
        ensures
            r@ == self@,
    {
        RawPointer { pointer: self.pointer, pd: PhantomData }
    }
}

impl<'lib> Copy for RawPointer<'lib> {}

impl<'lib> View for RawPointer<'lib> {
    type V = usize;

    closed spec fn view(&self) -> usize {
        self.pointer
    }
}

impl<'lib> RawPointer<'lib> {
    /// The raw pointer at `pointer`.
    pub fn new(pointer: usize) -> (r: RawPointer<'lib>)
        ensures
            r@ == pointer,
    {
        RawPointer { pointer, pd: PhantomData }
    }

    /// The address.
    pub fn addr(&self) -> (r: usize)
        ensures
            r == self@,
    {
        self.pointer
    }

    /// Whether the address is null.
    pub fn is_null(&self) -> (r: bool)
        ensures
            r == (self@ == 0),
    {
        self.pointer == 0
    }
}

} // verus!
