use vstd::prelude::*;
use core::marker::PhantomData;
use crate::err::Error;
use crate::symbols::from_raw::FromRawPointer;
use crate::symbols::raw::RawPointer;

verus! {

/// A const pointer to data of a library, kept as its address (0 for null).
#[derive(Debug)]
pub struct Pointer<'lib, T: 'lib> {
    pointer: usize,
    pd: PhantomData<&'lib T>,
}

impl<'lib, T> Clone for Pointer<'lib, T> {
    fn clone(&self) -> (r: Self)
        ensures
            r@ == self@,
    {
        Pointer { pointer: self.pointer, pd: PhantomData }
    }
}

impl<'lib, T> Copy for Pointer<'lib, T> {}

impl<'lib, T> View for Pointer<'lib, T> {
    type V = usize;

    closed spec fn view(&self) -> usize {
        self.pointer
    }
}

impl<'lib, T> Pointer<'lib, T> {
    /// The pointer to `pointer`.
    pub fn new(pointer: usize) -> (r: Pointer<'lib, T>)
        ensures
            r@ == pointer,
    {
        Pointer { pointer, pd: PhantomData }
    }

    /// The address.
    pub fn addr(&self) -> (r: usize)
        ensures
            r == self@,
    {
        self.pointer
    }

    /// Whether the pointer is null.
    pub fn is_null(&self) -> (r: bool)
        ensures
            r == (self@ == 0),
    {
        self.pointer == 0
    }
}

impl<'lib, T> FromRawPointer for Pointer<'lib, T> {
    type Error = Error;

    /// Any address, null too, is a pointer.
    fn from_raw_ptr(raw: RawPointer) -> (r: Result<Self, Error>)
        ensures
            r matches Ok(p) && p@ == raw@,
    {
        Ok(Pointer { pointer: raw.addr(), pd: PhantomData })
    }
}

} // verus!
