use vstd::prelude::*;
use core::marker::PhantomData;
use crate::err::Error;
use crate::raw::common::RawResult;

verus! {

/// A const pointer to data of a library, which may be null, kept as its address.
#[derive(Debug)]
pub struct Pointer<'lib, T: 'lib> {
    pointer: usize,
    pd: PhantomData<&'lib T>,
}

impl<'lib, T> Clone for Pointer<'lib, T> {
    fn clone(&self) -> (r: Self)
        ensures
            r@ == self@,
    {
        Pointer { pointer: self.pointer, pd: PhantomData }
    }
}

impl<'lib, T> Copy for Pointer<'lib, T> {}

impl<'lib, T> View for Pointer<'lib, T> {
    type V = usize;

    closed spec fn view(&self) -> usize {
        self.pointer
    }
}

impl<'lib, T> Pointer<'lib, T> {
    /// The pointer to `pointer`.
    pub fn new(pointer: usize) -> (r: Pointer<'lib, T>)
        ensures
            r@ == pointer,
    {
        Pointer { pointer, pd: PhantomData }
    }

    /// Converts what a symbol lookup gave: an address (null too) is a pointer;
    /// an error stays that error.
    pub fn from_raw_result(raw_result: RawResult) -> (r: Result<Self, Error>)
        ensures
            match raw_result {
                Ok(addr) => (r matches Ok(p) && p@ == addr),
                Err(e) => r == Err::<Self, Error>(e),
            },
    {
        match raw_result {
            Ok(ptr) => Ok(Pointer { pointer: ptr, pd: PhantomData }),
            Err(err) => Err(err),
        }
    }

    /// The address.
    pub fn addr(&self) -> (r: usize)
        ensures
            r == self@,
    {
        self.pointer
    }

    /// Whether the pointer is null.
    pub fn is_null(&self) -> (r: bool)
        ensures
            r == (self@ == 0),
    {
        self.pointer == 0
    }
}

} // verus!
