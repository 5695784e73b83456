use vstd::prelude::*;
use core::marker::PhantomData;
use crate::err::Error;
use crate::symbols::from_raw::FromRawPointer;
use crate::symbols::raw::RawPointer;

verus! {

/// A symbol of a library (a function or static data) of type `T`, kept as its
/// address, which is never null when the symbol comes from `from_raw_ptr`.
#[derive(Debug)]
pub struct Symbol<'lib, T: 'lib> {
    symbol: usize,
    pd: PhantomData<&'lib T>,
}

impl<'lib, T> Clone for Symbol<'lib, T> {
    fn clone(&self) -> (r: Self)
        ensures
            r@ == self@,
    {
        Symbol { symbol: self.symbol, pd: PhantomData }
    }
}

impl<'lib, T> Copy for Symbol<'lib, T> {}

impl<'lib, T> View for Symbol<'lib, T> {
    type V = usize;

    closed spec fn view(&self) -> usize {
        self.symbol
    }
}

impl<'lib, T> Symbol<'lib, T> {
    /// The symbol at `symbol`.
    pub fn new(symbol: usize) -> (r: Symbol<'lib, T>)
        ensures
            r@ == symbol,
    {
        Symbol { symbol, pd: PhantomData }
    }

    /// The address.
    pub fn addr(&self) -> (r: usize)
        ensures
            r == self@,
    {
        self.symbol
    }
}

impl<'lib, T> FromRawPointer for Symbol<'lib, T> {
    type Error = Error;

    /// A null address is no symbol: `Error::NullSymbol`.
    fn from_raw_ptr(raw: RawPointer) -> (r: Result<Self, Error>)
        ensures
            raw@ == 0 ==> r matches Err(Error::NullSymbol),
            raw@ != 0 ==> (r matches Ok(s) && s@ == raw@),
    {
        if raw.is_null() {
            Err(Error::NullSymbol)
        } else {
            Ok(Symbol { symbol: raw.addr(), pd: PhantomData })
        }
    }
}

} // verus!
