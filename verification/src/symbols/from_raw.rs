use vstd::prelude::*;
use crate::symbols::raw::RawPointer;

verus! {

/// Conversion of the raw address of a symbol into a typed symbol.
pub trait FromRawPointer where Self: Sized {
    /// What a failed conversion gives.
    type Error;

    /// Converts the raw address into this kind of symbol.
    fn from_raw_ptr(raw: RawPointer) -> Result<Self, Self::Error>;
}

impl<'lib> FromRawPointer for RawPointer<'lib> {
    type Error = crate::err::Error;

    /// Any address, null too, is a raw pointer.
    fn from_raw_ptr(raw: RawPointer) -> (r: Result<Self, crate::err::Error>)
        ensures
            r matches Ok(p) && p@ == raw@,
    {
        Ok(RawPointer::new(raw.addr()))
    }
}

} // verus!
