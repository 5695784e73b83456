//! Symbols of the first API, kept as the addresses that the loader gave.
pub mod from_raw;
pub mod pointer;
pub mod raw;
pub mod symbol;

pub use self::from_raw::FromRawPointer;
pub use self::pointer::Pointer;
pub use self::raw::RawPointer;
pub use self::symbol::Symbol;
