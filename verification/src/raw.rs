//! The low-level API: what a library handle, a symbol lookup and an address lookup
//! give back, decided from what the platform loader reported.
pub mod common;
pub mod unix;
pub mod windows;

pub use self::common::{AddressInfo, AddressInfoObtainer, OverlappingSymbol};
