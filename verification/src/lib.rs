//! Opening dynamic link libraries and reading their symbols, with the rules that
//! decide every outcome stated and proved: how names become C strings, when a
//! looked-up symbol is an error, a null value or an address, how address
//! information is assembled, and how the shared error-mode and symbol-handler
//! counters move.
//!
//! The calls into the platform loader (`dlopen`, `dlsym`, `dladdr`,
//! `LoadLibraryW`, ...) are made by the caller, which hands their results to the
//! functions here as plain values: addresses as `usize`, messages as `String`.
pub mod cstr;
pub mod err;
pub mod raw;
pub mod symbols;
pub mod symbor;
pub mod utils;
pub mod wrapper;

pub use err::Error;
