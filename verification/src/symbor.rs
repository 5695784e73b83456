//! Symbols of the borrowing API: pointers kept as addresses, and references to
//! static data of a library.
pub mod pointer;
pub mod pointer_mut;
pub mod reference;

pub use self::pointer::Pointer;
pub use self::pointer_mut::PointerMut;
pub use self::reference::Ref;
