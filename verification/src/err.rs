use vstd::prelude::*;

verus! {

/// The kinds of I/O error that this library reports.
#[derive(Debug, Clone, Copy, PartialEq, Eq, Structural)]
pub enum ErrorKind {
    /// The address did not belong to any loaded library.
    NotFound,
    /// Any other failure; the message says which.
    Other,
}

/// An error reported by the operating system or its loader.
#[derive(Debug, Clone)]
pub enum SystemError {
    /// A numeric error code of the platform, with the text that the platform gives for it.
    Os { code: i32, text: String },
    /// An error made of a kind and a message (such as the text of `dlerror`).
    Custom { kind: ErrorKind, text: String },
}

impl SystemError {
    /// The text that describes the error.
    pub open spec fn spec_text(&self) -> Seq<char> {
        match self {
            SystemError::Os { text, .. } => text@,
            SystemError::Custom { text, .. } => text@,
        }
    }

    /// The text that describes the error.
    pub fn text(&self) -> (r: &String)
        ensures
            r@ == self.spec_text(),
    {
        match self {
            SystemError::Os { text, .. } => text,
            SystemError::Custom { text, .. } => text,
        }
    }
}

/// A name could not become a C string: it holds a nul byte.
#[derive(Debug, Clone)]
pub struct NulError {
    /// The index of the first nul byte.
    pub position: usize,
    /// The bytes that were given.
    pub bytes: Vec<u8>,
}

///This is a library-specific error that is returned by all calls to all APIs.
#[derive(Debug, Clone)]
pub enum Error {
    ///Provided string could not be coverted into a C string because it contained null
    /// character.
    NullCharacter(NulError),
    ///The library could not be opened.
    OpeningLibraryError(SystemError),
    ///The symbol could not be obtained.
    SymbolGettingError(SystemError),
    ///Value of the symbol was null.
    NullSymbol,
    ///Address could not be matched to a dynamic link library
    AddrNotMatchingDll(SystemError),
}

/// The short description of each kind of error.
pub open spec fn spec_description(e: Error) -> Seq<char> {
    match e {
        Error::NullCharacter(_) => "String had a null character"@,
        Error::OpeningLibraryError(_) => "Could not open library"@,
        Error::SymbolGettingError(_) => "Could not obtain symbol from the library"@,
        Error::NullSymbol => "The symbol is NULL"@,
        Error::AddrNotMatchingDll(_) => "Address does not match any dynamic link library"@,
    }
}

/// The full message of an error: its description, followed by the system's
/// message where the loader gave one.
pub open spec fn spec_message(e: Error) -> Seq<char> {
    match e {
        Error::OpeningLibraryError(s) => spec_description(e) + ": "@ + s.spec_text(),
        Error::SymbolGettingError(s) => spec_description(e) + ": "@ + s.spec_text(),
        _ => spec_description(e),
    }
}

impl Error {
    /// The short description of the error.
    pub fn description(&self) -> (r: &'static str)
        ensures
            r@ == spec_description(*self),
    {
        match self {
            Error::NullCharacter(_) => "String had a null character",
            Error::OpeningLibraryError(_) => "Could not open library",
            Error::SymbolGettingError(_) => "Could not obtain symbol from the library",
            Error::NullSymbol => "The symbol is NULL",
            Error::AddrNotMatchingDll(_) => "Address does not match any dynamic link library",
        }
    }

    /// The error that caused this one: only a name with a nul byte has one.
    pub fn cause(&self) -> (r: Option<&NulError>)
        ensures
            match *self {
                Error::NullCharacter(n) => r == Some(&n),
                _ => r is None,
            },
    {
        match self {
            Error::NullCharacter(val) => Some(val),
            _ => None,
        }
    }

    /// The full message of the error, as it is displayed.
    pub fn message(&self) -> (r: String)
        ensures
            r@ == spec_message(*self),
    {
        let mut s = String::from_str(self.description());
        match self {
            Error::OpeningLibraryError(msg) => {
                s.append(": ");
                s.append(msg.text().as_str());
            },
            Error::SymbolGettingError(msg) => {
                s.append(": ");
                s.append(msg.text().as_str());
            },
            _ => {},
        }
        s
    }
}

impl From<NulError> for Error {
    fn from(val: NulError) -> (r: Error) {
        Error::NullCharacter(val)
    }
}

impl vstd::std_specs::convert::FromSpecImpl<NulError> for Error {
    open spec fn obeys_from_spec() -> bool {
        true
    }

    open spec fn from_spec(v: NulError) -> Error {
        Error::NullCharacter(v)
    }
}

} // verus!
