//! What the Unix loader's answers (`dlopen`, `dlsym`, `dlerror`) come to.
use vstd::prelude::*;
use crate::err::{Error, ErrorKind, SystemError};
use crate::raw::common::RawResult;

verus! {

/// What a lookup comes to, from the symbol that `dlsym` gave (0 for null) and
/// the message that `dlerror` gave after it (`None` where it said nothing).
pub open spec fn spec_symbol_address(symbol: usize, error: Option<String>) -> RawResult {
    if symbol != 0 {
        Ok(symbol)
    } else {
        match error {
            Some(msg) => Err(Error::SymbolGettingError(SystemError::Custom { kind: ErrorKind::Other, text: msg })),
            None => Ok(0usize),
        }
    }
}

/// Decides what `dlsym` gave back. `symbol` is its result (0 for null); `error`
/// is what `dlerror` said after it, `None` where it said nothing. A null symbol
/// with no error is a legal null value; with an error it is
/// `Error::SymbolGettingError` carrying that message.
pub fn symbol_address(symbol: usize, error: Option<String>) -> (r: RawResult)
    ensures
        r == spec_symbol_address(symbol, error),
        symbol != 0 ==> r == Ok::<usize, Error>(symbol),
        symbol == 0 && error is None ==> r == Ok::<usize, Error>(0usize),
        symbol == 0 && error is Some ==> r == Err::<usize, Error>(
            Error::SymbolGettingError((SystemError::Custom { kind: ErrorKind::Other, text: error.unwrap() })),
        ),
{
    if symbol == 0 {
        match error {
            Some(msg) => Err(Error::SymbolGettingError(SystemError::Custom { kind: ErrorKind::Other, text: msg })),
            None => Ok(0usize),
        }
    } else {
        Ok(symbol)
    }
}

/// Decides what `dlopen` gave back: a null handle is `Error::OpeningLibraryError`
/// carrying the message of `dlerror`; any other handle is the library.
pub fn opened_handle(handle: usize, error: String) -> (r: Result<usize, Error>)
    ensures
        handle != 0 ==> r == Ok::<usize, Error>(handle),
        handle == 0 ==> r == Err::<usize, Error>(
            Error::OpeningLibraryError((SystemError::Custom { kind: ErrorKind::Other, text: error })),
        ),
{
    if handle == 0 {
        Err(Error::OpeningLibraryError(SystemError::Custom { kind: ErrorKind::Other, text: error }))
    } else {
        Ok(handle)
    }
}

/// The next call that a symbol lookup makes.
#[derive(Debug, PartialEq, Eq, Structural)]
pub enum LookupAction {
    /// Call `dlerror` and discard what it says: a message left by an earlier
    /// call must not be taken for this lookup's.
    ClearError,
    /// Call `dlsym`.
    LookUp,
    /// `dlsym` gave null: call `dlerror` to learn whether that is an error or
    /// a legal null value.
    ReadError,
    /// The lookup is over: `finish` gives its outcome.
    Done,
}

/// A lookup of one symbol with `dlsym`, call by call: first the pending error
/// message is cleared, then the symbol is looked up, then, only for a null
/// result, the error message is read.
#[derive(Debug)]
pub struct SymbolLookup {
    next: LookupAction,
    symbol: usize,
    error: Option<String>,
}

impl SymbolLookup {
    /// What the lookup does next.
    pub closed spec fn next_spec(&self) -> LookupAction {
        self.next
    }

    /// The symbol that `dlsym` gave (0 until it was called).
    pub closed spec fn symbol_spec(&self) -> usize {
        self.symbol
    }

    /// The message that `dlerror` gave after `dlsym` (`None` unless it was read).
    pub closed spec fn error_spec(&self) -> Option<String> {
        self.error
    }

    /// A lookup that has made no call yet.
    pub fn new() -> (r: SymbolLookup)
        ensures
            r.next_spec() == LookupAction::ClearError,
    {
        SymbolLookup { next: LookupAction::ClearError, symbol: 0, error: None }
    }

    /// The next call to make.
    pub fn next_action(&self) -> (r: LookupAction)
        ensures
            r == self.next_spec(),
    {
        match self.next {
            LookupAction::ClearError => LookupAction::ClearError,
            LookupAction::LookUp => LookupAction::LookUp,
            LookupAction::ReadError => LookupAction::ReadError,
            LookupAction::Done => LookupAction::Done,
        }
    }

    /// The pending message was cleared; `_stale` is what `dlerror` handed over,
    /// which belongs to an earlier call and is dropped.
    pub fn on_cleared(&mut self, _stale: Option<String>)
        requires
            old(self).next_spec() == LookupAction::ClearError,
        ensures
            final(self).next_spec() == LookupAction::LookUp,
            final(self).error_spec() is None,
    {
        self.next = LookupAction::LookUp;
        self.error = None;
    }

    /// `dlsym` gave `symbol` (0 for null): a null result is followed by a
    /// reading of the error message; any other is the outcome.
    pub fn on_looked_up(&mut self, symbol: usize)
        requires
            old(self).next_spec() == LookupAction::LookUp,
        ensures
            final(self).symbol_spec() == symbol,
            final(self).error_spec() == old(self).error_spec(),
            final(self).next_spec() == if symbol == 0 { LookupAction::ReadError } else { LookupAction::Done },
    {
        self.symbol = symbol;
        self.next = if symbol == 0 { LookupAction::ReadError } else { LookupAction::Done };
    }

    /// `dlerror` gave `error` after a null result.
    pub fn on_error_read(&mut self, error: Option<String>)
        requires
            old(self).next_spec() == LookupAction::ReadError,
        ensures
            final(self).next_spec() == LookupAction::Done,
            final(self).symbol_spec() == old(self).symbol_spec(),
            final(self).error_spec() == error,
    {
        self.error = error;
        self.next = LookupAction::Done;
    }

    /// The outcome of the lookup (`get_sym`), from what `dlsym` gave and what
    /// `dlerror` said after it; a message cleared before `dlsym` plays no part.
    pub fn finish(self) -> (r: RawResult)
        requires
            self.next_spec() == LookupAction::Done,
        ensures
            r == spec_symbol_address(self.symbol_spec(), self.error_spec()),
    {
        symbol_address(self.symbol, self.error)
    }
}

/// What the error message pending in the loader is after `dlerror` is called:
/// `dlerror` hands the message over and clears it.
pub open spec fn pending_after_dlerror(pending: Option<String>) -> Option<String> {
    None
}

/// What the error message pending in the loader is after `dlsym` is called:
/// the message of its own failure where it failed, else what was pending.
pub open spec fn pending_after_dlsym(pending: Option<String>, failure: Option<String>) -> Option<String> {
    if failure is Some {
        failure
    } else {
        pending
    }
}

/// The outcome of a lookup made in the order that `SymbolLookup` dictates, when
/// `stale` was pending beforehand, `dlsym` gave `symbol` and `failure` is the
/// message of its own failure (`None` where it did not fail).
pub open spec fn spec_lookup(stale: Option<String>, symbol: usize, failure: Option<String>) -> RawResult {
    let read = if symbol == 0 {
        pending_after_dlsym(pending_after_dlerror(stale), failure)
    } else {
        None
    };
    spec_symbol_address(symbol, read)
}

/// A message left pending by an earlier call never reaches a lookup: whatever
/// was pending, the outcome is what `dlsym` and its own failure say, and a
/// lookup in which `dlsym` did not fail succeeds (with the symbol, or with a
/// legal null value).
pub proof fn lemma_stale_error_never_reaches(stale: Option<String>, symbol: usize, failure: Option<String>)
    ensures
        spec_lookup(stale, symbol, failure) == spec_lookup(None, symbol, failure),
        spec_lookup(stale, symbol, failure) == spec_symbol_address(symbol, if symbol == 0 { failure } else { None }),
        failure is None ==> spec_lookup(stale, symbol, failure) == Ok::<usize, Error>(symbol),
{
}

} // verus!
