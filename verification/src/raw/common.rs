use vstd::prelude::*;
use crate::err::Error;

verus! {

/// What a symbol lookup gives back: the symbol's address (0 for a null value), or the error.
pub type RawResult = Result<usize, Error>;

/// The outcome of a lookup of a symbol that must not be null: a null value
/// becomes `Error::NullSymbol`; an address or an error passes through.
pub open spec fn spec_checked_symbol(raw: RawResult) -> RawResult {
    match raw {
        Ok(addr) => if addr == 0 { Err(Error::NullSymbol) } else { Ok(addr) },
        Err(e) => Err(e),
    }
}

/// The outcome of a lookup of a symbol that may be null: `Error::NullSymbol`
/// becomes the null address 0; an address or another error passes through.
pub open spec fn spec_ptr_or_null(raw: RawResult) -> RawResult {
    match raw {
        Err(Error::NullSymbol) => Ok(0usize),
        _ => raw,
    }
}

/// Whether a symbol can be read as a value of type `T`: only a type of the size
/// of a pointer can hold the symbol's address (`Library::symbol_cstr` panics on
/// any other type).
pub fn fits_symbol<T>() -> (r: bool)
    ensures
        r == (vstd::layout::size_of::<T>() == vstd::layout::size_of::<usize>()),
{
    core::mem::size_of::<T>() == core::mem::size_of::<usize>()
}

/// Decides what a lookup of a symbol that must not be null gives back
/// (`Library::symbol_cstr`): a null value is `Error::NullSymbol`.
pub fn checked_symbol(raw: RawResult) -> (r: RawResult)
    ensures
        r == spec_checked_symbol(raw),
        raw matches Ok(addr) && addr != 0 ==> r == raw,
        raw == Ok::<usize, Error>(0usize) ==> r == Err::<usize, Error>(Error::NullSymbol),
        raw is Err ==> r == raw,
{
    match raw {
        Ok(addr) => if addr == 0 {
            Err(Error::NullSymbol)
        } else {
            Ok(addr)
        },
        Err(e) => Err(e),
    }
}

/// Decides what a lookup of a symbol that may be null gives back
/// (`symbor::Library::ptr_or_null_cstr`): `Error::NullSymbol` becomes the null address.
pub fn ptr_or_null(raw: RawResult) -> (r: RawResult)
    ensures
        r == spec_ptr_or_null(raw),
        raw is Ok ==> r == raw,
        raw matches Err(Error::NullSymbol) ==> r == Ok::<usize, Error>(0usize),
        raw matches Err(e) && !(e is NullSymbol) ==> r == raw,
{
    match raw {
        Err(Error::NullSymbol) => Ok(0usize),
        _ => raw,
    }
}

/// Looking a symbol up as one that may be null undoes the null check of a
/// lookup of one that must not be: the loader's own result comes back, unless
/// the loader itself reported `Error::NullSymbol`.
pub proof fn lemma_ptr_or_null_undoes_null_check(raw: RawResult)
    requires
        !(raw matches Err(Error::NullSymbol)),
    ensures
        spec_ptr_or_null(spec_checked_symbol(raw)) == raw,
{
}

/// A lookup of a symbol that must not be null hands the loader's address on
/// unchanged: every non-null address comes back as it is; only the null address
/// becomes `Error::NullSymbol`, and a loader error is passed on as it is.
pub proof fn lemma_checked_symbol_keeps_addresses(raw: RawResult)
    ensures
        forall|a: usize| a != 0 ==> #[trigger] spec_checked_symbol(Ok::<usize, Error>(a)) == Ok::<usize, Error>(a),
        spec_checked_symbol(Ok::<usize, Error>(0usize)) == Err::<usize, Error>(Error::NullSymbol),
        raw is Err ==> spec_checked_symbol(raw) == raw,
{
}

/// A lookup of a symbol that may be null hands every address, null included,
/// on unchanged; `Error::NullSymbol` becomes the null address and any other
/// error is passed on.
pub proof fn lemma_ptr_or_null_keeps_addresses(raw: RawResult)
    ensures
        forall|a: usize| #[trigger] spec_ptr_or_null(Ok::<usize, Error>(a)) == Ok::<usize, Error>(a),
        spec_ptr_or_null(Err::<usize, Error>(Error::NullSymbol)) == Ok::<usize, Error>(0usize),
        raw matches Err(e) && !(e is NullSymbol) ==> spec_ptr_or_null(raw) == raw,
{
}

/// A checked symbol is never null.
pub proof fn lemma_checked_symbol_not_null(raw: RawResult)
    ensures
        spec_checked_symbol(raw) matches Ok(addr) ==> addr != 0,
        spec_checked_symbol(raw) is Err <==> (raw is Err || raw == Ok::<usize, Error>(0usize)),
{
}

///Container for information about overlapping symbol from dynamic load library.
#[derive(Debug, Clone)]
pub struct OverlappingSymbol {
    ///Overlapping symbol name
    pub name: String,
    /// Overlapping symbol address
    pub addr: usize,
}

/// Container for information about an address obtained from dynamic load library.
#[derive(Debug, Clone)]
pub struct AddressInfo {
    /// Path to the library that is the source of this symbol.
    pub dll_path: String,
    /// Base address of the library that is the source of this symbol.
    pub dll_base_addr: usize,
    /// Information about the overlapping symbol from the dynamic load library.
    ///
    /// The information is optional since the given address may not overlap with any symbol.
    pub overlapping_symbol: Option<OverlappingSymbol>,
}

/// What `dladdr` reported for an address that belongs to a loaded library.
#[derive(Debug, Clone)]
pub struct DlInfo {
    /// The path of the library (`dli_fname`).
    pub fname: String,
    /// The base address of the library (`dli_fbase`).
    pub fbase: usize,
    /// The name of the nearest symbol, `None` where `dli_sname` was null.
    pub sname: Option<String>,
    /// The address of the nearest symbol (`dli_saddr`), 0 where it was null.
    pub saddr: usize,
}

///Obtains information about an address previously loaded from a dynamic load library.
pub struct AddressInfoObtainer {}

impl AddressInfoObtainer {
    /// Makes an obtainer. (On Windows the caller also joins the symbol
    /// handler's users, see `windows::ObtainerCount`.)
    pub fn new() -> AddressInfoObtainer {
        AddressInfoObtainer {}
    }

    /// Builds the information about an address from what `dladdr` reported:
    /// `None` where it found no library, which is `Error::AddrNotMatchingDll`
    /// (of kind `NotFound`, with an empty message). The overlapping symbol is
    /// given where both its name and its address are known.
    pub fn obtain(&self, lookup: Option<DlInfo>) -> (r: Result<AddressInfo, Error>)
        ensures
            match lookup {
                None => (r matches Err(Error::AddrNotMatchingDll(crate::err::SystemError::Custom { kind, text }))
                    && kind == crate::err::ErrorKind::NotFound && text@ == Seq::<char>::empty()),
                Some(info) => (r matches Ok(ai) && ai.dll_path == info.fname
                    && ai.dll_base_addr == info.fbase
                    && (match ai.overlapping_symbol {
                        None => info.saddr == 0 || info.sname is None,
                        Some(os) => info.saddr != 0 && info.sname == Some(os.name)
                            && os.addr == info.saddr,
                    })),
            },
    {
        match lookup {
            None => Err(Error::AddrNotMatchingDll(crate::err::SystemError::Custom {
                kind: crate::err::ErrorKind::NotFound,
                text: String::new(),
            })),
            Some(info) => {
                let os = if info.saddr == 0 {
                    None
                } else {
                    match info.sname {
                        None => None,
                        Some(name) => Some(OverlappingSymbol { name, addr: info.saddr }),
                    }
                };
                Ok(AddressInfo { dll_path: info.fname, dll_base_addr: info.fbase, overlapping_symbol: os })
            },
        }
    }
}

} // verus!
