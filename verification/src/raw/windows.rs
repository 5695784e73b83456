//! What the Windows loader's answers come to, and the two counters that the
//! Windows implementation shares between threads: the process error mode, and
//! the users of the symbol handler.
use vstd::prelude::*;
use vstd::string::*;
use crate::err::{Error, ErrorKind, SystemError};
use crate::raw::common::{AddressInfo, OverlappingSymbol, RawResult};

verus! {

/// The error mode set while a library is being opened: the application handles
/// every error, so that no dialog box is shown to the user.
pub const ERROR_MODE: u32 = 1;

/// The error code of a call that the system does not implement.
pub const ERROR_CALL_NOT_IMPLEMENTED: u32 = 120;

/// Builds the error for the code that `GetLastError` gave (`get_win_error`).
pub fn win_error(code: u32, os_text: String) -> (r: SystemError)
    ensures
        code != 0 ==> r == (SystemError::Os { code: code as i32, text: os_text }),
        code == 0 ==> (r matches SystemError::Custom { kind, text } && kind == ErrorKind::Other
            && text@ == "Could not obtain information about the error"@),
{
    if code == 0 {
        SystemError::Custom {
            kind: ErrorKind::Other,
            text: String::from_str("Could not obtain information about the error"),
        }
    } else {
        SystemError::Os { code: code as i32, text: os_text }
    }
}

/// Decides what `GetProcAddress` gave back (`get_sym`): a null address is
/// `Error::SymbolGettingError` with `failure`, the error of `GetLastError`.
pub fn proc_address(symbol: usize, failure: SystemError) -> (r: RawResult)
    ensures
        symbol != 0 ==> r == Ok::<usize, Error>(symbol),
        symbol == 0 ==> r == Err::<usize, Error>(Error::SymbolGettingError(failure)),
{
    if symbol == 0 {
        Err(Error::SymbolGettingError(failure))
    } else {
        Ok(symbol)
    }
}

/// Decides what `GetModuleHandleExW` gave back (`open_self`): `succeeded` is
/// whether it returned nonzero, `handle` the module it wrote.
pub fn module_handle(succeeded: bool, handle: usize, failure: SystemError) -> (r: Result<usize, Error>)
    ensures
        succeeded ==> r == Ok::<usize, Error>(handle),
        !succeeded ==> r == Err::<usize, Error>(Error::OpeningLibraryError(failure)),
{
    if succeeded {
        Ok(handle)
    } else {
        Err(Error::OpeningLibraryError(failure))
    }
}

/// Decides what `LoadLibraryW` gave back (`open_lib`): a null module is
/// `Error::OpeningLibraryError` with `failure`.
pub fn loaded_library(handle: usize, failure: SystemError) -> (r: Result<usize, Error>)
    ensures
        handle != 0 ==> r == Ok::<usize, Error>(handle),
        handle == 0 ==> r == Err::<usize, Error>(Error::OpeningLibraryError(failure)),
{
    if handle == 0 {
        Err(Error::OpeningLibraryError(failure))
    } else {
        Ok(handle)
    }
}

/// What undoes an error mode set while a library was opened.
#[derive(Debug, PartialEq, Eq, Structural)]
pub enum ErrorModeGuard {
    /// The thread's error mode was changed: restore this previous value.
    ThreadPreviousValue(u32),
    /// The error mode already was `ERROR_MODE`: nothing to restore.
    DoNothing,
    /// The process error mode is shared: leave it, and let the last leaver restore it.
    Process,
}

/// What `SetThreadErrorMode` led to.
#[derive(Debug)]
pub enum ThreadModeOutcome {
    /// The thread's mode was set; this guard undoes it.
    Guard(ErrorModeGuard),
    /// The call is not implemented on this system: the process-wide mode is to
    /// be used, now and from now on.
    UseProcessMode,
    /// The call failed for another reason: the library cannot be opened.
    Failed(Error),
}

/// Decides what `SetThreadErrorMode(ERROR_MODE, &mut previous)` led to.
/// `succeeded` is whether it returned nonzero, `previous` the mode it reported,
/// `last_error` the code of `GetLastError` and `os_text` the system's text for it.
pub fn thread_mode_outcome(succeeded: bool, previous: u32, last_error: u32, os_text: String) -> (r: ThreadModeOutcome)
    ensures
        succeeded && previous == ERROR_MODE ==> r == ThreadModeOutcome::Guard(ErrorModeGuard::DoNothing),
        succeeded && previous != ERROR_MODE ==> r == ThreadModeOutcome::Guard(ErrorModeGuard::ThreadPreviousValue(previous)),
        !succeeded && last_error == ERROR_CALL_NOT_IMPLEMENTED ==> r == ThreadModeOutcome::UseProcessMode,
        !succeeded && last_error != ERROR_CALL_NOT_IMPLEMENTED ==> r == ThreadModeOutcome::Failed(
            Error::OpeningLibraryError((SystemError::Os { code: last_error as i32, text: os_text })),
        ),
{
    if succeeded {
        if previous == ERROR_MODE {
            ThreadModeOutcome::Guard(ErrorModeGuard::DoNothing)
        } else {
            ThreadModeOutcome::Guard(ErrorModeGuard::ThreadPreviousValue(previous))
        }
    } else if last_error == ERROR_CALL_NOT_IMPLEMENTED {
        ThreadModeOutcome::UseProcessMode
    } else {
        ThreadModeOutcome::Failed(Error::OpeningLibraryError(SystemError::Os { code: last_error as i32, text: os_text }))
    }
}

/// Which error mode a thread that opens a library sets: its own, until the
/// system turns out not to implement that call; from then on, the process-wide
/// mode, for good.
#[derive(Debug)]
pub struct ErrorModeChoice {
    /// The thread's own mode cannot be set: the process-wide mode is used.
    pub use_process_mode: bool,
}

impl ErrorModeChoice {
    /// Nothing has been tried yet: the thread's own mode is tried first.
    pub fn new() -> (r: ErrorModeChoice)
        ensures
            !r.use_process_mode,
    {
        ErrorModeChoice { use_process_mode: false }
    }

    /// Whether the thread's own mode is to be tried (`SetThreadErrorMode`).
    pub fn tries_thread_mode(&self) -> (r: bool)
        ensures
            r == !self.use_process_mode,
    {
        !self.use_process_mode
    }

    /// Decides what `SetThreadErrorMode(ERROR_MODE, &mut previous)` led to, as
    /// `thread_mode_outcome` does, and remembers for good that the process-wide
    /// mode is to be used where the call is not implemented.
    pub fn after_thread_attempt(&mut self, succeeded: bool, previous: u32, last_error: u32, os_text: String) -> (r: ThreadModeOutcome)
        requires
            !old(self).use_process_mode,
        ensures
            final(self).use_process_mode == (!succeeded && last_error == ERROR_CALL_NOT_IMPLEMENTED),
            (final(self).use_process_mode) == (r == ThreadModeOutcome::UseProcessMode),
            succeeded && previous == ERROR_MODE ==> r == ThreadModeOutcome::Guard(ErrorModeGuard::DoNothing),
            succeeded && previous != ERROR_MODE ==> r == ThreadModeOutcome::Guard(ErrorModeGuard::ThreadPreviousValue(previous)),
            !succeeded && last_error != ERROR_CALL_NOT_IMPLEMENTED ==> r == ThreadModeOutcome::Failed(
                Error::OpeningLibraryError((SystemError::Os { code: last_error as i32, text: os_text })),
            ),
    {
        let r = thread_mode_outcome(succeeded, previous, last_error, os_text);
        if !succeeded && last_error == ERROR_CALL_NOT_IMPLEMENTED {
            self.use_process_mode = true;
        }
        r
    }
}

/// What to do when a guard is released.
#[derive(Debug, PartialEq, Eq, Structural)]
pub enum RestoreAction {
    /// Nothing.
    Nothing,
    /// Set the thread's error mode back to this value.
    ThreadMode(u32),
    /// Set the process error mode back to this value.
    ProcessMode(u32),
}

/// The process-wide error mode, shared by all threads that open libraries at
/// once: how many of them hold it, and the mode that was in force before the first.
#[derive(Debug)]
pub struct ProcessErrorMode {
    /// The number of guards that hold the process mode.
    pub count: u32,
    /// The mode that `SetErrorMode` replaced when the first guard set it.
    pub previous: u32,
}

/// The state after a thread enters the process error mode, and its guard.
/// `set_previous` is what `SetErrorMode(ERROR_MODE)` returned where it was
/// called, which is when no guard held the mode.
pub open spec fn spec_acquire(s: ProcessErrorMode, set_previous: Option<u32>) -> (ProcessErrorMode, ErrorModeGuard) {
    if s.count == 0 {
        let p: u32 = set_previous.unwrap();
        if p == ERROR_MODE {
            (ProcessErrorMode { count: 0, previous: p }, ErrorModeGuard::DoNothing)
        } else {
            (ProcessErrorMode { count: 1, previous: p }, ErrorModeGuard::Process)
        }
    } else {
        (ProcessErrorMode { count: (s.count + 1) as u32, previous: s.previous }, ErrorModeGuard::Process)
    }
}

/// The state after a guard is released, and what is to be restored.
pub open spec fn spec_release(s: ProcessErrorMode, g: ErrorModeGuard) -> (ProcessErrorMode, RestoreAction) {
    match g {
        ErrorModeGuard::DoNothing => (s, RestoreAction::Nothing),
        ErrorModeGuard::ThreadPreviousValue(p) => (s, RestoreAction::ThreadMode(p)),
        ErrorModeGuard::Process => {
            let c: u32 = (s.count - 1) as u32;
            (
                ProcessErrorMode { count: c, previous: s.previous },
                if c == 0 { RestoreAction::ProcessMode(s.previous) } else { RestoreAction::Nothing },
            )
        },
    }
}

impl ProcessErrorMode {
    /// No thread holds the process error mode.
    pub fn new() -> (r: ProcessErrorMode)
        ensures
            r.count == 0,
            r.previous == 0,
    {
        ProcessErrorMode { count: 0, previous: 0 }
    }

    /// Whether a thread that enters now must set the process mode itself: only
    /// the first one does.
    pub fn needs_set(&self) -> (r: bool)
        ensures
            r == (self.count == 0),
    {
        self.count == 0
    }

    /// A thread that opens a library enters the process error mode (where the
    /// thread's own mode cannot be set). `set_previous` is what
    /// `SetErrorMode(ERROR_MODE)` returned, given exactly when `needs_set` said so.
    pub fn acquire(&mut self, set_previous: Option<u32>) -> (r: ErrorModeGuard)
        requires
            (old(self).count == 0) == (set_previous is Some),
            old(self).count < u32::MAX,
        ensures
            (*final(self), r) == spec_acquire(*old(self), set_previous),
            old(self).count == 0 && set_previous == Some(ERROR_MODE) ==> r == ErrorModeGuard::DoNothing
                && final(self).count == 0 && final(self).previous == ERROR_MODE,
            old(self).count == 0 && set_previous != Some(ERROR_MODE) ==> r == ErrorModeGuard::Process
                && final(self).count == 1 && Some(final(self).previous) == set_previous,
            old(self).count > 0 ==> r == ErrorModeGuard::Process && final(self).count == old(self).count + 1
                && final(self).previous == old(self).previous,
    {
        if self.count == 0 {
            let p: u32 = set_previous.unwrap();
            self.previous = p;
            if p == ERROR_MODE {
                return ErrorModeGuard::DoNothing;
            }
        }
        self.count = self.count + 1;
        ErrorModeGuard::Process
    }

    /// A guard is released once its library was opened: a thread guard restores
    /// the thread's mode, and the last holder of the process mode restores the
    /// mode that was in force before the first.
    pub fn release(&mut self, guard: &ErrorModeGuard) -> (r: RestoreAction)
        requires
            *guard == ErrorModeGuard::Process ==> old(self).count > 0,
        ensures
            (*final(self), r) == spec_release(*old(self), *guard),
            *guard == ErrorModeGuard::DoNothing ==> r == RestoreAction::Nothing && *final(self) == *old(self),
            *guard matches ErrorModeGuard::ThreadPreviousValue(p) ==> r == RestoreAction::ThreadMode(p)
                && *final(self) == *old(self),
            *guard == ErrorModeGuard::Process ==> final(self).count == old(self).count - 1
                && final(self).previous == old(self).previous
                && r == if old(self).count == 1 {
                    RestoreAction::ProcessMode(old(self).previous)
                } else {
                    RestoreAction::Nothing
                },
    {
        match guard {
            ErrorModeGuard::DoNothing => RestoreAction::Nothing,
            ErrorModeGuard::ThreadPreviousValue(p) => RestoreAction::ThreadMode(*p),
            ErrorModeGuard::Process => {
                self.count = self.count - 1;
                if self.count == 0 {
                    RestoreAction::ProcessMode(self.previous)
                } else {
                    RestoreAction::Nothing
                }
            },
        }
    }
}

/// Releasing a guard that changed no process state restores exactly what it
/// remembers: a thread guard puts back the thread's previous mode `p`, whatever
/// it was, and a guard for a mode already in force restores nothing; neither
/// touches the shared state.
pub proof fn lemma_thread_guards_restore_exactly(s: ProcessErrorMode)
    ensures
        forall|p: u32| #[trigger] spec_release(s, ErrorModeGuard::ThreadPreviousValue(p)) == (s, RestoreAction::ThreadMode(p)),
        spec_release(s, ErrorModeGuard::DoNothing) == (s, RestoreAction::Nothing),
{
}

/// Releasing a process guard lowers the count by one and keeps the remembered
/// mode; the release that empties the count restores that mode, and any other
/// restores nothing.
pub proof fn lemma_process_release(s: ProcessErrorMode)
    requires
        s.count > 0,
    ensures
        spec_release(s, ErrorModeGuard::Process).0.count == s.count - 1,
        spec_release(s, ErrorModeGuard::Process).0.previous == s.previous,
        spec_release(s, ErrorModeGuard::Process).1 == if s.count == 1 {
            RestoreAction::ProcessMode(s.previous)
        } else {
            RestoreAction::Nothing
        },
{
}

/// Entering the process mode: the first thread remembers the mode that
/// `SetErrorMode` replaced and holds the mode unless it already was
/// `ERROR_MODE`; any later thread adds one holder and changes nothing else.
pub proof fn lemma_acquire(s: ProcessErrorMode, p: u32)
    requires
        s.count < u32::MAX,
    ensures
        s.count == 0 ==> spec_acquire(s, Some(p)).0.previous == p,
        s.count == 0 ==> (spec_acquire(s, Some(p)).1 == ErrorModeGuard::DoNothing <==> p == ERROR_MODE),
        s.count == 0 ==> spec_acquire(s, Some(p)).0.count == if p == ERROR_MODE { 0nat } else { 1nat },
        s.count > 0 ==> spec_acquire(s, None) == (ProcessErrorMode { count: (s.count + 1) as u32, previous: s.previous }, ErrorModeGuard::Process),
{
}

/// The state after `n` more threads enter the process error mode while it is held.
pub open spec fn acquire_times(s: ProcessErrorMode, n: nat) -> ProcessErrorMode
    decreases n,
{
    if n == 0 {
        s
    } else {
        spec_acquire(acquire_times(s, (n - 1) as nat), None).0
    }
}

/// The state after `n` holders of the process error mode release their guards.
pub open spec fn release_times(s: ProcessErrorMode, n: nat) -> ProcessErrorMode
    decreases n,
{
    if n == 0 {
        s
    } else {
        spec_release(release_times(s, (n - 1) as nat), ErrorModeGuard::Process).0
    }
}

/// One guard, taken and released, leaves the count as it was. Where no guard
/// held the mode before, its release restores the mode that was in force,
/// unless that mode already was `ERROR_MODE` (then nothing was changed and
/// nothing is restored); otherwise it restores nothing.
pub proof fn lemma_guard_undone(s: ProcessErrorMode, p: u32)
    requires
        s.count < u32::MAX,
    ensures
        ({
            let set_previous = if s.count == 0 { Some(p) } else { None };
            let (s1, g) = spec_acquire(s, set_previous);
            let (s2, action) = spec_release(s1, g);
            &&& s2.count == s.count
            &&& s2.previous == if s.count == 0 { p } else { s.previous }
            &&& action == if s.count == 0 && p != ERROR_MODE {
                RestoreAction::ProcessMode(p)
            } else {
                RestoreAction::Nothing
            }
        }),
{
}

/// The guards held at once share the mode: while it is held, the count is the
/// number of holders and the remembered mode is the one in force before the first.
pub proof fn lemma_acquire_times(s: ProcessErrorMode, n: nat)
    requires
        s.count > 0,
        s.count + n < u32::MAX,
    ensures
        acquire_times(s, n) == (ProcessErrorMode { count: (s.count + n) as u32, previous: s.previous }),
    decreases n,
{
    if n > 0 {
        lemma_acquire_times(s, (n - 1) as nat);
    }
}

/// Releasing guards lowers the count one by one and keeps the remembered mode.
pub proof fn lemma_release_times(s: ProcessErrorMode, n: nat)
    requires
        n <= s.count,
    ensures
        release_times(s, n) == (ProcessErrorMode { count: (s.count - n) as u32, previous: s.previous }),
    decreases n,
{
    if n > 0 {
        lemma_release_times(s, (n - 1) as nat);
    }
}

/// Only the first of the threads that open libraries at once sets the process
/// error mode, and only the last one restores it: for `n` guards taken from an
/// idle state where `p` was in force, no release but the last restores
/// anything, and the last restores `p`.
pub proof fn lemma_first_sets_last_restores(s: ProcessErrorMode, p: u32, n: nat)
    requires
        s.count == 0,
        p != ERROR_MODE,
        1 <= n < u32::MAX,
    ensures
        spec_acquire(s, Some(p)).1 == ErrorModeGuard::Process,
        acquire_times(spec_acquire(s, Some(p)).0, (n - 1) as nat) == (ProcessErrorMode { count: n as u32, previous: p }),
        forall|k: nat| k < n - 1 ==> #[trigger] spec_release(
            release_times(ProcessErrorMode { count: n as u32, previous: p }, k),
            ErrorModeGuard::Process,
        ).1 == RestoreAction::Nothing,
        spec_release(release_times(ProcessErrorMode { count: n as u32, previous: p }, (n - 1) as nat), ErrorModeGuard::Process)
            == (ProcessErrorMode { count: 0, previous: p }, RestoreAction::ProcessMode(p)),
{
    let s1 = spec_acquire(s, Some(p)).0;
    lemma_acquire_times(s1, (n - 1) as nat);
    let t = ProcessErrorMode { count: n as u32, previous: p };
    assert forall|k: nat| k < n - 1 implies #[trigger] spec_release(release_times(t, k), ErrorModeGuard::Process).1
        == RestoreAction::Nothing by {
        lemma_release_times(t, k);
    }
    lemma_release_times(t, (n - 1) as nat);
}

/// How many address-information obtainers exist; the symbol handler is set up
/// by the first and cleaned up by the last.
#[derive(Debug)]
pub struct ObtainerCount {
    /// The number of live obtainers.
    pub count: usize,
}

/// The count after an obtainer is made, and whether the symbol handler is to be set up.
pub open spec fn spec_init(count: usize) -> (usize, bool) {
    ((count + 1) as usize, count == 0)
}

/// The count after an obtainer is dropped, and whether the symbol handler is to be cleaned up.
pub open spec fn spec_cleanup(count: usize) -> (usize, bool) {
    ((count - 1) as usize, count == 1)
}

impl ObtainerCount {
    /// No obtainer exists.
    pub fn new() -> (r: ObtainerCount)
        ensures
            r.count == 0,
    {
        ObtainerCount { count: 0 }
    }

    /// An obtainer is made (`addr_info_init`); the result says whether the symbol
    /// handler must be set up now (`SymInitializeW`), which is for the first one.
    pub fn init(&mut self) -> (r: bool)
        requires
            old(self).count < usize::MAX,
        ensures
            (final(self).count, r) == spec_init(old(self).count),
            final(self).count == old(self).count + 1,
            r == (old(self).count == 0),
    {
        let first = self.count == 0;
        self.count = self.count + 1;
        first
    }

    /// An obtainer is dropped (`addr_info_cleanup`); the result says whether the
    /// symbol handler must be cleaned up now (`SymCleanup`), which is for the last one.
    pub fn cleanup(&mut self) -> (r: bool)
        requires
            old(self).count > 0,
        ensures
            (final(self).count, r) == spec_cleanup(old(self).count),
            final(self).count == old(self).count - 1,
            r == (final(self).count == 0),
    {
        self.count = self.count - 1;
        self.count == 0
    }
}

/// Making an obtainer counts it: the count goes up by one, and the symbol
/// handler is set up exactly when none lived before; dropping one counts it
/// down, and the handler is cleaned up exactly when none is left.
pub proof fn lemma_obtainers_counted(c: usize)
    ensures
        c < usize::MAX ==> spec_init(c).0 == c + 1,
        spec_init(c).1 <==> c == 0,
        c > 0 ==> spec_cleanup(c).0 == c - 1,
        c > 0 ==> (spec_cleanup(c).1 <==> c - 1 == 0),
{
}

/// An obtainer made and dropped leaves the count as it was, and it sets up the
/// symbol handler exactly when it also cleans it up: when no other obtainer lives.
pub proof fn lemma_obtainer_undone(c: usize)
    requires
        c < usize::MAX,
    ensures
        spec_cleanup(spec_init(c).0).0 == c,
        spec_init(c).1 == spec_cleanup(spec_init(c).0).1,
        spec_init(c).1 == (c == 0),
{
}

/// A `"::"` starts at index `i` of `s`.
pub open spec fn is_sep_at(s: Seq<char>, i: int) -> bool {
    0 <= i && i + 1 < s.len() && s[i] == ':' && s[i + 1] == ':'
}

/// The first `"::"` of `s` starts at index `i`.
pub open spec fn is_first_sep(s: Seq<char>, i: int) -> bool {
    is_sep_at(s, i) && forall|j: int| 0 <= j < i ==> !#[trigger] is_sep_at(s, j)
}

/// A symbol name without its namespace: what follows the first `"::"`, or the
/// whole name where there is none.
pub open spec fn spec_strip_namespace(s: Seq<char>) -> Seq<char> {
    if exists|i: int| is_first_sep(s, i) {
        s.skip((choose|i: int| is_first_sep(s, i)) + 2)
    } else {
        s
    }
}

/// Strips the namespace off a symbol name that the symbol handler gave
/// (`addr_info_obtain`): the name after the first `"::"`, or the whole name.
pub fn strip_namespace(name: &str) -> (r: String)
    ensures
        r@ == spec_strip_namespace(name@),
{
    let n: usize = name.unicode_len();
    let mut i: usize = 0;
    while n > 0 && i < n - 1
        invariant
            n == name@.len(),
            i <= n,
            forall|j: int| 0 <= j < i ==> !#[trigger] is_sep_at(name@, j),
        decreases n - i,
    {
        if name.get_char(i) == ':' && name.get_char(i + 1) == ':' {
            let rest = name.substring_char(i + 2, n);
            proof {
                let s = name@;
                assert(is_first_sep(s, i as int));
                let c: int = choose|c: int| is_first_sep(s, c);
                assert(is_first_sep(s, c));
                if c < i {
                    assert(is_sep_at(s, c));
                } else if c > i {
                    assert(is_sep_at(s, i as int));
                }
                assert(c == i);
                assert(rest@ =~= s.skip(i + 2));
            }
            return String::from_str(rest);
        }
        i = i + 1;
    }
    proof {
        let s = name@;
        assert forall|k: int| !is_first_sep(s, k) by {
            if is_first_sep(s, k) {
                assert(is_sep_at(s, k));
            }
        }
    }
    String::from_str(name)
}

/// Decides what `SymGetModuleBase64` gave back: a base of 0 means that the
/// address belongs to no module, which is `Error::AddrNotMatchingDll` with `failure`.
pub fn module_base_result(module_base: u64, failure: SystemError) -> (r: Result<u64, Error>)
    ensures
        module_base != 0 ==> r == Ok::<u64, Error>(module_base),
        module_base == 0 ==> r == Err::<u64, Error>(Error::AddrNotMatchingDll(failure)),
{
    if module_base == 0 {
        Err(Error::AddrNotMatchingDll(failure))
    } else {
        Ok(module_base)
    }
}

/// Decides what `GetModuleFileNameW` gave back: a length of 0 is
/// `Error::AddrNotMatchingDll` with `failure`.
pub fn module_path_result(path_len: u32, failure: SystemError) -> (r: Result<u32, Error>)
    ensures
        path_len != 0 ==> r == Ok::<u32, Error>(path_len),
        path_len == 0 ==> r == Err::<u32, Error>(Error::AddrNotMatchingDll(failure)),
{
    if path_len == 0 {
        Err(Error::AddrNotMatchingDll(failure))
    } else {
        Ok(path_len)
    }
}

/// Builds the information about `addr` from what the symbol handler reported:
/// the module's base and path, and, where `SymFromAddrW` found a symbol, its name
/// and `displacement`, how far `addr` lies past the symbol's start. The
/// overlapping symbol's address is the symbol's own start, `addr - displacement`;
/// its name loses its namespace.
pub fn win_address_info(
    addr: usize,
    module_base: u64,
    dll_path: String,
    symbol_name: Option<String>,
    displacement: usize,
) -> (r: AddressInfo)
    ensures
        r.dll_path == dll_path,
        r.dll_base_addr == module_base as usize,
        match symbol_name {
            None => r.overlapping_symbol is None,
            Some(n) => (r.overlapping_symbol matches Some(os)
                && os.addr == vstd::wrapping::usize_specs::wrapping_sub(addr, displacement)
                && (displacement <= addr ==> os.addr == addr - displacement)
                && os.name@ == spec_strip_namespace(n@)),
        },
{
    let os = match symbol_name {
        None => None,
        Some(n) => Some(OverlappingSymbol { name: strip_namespace(n.as_str()), addr: addr.wrapping_sub(displacement) }),
    };
    AddressInfo { dll_path, dll_base_addr: module_base as usize, overlapping_symbol: os }
}

} // verus!
