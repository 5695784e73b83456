use dlopen::err::{ErrorKind, SystemError};
use dlopen::raw::windows::{
    loaded_library, module_base_result, module_handle, module_path_result, proc_address, strip_namespace,
    thread_mode_outcome, win_address_info, ErrorModeChoice, win_error, ErrorModeGuard, ObtainerCount, ProcessErrorMode,
    RestoreAction, ThreadModeOutcome, ERROR_CALL_NOT_IMPLEMENTED, ERROR_MODE,
};
use dlopen::Error;

fn os(code: i32) -> SystemError {
    SystemError::Os { code, text: format!("os error {}", code) }
}

#[test]
fn last_error_codes() {
    match win_error(0, "unused".to_string()) {
        SystemError::Custom { kind, text } => {
            assert_eq!(kind, ErrorKind::Other);
            assert_eq!(text, "Could not obtain information about the error");
        }
        _ => panic!("wrong error"),
    }
    match win_error(126, "The specified module could not be found.".to_string()) {
        SystemError::Os { code, text } => {
            assert_eq!(code, 126);
            assert_eq!(text, "The specified module could not be found.");
        }
        _ => panic!("wrong error"),
    }
}

#[test]
fn loader_outcomes() {
    assert_eq!(proc_address(0x10, os(127)).unwrap(), 0x10);
    assert!(matches!(proc_address(0, os(127)), Err(Error::SymbolGettingError(SystemError::Os { code: 127, .. }))));
    assert_eq!(module_handle(true, 0x20, os(1)).unwrap(), 0x20);
    assert!(matches!(module_handle(false, 0x20, os(1)), Err(Error::OpeningLibraryError(_))));
    assert_eq!(loaded_library(0x30, os(126)).unwrap(), 0x30);
    assert!(matches!(loaded_library(0, os(126)), Err(Error::OpeningLibraryError(SystemError::Os { code: 126, .. }))));
}

#[test]
fn thread_error_mode_outcomes() {
    assert!(matches!(
        thread_mode_outcome(true, ERROR_MODE, 0, String::new()),
        ThreadModeOutcome::Guard(ErrorModeGuard::DoNothing)
    ));
    assert!(matches!(
        thread_mode_outcome(true, 0, 0, String::new()),
        ThreadModeOutcome::Guard(ErrorModeGuard::ThreadPreviousValue(0))
    ));
    assert!(matches!(
        thread_mode_outcome(false, 0, ERROR_CALL_NOT_IMPLEMENTED, String::new()),
        ThreadModeOutcome::UseProcessMode
    ));
    match thread_mode_outcome(false, 0, 5, "Access is denied.".to_string()) {
        ThreadModeOutcome::Failed(Error::OpeningLibraryError(SystemError::Os { code, text })) => {
            assert_eq!(code, 5);
            assert_eq!(text, "Access is denied.");
        }
        _ => panic!("wrong outcome"),
    }
}

#[test]
fn first_guard_sets_last_guard_restores() {
    let mut state = ProcessErrorMode::new();
    assert!(state.needs_set());
    let g1 = state.acquire(Some(0x8003));
    assert_eq!(g1, ErrorModeGuard::Process);
    assert!(!state.needs_set());
    let g2 = state.acquire(None);
    let g3 = state.acquire(None);
    assert_eq!(state.count, 3);
    assert_eq!(state.release(&g2), RestoreAction::Nothing);
    assert_eq!(state.release(&g1), RestoreAction::Nothing);
    assert_eq!(state.release(&g3), RestoreAction::ProcessMode(0x8003));
    assert_eq!(state.count, 0);
    assert!(state.needs_set());
}

#[test]
fn mode_already_in_force_is_left_alone() {
    let mut state = ProcessErrorMode::new();
    let g = state.acquire(Some(ERROR_MODE));
    assert_eq!(g, ErrorModeGuard::DoNothing);
    assert_eq!(state.count, 0);
    assert_eq!(state.release(&g), RestoreAction::Nothing);
    assert_eq!(state.count, 0);
}

#[test]
fn thread_guard_restores_the_thread_mode() {
    let mut state = ProcessErrorMode::new();
    assert_eq!(state.release(&ErrorModeGuard::ThreadPreviousValue(7)), RestoreAction::ThreadMode(7));
    assert_eq!(state.count, 0);
}

#[test]
fn symbol_handler_users() {
    let mut c = ObtainerCount::new();
    assert!(c.init());
    assert!(!c.init());
    assert_eq!(c.count, 2);
    assert!(!c.cleanup());
    assert!(c.cleanup());
    assert_eq!(c.count, 0);
}

#[test]
fn namespaces_are_stripped() {
    assert_eq!(strip_namespace("example::c_fun_add_two"), "c_fun_add_two");
    assert_eq!(strip_namespace("a::b::c"), "b::c");
    assert_eq!(strip_namespace("plain"), "plain");
    assert_eq!(strip_namespace(":x:y"), ":x:y");
    assert_eq!(strip_namespace("::"), "");
    assert_eq!(strip_namespace(""), "");
    assert_eq!(strip_namespace("é::ü"), "ü");
}

#[test]
fn module_lookups() {
    assert_eq!(module_base_result(0x1_0000, os(487)).unwrap(), 0x1_0000);
    assert!(matches!(module_base_result(0, os(487)), Err(Error::AddrNotMatchingDll(_))));
    assert_eq!(module_path_result(12, os(1)).unwrap(), 12);
    assert!(matches!(module_path_result(0, os(1)), Err(Error::AddrNotMatchingDll(_))));
}

#[test]
fn windows_address_info() {
    let ai = win_address_info(0x1234, 0x1000, "C:\\lib\\example.dll".to_string(), Some("example::rust_i32".to_string()), 0);
    assert_eq!(ai.dll_path, "C:\\lib\\example.dll");
    assert_eq!(ai.dll_base_addr, 0x1000);
    let os = ai.overlapping_symbol.unwrap();
    assert_eq!(os.name, "rust_i32");
    assert_eq!(os.addr, 0x1234);
    let ai = win_address_info(0x1234, 0x1000, "x.dll".to_string(), None, 0);
    assert!(ai.overlapping_symbol.is_none());
}

#[test]
fn symbol_address_is_the_symbol_start() {
    let ai = win_address_info(0x1234, 0x1000, "x.dll".to_string(), Some("c_fun_add_two".to_string()), 0x34);
    let os = ai.overlapping_symbol.unwrap();
    assert_eq!(os.addr, 0x1200);
    assert_eq!(os.name, "c_fun_add_two");
}

#[test]
fn process_mode_is_chosen_for_good() {
    let mut choice = ErrorModeChoice::new();
    assert!(choice.tries_thread_mode());
    assert!(matches!(
        choice.after_thread_attempt(true, 0, 0, String::new()),
        ThreadModeOutcome::Guard(ErrorModeGuard::ThreadPreviousValue(0))
    ));
    assert!(choice.tries_thread_mode());
    assert!(matches!(
        choice.after_thread_attempt(false, 0, 5, "Access is denied.".to_string()),
        ThreadModeOutcome::Failed(_)
    ));
    assert!(choice.tries_thread_mode());
    assert!(matches!(
        choice.after_thread_attempt(false, 0, ERROR_CALL_NOT_IMPLEMENTED, String::new()),
        ThreadModeOutcome::UseProcessMode
    ));
    assert!(!choice.tries_thread_mode());
    assert!(choice.use_process_mode);
}
