use dlopen::err::{ErrorKind, SystemError};
use dlopen::raw::common::{checked_symbol, ptr_or_null, DlInfo};
use dlopen::raw::unix::{opened_handle, symbol_address, LookupAction, SymbolLookup};
use dlopen::raw::AddressInfoObtainer;
use dlopen::Error;

#[test]
fn symbol_must_not_be_null() {
    assert_eq!(checked_symbol(Ok(0x1000)).unwrap(), 0x1000);
    assert!(matches!(checked_symbol(Ok(0)), Err(Error::NullSymbol)));
    let e = checked_symbol(Err(Error::SymbolGettingError(SystemError::Custom {
        kind: ErrorKind::Other,
        text: "undefined symbol: foo".to_string(),
    })));
    match e {
        Err(Error::SymbolGettingError(SystemError::Custom { text, .. })) => assert_eq!(text, "undefined symbol: foo"),
        _ => panic!("wrong outcome"),
    }
}

#[test]
fn pointer_may_be_null() {
    assert_eq!(ptr_or_null(Err(Error::NullSymbol)).unwrap(), 0);
    assert_eq!(ptr_or_null(Ok(0x2000)).unwrap(), 0x2000);
    assert!(matches!(
        ptr_or_null(Err(Error::OpeningLibraryError(SystemError::Os { code: 2, text: String::new() }))),
        Err(Error::OpeningLibraryError(_))
    ));
}

#[test]
fn null_check_then_null_acceptance_gives_back_the_lookup() {
    assert_eq!(ptr_or_null(checked_symbol(Ok(0))).unwrap(), 0);
    assert_eq!(ptr_or_null(checked_symbol(Ok(0x3000))).unwrap(), 0x3000);
}

#[test]
fn dlsym_outcomes() {
    assert_eq!(symbol_address(0x4000, None).unwrap(), 0x4000);
    assert_eq!(symbol_address(0x4000, Some("stale".to_string())).unwrap(), 0x4000);
    assert_eq!(symbol_address(0, None).unwrap(), 0);
    match symbol_address(0, Some("undefined symbol: bar".to_string())) {
        Err(Error::SymbolGettingError(SystemError::Custom { kind, text })) => {
            assert_eq!(kind, ErrorKind::Other);
            assert_eq!(text, "undefined symbol: bar");
        }
        _ => panic!("wrong outcome"),
    }
}

#[test]
fn dlopen_outcomes() {
    assert_eq!(opened_handle(0x5000, String::new()).unwrap(), 0x5000);
    let e = opened_handle(0, "libnothing.so: cannot open shared object file".to_string()).unwrap_err();
    assert_eq!(e.message(), "Could not open library: libnothing.so: cannot open shared object file");
}

#[test]
fn address_outside_every_library() {
    let aio = AddressInfoObtainer::new();
    match aio.obtain(None) {
        Err(Error::AddrNotMatchingDll(SystemError::Custom { kind, text })) => {
            assert_eq!(kind, ErrorKind::NotFound);
            assert_eq!(text, "");
        }
        _ => panic!("wrong outcome"),
    }
}

#[test]
fn address_with_and_without_symbol() {
    let aio = AddressInfoObtainer::new();
    let info = DlInfo {
        fname: "/usr/lib/libexample.so".to_string(),
        fbase: 0x7000_0000,
        sname: Some("c_fun_add_two".to_string()),
        saddr: 0x7000_1230,
    };
    let ai = aio.obtain(Some(info)).unwrap();
    assert_eq!(ai.dll_path, "/usr/lib/libexample.so");
    assert_eq!(ai.dll_base_addr, 0x7000_0000);
    let os = ai.overlapping_symbol.unwrap();
    assert_eq!(os.name, "c_fun_add_two");
    assert_eq!(os.addr, 0x7000_1230);

    let no_name = DlInfo { fname: "lib.so".to_string(), fbase: 1, sname: None, saddr: 0x10 };
    assert!(aio.obtain(Some(no_name)).unwrap().overlapping_symbol.is_none());
    let no_addr = DlInfo { fname: "lib.so".to_string(), fbase: 1, sname: Some("s".to_string()), saddr: 0 };
    assert!(aio.obtain(Some(no_addr)).unwrap().overlapping_symbol.is_none());
}

#[test]
fn only_pointer_sized_types_hold_symbols() {
    assert!(dlopen::raw::common::fits_symbol::<usize>());
    assert!(dlopen::raw::common::fits_symbol::<fn(i32) -> i32>());
    assert!(dlopen::raw::common::fits_symbol::<&i32>());
    assert!(!dlopen::raw::common::fits_symbol::<u8>());
    assert!(!dlopen::raw::common::fits_symbol::<[usize; 2]>());
}

fn run_lookup(stale: Option<&str>, symbol: usize, error_after: Option<&str>) -> dlopen::raw::common::RawResult {
    let mut lookup = SymbolLookup::new();
    let mut calls = Vec::new();
    loop {
        let action = lookup.next_action();
        calls.push(format!("{:?}", action));
        match action {
            LookupAction::ClearError => lookup.on_cleared(stale.map(|s| s.to_string())),
            LookupAction::LookUp => lookup.on_looked_up(symbol),
            LookupAction::ReadError => lookup.on_error_read(error_after.map(|s| s.to_string())),
            LookupAction::Done => break,
        }
    }
    assert_eq!(calls[0], "ClearError");
    assert_eq!(calls[1], "LookUp");
    assert_eq!(calls.len(), if symbol == 0 { 4 } else { 3 });
    lookup.finish()
}

#[test]
fn stale_error_never_reaches_a_lookup() {
    assert_eq!(run_lookup(Some("old failure"), 0x4000, None).unwrap(), 0x4000);
    assert_eq!(run_lookup(Some("old failure"), 0, None).unwrap(), 0);
    match run_lookup(Some("old failure"), 0, Some("undefined symbol: baz")) {
        Err(Error::SymbolGettingError(SystemError::Custom { text, .. })) => assert_eq!(text, "undefined symbol: baz"),
        _ => panic!("wrong outcome"),
    }
}
