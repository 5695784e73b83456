use dlopen::err::{ErrorKind, NulError, SystemError};
use dlopen::Error;

fn custom(text: &str) -> SystemError {
    SystemError::Custom { kind: ErrorKind::Other, text: text.to_string() }
}

#[test]
fn description_of_each_error() {
    let nul = Error::NullCharacter(NulError { position: 1, bytes: vec![97, 0] });
    assert_eq!(nul.description(), "String had a null character");
    assert_eq!(Error::OpeningLibraryError(custom("x")).description(), "Could not open library");
    assert_eq!(
        Error::SymbolGettingError(custom("x")).description(),
        "Could not obtain symbol from the library"
    );
    assert_eq!(Error::NullSymbol.description(), "The symbol is NULL");
    assert_eq!(
        Error::AddrNotMatchingDll(custom("x")).description(),
        "Address does not match any dynamic link library"
    );
}

#[test]
fn message_adds_the_loader_text() {
    let e = Error::OpeningLibraryError(custom("libnothing.so: cannot open shared object file"));
    assert_eq!(e.message(), "Could not open library: libnothing.so: cannot open shared object file");
    let e = Error::SymbolGettingError(SystemError::Os { code: 127, text: "The specified procedure could not be found.".to_string() });
    assert_eq!(
        e.message(),
        "Could not obtain symbol from the library: The specified procedure could not be found."
    );
    assert_eq!(Error::NullSymbol.message(), "The symbol is NULL");
    let e = Error::AddrNotMatchingDll(custom("ignored"));
    assert_eq!(e.message(), "Address does not match any dynamic link library");
    let e = Error::NullCharacter(NulError { position: 0, bytes: vec![0] });
    assert_eq!(e.message(), "String had a null character");
}

#[test]
fn only_a_nul_error_has_a_cause() {
    let e = Error::NullCharacter(NulError { position: 2, bytes: vec![1, 2, 0] });
    let cause = e.cause().expect("a cause");
    assert_eq!(cause.position, 2);
    assert_eq!(cause.bytes, vec![1, 2, 0]);
    assert!(Error::NullSymbol.cause().is_none());
    assert!(Error::OpeningLibraryError(custom("x")).cause().is_none());
    assert!(Error::SymbolGettingError(custom("x")).cause().is_none());
    assert!(Error::AddrNotMatchingDll(custom("x")).cause().is_none());
}

#[test]
fn nul_error_converts_into_null_character() {
    let e: Error = Error::from(NulError { position: 3, bytes: vec![1, 2, 3, 0] });
    match e {
        Error::NullCharacter(n) => {
            assert_eq!(n.position, 3);
            assert_eq!(n.bytes, vec![1, 2, 3, 0]);
        }
        _ => panic!("wrong variant"),
    }
}

#[test]
fn system_error_text() {
    assert_eq!(custom("abc").text(), "abc");
    assert_eq!(SystemError::Os { code: 5, text: "Access is denied.".to_string() }.text(), "Access is denied.");
}
