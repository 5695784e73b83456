use dlopen::cstr::{c_string_new, lib_name_with_nul};
use dlopen::utils::{platform_file_name, platform_file_name_wide, Platform};

#[test]
fn c_string_of_a_plain_name() {
    assert_eq!(c_string_new(b"cos").unwrap(), b"cos\0".to_vec());
    assert_eq!(c_string_new(b"").unwrap(), vec![0u8]);
}

#[test]
fn c_string_refuses_a_nul_byte() {
    let e = c_string_new(b"co\0s\0").unwrap_err();
    assert_eq!(e.position, 2);
    assert_eq!(e.bytes, b"co\0s\0".to_vec());
    let e = c_string_new(b"\0").unwrap_err();
    assert_eq!(e.position, 0);
}

#[test]
fn library_name_gets_one_terminator() {
    assert_eq!(lib_name_with_nul(b"libm.so.6"), b"libm.so.6\0".to_vec());
    assert_eq!(lib_name_with_nul(b"libm.so.6\0"), b"libm.so.6\0".to_vec());
    assert_eq!(lib_name_with_nul(b""), vec![0u8]);
    assert_eq!(lib_name_with_nul(b"\0"), vec![0u8]);
}

#[test]
fn library_name_preparation_is_idempotent() {
    for name in [&b"libexample.so"[..], &b"a\0"[..], &b""[..], &b"x\0y"[..]] {
        let once = lib_name_with_nul(name);
        let twice = lib_name_with_nul(&once);
        assert_eq!(once, twice);
        assert_eq!(*once.last().unwrap(), 0u8);
    }
}

#[test]
fn c_string_and_library_name_agree_on_plain_names() {
    let name = b"libexample.so";
    assert_eq!(c_string_new(name).unwrap(), lib_name_with_nul(name));
}

#[test]
fn platform_file_names() {
    assert_eq!(platform_file_name(Platform::Unix, b"example"), b"libexample.so".to_vec());
    assert_eq!(platform_file_name(Platform::Apple, b"example"), b"libexample.dylib".to_vec());
    assert_eq!(platform_file_name(Platform::Windows, b"example"), b"example.dll".to_vec());
    assert_eq!(platform_file_name(Platform::Unix, b""), b"lib.so".to_vec());
}

#[test]
fn platform_prefixes_and_extensions() {
    assert_eq!(Platform::Unix.file_prefix(), b"lib".to_vec());
    assert_eq!(Platform::Apple.file_prefix(), b"lib".to_vec());
    assert_eq!(Platform::Windows.file_prefix(), Vec::<u8>::new());
    assert_eq!(Platform::Unix.file_extension(), b"so".to_vec());
    assert_eq!(Platform::Apple.file_extension(), b"dylib".to_vec());
    assert_eq!(Platform::Windows.file_extension(), b"dll".to_vec());
}

#[test]
fn wide_platform_file_names() {
    let core: Vec<u16> = "exämple".encode_utf16().collect();
    let expected: Vec<u16> = "exämple.dll".encode_utf16().collect();
    assert_eq!(platform_file_name_wide(Platform::Windows, &core), expected);
    let expected: Vec<u16> = "libexämple.so".encode_utf16().collect();
    assert_eq!(platform_file_name_wide(Platform::Unix, &core), expected);
}
