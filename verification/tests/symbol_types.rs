use dlopen::symbols::{FromRawPointer, Pointer as OldPointer, RawPointer, Symbol};
use dlopen::symbor::{Pointer, PointerMut, Ref};
use dlopen::wrapper::{load_optional, optional_part};
use dlopen::Error;

#[test]
fn pointers_keep_their_address() {
    let p: Pointer<u8> = Pointer::new(0x1000);
    assert_eq!(p.addr(), 0x1000);
    assert!(!p.is_null());
    let q: PointerMut<u8> = PointerMut::new(0);
    assert!(q.is_null());
    let o: OldPointer<i32> = OldPointer::new(0x2000);
    assert_eq!(o.addr(), 0x2000);
    let c = o;
    assert_eq!(c.addr(), o.addr());
}

#[test]
fn pointers_from_lookups() {
    let p: Pointer<u8> = Pointer::from_raw_result(Ok(0)).unwrap();
    assert!(p.is_null());
    let p: PointerMut<u8> = PointerMut::from_raw_result(Ok(0x30)).unwrap();
    assert_eq!(p.addr(), 0x30);
    assert!(matches!(Pointer::<u8>::from_raw_result(Err(Error::NullSymbol)), Err(Error::NullSymbol)));
}

#[test]
fn references_read_through() {
    let value = 43i32;
    let r = Ref::new(&value);
    assert_eq!(*r, 43);
}

#[test]
fn raw_pointers_convert() {
    let raw = RawPointer::new(0x40);
    let p: OldPointer<u16> = OldPointer::from_raw_ptr(raw).unwrap();
    assert_eq!(p.addr(), 0x40);
    let s: Symbol<fn()> = Symbol::from_raw_ptr(raw).unwrap();
    assert_eq!(s.addr(), 0x40);
    assert!(matches!(Symbol::<fn()>::from_raw_ptr(RawPointer::new(0)), Err(Error::NullSymbol)));
    let again = RawPointer::from_raw_ptr(RawPointer::new(0)).unwrap();
    assert!(again.is_null());
}

#[test]
fn optional_apis() {
    assert_eq!(optional_part(Ok::<u32, Error>(5)), Some(5));
    assert_eq!(optional_part(Err::<u32, Error>(Error::NullSymbol)), None);
    assert_eq!(load_optional(Ok::<u32, Error>(5)).unwrap(), Some(5));
    assert_eq!(load_optional(Err::<u32, Error>(Error::NullSymbol)).unwrap(), None);
}
