use xnvme::device::{terminated, DeviceHandle};
use xnvme::ledger::Ledger;
use xnvme::options::{Backend, Options};
use xnvme::{ForeignType, XnvmeError};

fn options() -> Options {
    Options { backend: Backend::Linux, rdonly: true }
}

#[test]
fn open_refuses_an_embedded_terminator() {
    let call = DeviceHandle::open("bad\0uri", &options());
    assert!(matches!(call, Err(XnvmeError::InvalidParameter(3))));
}

#[test]
fn open_reports_the_first_terminator() {
    let call = DeviceHandle::open("\0a\0", &options());
    assert!(matches!(call, Err(XnvmeError::InvalidParameter(0))));
    let call = DeviceHandle::open("/dev/nvme0n1\0", &options());
    assert!(matches!(call, Err(XnvmeError::InvalidParameter(12))));
}

#[test]
fn open_counts_bytes_not_characters() {
    // "é" takes two bytes, so the zero byte is the fourth.
    let call = DeviceHandle::open("é1\0", &options());
    assert!(matches!(call, Err(XnvmeError::InvalidParameter(3))));
}

#[test]
fn refused_open_owns_nothing() {
    let ledger = Ledger::new();
    let call = DeviceHandle::open("bad\0uri", &options());
    assert!(call.is_err());
    assert_eq!(ledger.len(), 0);
}

#[test]
fn open_prepares_the_foreign_call() {
    let call = DeviceHandle::open("valid-uri", &options()).ok().unwrap();
    assert_eq!(call.uri(), &b"valid-uri\0".to_vec());
    assert_eq!(call.options().be, "linux");
    assert_eq!(call.options().rdonly, 1);
}

#[test]
fn open_takes_an_empty_uri() {
    let call = DeviceHandle::open("", &options()).ok().unwrap();
    assert_eq!(call.uri(), &vec![0u8]);
}

#[test]
fn open_reports_the_foreign_code_on_null() {
    let mut ledger = Ledger::new();
    let call = DeviceHandle::open("valid-uri", &options()).ok().unwrap();
    let opened = call.complete(0, 5, &mut ledger);
    assert!(matches!(opened, Err(XnvmeError::XError(5))));
    assert_eq!(ledger.len(), 0);
}

#[test]
fn open_wraps_the_address_it_was_given() {
    let mut ledger = Ledger::new();
    let call = DeviceHandle::open("valid-uri", &options()).ok().unwrap();
    let dev = call.complete(0x1000, 0, &mut ledger).ok().unwrap();
    assert_eq!(dev.as_raw(), 0x1000);
    assert!(ledger.owns(0x1000));
    assert_eq!(ledger.len(), 1);
}

#[test]
fn open_ignores_a_stale_code_on_success() {
    let mut ledger = Ledger::new();
    let call = DeviceHandle::open("valid-uri", &options()).ok().unwrap();
    let dev = call.complete(0x1000, 2, &mut ledger).ok().unwrap();
    assert_eq!(dev.as_raw(), 0x1000);
}

#[test]
fn new_takes_ownership() {
    let mut ledger = Ledger::new();
    let dev = DeviceHandle::new(0x2000, &mut ledger);
    assert_eq!(dev.as_raw(), 0x2000);
    assert_eq!(dev.as_raw(), 0x2000);
    assert!(ledger.owns(0x2000));
    assert!(!ledger.owns(0x2001));
}

#[test]
fn close_owes_one_call_for_the_device() {
    let mut ledger = Ledger::new();
    let dev = DeviceHandle::new(0x2000, &mut ledger);
    assert_eq!(dev.close(&mut ledger), 0x2000);
    assert!(!ledger.owns(0x2000));
    assert_eq!(ledger.len(), 0);
}

#[test]
fn into_raw_gives_the_device_up_unclosed() {
    let mut ledger = Ledger::new();
    let dev = DeviceHandle::new(0x2000, &mut ledger);
    assert_eq!(dev.into_raw(&mut ledger), 0x2000);
    assert!(!ledger.owns(0x2000));
}

#[test]
fn handles_own_distinct_devices() {
    let mut ledger = Ledger::new();
    let a = DeviceHandle::new(0x1000, &mut ledger);
    let b = DeviceHandle::new(0x2000, &mut ledger);
    let c = DeviceHandle::new(0x3000, &mut ledger);
    assert_eq!(ledger.len(), 3);
    assert_eq!(b.close(&mut ledger), 0x2000);
    assert!(ledger.owns(0x1000));
    assert!(!ledger.owns(0x2000));
    assert!(ledger.owns(0x3000));
    assert_eq!(a.close(&mut ledger), 0x1000);
    assert_eq!(c.close(&mut ledger), 0x3000);
    assert_eq!(ledger.len(), 0);
}

#[test]
fn closed_address_can_be_opened_again() {
    let mut ledger = Ledger::new();
    let dev = DeviceHandle::new(0x2000, &mut ledger);
    assert_eq!(dev.close(&mut ledger), 0x2000);
    let call = DeviceHandle::open("valid-uri", &options()).ok().unwrap();
    let dev = call.complete(0x2000, 0, &mut ledger).ok().unwrap();
    assert!(ledger.owns(0x2000));
    assert_eq!(dev.close(&mut ledger), 0x2000);
}

#[test]
fn terminated_appends_one_zero_byte() {
    assert_eq!(terminated("linux"), Ok(b"linux\0".to_vec()));
    assert_eq!(terminated(""), Ok(vec![0]));
    assert_eq!(terminated("é"), Ok(vec![0xc3, 0xa9, 0]));
}

#[test]
fn terminated_refuses_a_zero_byte() {
    assert_eq!(terminated("a\0b"), Err(XnvmeError::InvalidParameter(1)));
    assert_eq!(terminated("\0"), Err(XnvmeError::InvalidParameter(0)));
}

#[test]
fn foreign_slot_lends_its_value() {
    let cell = ForeignType::new(0x1234usize);
    assert_eq!(*cell.get(), 0x1234);
    assert_eq!(*cell.get(), 0x1234);
    assert!(std::ptr::eq(cell.get(), cell.get()));
}

#[test]
fn fresh_ledger_owns_nothing() {
    let ledger = Ledger::new();
    assert_eq!(ledger.len(), 0);
    assert!(!ledger.owns(0));
    assert!(!ledger.owns(0x1000));
}
