use xnvme::enumerate::list::ListHandle;
use xnvme::ledger::Ledger;
use xnvme::XnvmeError;

#[test]
fn new_list_is_empty_and_owned() {
    let mut ledger = Ledger::new();
    let list = ListHandle::new(100, 0x9000, 0, &mut ledger).unwrap();
    assert_eq!(list.as_raw(), 0x9000);
    assert_eq!(list.capacity(), 100);
    assert!(list.entries().is_empty());
    assert!(ledger.owns(0x9000));
    assert_eq!(ledger.len(), 1);
}

#[test]
fn new_list_reports_the_allocation_code() {
    let mut ledger = Ledger::new();
    let made = ListHandle::new(100, 0, -12, &mut ledger);
    assert!(matches!(made, Err(XnvmeError::XError(-12))));
    assert_eq!(ledger.len(), 0);
}

#[test]
fn failed_allocation_owns_nothing_whatever_the_address() {
    let mut ledger = Ledger::new();
    let made = ListHandle::new(8, 0x9000, 1, &mut ledger);
    assert!(matches!(made, Err(XnvmeError::XError(1))));
    assert!(!ledger.owns(0x9000));
}

#[test]
fn callback_appends_in_order() {
    let mut ledger = Ledger::new();
    let mut list = ListHandle::new(3, 0x9000, 0, &mut ledger).unwrap();
    assert_eq!(list.callback(0xa, 0), Ok(()));
    assert_eq!(list.callback(0xb, 0), Ok(()));
    assert_eq!(list.callback(0xc, 0), Ok(()));
    assert_eq!(list.entries(), &vec![0xa, 0xb, 0xc]);
    assert_eq!(list.as_raw(), 0x9000);
    assert_eq!(list.capacity(), 3);
}

#[test]
fn callback_reports_the_append_code_and_keeps_the_list() {
    let mut ledger = Ledger::new();
    let mut list = ListHandle::new(3, 0x9000, 0, &mut ledger).unwrap();
    assert_eq!(list.callback(0xa, 0), Ok(()));
    assert_eq!(list.callback(0xb, -22), Err(XnvmeError::XError(-22)));
    assert_eq!(list.callback(0xb, 3), Err(XnvmeError::XError(3)));
    assert_eq!(list.entries(), &vec![0xa]);
}

#[test]
fn append_beyond_capacity_fails() {
    let mut ledger = Ledger::new();
    let mut list = ListHandle::new(2, 0x9000, 0, &mut ledger).unwrap();
    assert_eq!(list.callback(0xa, 0), Ok(()));
    assert_eq!(list.callback(0xb, 0), Ok(()));
    assert_eq!(list.callback(0xc, -12), Err(XnvmeError::XError(-12)));
    assert_eq!(list.callback(0xd, -12), Err(XnvmeError::XError(-12)));
    assert_eq!(list.entries(), &vec![0xa, 0xb]);
    assert!(list.entries().len() <= list.capacity() as usize);
}

#[test]
fn full_list_does_not_believe_a_success() {
    let mut ledger = Ledger::new();
    let mut list = ListHandle::new(1, 0x9000, 0, &mut ledger).unwrap();
    assert_eq!(list.callback(0xa, 0), Ok(()));
    assert_eq!(list.callback(0xb, 0), Err(XnvmeError::XError(0)));
    assert_eq!(list.entries(), &vec![0xa]);
}

#[test]
fn list_without_room_takes_nothing() {
    let mut ledger = Ledger::new();
    let mut list = ListHandle::new(0, 0x9000, 0, &mut ledger).unwrap();
    assert_eq!(list.callback(0xa, -12), Err(XnvmeError::XError(-12)));
    assert!(list.entries().is_empty());
}

#[test]
fn pp_reports_a_negative_result() {
    let mut ledger = Ledger::new();
    let list = ListHandle::new(2, 0x9000, 0, &mut ledger).unwrap();
    assert_eq!(list.pp(-1), Err(XnvmeError::XError(-1)));
    assert_eq!(list.pp(i32::MIN), Err(XnvmeError::XError(i32::MIN)));
}

#[test]
fn pp_takes_any_count_of_bytes() {
    let mut ledger = Ledger::new();
    let list = ListHandle::new(2, 0x9000, 0, &mut ledger).unwrap();
    assert_eq!(list.pp(0), Ok(()));
    assert_eq!(list.pp(1), Ok(()));
    assert_eq!(list.pp(i32::MAX), Ok(()));
}

#[test]
fn free_owes_one_call_for_the_list() {
    let mut ledger = Ledger::new();
    let mut list = ListHandle::new(2, 0x9000, 0, &mut ledger).unwrap();
    assert_eq!(list.callback(0xa, 0), Ok(()));
    assert_eq!(list.free(&mut ledger), 0x9000);
    assert!(!ledger.owns(0x9000));
    assert_eq!(ledger.len(), 0);
}

#[test]
fn freed_address_can_be_allocated_again() {
    let mut ledger = Ledger::new();
    let list = ListHandle::new(2, 0x9000, 0, &mut ledger).unwrap();
    assert_eq!(list.free(&mut ledger), 0x9000);
    let again = ListHandle::new(5, 0x9000, 0, &mut ledger).unwrap();
    assert_eq!(again.capacity(), 5);
    assert!(again.entries().is_empty());
    assert!(ledger.owns(0x9000));
}
