use boot_rt::exception::{Handler, Vector};
use boot_rt::interrupt::{Handlers, OverrideError};

fn handler(address: u32) -> Handler {
    Handler::new(address).unwrap()
}

#[test]
fn default_interrupts_follow_the_device_map() {
    let t = handler(0x41);
    let table = Handlers::default_handlers(&vec![false, true, false, false, true], t);
    let h = Vector::Handler(t);
    let r = Vector::Reserved;
    assert_eq!(table.len(), 5);
    assert_eq!(table.slots, vec![h, r, h, h, r]);
    assert_eq!(table.words(), vec![0x41, 0, 0x41, 0x41, 0]);
}

#[test]
fn a_device_without_interrupts_has_an_empty_table() {
    let table = Handlers::default_handlers(&Vec::new(), handler(1));
    assert_eq!(table.len(), 0);
    assert_eq!(table.words(), Vec::<u32>::new());
    assert_eq!(table.with(0, handler(2)).unwrap_err(), OverrideError::OutOfRange);
}

#[test]
fn all_slots_reserved() {
    let table = Handlers::default_handlers(&vec![true; 240], handler(0x41));
    assert_eq!(table.len(), 240);
    assert_eq!(table.slots, vec![Vector::Reserved; 240]);
    assert_eq!(table.words(), vec![0u32; 240]);
}

#[test]
fn interrupt_override_changes_one_slot() {
    let t = handler(0x41);
    let custom = handler(0x51);
    let table = Handlers::default_handlers(&vec![false, true, false], t);
    let table = table.with(2, custom).unwrap();
    assert_eq!(table.slots, vec![Vector::Handler(t), Vector::Reserved, Vector::Handler(custom)]);
    assert_eq!(table.words(), vec![0x41, 0, 0x51]);
}

#[test]
fn interrupt_override_is_refused_on_a_reserved_slot() {
    let table = Handlers::default_handlers(&vec![false, true, false], handler(0x41));
    assert_eq!(table.with(1, handler(0x51)).unwrap_err(), OverrideError::ReservedSlot);
}

#[test]
fn interrupt_override_is_refused_past_the_table() {
    let table = Handlers::default_handlers(&vec![false, true, false], handler(0x41));
    assert_eq!(table.with(3, handler(0x51)).unwrap_err(), OverrideError::OutOfRange);
    let table = Handlers::default_handlers(&vec![false, true, false], handler(0x41));
    assert_eq!(table.with(usize::MAX, handler(0x51)).unwrap_err(), OverrideError::OutOfRange);
}
