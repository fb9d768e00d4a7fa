use boot_rt::exception::{Exception, Handler, Handlers, Vector, EXCEPTIONS, RESERVED_WORD};

const ALL: [Exception; 8] = [
    Exception::Nmi,
    Exception::HardFault,
    Exception::MemManage,
    Exception::BusFault,
    Exception::UsageFault,
    Exception::SvCall,
    Exception::PendSv,
    Exception::SysTick,
];

const RESERVED: [usize; 6] = [5, 6, 7, 8, 10, 11];

fn handler(address: u32) -> Handler {
    Handler::new(address).unwrap()
}

#[test]
fn a_handler_is_never_at_address_zero() {
    assert_eq!(Handler::new(0), None);
    assert_eq!(Handler::new(1).unwrap().address(), 1);
    assert_eq!(Handler::new(0x0800_0101).unwrap().address(), 0x0800_0101);
    assert_eq!(Handler::new(u32::MAX).unwrap().address(), u32::MAX);
}

#[test]
fn handlers_are_equal_by_address() {
    assert_eq!(handler(0x40), handler(0x40));
    assert_ne!(handler(0x40), handler(0x41));
    assert_eq!(Vector::Handler(handler(0x40)), Vector::Handler(handler(0x40)));
    assert_ne!(Vector::Handler(handler(0x40)), Vector::Reserved);
}

#[test]
fn only_a_reserved_slot_lowers_to_the_reserved_word() {
    assert_eq!(RESERVED_WORD, 0);
    assert_eq!(Vector::Reserved.word(), 0);
    assert_eq!(Vector::Handler(handler(0x2000_0001)).word(), 0x2000_0001);
    assert_ne!(Vector::Handler(handler(1)).word(), RESERVED_WORD);
}

#[test]
fn exceptions_sit_at_their_hardware_slots() {
    let slots: Vec<usize> = ALL.iter().map(|e| e.index()).collect();
    assert_eq!(slots, vec![0, 1, 2, 3, 4, 9, 12, 13]);
}

#[test]
fn at_is_the_inverse_of_index() {
    for e in ALL {
        assert_eq!(Exception::at(e.index()), Some(e));
    }
    for i in RESERVED {
        assert_eq!(Exception::at(i), None);
    }
    assert_eq!(Exception::at(14), None);
    assert_eq!(Exception::at(usize::MAX), None);
}

#[test]
fn table_has_fourteen_slots_with_the_reserved_ones_empty() {
    assert_eq!(EXCEPTIONS, 14);
    let t = handler(0x101);
    let custom = handler(0x999);
    let mut sets = vec![Handlers::default_handlers(t)];
    for e in ALL {
        sets.push(Handlers::default_handlers(t).with(e, custom));
    }
    sets.push(Handlers::build(t, &ALL.iter().map(|e| (*e, custom)).collect()));
    for set in sets {
        let table = set.table();
        assert_eq!(table.len(), 14);
        for i in 0..14 {
            assert_eq!(table[i] == Vector::Reserved, RESERVED.contains(&i));
        }
        let words = set.words();
        for i in 0..14 {
            assert_eq!(words[i] == 0, RESERVED.contains(&i));
            assert_eq!(words[i], table[i].word());
        }
    }
}

#[test]
fn no_override_gives_the_default_set() {
    let t = handler(0x0800_0101);
    let built = Handlers::build(t, &Vec::new());
    assert_eq!(built, Handlers::default_handlers(t));
    assert_eq!(built.table(), Handlers::default_handlers(t).table());
    let r = Vector::Reserved;
    let h = Vector::Handler(t);
    assert_eq!(built.table(), [h, h, h, h, h, r, r, r, r, h, r, r, h, h]);
    let a = 0x0800_0101u32;
    assert_eq!(built.words(), [a, a, a, a, a, 0, 0, 0, 0, a, 0, 0, a, a]);
    // the struct-update idiom with nothing replaced
    let same = Handlers { ..Handlers::default_handlers(t) };
    assert_eq!(same, built);
}

#[test]
fn one_override_changes_one_slot() {
    let t = handler(0x0800_0101);
    let custom = handler(0x0800_0201);
    let default = Handlers::default_handlers(t).table();
    for e in ALL {
        let built = Handlers::build(t, &vec![(e, custom)]);
        assert_eq!(built, Handlers::default_handlers(t).with(e, custom));
        let table = built.table();
        for i in 0..14 {
            if i == e.index() {
                assert_eq!(table[i], Vector::Handler(custom));
            } else {
                assert_eq!(table[i], default[i]);
            }
        }
        assert_eq!(built.handler(e), custom);
    }
}

#[test]
fn hard_fault_override_by_struct_update() {
    let t = handler(0x0800_0101);
    let custom = handler(0x0800_0201);
    let set = Handlers { hard_fault: custom, ..Handlers::default_handlers(t) };
    assert_eq!(set, Handlers::build(t, &vec![(Exception::HardFault, custom)]));
    let r = Vector::Reserved;
    let h = Vector::Handler(t);
    let c = Vector::Handler(custom);
    assert_eq!(set.table(), [h, c, h, h, h, r, r, r, r, h, r, r, h, h]);
}

#[test]
fn the_last_override_of_an_exception_counts() {
    let t = handler(0x11);
    let first = handler(0x21);
    let second = handler(0x31);
    let built = Handlers::build(
        t,
        &vec![(Exception::SysTick, first), (Exception::Nmi, first), (Exception::SysTick, second)],
    );
    assert_eq!(built.handler(Exception::SysTick), second);
    assert_eq!(built.handler(Exception::Nmi), first);
    assert_eq!(built.handler(Exception::PendSv), t);
    assert_eq!(built.words(), [0x21, 0x11, 0x11, 0x11, 0x11, 0, 0, 0, 0, 0x11, 0, 0, 0x11, 0x31]);
}

#[test]
fn with_does_not_touch_the_set_it_starts_from() {
    let t = handler(0x11);
    let base = Handlers::default_handlers(t);
    let other = base.with(Exception::BusFault, handler(0x77));
    assert_eq!(base, Handlers::default_handlers(t));
    assert_eq!(other.bus_fault.address(), 0x77);
    assert_eq!(other.handler(Exception::BusFault).address(), 0x77);
    assert_eq!(other.handler(Exception::UsageFault), t);
}
