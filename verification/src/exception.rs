//! The exception part of the vector table: fourteen slots in the order in
//! which the processor numbers its exceptions.

use vstd::prelude::*;
use crate::frame::StackFrame;
use crate::reset::Action;

verus! {

/// The word that the processor reads from a slot that holds no handler.
pub const RESERVED_WORD: u32 = 0;

/// The number of slots in the exception part of the vector table.
pub const EXCEPTIONS: usize = 14;

/// The address of a handler routine. It is never zero, so a handler cannot
/// be mistaken for an empty slot.
#[derive(Clone, Copy, Debug, PartialEq, Eq, Structural)]
pub struct Handler {
    address: u32,
}

impl Handler {
    #[verifier::type_invariant]
    spec fn nonzero(self) -> bool {
        self.address != 0
    }

    /// The address as a number.
    pub closed spec fn addr(self) -> u32 {
        self.address
    }

    /// The handler at `address`, or `None` for the address zero.
    pub fn new(address: u32) -> (h: Option<Handler>)
        ensures
            address == 0 ==> h is None,
            address != 0 ==> h is Some && h->Some_0.addr() == address,
    {
        if address == 0 {
            None
        } else {
            Some(Handler { address })
        }
    }

    /// The address of the routine.
    pub fn address(&self) -> (a: u32)
        ensures
            a == self.addr(),
            a != RESERVED_WORD,
    {
        proof {
            use_type_invariant(self);
        }
        self.address
    }
}

/// Two handlers with the same address are the same handler.
pub proof fn lemma_handler_by_address(a: Handler, b: Handler)
    ensures
        a.addr() == b.addr() <==> a == b,
{
}

/// One slot of a vector table.
#[derive(Clone, Copy, Debug, PartialEq, Eq, Structural)]
pub enum Vector {
    /// The slot is not populated: the hardware has nothing to call here.
    Reserved,
    /// The slot holds a handler.
    Handler(Handler),
}

impl Vector {
    /// The word that the slot holds in memory: the handler's address, or
    /// [`RESERVED_WORD`] for a slot without one.
    pub open spec fn spec_word(self) -> u32 {
        match self {
            Vector::Reserved => RESERVED_WORD,
            Vector::Handler(h) => h.addr(),
        }
    }

    /// The word to place in the table for this slot. Only a reserved slot
    /// gives [`RESERVED_WORD`].
    pub fn word(&self) -> (w: u32)
        ensures
            w == self.spec_word(),
            (w == RESERVED_WORD) == (*self is Reserved),
    {
        match self {
            Vector::Reserved => RESERVED_WORD,
            Vector::Handler(h) => h.address(),
        }
    }
}

/// The exceptions that have a slot of their own.
#[derive(Clone, Copy, Debug, PartialEq, Eq, Structural)]
pub enum Exception {
    Nmi,
    HardFault,
    MemManage,
    BusFault,
    UsageFault,
    SvCall,
    PendSv,
    SysTick,
}

/// Whether slot `i` of the exception table is one that must stay empty.
pub open spec fn reserved_slot(i: int) -> bool {
    5 <= i <= 8 || 10 <= i <= 11
}

impl Exception {
    /// The slot of the exception in the table.
    pub open spec fn slot(self) -> int {
        match self {
            Exception::Nmi => 0,
            Exception::HardFault => 1,
            Exception::MemManage => 2,
            Exception::BusFault => 3,
            Exception::UsageFault => 4,
            Exception::SvCall => 9,
            Exception::PendSv => 12,
            Exception::SysTick => 13,
        }
    }

    /// The slot of the exception in the table. It is never a reserved one.
    pub fn index(self) -> (i: usize)
        ensures
            i == self.slot(),
            i < EXCEPTIONS,
            !reserved_slot(i as int),
    {
        match self {
            Exception::Nmi => 0,
            Exception::HardFault => 1,
            Exception::MemManage => 2,
            Exception::BusFault => 3,
            Exception::UsageFault => 4,
            Exception::SvCall => 9,
            Exception::PendSv => 12,
            Exception::SysTick => 13,
        }
    }

    /// The exception whose slot is `index`: `None` for a reserved slot and
    /// for an index past the table.
    pub fn at(index: usize) -> (e: Option<Exception>)
        ensures
            e is Some <==> index < EXCEPTIONS && !reserved_slot(index as int),
            e is Some ==> e->Some_0.slot() == index,
    {
        match index {
            0 => Some(Exception::Nmi),
            1 => Some(Exception::HardFault),
            2 => Some(Exception::MemManage),
            3 => Some(Exception::BusFault),
            4 => Some(Exception::UsageFault),
            9 => Some(Exception::SvCall),
            12 => Some(Exception::PendSv),
            13 => Some(Exception::SysTick),
            _ => None,
        }
    }
}

/// The exception handlers, one for each exception that has a slot. The
/// reserved slots have no field: nothing can be put there.
#[derive(Clone, Copy, Debug, PartialEq, Eq, Structural)]
pub struct Handlers {
    /// Non-maskable interrupt.
    pub nmi: Handler,
    /// Hard fault.
    pub hard_fault: Handler,
    /// Memory management fault.
    pub mem_manage: Handler,
    /// Bus fault.
    pub bus_fault: Handler,
    /// Usage fault.
    pub usage_fault: Handler,
    /// Supervisor call.
    pub svcall: Handler,
    /// Pendable service call.
    pub pendsv: Handler,
    /// System tick.
    pub sys_tick: Handler,
}

/// The set in which every exception goes to `trampoline`.
pub open spec fn defaults(trampoline: Handler) -> Handlers {
    Handlers {
        nmi: trampoline,
        hard_fault: trampoline,
        mem_manage: trampoline,
        bus_fault: trampoline,
        usage_fault: trampoline,
        svcall: trampoline,
        pendsv: trampoline,
        sys_tick: trampoline,
    }
}

/// `base` after the overrides of `list`, applied in order: for an exception
/// that is named more than once the last one counts.
pub open spec fn overridden(base: Handlers, list: Seq<(Exception, Handler)>) -> Handlers
    decreases list.len(),
{
    if list.len() == 0 {
        base
    } else {
        overridden(base, list.drop_last()).replaced(list.last().0, list.last().1)
    }
}

impl Handlers {
    /// The handler of `exception`.
    pub open spec fn get(self, exception: Exception) -> Handler {
        match exception {
            Exception::Nmi => self.nmi,
            Exception::HardFault => self.hard_fault,
            Exception::MemManage => self.mem_manage,
            Exception::BusFault => self.bus_fault,
            Exception::UsageFault => self.usage_fault,
            Exception::SvCall => self.svcall,
            Exception::PendSv => self.pendsv,
            Exception::SysTick => self.sys_tick,
        }
    }

    /// The set with `handler` for `exception` and everything else as in
    /// `self`.
    pub open spec fn replaced(self, exception: Exception, handler: Handler) -> Handlers {
        match exception {
            Exception::Nmi => Handlers { nmi: handler, ..self },
            Exception::HardFault => Handlers { hard_fault: handler, ..self },
            Exception::MemManage => Handlers { mem_manage: handler, ..self },
            Exception::BusFault => Handlers { bus_fault: handler, ..self },
            Exception::UsageFault => Handlers { usage_fault: handler, ..self },
            Exception::SvCall => Handlers { svcall: handler, ..self },
            Exception::PendSv => Handlers { pendsv: handler, ..self },
            Exception::SysTick => Handlers { sys_tick: handler, ..self },
        }
    }

    /// The fourteen slots in the order of the hardware.
    pub open spec fn vectors(self) -> Seq<Vector> {
        seq![
            Vector::Handler(self.nmi),
            Vector::Handler(self.hard_fault),
            Vector::Handler(self.mem_manage),
            Vector::Handler(self.bus_fault),
            Vector::Handler(self.usage_fault),
            Vector::Reserved,
            Vector::Reserved,
            Vector::Reserved,
            Vector::Reserved,
            Vector::Handler(self.svcall),
            Vector::Reserved,
            Vector::Reserved,
            Vector::Handler(self.pendsv),
            Vector::Handler(self.sys_tick),
        ]
    }

    /// The default set: every exception goes to `trampoline`.
    pub fn default_handlers(trampoline: Handler) -> (h: Handlers)
        ensures
            h == defaults(trampoline),
    {
        Handlers {
            nmi: trampoline,
            hard_fault: trampoline,
            mem_manage: trampoline,
            bus_fault: trampoline,
            usage_fault: trampoline,
            svcall: trampoline,
            pendsv: trampoline,
            sys_tick: trampoline,
        }
    }

    /// A new set with `handler` for `exception`; every other exception keeps
    /// the handler it has in `self`.
    pub fn with(self, exception: Exception, handler: Handler) -> (h: Handlers)
        ensures
            h == self.replaced(exception, handler),
            h.get(exception) == handler,
            forall|e: Exception| e != exception ==> h.get(e) == self.get(e),
    {
        match exception {
            Exception::Nmi => Handlers { nmi: handler, ..self },
            Exception::HardFault => Handlers { hard_fault: handler, ..self },
            Exception::MemManage => Handlers { mem_manage: handler, ..self },
            Exception::BusFault => Handlers { bus_fault: handler, ..self },
            Exception::UsageFault => Handlers { usage_fault: handler, ..self },
            Exception::SvCall => Handlers { svcall: handler, ..self },
            Exception::PendSv => Handlers { pendsv: handler, ..self },
            Exception::SysTick => Handlers { sys_tick: handler, ..self },
        }
    }

    /// The default set with the overrides of `list` applied in order.
    pub fn build(trampoline: Handler, list: &Vec<(Exception, Handler)>) -> (h: Handlers)
        ensures
            h == overridden(defaults(trampoline), list@),
    {
        let mut h: Handlers = Handlers::default_handlers(trampoline);
        let mut i: usize = 0;
        while i < list.len()
            invariant
                i <= list.len(),
                h == overridden(defaults(trampoline), list@.take(i as int)),
            decreases list.len() - i,
        {
            let (exception, handler) = list[i];
            assert(list@.take(i + 1).drop_last() =~= list@.take(i as int));
            h = h.with(exception, handler);
            i += 1;
        }
        assert(list@.take(i as int) =~= list@);
        h
    }

    /// The handler of `exception`.
    pub fn handler(&self, exception: Exception) -> (h: Handler)
        ensures
            h == self.get(exception),
    {
        match exception {
            Exception::Nmi => self.nmi,
            Exception::HardFault => self.hard_fault,
            Exception::MemManage => self.mem_manage,
            Exception::BusFault => self.bus_fault,
            Exception::UsageFault => self.usage_fault,
            Exception::SvCall => self.svcall,
            Exception::PendSv => self.pendsv,
            Exception::SysTick => self.sys_tick,
        }
    }

    /// The table as it is placed behind the reset vector: fourteen slots in
    /// the order of the hardware, each reserved slot empty and each other
    /// slot holding the handler of its exception.
    pub fn table(&self) -> (t: [Vector; 14])
        ensures
            t@ == self.vectors(),
            t@.len() == EXCEPTIONS,
            forall|i: int| 0 <= i < 14 && reserved_slot(i) ==> t@[i] == Vector::Reserved,
            forall|e: Exception| t@[e.slot()] == Vector::Handler(self.get(e)),
    {
        let t: [Vector; 14] = [
            Vector::Handler(self.nmi),
            Vector::Handler(self.hard_fault),
            Vector::Handler(self.mem_manage),
            Vector::Handler(self.bus_fault),
            Vector::Handler(self.usage_fault),
            Vector::Reserved,
            Vector::Reserved,
            Vector::Reserved,
            Vector::Reserved,
            Vector::Handler(self.svcall),
            Vector::Reserved,
            Vector::Reserved,
            Vector::Handler(self.pendsv),
            Vector::Handler(self.sys_tick),
        ];
        assert(t@ =~= self.vectors());
        t
    }
}

impl Handlers {
    /// The words of the table as they lie in memory: the address of each
    /// handler, and [`RESERVED_WORD`] in the reserved slots and nowhere
    /// else.
    pub fn words(&self) -> (w: [u32; 14])
        ensures
            forall|i: int| 0 <= i < 14 ==> #[trigger] w@[i] == self.vectors()[i].spec_word(),
            forall|i: int| 0 <= i < 14 ==> (#[trigger] w@[i] == RESERVED_WORD) == reserved_slot(i),
    {
        [
            self.nmi.address(),
            self.hard_fault.address(),
            self.mem_manage.address(),
            self.bus_fault.address(),
            self.usage_fault.address(),
            RESERVED_WORD,
            RESERVED_WORD,
            RESERVED_WORD,
            RESERVED_WORD,
            self.svcall.address(),
            RESERVED_WORD,
            RESERVED_WORD,
            self.pendsv.address(),
            self.sys_tick.address(),
        ]
    }
}

/// What the default second stage does with the registers it is handed:
/// nothing but stop. It asks for the halt whatever the registers hold.
pub fn default_handler(frame: &StackFrame) -> (action: Action)
    ensures
        action == Action::Halt,
{
    Action::Halt
}

/// Whatever was overridden, the table has fourteen slots, the reserved ones
/// are empty, and no other slot is.
pub proof fn lemma_reserved_slots_empty(set: Handlers)
    ensures
        set.vectors().len() == 14,
        forall|i: int|
            0 <= i < 14 ==> (reserved_slot(i) <==> #[trigger] set.vectors()[i]
                == Vector::Reserved),
        forall|e: Exception| 0 <= #[trigger] e.slot() < 14 && !reserved_slot(e.slot()),
{
}

/// With no override the set is the default set, slot for slot.
pub proof fn lemma_no_override(trampoline: Handler)
    ensures
        overridden(defaults(trampoline), Seq::empty()) == defaults(trampoline),
        overridden(defaults(trampoline), Seq::empty()).vectors() == defaults(trampoline).vectors(),
        forall|e: Exception|
            #[trigger] defaults(trampoline).vectors()[e.slot()] == Vector::Handler(trampoline),
{
}

/// With one override the slot of the named exception holds the new handler
/// and the thirteen other slots are those of the default set.
pub proof fn lemma_one_override(trampoline: Handler, exception: Exception, handler: Handler)
    ensures
        overridden(defaults(trampoline), seq![(exception, handler)]) == defaults(
            trampoline,
        ).replaced(exception, handler),
        overridden(defaults(trampoline), seq![(exception, handler)]).vectors()[exception.slot()]
            == Vector::Handler(handler),
        forall|i: int|
            0 <= i < 14 && i != exception.slot() ==> #[trigger] overridden(
                defaults(trampoline),
                seq![(exception, handler)],
            ).vectors()[i] == defaults(trampoline).vectors()[i],
{
    let list = seq![(exception, handler)];
    reveal_with_fuel(overridden, 2);
    assert(list.drop_last() =~= Seq::<(Exception, Handler)>::empty());
    assert(list.last() == (exception, handler));
}

/// An override changes the slot of its exception and no other.
pub proof fn lemma_override_is_local(base: Handlers, exception: Exception, handler: Handler)
    ensures
        base.replaced(exception, handler).vectors() == base.vectors().update(
            exception.slot(),
            Vector::Handler(handler),
        ),
{
    assert(base.replaced(exception, handler).vectors() =~= base.vectors().update(
        exception.slot(),
        Vector::Handler(handler),
    ));
}

} // verus!
