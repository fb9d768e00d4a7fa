//! The reset sequence: what happens, step by step, between a hardware reset
//! and the program's entry point, and what happens if the entry point
//! returns.

use vstd::prelude::*;
use crate::memory::{initialized, data_copied, zero_filled, Memory, Regions};

verus! {

/// One piece of work that the sequence asks for. The memory actions can be
/// performed on a [`Memory`]; the others need the machine.
#[derive(Clone, Copy, Debug, PartialEq, Eq, Structural)]
pub enum Action {
    /// Write zero to every byte of `[start, end)`.
    ZeroBss { start: usize, end: usize },
    /// Copy the bytes that start at `source` into `[start, end)`.
    InitData { start: usize, end: usize, source: usize },
    /// Call the hook that runs before the entry point.
    PreInit,
    /// Call the program's entry point.
    Main,
    /// Stop for good: raise a breakpoint, then loop forever. Only a hardware
    /// reset leads out of it.
    Halt,
}

/// How far the sequence has come. Every stage before `Running` belongs to
/// booting.
#[derive(Clone, Copy, Debug, PartialEq, Eq, Structural)]
pub enum Stage {
    /// Just reset: nothing has been done, and nothing in memory is trusted.
    Reset,
    /// The zeroed region has been filled.
    BssReady,
    /// The data region has been filled too.
    DataReady,
    /// The hook has returned.
    PreInitDone,
    /// The entry point has been called.
    Running,
    /// The entry point returned, and the machine was stopped.
    Halted,
}

impl Stage {
    /// Whether the entry point has not been called yet.
    pub open spec fn is_booting(self) -> bool {
        self.rank() < 4
    }

    /// Whether the entry point has not been called yet.
    pub fn booting(self) -> (b: bool)
        ensures
            b == self.is_booting(),
    {
        match self {
            Stage::Running | Stage::Halted => false,
            _ => true,
        }
    }

    /// The position of the stage in the sequence.
    pub open spec fn rank(self) -> nat {
        match self {
            Stage::Reset => 0,
            Stage::BssReady => 1,
            Stage::DataReady => 2,
            Stage::PreInitDone => 3,
            Stage::Running => 4,
            Stage::Halted => 5,
        }
    }
}

/// What follows once the zeroed region is done with: the copy of the data
/// region, or the hook where that region is empty.
pub open spec fn after_bss(r: Regions) -> (Stage, Action) {
    if r.sdata < r.edata {
        (Stage::DataReady, Action::InitData { start: r.sdata, end: r.edata, source: r.sidata })
    } else {
        (Stage::PreInitDone, Action::PreInit)
    }
}

/// The stage that follows `stage` and the action to perform on the way. A
/// memory action is left out where its region is empty. Once the entry point
/// has been called the only thing left is to halt.
pub open spec fn next(stage: Stage, r: Regions) -> (Stage, Action) {
    match stage {
        Stage::Reset => if r.sbss < r.ebss {
            (Stage::BssReady, Action::ZeroBss { start: r.sbss, end: r.ebss })
        } else {
            after_bss(r)
        },
        Stage::BssReady => after_bss(r),
        Stage::DataReady => (Stage::PreInitDone, Action::PreInit),
        Stage::PreInitDone => (Stage::Running, Action::Main),
        Stage::Running => (Stage::Halted, Action::Halt),
        Stage::Halted => (Stage::Halted, Action::Halt),
    }
}

fn copy_or_hook(regions: &Regions) -> (r: (Stage, Action))
    ensures
        r == after_bss(*regions),
{
    if regions.sdata < regions.edata {
        (
            Stage::DataReady,
            Action::InitData { start: regions.sdata, end: regions.edata, source: regions.sidata },
        )
    } else {
        (Stage::PreInitDone, Action::PreInit)
    }
}

/// Advances the sequence by one action. Call it once after a reset and
/// again each time the action it gave has returned.
pub fn step(stage: Stage, regions: &Regions) -> (r: (Stage, Action))
    ensures
        r == next(stage, *regions),
{
    match stage {
        Stage::Reset => {
            if regions.sbss < regions.ebss {
                (Stage::BssReady, Action::ZeroBss { start: regions.sbss, end: regions.ebss })
            } else {
                copy_or_hook(regions)
            }
        },
        Stage::BssReady => copy_or_hook(regions),
        Stage::DataReady => (Stage::PreInitDone, Action::PreInit),
        Stage::PreInitDone => (Stage::Running, Action::Main),
        Stage::Running => (Stage::Halted, Action::Halt),
        Stage::Halted => (Stage::Halted, Action::Halt),
    }
}

/// The memory actions of a boot, those on empty regions left out.
pub open spec fn memory_plan(r: Regions) -> Seq<Action> {
    let zero = if r.sbss < r.ebss {
        seq![Action::ZeroBss { start: r.sbss, end: r.ebss }]
    } else {
        Seq::<Action>::empty()
    };
    let copy = if r.sdata < r.edata {
        seq![Action::InitData { start: r.sdata, end: r.edata, source: r.sidata }]
    } else {
        Seq::<Action>::empty()
    };
    zero + copy
}

/// Everything that happens after a reset, in order: the memory actions, the
/// hook, the entry point, and the halt that follows if the entry point
/// returns.
pub open spec fn boot_plan(r: Regions) -> Seq<Action> {
    memory_plan(r) + seq![Action::PreInit, Action::Main, Action::Halt]
}

/// The actions that are still to come at `stage`, in order.
pub open spec fn remaining(stage: Stage, r: Regions) -> Seq<Action>
    decreases 5 - stage.rank(),
{
    if stage == Stage::Halted {
        Seq::<Action>::empty()
    } else {
        seq![next(stage, r).1] + remaining(next(stage, r).0, r)
    }
}

/// Stepping from reset until the halt gives the boot plan and nothing else:
/// the memory actions first, then the hook once, the entry point once, and
/// the halt once.
pub proof fn lemma_steps_follow_plan(r: Regions)
    ensures
        remaining(Stage::Reset, r) == boot_plan(r),
{
    reveal_with_fuel(remaining, 7);
    assert(remaining(Stage::PreInitDone, r) =~= seq![Action::Main, Action::Halt]);
    assert(remaining(Stage::DataReady, r) =~= seq![Action::PreInit, Action::Main, Action::Halt]);
    assert(remaining(Stage::Reset, r) =~= boot_plan(r));
}

/// Every step moves forward, so no stage comes twice. The entry point is
/// called on leaving `PreInitDone` and at no other step, the hook only
/// during booting, and the halt only after the entry point was called.
/// `Halted` is never left. Booting ends at one step only, the call of the
/// entry point, and nothing leads back into it.
pub proof fn lemma_step_advances(stage: Stage, r: Regions)
    ensures
        stage != Stage::Halted ==> next(stage, r).0.rank() > stage.rank(),
        next(Stage::Halted, r) == (Stage::Halted, Action::Halt),
        next(stage, r).1 == Action::Main <==> stage == Stage::PreInitDone,
        next(stage, r).1 == Action::Main ==> next(stage, r).0 == Stage::Running,
        next(stage, r).1 == Action::PreInit ==> next(stage, r).0 == Stage::PreInitDone
            && stage.is_booting(),
        next(stage, r).1 == Action::Halt <==> !stage.is_booting(),
        next(stage, r).1 is ZeroBss || next(stage, r).1 is InitData ==> stage.rank() < 2,
        stage.is_booting() && !next(stage, r).0.is_booting() <==> stage == Stage::PreInitDone,
        !stage.is_booting() ==> !next(stage, r).0.is_booting(),
{
}

/// The whole sequence from reset to halt, as the list of actions that
/// [`step`] gives one by one. Whoever runs the list stops at the first action
/// that does not return.
pub fn reset_handler(regions: &Regions) -> (plan: Vec<Action>)
    ensures
        plan@ == boot_plan(*regions),
{
    let mut plan: Vec<Action> = Vec::new();
    let mut stage: Stage = Stage::Reset;
    proof {
        lemma_steps_follow_plan(*regions);
    }
    while stage != Stage::Halted
        invariant
            plan@ + remaining(stage, *regions) == boot_plan(*regions),
        decreases 5 - stage.rank(),
    {
        let (s, a) = step(stage, regions);
        assert((plan@.push(a)) + remaining(s, *regions) =~= plan@ + remaining(stage, *regions));
        plan.push(a);
        stage = s;
    }
    assert(plan@ =~= plan@ + remaining(stage, *regions));
    plan
}

/// Whether `action` can be performed on an image of `len` bytes: a memory
/// action on a region that is not empty needs the region, and for a copy its
/// source, inside the image and apart from each other.
pub open spec fn admits(len: int, action: Action) -> bool {
    match action {
        Action::ZeroBss { start, end } => start < end ==> end <= len,
        Action::InitData { start, end, source } => start < end ==> {
            &&& end <= len
            &&& source + (end - start) <= len
            &&& (end <= source || source + (end - start) <= start)
        },
        _ => true,
    }
}

/// The image after `action`. Only the memory actions change it.
pub open spec fn effect(m: Seq<u8>, action: Action) -> Seq<u8> {
    match action {
        Action::ZeroBss { start, end } => zero_filled(m, start as int, end as int),
        Action::InitData { start, end, source } => data_copied(
            m,
            start as int,
            end as int,
            source as int,
        ),
        _ => m,
    }
}

/// The image after the actions of `plan`, performed in order.
pub open spec fn effects(m: Seq<u8>, plan: Seq<Action>) -> Seq<u8>
    decreases plan.len(),
{
    if plan.len() == 0 {
        m
    } else {
        effect(effects(m, plan.drop_last()), plan.last())
    }
}

/// Performing the boot plan leaves the image initialized: leaving out the
/// actions on empty regions changes nothing.
pub proof fn lemma_plan_initializes(m: Seq<u8>, r: Regions)
    ensures
        effects(m, boot_plan(r)) == initialized(m, r),
        effects(m, memory_plan(r)) == initialized(m, r),
{
    let mp = memory_plan(r);
    let z = zero_filled(m, r.sbss as int, r.ebss as int);
    reveal_with_fuel(effects, 3);
    assert(effects(m, Seq::<Action>::empty()) == m);
    if r.sbss < r.ebss {
        let zp = seq![Action::ZeroBss { start: r.sbss, end: r.ebss }];
        assert(zp.drop_last() =~= Seq::<Action>::empty());
        assert(effects(m, zp) == z);
        if r.sdata < r.edata {
            assert(mp.drop_last() =~= zp);
        } else {
            assert(mp =~= zp);
            assert(initialized(m, r) =~= z);
        }
    } else {
        assert(z =~= m);
        if r.sdata < r.edata {
            assert(mp.drop_last() =~= Seq::<Action>::empty());
        } else {
            assert(mp =~= Seq::<Action>::empty());
            assert(initialized(m, r) =~= m);
        }
    }
    assert(effects(m, mp) == initialized(m, r));
    let p1 = mp.push(Action::PreInit);
    let p2 = p1.push(Action::Main);
    let p3 = p2.push(Action::Halt);
    assert(p1.drop_last() =~= mp);
    assert(p2.drop_last() =~= p1);
    assert(p3.drop_last() =~= p2);
    assert(effects(m, p1) == effects(m, mp));
    assert(effects(m, p2) == effects(m, p1));
    assert(effects(m, p3) == effects(m, p2));
    assert(p3 =~= boot_plan(r));
}

/// Performs `action` on the image. The hook, the entry point and the halt
/// are the machine's to perform and leave the image as it is.
pub fn perform(mem: &mut Memory, action: Action)
    requires
        admits(old(mem)@.len() as int, action),
    ensures
        final(mem)@ == effect(old(mem)@, action),
{
    match action {
        Action::ZeroBss { start, end } => {
            mem.zero_bss(start, end);
        },
        Action::InitData { start, end, source } => {
            mem.init_data(start, end, source);
        },
        _ => {},
    }
}

/// Every action of the boot plan of a layout that fits can be performed
/// when its turn comes.
pub proof fn lemma_plan_admitted(len: int, r: Regions, i: int)
    requires
        r.fits(len),
        0 <= i < boot_plan(r).len(),
    ensures
        admits(len, boot_plan(r)[i]),
{
}

} // verus!
