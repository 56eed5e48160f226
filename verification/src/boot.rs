//! How the CPUs start the hypervisor together.
//!
//! Every CPU enters on its own. The primary one sets up what all of them share, then each sets
//! itself up, then the primary one finishes, and only then do they enter their guests. They
//! wait for each other at shared counters; when one fails, the others stop waiting and fail.

use vstd::prelude::*;
use crate::error::{HvError, HvErrorNum, HvResult};
use crate::header::HvHeader;
use crate::percpu::{areas_are_apart, counts_entering, PerCpuArray};

verus! {

/// Whether a CPU has failed.
pub fn has_err(error_num: i32) -> (r: bool)
    ensures
        r == (error_num != 0),
{
    error_num != 0
}

/// What a round of waiting gives, with the shared error before and after it: nothing, to go on
/// waiting, as long as something is pending and no CPU has failed; else a failure exactly if a
/// CPU has failed by the end of the round.
pub open spec fn wait_gives(
    error_num: i32,
    pending: bool,
    error_num_after: i32,
    r: Option<HvResult<()>>,
) -> bool {
    &&& r is None <==> error_num == 0 && pending
    &&& r is Some ==> (r->0 is Ok <==> error_num_after == 0)
    &&& r is Some && r->0 is Ok ==> r->0 == Ok::<(), HvError>(())
    &&& r is Some && r->0 is Err ==> r->0->Err_0.says(
        HvErrorNum::EBUSY,
        "Other cpu init failed!"@,
    )
}

/// One round of waiting, for as long as something is `pending`: `error_num` is the shared
/// error before the round, `error_num_after` the one after it.
///
/// `None` means to go on waiting. Waiting ends when nothing is pending any more or when a CPU
/// has failed; it is an error if a CPU has failed by the end of the round.
pub fn wait_for(error_num: i32, pending: bool, error_num_after: i32) -> (r: Option<HvResult<()>>)
    ensures
        wait_gives(error_num, pending, error_num_after, r),
{
    if !has_err(error_num) && pending {
        return None;
    }
    if has_err(error_num_after) {
        Some(Err(HvError::new(HvErrorNum::EBUSY, "Other cpu init failed!")))
    } else {
        Some(Ok(()))
    }
}

/// One round of waiting until a counter has reached a value.
pub fn wait_for_counter(
    counter: u32,
    max_value: u32,
    error_num: i32,
    error_num_after: i32,
) -> (r: Option<HvResult<()>>)
    ensures
        wait_gives(error_num, counter < max_value, error_num_after, r),
{
    wait_for(error_num, counter < max_value, error_num_after)
}

/// What the primary CPU does to set up what all CPUs share, in this order.
#[derive(Clone, Copy, Debug, PartialEq, Eq, Structural)]
pub enum EarlyStep {
    InitLogging,
    PrintConfig,
    InitHeap,
    CheckConfig,
    InitFrameAllocator,
    InitHvPageTable,
    InitCells,
    /// Tell the other CPUs, by setting the counter for which they wait to one.
    Announce,
}

/// The steps of the primary CPU, in order.
pub open spec fn early_steps() -> Seq<EarlyStep> {
    seq![
        EarlyStep::InitLogging,
        EarlyStep::PrintConfig,
        EarlyStep::InitHeap,
        EarlyStep::CheckConfig,
        EarlyStep::InitFrameAllocator,
        EarlyStep::InitHvPageTable,
        EarlyStep::InitCells,
        EarlyStep::Announce,
    ]
}

/// What the primary CPU does next to set up what all CPUs share: `done` is the step that it has
/// just taken, with how it went; `None` is the start. The result is the next step, or `None` at
/// the end; the first failure ends it.
pub fn primary_init_early(done: Option<(EarlyStep, HvResult<()>)>) -> (r: HvResult<
    Option<EarlyStep>,
>)
    ensures
        match done {
            None => r == Ok::<_, HvError>(Some(early_steps()[0])),
            Some((step, outcome)) => {
                &&& outcome is Err ==> r is Err && outcome == Err::<(), _>(r->Err_0)
                &&& outcome is Ok ==> r is Ok && forall|i: int|
                    0 <= i < early_steps().len() && #[trigger] early_steps()[i] == step
                        ==> r->Ok_0 == (if i + 1 < early_steps().len() {
                        Some(early_steps()[i + 1])
                    } else {
                        None
                    })
            },
        },
{
    match done {
        None => Ok(Some(EarlyStep::InitLogging)),
        Some((step, outcome)) => {
            match outcome {
                Ok(()) => {},
                Err(e) => {
                    return Err(e);
                },
            }
            match step {
                EarlyStep::InitLogging => Ok(Some(EarlyStep::PrintConfig)),
                EarlyStep::PrintConfig => Ok(Some(EarlyStep::InitHeap)),
                EarlyStep::InitHeap => Ok(Some(EarlyStep::CheckConfig)),
                EarlyStep::CheckConfig => Ok(Some(EarlyStep::InitFrameAllocator)),
                EarlyStep::InitFrameAllocator => Ok(Some(EarlyStep::InitHvPageTable)),
                EarlyStep::InitHvPageTable => Ok(Some(EarlyStep::InitCells)),
                EarlyStep::InitCells => Ok(Some(EarlyStep::Announce)),
                EarlyStep::Announce => Ok(None),
            }
        },
    }
}

/// What the primary CPU sets the counter to with which it tells the others that it has
/// finished.
pub fn primary_init_late() -> (late_ok: u32)
    ensures
        late_ok == 1,
{
    1
}

/// The counters that the CPUs share.
#[derive(Clone, Copy, Debug, PartialEq, Eq, Structural)]
pub struct BootCounters {
    /// How many CPUs have entered.
    pub entered_cpus: u32,
    /// How many CPUs have set themselves up.
    pub inited_cpus: u32,
    /// One once the primary CPU has set up what all share.
    pub init_early_ok: u32,
    /// One once the primary CPU has finished.
    pub init_late_ok: u32,
}

/// Where a CPU is on its way to its guest.
#[derive(Clone, Copy, Debug, PartialEq, Eq, Structural)]
pub enum BootPhase {
    /// Wait until all CPUs have entered.
    WaitEntered,
    /// The primary CPU sets up what all CPUs share.
    InitEarly,
    /// The others wait until it has.
    WaitEarly,
    /// The CPU sets itself up.
    InitCpu,
    /// The CPU counts as set up.
    CountInited,
    /// Wait until all CPUs have set themselves up.
    WaitInited,
    /// The primary CPU finishes.
    InitLate,
    /// The others wait until it has.
    WaitLate,
    /// The CPU enters its guest.
    Activate,
}

/// Where a CPU goes on once it is done with a phase.
pub open spec fn next_phase(phase: BootPhase, is_primary: bool) -> BootPhase {
    match phase {
        BootPhase::WaitEntered => if is_primary {
            BootPhase::InitEarly
        } else {
            BootPhase::WaitEarly
        },
        BootPhase::InitEarly => BootPhase::InitCpu,
        BootPhase::WaitEarly => BootPhase::InitCpu,
        BootPhase::InitCpu => BootPhase::CountInited,
        BootPhase::CountInited => BootPhase::WaitInited,
        BootPhase::WaitInited => if is_primary {
            BootPhase::InitLate
        } else {
            BootPhase::WaitLate
        },
        BootPhase::InitLate => BootPhase::Activate,
        BootPhase::WaitLate => BootPhase::Activate,
        BootPhase::Activate => BootPhase::Activate,
    }
}

/// Whether a CPU waits in a phase.
pub open spec fn waits(phase: BootPhase) -> bool {
    match phase {
        BootPhase::WaitEntered => true,
        BootPhase::WaitEarly => true,
        BootPhase::WaitInited => true,
        BootPhase::WaitLate => true,
        _ => false,
    }
}

/// Whether what a CPU waits for in a phase has not come yet.
pub open spec fn is_pending(phase: BootPhase, counters: BootCounters, online_cpus: u32) -> bool {
    match phase {
        BootPhase::WaitEntered => counters.entered_cpus < online_cpus,
        BootPhase::WaitEarly => counters.init_early_ok < 1,
        BootPhase::WaitInited => counters.inited_cpus < online_cpus,
        BootPhase::WaitLate => counters.init_late_ok < 1,
        _ => false,
    }
}

/// A CPU on its way to its guest.
#[derive(Clone, Copy, Debug, PartialEq, Eq, Structural)]
pub struct BootCpu {
    pub id: u32,
    pub online_cpus: u32,
    pub phase: BootPhase,
}

impl BootCpu {
    /// The CPU once its phase has ended with an outcome: on success it goes on, else it stays.
    pub open spec fn advanced(self, outcome: HvResult<()>) -> Self {
        match outcome {
            Ok(_) => BootCpu { phase: next_phase(self.phase, self.id == 0), ..self },
            Err(_) => self,
        }
    }

    /// A CPU that has just entered.
    pub fn new(id: u32, online_cpus: u32) -> (cpu: Self)
        ensures
            cpu == (BootCpu { id, online_cpus, phase: BootPhase::WaitEntered }),
    {
        BootCpu { id, online_cpus, phase: BootPhase::WaitEntered }
    }

    /// Whether this is the primary CPU: the first one that entered.
    pub fn is_primary(&self) -> (r: bool)
        ensures
            r == (self.id == 0),
    {
        self.id == 0
    }

    /// One round of what the CPU waits for in its phase, with the shared counters and the
    /// shared error before and after the round. `None` means to go on waiting.
    pub fn wait(&self, counters: &BootCounters, error_num: i32, error_num_after: i32) -> (r: Option<
        HvResult<()>,
    >)
        requires
            waits(self.phase),
        ensures
            wait_gives(
                error_num,
                is_pending(self.phase, *counters, self.online_cpus),
                error_num_after,
                r,
            ),
    {
        match self.phase {
            BootPhase::WaitEntered => wait_for(
                error_num,
                counters.entered_cpus < self.online_cpus,
                error_num_after,
            ),
            BootPhase::WaitEarly => wait_for_counter(
                counters.init_early_ok,
                1,
                error_num,
                error_num_after,
            ),
            BootPhase::WaitInited => wait_for_counter(
                counters.inited_cpus,
                self.online_cpus,
                error_num,
                error_num_after,
            ),
            _ => wait_for_counter(counters.init_late_ok, 1, error_num, error_num_after),
        }
    }

    /// Ends the phase of the CPU with how it went: on success the CPU goes on, a failure is the
    /// result. Entering the guest ends only in failure.
    pub fn advance(&mut self, outcome: HvResult<()>) -> (r: HvResult<()>)
        requires
            old(self).phase == BootPhase::Activate ==> outcome is Err,
        ensures
            r == outcome,
            *final(self) == old(self).advanced(outcome),
    {
        if outcome.is_ok() {
            let is_primary: bool = self.is_primary();
            self.phase = match self.phase {
                BootPhase::WaitEntered => if is_primary {
                    BootPhase::InitEarly
                } else {
                    BootPhase::WaitEarly
                },
                BootPhase::InitEarly => BootPhase::InitCpu,
                BootPhase::WaitEarly => BootPhase::InitCpu,
                BootPhase::InitCpu => BootPhase::CountInited,
                BootPhase::CountInited => BootPhase::WaitInited,
                BootPhase::WaitInited => if is_primary {
                    BootPhase::InitLate
                } else {
                    BootPhase::WaitLate
                },
                BootPhase::InitLate => BootPhase::Activate,
                BootPhase::WaitLate => BootPhase::Activate,
                BootPhase::Activate => BootPhase::Activate,
            };
        }
        outcome
    }
}

/// What the shared error is once a CPU has ended with a result.
pub open spec fn error_after(result: HvResult<()>, error_num: i32) -> int {
    match result {
        Ok(_) => error_num as int,
        Err(e) => -e.num.errno(),
    }
}

/// What the shared error becomes when a CPU has ended with a result: a failure takes its place.
/// It is also what the CPU hands back to the driver.
pub fn entry(result: HvResult<()>, error_num: i32) -> (code: i32)
    ensures
        code == error_after(result, error_num),
        result is Err ==> code < 0,
{
    match result {
        Ok(()) => error_num,
        Err(e) => e.code(),
    }
}

/// How far a CPU has come.
pub enum Progress {
    /// It has not entered.
    Outside,
    /// It was not let in, for there was no room left.
    Refused,
    /// It has entered with a number, and is in a phase.
    At { id: u32, phase: BootPhase },
    /// It has entered with a number, and failed in a phase.
    Failed { id: u32, phase: BootPhase },
}

/// All CPUs on their way to their guests, with what they share.
pub struct BootSystem {
    /// How far each CPU has come.
    pub cpus: Seq<Progress>,
    /// How many CPUs there is room for.
    pub max_cpus: u32,
    pub counters: BootCounters,
    pub error_num: i32,
}

/// The number that a CPU got when it entered, if it has entered.
pub open spec fn number_of(p: Progress) -> Option<u32> {
    match p {
        Progress::Outside => None,
        Progress::Refused => None,
        Progress::At { id, phase } => Some(id),
        Progress::Failed { id, phase } => Some(id),
    }
}

/// Whether a CPU has entered.
pub open spec fn has_entered(p: Progress) -> bool {
    number_of(p) is Some
}

/// Whether a phase comes after the CPU has set itself up and counts as such.
pub open spec fn after_inited(phase: BootPhase) -> bool {
    match phase {
        BootPhase::WaitInited => true,
        BootPhase::InitLate => true,
        BootPhase::WaitLate => true,
        BootPhase::Activate => true,
        _ => false,
    }
}

/// Whether a CPU counts as set up.
pub open spec fn has_inited(p: Progress) -> bool {
    match p {
        Progress::Outside => false,
        Progress::Refused => false,
        Progress::At { id, phase } => after_inited(phase),
        Progress::Failed { id, phase } => after_inited(phase),
    }
}

/// How many CPUs have entered.
pub open spec fn count_entered(cpus: Seq<Progress>) -> nat
    decreases cpus.len(),
{
    if cpus.len() == 0 {
        0
    } else {
        count_entered(cpus.drop_last()) + if has_entered(cpus.last()) {
            1nat
        } else {
            0
        }
    }
}

/// How many CPUs count as set up.
pub open spec fn count_inited(cpus: Seq<Progress>) -> nat
    decreases cpus.len(),
{
    if cpus.len() == 0 {
        0
    } else {
        count_inited(cpus.drop_last()) + if has_inited(cpus.last()) {
            1nat
        } else {
            0
        }
    }
}

impl BootSystem {
    /// No CPU has entered.
    pub open spec fn at_start(self) -> bool {
        &&& 0 < self.cpus.len() <= u32::MAX
        &&& forall|i: int| 0 <= i < self.cpus.len() ==> #[trigger] self.cpus[i] is Outside
        &&& self.counters == BootCounters {
            entered_cpus: 0,
            inited_cpus: 0,
            init_early_ok: 0,
            init_late_ok: 0,
        }
        &&& self.error_num == 0
    }

    /// The system with one CPU somewhere else.
    pub open spec fn moved(self, cpu: int, to: Progress) -> BootSystem {
        BootSystem { cpus: self.cpus.update(cpu, to), ..self }
    }

    /// The system after a CPU has tried to enter: while there is room, it gets the number of the
    /// CPUs that have entered before it, and is counted; else it is refused.
    pub open spec fn entered(self, cpu: int) -> BootSystem {
        let id = self.counters.entered_cpus;
        if id < self.max_cpus {
            BootSystem {
                counters: BootCounters { entered_cpus: (id + 1) as u32, ..self.counters },
                ..self.moved(cpu, Progress::At { id, phase: BootPhase::WaitEntered })
            }
        } else {
            self.moved(cpu, Progress::Refused)
        }
    }

    /// What a CPU does to the counters when it is done with a phase.
    pub open spec fn counters_after(self, phase: BootPhase) -> BootCounters {
        match phase {
            BootPhase::InitEarly => BootCounters { init_early_ok: 1, ..self.counters },
            BootPhase::CountInited => BootCounters {
                inited_cpus: (self.counters.inited_cpus + 1) as u32,
                ..self.counters
            },
            BootPhase::InitLate => BootCounters { init_late_ok: 1, ..self.counters },
            _ => self.counters,
        }
    }

    /// One CPU takes a step: it tries to enter; or it is done with its phase and goes on, if it
    /// waits only once nothing is pending and no CPU has failed; or it fails and leaves its
    /// error, if it waits only once a CPU has failed.
    pub open spec fn step(self, next: BootSystem, cpu: int) -> bool {
        &&& 0 <= cpu < self.cpus.len()
        &&& match self.cpus[cpu] {
            Progress::Outside => next == self.entered(cpu),
            Progress::Refused => false,
            Progress::At { id, phase } => {
                ||| {
                    &&& phase != BootPhase::Activate
                    &&& waits(phase) ==> self.error_num == 0 && !is_pending(
                        phase,
                        self.counters,
                        self.cpus.len() as u32,
                    )
                    &&& next == (BootSystem {
                        counters: self.counters_after(phase),
                        ..self.moved(cpu, Progress::At { id, phase: next_phase(phase, id == 0) })
                    })
                }
                ||| {
                    &&& waits(phase) ==> self.error_num != 0
                    &&& next.error_num < 0
                    &&& next == (BootSystem {
                        error_num: next.error_num,
                        ..self.moved(cpu, Progress::Failed { id, phase })
                    })
                }
            },
            Progress::Failed { id, phase } => false,
        }
    }

    /// Whether a CPU of the system is the one that is given by itself.
    pub open spec fn runs(self, cpu: int, boot: BootCpu) -> bool {
        &&& 0 <= cpu < self.cpus.len()
        &&& self.cpus[cpu] == (Progress::At { id: boot.id, phase: boot.phase })
        &&& boot.online_cpus == self.cpus.len()
    }

    /// The system once a CPU has failed in its phase and has left its error.
    pub open spec fn failed(self, cpu: int, boot: BootCpu, e: HvError) -> BootSystem {
        BootSystem {
            error_num: error_after(Err(e), self.error_num) as i32,
            ..self.moved(cpu, Progress::Failed { id: boot.id, phase: boot.phase })
        }
    }

    /// What holds of the system at all times.
    pub open spec fn consistent(self) -> bool {
        let n = self.cpus.len();
        &&& 0 < n <= u32::MAX
        &&& self.counters.entered_cpus == count_entered(self.cpus)
        &&& self.counters.inited_cpus == count_inited(self.cpus)
        &&& self.counters.init_early_ok <= 1
        &&& self.counters.init_late_ok <= 1
        &&& self.counters.init_late_ok == 1 ==> self.counters.inited_cpus == n
        &&& self.numbers_consistent()
        &&& forall|i: int| 0 <= i < n ==> self.cpu_consistent(i)
    }

    /// What holds of the numbers of the CPUs at all times: there are no more than there is room
    /// for, no two CPUs have the same, and they run from zero without a gap.
    pub open spec fn numbers_consistent(self) -> bool {
        &&& self.counters.entered_cpus <= self.max_cpus
        &&& forall|i: int|
            0 <= i < self.cpus.len() && has_entered(#[trigger] self.cpus[i]) ==> number_of(
                self.cpus[i],
            )->0 < self.counters.entered_cpus
        &&& forall|i: int, j: int|
            0 <= i < j < self.cpus.len() && has_entered(#[trigger] self.cpus[i]) && has_entered(
                #[trigger] self.cpus[j],
            ) ==> number_of(self.cpus[i]) != number_of(self.cpus[j])
        &&& forall|id: u32| id < self.counters.entered_cpus ==> #[trigger] self.is_taken(id)
    }

    /// Whether a CPU has a number.
    pub open spec fn is_taken(self, id: u32) -> bool {
        exists|i: int|
            0 <= i < self.cpus.len() && number_of(#[trigger] self.cpus[i]) == Some(id)
    }

    /// What holds of one CPU at all times.
    pub open spec fn cpu_consistent(self, i: int) -> bool {
        match self.cpus[i] {
            Progress::Outside => true,
            Progress::Refused => true,
            Progress::At { id, phase } => self.phase_consistent(phase, id == 0),
            Progress::Failed { id, phase } => {
                &&& self.error_num != 0
                &&& self.phase_consistent(phase, id == 0)
            },
        }
    }

    /// What holds when a CPU has come to a phase.
    pub open spec fn phase_consistent(self, phase: BootPhase, is_primary: bool) -> bool {
        let n = self.cpus.len();
        match phase {
            BootPhase::WaitEntered => true,
            BootPhase::InitEarly => is_primary && self.counters.entered_cpus == n,
            BootPhase::WaitEarly => !is_primary && self.counters.entered_cpus == n,
            BootPhase::InitCpu | BootPhase::CountInited | BootPhase::WaitInited => {
                &&& self.counters.entered_cpus == n
                &&& self.counters.init_early_ok == 1
            },
            BootPhase::InitLate => {
                &&& is_primary
                &&& self.counters.init_early_ok == 1
                &&& self.counters.inited_cpus == n
            },
            BootPhase::WaitLate => {
                &&& !is_primary
                &&& self.counters.init_early_ok == 1
                &&& self.counters.inited_cpus == n
            },
            BootPhase::Activate => {
                &&& self.counters.init_early_ok == 1
                &&& self.counters.inited_cpus == n
                &&& self.counters.init_late_ok == 1
            },
        }
    }
}

/// Moving one CPU changes the counts by what that CPU counts for.
proof fn lemma_counts_after_move(cpus: Seq<Progress>, i: int, to: Progress)
    requires
        0 <= i < cpus.len(),
    ensures
        count_entered(cpus.update(i, to)) == count_entered(cpus) + (if has_entered(to) {
            1int
        } else {
            0
        }) - (if has_entered(cpus[i]) {
            1int
        } else {
            0
        }),
        count_inited(cpus.update(i, to)) == count_inited(cpus) + (if has_inited(to) {
            1int
        } else {
            0
        }) - (if has_inited(cpus[i]) {
            1int
        } else {
            0
        }),
    decreases cpus.len(),
{
    let moved = cpus.update(i, to);
    if i == cpus.len() - 1 {
        assert(moved.drop_last() =~= cpus.drop_last());
    } else {
        assert(moved.drop_last() =~= cpus.drop_last().update(i, to));
        lemma_counts_after_move(cpus.drop_last(), i, to);
    }
}

/// No more CPUs are counted than there are, and when all are counted each of them is.
proof fn lemma_counts(cpus: Seq<Progress>)
    ensures
        count_entered(cpus) <= cpus.len(),
        count_inited(cpus) <= cpus.len(),
        count_entered(cpus) == cpus.len() ==> forall|i: int|
            0 <= i < cpus.len() ==> has_entered(#[trigger] cpus[i]),
        count_inited(cpus) == cpus.len() ==> forall|i: int|
            0 <= i < cpus.len() ==> has_inited(#[trigger] cpus[i]),
    decreases cpus.len(),
{
    if cpus.len() > 0 {
        lemma_counts(cpus.drop_last());
        assert(forall|i: int| 0 <= i < cpus.len() - 1 ==> cpus[i] == cpus.drop_last()[i]);
    }
}

/// Nothing is counted when no CPU has entered.
proof fn lemma_counts_at_start(cpus: Seq<Progress>)
    requires
        forall|i: int| 0 <= i < cpus.len() ==> #[trigger] cpus[i] is Outside,
    ensures
        count_entered(cpus) == 0,
        count_inited(cpus) == 0,
    decreases cpus.len(),
{
    if cpus.len() > 0 {
        assert(cpus.last() is Outside);
        assert forall|i: int| 0 <= i < cpus.drop_last().len() implies #[trigger] cpus.drop_last()[i]
            is Outside by {
            assert(cpus.drop_last()[i] == cpus[i]);
        }
        lemma_counts_at_start(cpus.drop_last());
    }
}

/// A step of any CPU keeps the numbers consistent.
proof fn lemma_step_keeps_numbers(s: BootSystem, t: BootSystem, cpu: int)
    requires
        s.consistent(),
        s.step(t, cpu),
    ensures
        t.numbers_consistent(),
{
    lemma_counts(s.cpus);
    lemma_counts_after_move(s.cpus, cpu, t.cpus[cpu]);
    lemma_counts(t.cpus);
    assert(t.cpus =~= s.cpus.update(cpu, t.cpus[cpu]));
    assert forall|id: u32| id < t.counters.entered_cpus implies #[trigger] t.is_taken(id) by {
        if id < s.counters.entered_cpus {
            assert(s.is_taken(id));
            let i = choose|i: int|
                0 <= i < s.cpus.len() && number_of(#[trigger] s.cpus[i]) == Some(id);
            assert(number_of(t.cpus[i]) == Some(id));
        } else {
            assert(number_of(t.cpus[cpu]) == Some(id));
        }
    }
}

/// A step of any CPU keeps the system consistent.
pub proof fn step_keeps_consistent(s: BootSystem, t: BootSystem, cpu: int)
    requires
        s.consistent(),
        s.step(t, cpu),
    ensures
        t.consistent(),
        t.cpus.len() == s.cpus.len(),
        t.max_cpus == s.max_cpus,
{
    let to = t.cpus[cpu];
    lemma_counts(s.cpus);
    lemma_counts(t.cpus);
    lemma_counts_after_move(s.cpus, cpu, to);
    lemma_step_keeps_numbers(s, t, cpu);
    assert(s.cpu_consistent(cpu));
    assert(t.cpus =~= s.cpus.update(cpu, to));
    assert forall|i: int| 0 <= i < t.cpus.len() implies t.cpu_consistent(i) by {
        assert(s.cpu_consistent(i));
    }
}

/// Whether some CPU takes the step from one state to the other.
pub open spec fn some_step(s: BootSystem, t: BootSystem) -> bool {
    exists|cpu: int| #[trigger] s.step(t, cpu)
}

/// Whether some CPU takes the step from one state of a sequence to the next.
pub open spec fn steps_at(run: Seq<BootSystem>, k: int) -> bool {
    some_step(run[k], run[k + 1])
}

/// Whether a sequence of states is what a system goes through from the start.
pub open spec fn is_boot(run: Seq<BootSystem>) -> bool {
    &&& run.len() > 0
    &&& run[0].at_start()
    &&& forall|k: int| 0 <= k < run.len() - 1 ==> #[trigger] steps_at(run, k)
}

/// Whatever the CPUs do and in whatever order, the system is consistent at all times.
pub proof fn boot_is_consistent(run: Seq<BootSystem>, k: int)
    requires
        is_boot(run),
        0 <= k < run.len(),
    ensures
        run[k].consistent(),
        run[k].cpus.len() == run[0].cpus.len(),
        run[k].max_cpus == run[0].max_cpus,
    decreases k,
{
    if k == 0 {
        lemma_counts_at_start(run[0].cpus);
    } else {
        boot_is_consistent(run, k - 1);
        assert(steps_at(run, k - 1));
        let (s, t) = (run[k - 1], run[k]);
        let cpu = choose|cpu: int| #[trigger] s.step(t, cpu);
        step_keeps_consistent(run[k - 1], run[k], cpu);
    }
}

/// No CPU sets itself up before all CPUs have entered and the primary one has set up what they
/// share.
pub proof fn no_cpu_is_set_up_before_the_shared_parts(run: Seq<BootSystem>, k: int, cpu: int)
    requires
        is_boot(run),
        0 <= k < run.len(),
        0 <= cpu < run[k].cpus.len(),
        run[k].cpus[cpu] matches Progress::At { id, phase } && phase == BootPhase::InitCpu,
    ensures
        run[k].counters.init_early_ok == 1,
        forall|i: int| 0 <= i < run[k].cpus.len() ==> has_entered(#[trigger] run[k].cpus[i]),
{
    boot_is_consistent(run, k);
    assert(run[k].cpu_consistent(cpu));
    lemma_counts(run[k].cpus);
}

/// No CPU enters its guest before every CPU has set itself up and the primary one has
/// finished.
pub proof fn no_guest_runs_before_all_cpus_are_set_up(run: Seq<BootSystem>, k: int, cpu: int)
    requires
        is_boot(run),
        0 <= k < run.len(),
        0 <= cpu < run[k].cpus.len(),
        run[k].cpus[cpu] matches Progress::At { id, phase } && phase == BootPhase::Activate,
    ensures
        run[k].counters.init_early_ok == 1,
        run[k].counters.init_late_ok == 1,
        forall|i: int| 0 <= i < run[k].cpus.len() ==> has_inited(#[trigger] run[k].cpus[i]),
{
    boot_is_consistent(run, k);
    assert(run[k].cpu_consistent(cpu));
    lemma_counts(run[k].cpus);
}

/// Only the primary CPU, the first one that entered, sets up what all share, and only it
/// finishes.
pub proof fn shared_parts_are_the_primary_cpus(run: Seq<BootSystem>, k: int, cpu: int)
    requires
        is_boot(run),
        0 <= k < run.len(),
        0 <= cpu < run[k].cpus.len(),
        run[k].cpus[cpu] matches Progress::At { id, phase } && (phase == BootPhase::InitEarly
            || phase == BootPhase::InitLate),
    ensures
        number_of(run[k].cpus[cpu]) == Some(0u32),
{
    boot_is_consistent(run, k);
    assert(run[k].cpu_consistent(cpu));
}

/// However the CPUs enter, the numbers that they have are exactly those from zero up to the count
/// of the CPUs that have entered.
pub proof fn numbers_run_from_zero(run: Seq<BootSystem>, k: int)
    requires
        is_boot(run),
        0 <= k < run.len(),
    ensures
        run[k].counters.entered_cpus == count_entered(run[k].cpus),
        forall|id: u32| id < run[k].counters.entered_cpus <==> #[trigger] run[k].is_taken(id),
{
    boot_is_consistent(run, k);
}

/// However the CPUs enter, no two have the same number, and the areas of two of them have nothing
/// in common.
pub proof fn numbers_are_handed_out_once(
    run: Seq<BootSystem>,
    k: int,
    a: int,
    b: int,
    array: PerCpuArray,
)
    requires
        is_boot(run),
        0 <= k < run.len(),
        0 <= a < run[k].cpus.len(),
        0 <= b < run[k].cpus.len(),
        a != b,
        has_entered(run[k].cpus[a]),
        has_entered(run[k].cpus[b]),
    ensures
        ({
            let s = run[k];
            let id_a = number_of(s.cpus[a])->0;
            let id_b = number_of(s.cpus[b])->0;
            &&& id_a != id_b
            &&& array.end(id_a as int) <= array.start(id_b as int) || array.end(id_b as int)
                <= array.start(id_a as int)
        }),
{
    boot_is_consistent(run, k);
    let s = run[k];
    let id_a = number_of(s.cpus[a])->0;
    let id_b = number_of(s.cpus[b])->0;
    if a < b {
        assert(number_of(s.cpus[a]) != number_of(s.cpus[b]));
    } else {
        assert(number_of(s.cpus[b]) != number_of(s.cpus[a]));
    }
    if id_a < id_b {
        areas_are_apart(array, id_a, id_b);
    } else {
        areas_are_apart(array, id_b, id_a);
    }
}

/// The number of CPUs that have entered is never above what there is room for, each of them has a
/// number below that, and a CPU is refused only once all the room is taken.
pub proof fn the_maximum_is_never_exceeded(run: Seq<BootSystem>, k: int)
    requires
        is_boot(run),
        0 <= k < run.len(),
    ensures
        run[k].counters.entered_cpus <= run[0].max_cpus,
        forall|i: int|
            0 <= i < run[k].cpus.len() && has_entered(#[trigger] run[k].cpus[i]) ==> number_of(
                run[k].cpus[i],
            )->0 < run[0].max_cpus,
        forall|i: int|
            0 <= i < run[k].cpus.len() && #[trigger] run[k].cpus[i] is Refused
                ==> run[k].counters.entered_cpus == run[0].max_cpus,
    decreases k,
{
    boot_is_consistent(run, k);
    if k > 0 {
        the_maximum_is_never_exceeded(run, k - 1);
        boot_is_consistent(run, k - 1);
        assert(steps_at(run, k - 1));
        let (s, t) = (run[k - 1], run[k]);
        let cpu = choose|cpu: int| #[trigger] s.step(t, cpu);
        assert forall|i: int| 0 <= i < t.cpus.len() && #[trigger] t.cpus[i] is Refused implies
            t.counters.entered_cpus == run[0].max_cpus by {
            if i != cpu {
                assert(s.cpus[i] is Refused);
            }
        }
    }
}

/// The number of CPUs that have entered never goes down, and a CPU that has entered keeps its
/// number.
pub proof fn entering_is_for_good(run: Seq<BootSystem>, j: int, k: int)
    requires
        is_boot(run),
        0 <= j <= k < run.len(),
    ensures
        run[j].counters.entered_cpus <= run[k].counters.entered_cpus,
        forall|cpu: int|
            0 <= cpu < run[j].cpus.len() && has_entered(#[trigger] run[j].cpus[cpu])
                ==> number_of(run[k].cpus[cpu]) == number_of(run[j].cpus[cpu]),
    decreases k - j,
{
    if j < k {
        entering_is_for_good(run, j, k - 1);
        boot_is_consistent(run, j);
        boot_is_consistent(run, k - 1);
        assert(steps_at(run, k - 1));
        let (s, t) = (run[k - 1], run[k]);
        let cpu = choose|cpu: int| #[trigger] s.step(t, cpu);
        assert forall|i: int| 0 <= i < run[j].cpus.len() && has_entered(
            #[trigger] run[j].cpus[i],
        ) implies number_of(t.cpus[i]) == number_of(run[j].cpus[i]) by {
            assert(number_of(s.cpus[i]) == number_of(run[j].cpus[i]));
            assert(has_entered(s.cpus[i]));
        }
    }
}

/// No counter ever goes down, and a CPU that has failed is never forgotten.
pub proof fn nothing_is_taken_back(run: Seq<BootSystem>, j: int, k: int)
    requires
        is_boot(run),
        0 <= j <= k < run.len(),
    ensures
        run[j].counters.entered_cpus <= run[k].counters.entered_cpus,
        run[j].counters.inited_cpus <= run[k].counters.inited_cpus,
        run[j].counters.init_early_ok <= run[k].counters.init_early_ok,
        run[j].counters.init_late_ok <= run[k].counters.init_late_ok,
        run[j].error_num != 0 ==> run[k].error_num != 0,
    decreases k - j,
{
    if j < k {
        nothing_is_taken_back(run, j, k - 1);
        boot_is_consistent(run, k - 1);
        boot_is_consistent(run, k);
        assert(steps_at(run, k - 1));
        let (s, t) = (run[k - 1], run[k]);
        let cpu = choose|cpu: int| #[trigger] s.step(t, cpu);
        assert(s.cpu_consistent(cpu));
        assert(t.cpus =~= s.cpus.update(cpu, t.cpus[cpu]));
        lemma_counts_after_move(s.cpus, cpu, t.cpus[cpu]);
        lemma_counts(s.cpus);
    }
}

/// A CPU that tries to enter takes a step: with what [`crate::percpu::PerCpu::count_entering`]
/// makes of the count, it has entered as the CPU that [`BootCpu::new`] gives, or is refused.
pub proof fn entering_is_a_step(s: BootSystem, cpu: int, header: HvHeader, r: HvResult<u32>)
    requires
        0 <= cpu < s.cpus.len() <= u32::MAX,
        s.cpus[cpu] is Outside,
        header.max_cpus == s.max_cpus,
        counts_entering(s.counters.entered_cpus, header, r),
    ensures
        r is Ok ==> {
            let boot = BootCpu {
                id: s.counters.entered_cpus,
                online_cpus: s.cpus.len() as u32,
                phase: BootPhase::WaitEntered,
            };
            let t = BootSystem {
                counters: BootCounters { entered_cpus: r->Ok_0, ..s.counters },
                ..s.moved(cpu, Progress::At { id: boot.id, phase: boot.phase })
            };
            s.step(t, cpu) && t.runs(cpu, boot)
        },
        r is Err ==> s.step(s.moved(cpu, Progress::Refused), cpu),
{
}

/// A CPU that waits takes a step when a round of [`BootCpu::wait`] comes to an end and
/// [`BootCpu::advance`] takes its outcome. The round reads the shared error, then the counters,
/// then the error again, and other CPUs may go on in between; the step is taken at the last of
/// these moments.
pub proof fn waiting_ends_in_a_step(
    run: Seq<BootSystem>,
    i: int,
    j: int,
    k: int,
    cpu: int,
    boot: BootCpu,
    outcome: HvResult<()>,
)
    requires
        is_boot(run),
        0 <= i <= j <= k < run.len(),
        run[k].runs(cpu, boot),
        waits(boot.phase),
        wait_gives(
            run[i].error_num,
            is_pending(boot.phase, run[j].counters, boot.online_cpus),
            run[k].error_num,
            Some(outcome),
        ),
    ensures
        match outcome {
            Ok(_) => {
                let after = boot.advanced(outcome);
                let t = run[k].moved(cpu, Progress::At { id: after.id, phase: after.phase });
                run[k].step(t, cpu) && t.runs(cpu, after)
            },
            Err(e) => run[k].step(run[k].failed(cpu, boot, e), cpu),
        },
{
    nothing_is_taken_back(run, i, k);
    nothing_is_taken_back(run, j, k);
    boot_is_consistent(run, k);
    assert(run[k].counters_after(boot.phase) == run[k].counters);
}

/// A CPU that does not wait takes a step when its work has come to an end and
/// [`BootCpu::advance`] takes its outcome: on success the counters are what the work makes them.
pub proof fn work_ends_in_a_step(s: BootSystem, cpu: int, boot: BootCpu, outcome: HvResult<()>)
    requires
        s.runs(cpu, boot),
        !waits(boot.phase),
        boot.phase == BootPhase::Activate ==> outcome is Err,
    ensures
        match outcome {
            Ok(_) => {
                let after = boot.advanced(outcome);
                let t = BootSystem {
                    counters: s.counters_after(boot.phase),
                    ..s.moved(cpu, Progress::At { id: after.id, phase: after.phase })
                };
                s.step(t, cpu) && t.runs(cpu, after)
            },
            Err(e) => s.step(s.failed(cpu, boot, e), cpu),
        },
{
}

/// Once a CPU has failed, a CPU that waits can do nothing but fail, and the error stays.
pub proof fn failure_ends_all_waiting(
    s: BootSystem,
    t: BootSystem,
    cpu: int,
    id: u32,
    phase: BootPhase,
)
    requires
        s.error_num != 0,
        s.step(t, cpu),
        s.cpus[cpu] == (Progress::At { id, phase }),
    ensures
        waits(phase) ==> t.cpus[cpu] == (Progress::Failed { id, phase }),
        t.error_num != 0,
{
}

/// Where the CPUs go on: the primary one sets up what all share and finishes, the others wait for
/// it to do so; each sets itself up and is counted before it waits for the rest, and all end at
/// their guests.
pub proof fn the_way_to_the_guest(is_primary: bool)
    ensures
        next_phase(BootPhase::WaitEntered, true) is InitEarly,
        next_phase(BootPhase::WaitEntered, false) is WaitEarly,
        next_phase(BootPhase::InitEarly, is_primary) is InitCpu,
        next_phase(BootPhase::WaitEarly, is_primary) is InitCpu,
        next_phase(BootPhase::InitCpu, is_primary) is CountInited,
        next_phase(BootPhase::CountInited, is_primary) is WaitInited,
        next_phase(BootPhase::WaitInited, true) is InitLate,
        next_phase(BootPhase::WaitInited, false) is WaitLate,
        next_phase(BootPhase::InitLate, is_primary) is Activate,
        next_phase(BootPhase::WaitLate, is_primary) is Activate,
        next_phase(BootPhase::Activate, is_primary) is Activate,
{
}

/// What the CPUs wait for: that all online CPUs have entered, that the shared parts are set up,
/// that all online CPUs have set themselves up, that the primary CPU has finished. In no other
/// phase does a CPU wait.
pub proof fn what_the_cpus_wait_for(phase: BootPhase, counters: BootCounters, online_cpus: u32)
    ensures
        waits(phase) <==> phase is WaitEntered || phase is WaitEarly || phase is WaitInited || phase
            is WaitLate,
        phase is WaitEntered ==> (is_pending(phase, counters, online_cpus)
            <==> counters.entered_cpus < online_cpus),
        phase is WaitEarly ==> (is_pending(phase, counters, online_cpus) <==> counters.init_early_ok
            == 0),
        phase is WaitInited ==> (is_pending(phase, counters, online_cpus) <==> counters.inited_cpus
            < online_cpus),
        phase is WaitLate ==> (is_pending(phase, counters, online_cpus) <==> counters.init_late_ok
            == 0),
        !waits(phase) ==> !is_pending(phase, counters, online_cpus),
{
}

/// A round of waiting goes on exactly while something is pending and no CPU has failed; it ends
/// well exactly if no CPU has failed by its end, and else with the error that says so.
pub proof fn how_waiting_ends(
    error_num: i32,
    pending: bool,
    error_num_after: i32,
    r: Option<HvResult<()>>,
)
    requires
        wait_gives(error_num, pending, error_num_after, r),
    ensures
        pending && error_num == 0 ==> r is None,
        !pending || error_num != 0 ==> r is Some,
        r is Some && error_num_after == 0 ==> r->0 is Ok,
        r is Some && error_num_after != 0 ==> r->0 is Err && r->0->Err_0.num == HvErrorNum::EBUSY,
{
}

/// A CPU keeps its number and the number of online CPUs all the way; it goes on after a success and
/// stays where it is after a failure.
pub proof fn a_cpu_goes_on_only_after_success(cpu: BootCpu, outcome: HvResult<()>)
    ensures
        cpu.advanced(outcome).id == cpu.id,
        cpu.advanced(outcome).online_cpus == cpu.online_cpus,
        outcome is Err ==> cpu.advanced(outcome).phase == cpu.phase,
        outcome is Ok ==> cpu.advanced(outcome).phase == next_phase(cpu.phase, cpu.id == 0),
{
}

/// A failure takes the place of the shared error, as a negative Linux error number; a success
/// leaves it.
pub proof fn what_the_driver_gets(result: HvResult<()>, error_num: i32)
    ensures
        result is Ok ==> error_after(result, error_num) == error_num,
        result matches Err(e) ==> {
            let code = error_after(result, error_num);
            &&& e.num is EIO ==> code == -5
            &&& e.num is ENOMEM ==> code == -12
            &&& e.num is EFAULT ==> code == -14
            &&& e.num is EBUSY ==> code == -16
            &&& e.num is ENODEV ==> code == -19
            &&& e.num is EINVAL ==> code == -22
        },
{
}

/// Each step of the primary CPU follows on the one before it: what needs the heap comes after it,
/// what needs frames after the frame allocator, and the others are told last.
pub proof fn the_shared_parts_are_set_up_in_order()
    ensures
        early_steps().len() == 8,
        early_steps()[0] is InitLogging,
        early_steps()[1] is PrintConfig,
        early_steps()[2] is InitHeap,
        early_steps()[3] is CheckConfig,
        early_steps()[4] is InitFrameAllocator,
        early_steps()[5] is InitHvPageTable,
        early_steps()[6] is InitCells,
        early_steps()[7] is Announce,
{
}

} // verus!
