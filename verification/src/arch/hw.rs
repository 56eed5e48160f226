//! Operations on the machine, and the queue that holds them until they are performed.

use vstd::prelude::*;
use crate::arch::intel::vmcs::{VmcsField, VmcsState};
use crate::error::HvResult;

verus! {

/// The model specific registers that the hypervisor writes.
#[allow(non_camel_case_types)]
#[derive(Clone, Copy, Debug, PartialEq, Eq, Structural)]
pub enum Msr {
    IA32_PAT,
    IA32_GS_BASE,
    IA32_SYSENTER_CS,
    IA32_SYSENTER_ESP,
    IA32_SYSENTER_EIP,
    IA32_PERF_GLOBAL_CTRL,
    VM_HSAVE_PA,
    PERF_EVT_SEL0,
    PERF_EVT_SEL1,
    PERF_EVT_SEL2,
    PERF_EVT_SEL3,
    PERF_EVT_SEL4,
    PERF_EVT_SEL5,
}

/// A demand on a VMX control field: the processor fixes some of its bits, as the capability
/// register tells; of the others, `set` are to be one and `clear` are to be zero.
#[derive(Clone, Copy, Debug, PartialEq, Eq, Structural)]
pub struct ControlRequest {
    pub field: VmcsField,
    pub capability: u64,
    pub set: u32,
    pub clear: u32,
}

/// One operation on the machine.
#[derive(Clone, Copy, Debug, PartialEq, Eq, Structural)]
pub enum HwOp {
    /// Write a model specific register.
    WriteMsr(Msr, u64),
    /// Write the flags of the feature control register.
    WriteFeatureControl(u64),
    /// Write the flags of CR0; its undefined bits stay.
    WriteCr0(u64),
    /// Write the flags of CR4; its undefined bits stay.
    WriteCr4(u64),
    /// Write the flags of EFER; its undefined bits stay.
    WriteEfer(u64),
    /// Stamp the VMX region at a physical address with a revision.
    InitVmxRegion { paddr: usize, revision_id: u32, shadow: bool },
    /// Turn VMX operation on, with the region at a physical address.
    VmxOn(usize),
    /// Turn VMX operation off.
    VmxOff,
    /// Clear the VMCS at a physical address.
    VmcsClear(usize),
    /// Make the VMCS at a physical address the current one.
    VmcsLoad(usize),
    /// Write a field of the current VMCS.
    VmcsWrite(VmcsField, u64),
    /// Write a control field of the current VMCS as far as the processor allows it.
    VmcsControl(ControlRequest),
    /// Let the current VMCS translate guest physical addresses by the nested page table whose
    /// root has this physical address.
    ActivateGuestMemory(usize),
    /// Inject an exception with an error code into the guest of the current VMCS.
    InjectException { vector: u8, error_code: u32 },
    /// Enter the guest of the current VMCS with the general purpose registers that are loaded.
    /// This comes to an end only if the guest does not start; it then counts as performed, and
    /// what is queued behind it follows.
    LaunchGuest,
    /// Let interrupts through again.
    Stgi,
    /// Fill the global descriptor table at one address so that it refers to the task state
    /// segment at the other.
    InitGdt { gdt: usize, tss: usize },
    /// Load the global descriptor table at an address.
    LoadGdt(usize),
    /// Load a segment register with a selector.
    LoadEs(u16),
    LoadCs(u16),
    LoadSs(u16),
    LoadDs(u16),
    /// Load the interrupt descriptor table.
    LoadIdt,
    /// Load the task register with a selector.
    LoadTss(u16),
    /// Switch to the page table of the hypervisor.
    ActivateHvPageTable,
    /// Count one more CPU on which the hypervisor is active.
    AddActivated,
    /// Count one CPU less on which the hypervisor is active.
    SubActivated,
}

/// What is known of the current VMCS after an operation.
pub open spec fn vmcs_after(vmcs: VmcsState, op: HwOp) -> VmcsState {
    match op {
        HwOp::VmcsWrite(field, value) => vmcs.holding(field, value),
        HwOp::VmcsControl(request) => vmcs.without(request.field),
        HwOp::ActivateGuestMemory(_) => vmcs.without(VmcsField::EptPointer),
        HwOp::VmcsClear(_) => VmcsState::unknown(),
        HwOp::VmcsLoad(_) => VmcsState::unknown(),
        _ => vmcs,
    }
}

/// What is known of the current VMCS after a sequence of operations.
pub open spec fn vmcs_after_all(vmcs: VmcsState, ops: Seq<HwOp>) -> VmcsState
    decreases ops.len(),
{
    if ops.len() == 0 {
        vmcs
    } else {
        vmcs_after(vmcs_after_all(vmcs, ops.drop_last()), ops.last())
    }
}

/// The queue went from `before` to `after` by appending operations, and these take what is known
/// of the VMCS from `vmcs` to `result`.
pub open spec fn queues_vmcs_ops(
    vmcs: VmcsState,
    result: VmcsState,
    before: Seq<HwOp>,
    after: Seq<HwOp>,
) -> bool {
    &&& before.len() <= after.len()
    &&& after.take(before.len() as int) == before
    &&& vmcs_after_all(vmcs, after.skip(before.len() as int)) == result
}

/// Nothing queued, nothing changed.
pub proof fn lemma_queues_nothing(vmcs: VmcsState, queue: Seq<HwOp>)
    ensures
        queues_vmcs_ops(vmcs, vmcs, queue, queue),
{
    assert(queue.take(queue.len() as int) == queue);
}

/// One more operation extends what has been queued.
pub broadcast proof fn lemma_queues_op(
    vmcs: VmcsState,
    result: VmcsState,
    before: Seq<HwOp>,
    after: Seq<HwOp>,
    op: HwOp,
)
    requires
        #[trigger] queues_vmcs_ops(vmcs, result, before, after),
    ensures
        queues_vmcs_ops(vmcs, vmcs_after(result, op), before, #[trigger] after.push(op)),
{
    let n = before.len() as int;
    let more = after.push(op);
    assert(more.take(n) =~= after.take(n));
    assert(more.skip(n).drop_last() =~= after.skip(n));
    assert(more.skip(n).last() == op);
}

/// What is known after two sequences of operations, one behind the other.
pub proof fn lemma_vmcs_after_concat(vmcs: VmcsState, a: Seq<HwOp>, b: Seq<HwOp>)
    ensures
        vmcs_after_all(vmcs, a + b) == vmcs_after_all(vmcs_after_all(vmcs, a), b),
    decreases b.len(),
{
    if b.len() == 0 {
        assert(a + b =~= a);
    } else {
        assert((a + b).drop_last() =~= a + b.drop_last());
        lemma_vmcs_after_concat(vmcs, a, b.drop_last());
    }
}

/// What has been queued is what takes the VMCS to the result.
pub proof fn lemma_queued(
    vmcs: VmcsState,
    result: VmcsState,
    before: Seq<HwOp>,
    after: Seq<HwOp>,
    ops: Seq<HwOp>,
)
    requires
        queues_vmcs_ops(vmcs, result, before, after),
        after == before + ops,
    ensures
        vmcs_after_all(vmcs, ops) == result,
{
    assert(after.skip(before.len() as int) =~= ops);
}

/// What an operation adds to the number of CPUs on which the hypervisor is active.
pub open spec fn activated_by(op: HwOp) -> int {
    match op {
        HwOp::AddActivated => 1,
        HwOp::SubActivated => -1,
        _ => 0,
    }
}

/// What a sequence of operations adds to the number of CPUs on which the hypervisor is active.
pub open spec fn activated_by_all(ops: Seq<HwOp>) -> int
    decreases ops.len(),
{
    if ops.len() == 0 {
        0
    } else {
        activated_by_all(ops.drop_last()) + activated_by(ops.last())
    }
}

/// One more operation adds what it adds by itself.
pub broadcast proof fn lemma_activated_by_push(ops: Seq<HwOp>, op: HwOp)
    ensures
        #[trigger] activated_by_all(ops.push(op)) == activated_by_all(ops) + activated_by(op),
{
    assert(ops.push(op).drop_last() =~= ops);
}

/// Without operations the number of active CPUs is as it was; adding a CPU raises it by one,
/// removing one lowers it by one, and no other operation changes it.
pub proof fn what_changes_the_number_of_active_cpus(op: HwOp)
    ensures
        activated_by_all(Seq::empty()) == 0,
        op is AddActivated ==> activated_by_all(seq![op]) == 1,
        op is SubActivated ==> activated_by_all(seq![op]) == -1,
        !(op is AddActivated) && !(op is SubActivated) ==> activated_by_all(seq![op]) == 0,
{
    lemma_activated_by_push(Seq::empty(), op);
    assert(Seq::empty().push(op) =~= seq![op]);
}

/// Operations in the order in which they are to be performed.
pub struct HwQueue {
    ops: Vec<HwOp>,
}

impl View for HwQueue {
    type V = Seq<HwOp>;

    closed spec fn view(&self) -> Seq<HwOp> {
        self.ops@
    }
}

impl HwQueue {
    /// An empty queue.
    pub fn new() -> (q: Self)
        ensures
            q@ == Seq::<HwOp>::empty(),
    {
        HwQueue { ops: Vec::new() }
    }

    /// Appends an operation.
    pub fn push(&mut self, op: HwOp)
        ensures
            final(self)@ == old(self)@.push(op),
    {
        self.ops.push(op);
    }

    /// The operation that is to be performed next, if any is left.
    pub fn next(&self) -> (op: Option<HwOp>)
        ensures
            op == (if self@.len() == 0 { None } else { Some(self@[0]) }),
    {
        if self.ops.len() == 0 {
            None
        } else {
            Some(self.ops[0])
        }
    }

    /// Takes note of how the next operation ended. After a failure nothing that was queued
    /// behind it is performed, and the failure is the result.
    pub fn complete(&mut self, outcome: HvResult<()>) -> (r: HvResult<()>)
        requires
            old(self)@.len() > 0,
        ensures
            r == outcome,
            outcome is Ok ==> final(self)@ == old(self)@.skip(1),
            outcome is Err ==> final(self)@ == Seq::<HwOp>::empty(),
    {
        match outcome {
            Ok(()) => {
                let ghost before = self.ops@;
                self.ops.remove(0);
                assert(self.ops@ =~= before.skip(1));
            },
            Err(_) => {
                self.ops = Vec::new();
            },
        }
        outcome
    }
}

/// What comes of performing a queue when the operations end with the given outcomes: how many
/// are performed, and the result.
pub open spec fn performed(ops: Seq<HwOp>, outcomes: spec_fn(int) -> HvResult<()>, from: int) -> (
    int,
    HvResult<()>,
)
    decreases ops.len(),
{
    if ops.len() == 0 {
        (0, Ok(()))
    } else if outcomes(from) is Err {
        (1, outcomes(from))
    } else {
        let rest = performed(ops.skip(1), outcomes, from + 1);
        (rest.0 + 1, rest.1)
    }
}

/// A queue is performed in order up to and including the first operation that fails: all of it
/// exactly if none does, and the result is the first failure.
pub proof fn queue_stops_at_first_failure(
    ops: Seq<HwOp>,
    outcomes: spec_fn(int) -> HvResult<()>,
    from: int,
)
    ensures
        ({
            let (n, r) = performed(ops, outcomes, from);
            &&& 0 <= n <= ops.len()
            &&& r is Ok ==> n == ops.len() && forall|i: int|
                from <= i < from + n ==> #[trigger] outcomes(i) is Ok
            &&& r is Err ==> n > 0 && outcomes(from + n - 1) == r && forall|i: int|
                from <= i < from + n - 1 ==> #[trigger] outcomes(i) is Ok
        }),
    decreases ops.len(),
{
    if ops.len() > 0 && outcomes(from) is Ok {
        queue_stops_at_first_failure(ops.skip(1), outcomes, from + 1);
    }
}

/// What is known of the VMCS after an operation: a write is known, what the processor decides is
/// not, a VMCS that is cleared or made the current one is not known at all, and any other
/// operation changes nothing.
pub proof fn operations_and_the_vmcs(vmcs: VmcsState, op: HwOp, field: VmcsField, other: VmcsField)
    ensures
        op matches HwOp::VmcsWrite(f, v) ==> {
            &&& vmcs_after(vmcs, op).knows(f)
            &&& vmcs_after(vmcs, op).values[f] == v
            &&& other != f ==> vmcs_after(vmcs, op).knows(other) == vmcs.knows(other)
            &&& other != f && vmcs.knows(other) ==> vmcs_after(vmcs, op).reading(other)
                == vmcs.reading(other)
        },
        op matches HwOp::VmcsControl(r) ==> !vmcs_after(vmcs, op).knows(r.field) && (other
            != r.field && vmcs.knows(other) ==> vmcs_after(vmcs, op).reading(other)
            == vmcs.reading(other)),
        op is VmcsClear || op is VmcsLoad ==> !vmcs_after(vmcs, op).knows(field),
        !(op is VmcsWrite || op is VmcsControl || op is ActivateGuestMemory || op is VmcsClear
            || op is VmcsLoad) ==> vmcs_after(vmcs, op) == vmcs,
        vmcs_after_all(vmcs, seq![op]) == vmcs_after(vmcs, op),
{
    reveal_with_fuel(vmcs_after_all, 2);
    assert(seq![op].drop_last() =~= Seq::<HwOp>::empty());
}

} // verus!
