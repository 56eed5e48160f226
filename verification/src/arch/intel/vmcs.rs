//! The fields of the virtual machine control structure (VMCS) that the hypervisor uses, and
//! what is known of the current one.

use vstd::prelude::*;
use crate::arch::hw::{vmcs_after, HwOp, HwQueue};
use crate::error::{HvError, HvResult};

verus! {

/// The segment registers that the VMCS holds.
#[derive(Clone, Copy, Debug, PartialEq, Eq, Structural)]
pub enum SegReg {
    ES,
    CS,
    SS,
    DS,
    FS,
    GS,
    LDTR,
    TR,
}

/// A field of the VMCS.
#[derive(Clone, Copy, Debug, PartialEq, Eq, Structural)]
pub enum VmcsField {
    // Guest state.
    GuestSelector(SegReg),
    GuestBase(SegReg),
    GuestLimit(SegReg),
    GuestArBytes(SegReg),
    GuestGdtrBase,
    GuestGdtrLimit,
    GuestIdtrBase,
    GuestIdtrLimit,
    GuestPat,
    GuestEfer,
    GuestCr0,
    GuestCr3,
    GuestCr4,
    GuestDr7,
    GuestDebugctl,
    GuestRsp,
    GuestRip,
    GuestRflags,
    GuestSysenterCs,
    GuestSysenterEsp,
    GuestSysenterEip,
    GuestActivityState,
    GuestInterruptibilityInfo,
    GuestPendingDbgExceptions,
    VmcsLinkPointer,
    VmxPreemptionTimerValue,
    // Host state.
    HostSelector(SegReg),
    HostPat,
    HostEfer,
    HostCr0,
    HostCr3,
    HostCr4,
    HostFsBase,
    HostGsBase,
    HostTrBase,
    HostGdtrBase,
    HostIdtrBase,
    HostSysenterCs,
    HostSysenterEsp,
    HostSysenterEip,
    HostRsp,
    HostRip,
    // Controls.
    PinBasedVmExecControl,
    ProcBasedVmExecControl,
    SecondaryVmExecControl,
    VmExitControls,
    VmEntryControls,
    VmExitMsrStoreCount,
    VmExitMsrLoadCount,
    VmEntryMsrLoadCount,
    Cr0GuestHostMask,
    Cr0ReadShadow,
    Cr4GuestHostMask,
    Cr4ReadShadow,
    Cr3TargetCount,
    EptPointer,
    MsrBitmap,
    ExceptionBitmap,
    /// The basic reason of the last exit, which the processor reports.
    ExitReason,
}

/// What is known of the fields of the current VMCS: what they hold, or the error that reading
/// them gives. Of a field that is in neither, nothing is known.
#[verifier::ext_equal]
pub struct VmcsState {
    pub values: Map<VmcsField, u64>,
    pub faults: Map<VmcsField, HvError>,
}

impl VmcsState {
    /// Nothing is known.
    pub open spec fn unknown() -> Self {
        VmcsState { values: Map::empty(), faults: Map::empty() }
    }

    /// The same with one field that holds a value.
    pub open spec fn holding(self, field: VmcsField, value: u64) -> Self {
        VmcsState {
            values: self.values.insert(field, value),
            faults: self.faults.remove(field),
        }
    }

    /// The same with one field that cannot be read.
    pub open spec fn refusing(self, field: VmcsField, fault: HvError) -> Self {
        VmcsState {
            values: self.values.remove(field),
            faults: self.faults.insert(field, fault),
        }
    }

    /// The same with one field of which nothing is known.
    pub open spec fn without(self, field: VmcsField) -> Self {
        VmcsState { values: self.values.remove(field), faults: self.faults.remove(field) }
    }

    /// Whether it is known what reading a field gives.
    pub open spec fn knows(self, field: VmcsField) -> bool {
        self.values.dom().contains(field) || self.faults.dom().contains(field)
    }

    /// What reading a field gives.
    pub open spec fn reading(self, field: VmcsField) -> HvResult<u64> {
        if self.values.dom().contains(field) {
            Ok(self.values[field])
        } else {
            Err(self.faults[field])
        }
    }
}

/// What a list of readings tells: later ones win.
pub open spec fn told_by(readings: Seq<(VmcsField, HvResult<u64>)>) -> VmcsState
    decreases readings.len(),
{
    if readings.len() == 0 {
        VmcsState::unknown()
    } else {
        let before = told_by(readings.drop_last());
        match readings.last().1 {
            Ok(value) => before.holding(readings.last().0, value),
            Err(e) => before.refusing(readings.last().0, e),
        }
    }
}

/// What is known of the fields of the current VMCS: what reading them gave, and what has been
/// written since.
pub struct Vmcs {
    readings: Vec<(VmcsField, HvResult<u64>)>,
}

impl View for Vmcs {
    type V = VmcsState;

    closed spec fn view(&self) -> VmcsState {
        told_by(self.readings@)
    }
}

impl Vmcs {
    /// The VMCS of which reading has given the given results.
    pub fn new(readings: Vec<(VmcsField, HvResult<u64>)>) -> (v: Self)
        ensures
            v@ == told_by(readings@),
    {
        Vmcs { readings }
    }

    /// What reading a field gives, if that is known.
    pub fn reading(&self, field: VmcsField) -> (r: Option<HvResult<u64>>)
        ensures
            r == (if self@.knows(field) {
                Some(self@.reading(field))
            } else {
                None
            }),
    {
        let mut i: usize = self.readings.len();
        assert(self.readings@.take(i as int) =~= self.readings@);
        while i > 0
            invariant
                i <= self.readings@.len(),
                ({
                    let earlier = told_by(self.readings@.take(i as int));
                    &&& self@.values.dom().contains(field) == earlier.values.dom().contains(field)
                    &&& self@.faults.dom().contains(field) == earlier.faults.dom().contains(field)
                    &&& self@.knows(field) ==> self@.reading(field) == earlier.reading(field)
                }),
            decreases i,
        {
            let ghost prefix = self.readings@.take(i as int);
            assert(prefix.drop_last() =~= self.readings@.take(i - 1));
            i = i - 1;
            let reading: (VmcsField, HvResult<u64>) = self.readings[i];
            assert(prefix.last() == reading);
            if reading.0 == field {
                return Some(reading.1);
            }
        }
        None
    }

    /// Reads a field.
    pub fn read(&self, field: VmcsField) -> (r: HvResult<u64>)
        requires
            self@.knows(field),
        ensures
            r == self@.reading(field),
    {
        self.reading(field).unwrap()
    }

    /// Forgets what is known of a field.
    fn forget(&mut self, field: VmcsField)
        ensures
            final(self)@ == old(self)@.without(field),
    {
        let mut rest: Vec<(VmcsField, HvResult<u64>)> = Vec::new();
        let n: usize = self.readings.len();
        let mut i: usize = 0;
        assert(told_by(rest@) =~= told_by(self.readings@.take(0)).without(field));
        while i < n
            invariant
                i <= n,
                n == self.readings@.len(),
                told_by(rest@) == told_by(self.readings@.take(i as int)).without(field),
            decreases n - i,
        {
            let ghost before = rest@;
            let ghost prefix = self.readings@.take(i + 1);
            let reading: (VmcsField, HvResult<u64>) = self.readings[i];
            assert(prefix.drop_last() =~= self.readings@.take(i as int));
            assert(prefix.last() == reading);
            if reading.0 != field {
                rest.push(reading);
                assert(rest@.drop_last() =~= before);
            }
            assert(told_by(rest@) =~= told_by(prefix).without(field));
            i = i + 1;
        }
        assert(self.readings@.take(n as int) =~= self.readings@);
        self.readings = rest;
    }

    /// Queues an operation on the current VMCS, and takes note of what it does to the fields.
    pub fn queue(&mut self, op: HwOp, hw: &mut HwQueue)
        ensures
            final(self)@ == vmcs_after(old(self)@, op),
            final(hw)@ == old(hw)@.push(op),
    {
        let ghost before = self.readings@;
        match op {
            HwOp::VmcsWrite(field, value) => {
                self.readings.push((field, Ok(value)));
                assert(self.readings@.drop_last() =~= before);
            },
            HwOp::VmcsControl(request) => {
                self.forget(request.field);
            },
            HwOp::ActivateGuestMemory(_) => {
                self.forget(VmcsField::EptPointer);
            },
            HwOp::VmcsClear(_) => {
                self.readings = Vec::new();
            },
            HwOp::VmcsLoad(_) => {
                self.readings = Vec::new();
            },
            _ => {},
        }
        hw.push(op);
    }

    /// Writes a field.
    pub fn write(&mut self, field: VmcsField, value: u64, hw: &mut HwQueue)
        ensures
            final(self)@ == old(self)@.holding(field, value),
            final(self)@ == vmcs_after(old(self)@, HwOp::VmcsWrite(field, value)),
            final(hw)@ == old(hw)@.push(HwOp::VmcsWrite(field, value)),
    {
        self.queue(HwOp::VmcsWrite(field, value), hw);
    }
}

/// A field that has been written holds what was written to it, and can be read; a field that the
/// processor refused gives its error; the other fields are as they were.
pub proof fn one_field_changes_at_a_time(
    vmcs: VmcsState,
    field: VmcsField,
    value: u64,
    fault: HvError,
    other: VmcsField,
)
    requires
        other != field,
    ensures
        vmcs.holding(field, value).knows(field),
        vmcs.holding(field, value).values.dom().contains(field),
        vmcs.holding(field, value).values[field] == value,
        vmcs.holding(field, value).reading(field) == Ok::<u64, HvError>(value),
        vmcs.refusing(field, fault).knows(field),
        vmcs.refusing(field, fault).faults.dom().contains(field),
        vmcs.refusing(field, fault).faults[field] == fault,
        vmcs.refusing(field, fault).reading(field) == Err::<u64, HvError>(fault),
        !vmcs.without(field).knows(field),
        vmcs.holding(field, value).knows(other) == vmcs.knows(other),
        vmcs.refusing(field, fault).knows(other) == vmcs.knows(other),
        vmcs.without(field).knows(other) == vmcs.knows(other),
        vmcs.knows(other) ==> {
            &&& vmcs.holding(field, value).reading(other) == vmcs.reading(other)
            &&& vmcs.refusing(field, fault).reading(other) == vmcs.reading(other)
            &&& vmcs.without(field).reading(other) == vmcs.reading(other)
        },
        !VmcsState::unknown().knows(field),
{
}

/// What a list of readings tells of a field is the last reading of it.
pub proof fn the_last_reading_counts(readings: Seq<(VmcsField, HvResult<u64>)>, i: int)
    requires
        0 <= i < readings.len(),
        forall|j: int| i < j < readings.len() ==> (#[trigger] readings[j]).0 != readings[i].0,
    ensures
        told_by(readings).knows(readings[i].0),
        told_by(readings).reading(readings[i].0) == readings[i].1,
    decreases readings.len(),
{
    let before = readings.drop_last();
    if i < before.len() {
        assert(before[i] == readings[i]);
        assert forall|j: int| i < j < before.len() implies (#[trigger] before[j]).0
            != before[i].0 by {
            assert(before[j] == readings[j]);
        }
        the_last_reading_counts(before, i);
        assert(readings[readings.len() - 1].0 != readings[i].0);
    }
}

/// A list of readings tells nothing of a field that it does not hold.
pub proof fn no_reading_no_knowledge(
    readings: Seq<(VmcsField, HvResult<u64>)>,
    field: VmcsField,
)
    requires
        forall|i: int| 0 <= i < readings.len() ==> (#[trigger] readings[i]).0 != field,
    ensures
        !told_by(readings).knows(field),
    decreases readings.len(),
{
    if readings.len() > 0 {
        let before = readings.drop_last();
        assert forall|i: int| 0 <= i < before.len() implies (#[trigger] before[i]).0 != field by {
            assert(before[i] == readings[i]);
        }
        no_reading_no_knowledge(before, field);
        assert(readings[readings.len() - 1].0 != field);
    }
}

} // verus!
