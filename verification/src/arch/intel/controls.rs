//! The bits of the VMX controls, and what the hypervisor asks of them.

use vstd::prelude::*;
use crate::arch::hw::{ControlRequest, HwOp};
use crate::arch::intel::vmcs::VmcsField;

verus! {

/// Feature control: the register is locked.
pub const FEATURE_LOCKED: u64 = 0x1;

/// Feature control: VMX may be turned on outside SMX operation.
pub const FEATURE_VMXON_ENABLED_OUTSIDE_SMX: u64 = 0x4;

/// Pin-based controls: non-maskable interrupts cause exits.
pub const PIN_NMI_EXITING: u32 = 0x8;

/// Primary controls: writing CR3 causes an exit.
pub const PRIMARY_CR3_LOAD_EXITING: u32 = 0x8000;

/// Primary controls: reading CR3 causes an exit.
pub const PRIMARY_CR3_STORE_EXITING: u32 = 0x1_0000;

/// Primary controls: the MSR bitmap decides which register accesses cause exits.
pub const PRIMARY_USE_MSR_BITMAPS: u32 = 0x1000_0000;

/// Primary controls: the secondary controls are used.
pub const PRIMARY_SEC_CONTROLS: u32 = 0x8000_0000;

/// Secondary controls: guest physical addresses are translated.
pub const SECONDARY_EPT: u32 = 0x2;

/// Secondary controls: the guest may use RDTSCP.
pub const SECONDARY_RDTSCP: u32 = 0x8;

/// Secondary controls: the guest may run without paging or in real mode.
pub const SECONDARY_UNRESTRICTED_GUEST: u32 = 0x80;

/// Secondary controls: the guest may use INVPCID.
pub const SECONDARY_INVPCID: u32 = 0x1000;

/// Secondary controls: the guest may use XSAVES and XRSTORS.
pub const SECONDARY_XSAVES: u32 = 0x10_0000;

/// Exit controls: the hypervisor runs in 64-bit mode.
pub const EXIT_HOST_ADDR_SPACE_SIZE: u32 = 0x200;

/// Exit controls: the guest's PAT is saved.
pub const EXIT_SAVE_IA32_PAT: u32 = 0x4_0000;

/// Exit controls: the hypervisor's PAT is loaded.
pub const EXIT_LOAD_IA32_PAT: u32 = 0x8_0000;

/// Exit controls: the guest's EFER is saved.
pub const EXIT_SAVE_IA32_EFER: u32 = 0x10_0000;

/// Exit controls: the hypervisor's EFER is loaded.
pub const EXIT_LOAD_IA32_EFER: u32 = 0x20_0000;

/// Entry controls: the guest runs in 64-bit mode.
pub const ENTRY_IA32E_MODE: u32 = 0x200;

/// Entry controls: the guest's PAT is loaded.
pub const ENTRY_LOAD_IA32_PAT: u32 = 0x4000;

/// Entry controls: the guest's EFER is loaded.
pub const ENTRY_LOAD_IA32_EFER: u32 = 0x8000;

/// The capability registers of the VMX controls.
#[derive(Clone, Copy, Debug, PartialEq, Eq, Structural)]
pub struct VmxCapabilities {
    pub pinbased_ctls: u64,
    pub procbased_ctls: u64,
    pub procbased_ctls2: u64,
    pub exit_ctls: u64,
    pub entry_ctls: u64,
}

/// What the processor can do, as far as it matters here.
#[derive(Clone, Copy, Debug, PartialEq, Eq, Structural)]
pub struct CpuFeatures {
    pub perf_monitor_version_id: u8,
    pub has_xsave: bool,
    pub has_rdtscp: bool,
    pub has_invpcid: bool,
    pub has_xsaves_xrstors: bool,
}

/// A flag, where it is wanted.
pub open spec fn flag_if(wanted: bool, flag: u32) -> u32 {
    if wanted {
        flag
    } else {
        0
    }
}

/// The secondary controls that are asked for: nested paging, unrestricted guests, and the
/// instructions that the processor has.
pub open spec fn secondary_controls(features: CpuFeatures) -> u32 {
    SECONDARY_EPT | SECONDARY_UNRESTRICTED_GUEST | flag_if(features.has_rdtscp, SECONDARY_RDTSCP)
        | flag_if(features.has_invpcid, SECONDARY_INVPCID) | flag_if(
        features.has_xsaves_xrstors,
        SECONDARY_XSAVES,
    )
}

/// What is asked of the controls of the guest: interrupts and ports go straight through,
/// non-maskable interrupts do not; CR3 is the guest's own; the MSR bitmap is used.
pub open spec fn control_requests(caps: VmxCapabilities, features: CpuFeatures) -> Seq<
    ControlRequest,
> {
    seq![
        ControlRequest {
            field: VmcsField::PinBasedVmExecControl,
            capability: caps.pinbased_ctls,
            set: PIN_NMI_EXITING,
            clear: 0,
        },
        ControlRequest {
            field: VmcsField::ProcBasedVmExecControl,
            capability: caps.procbased_ctls,
            set: PRIMARY_USE_MSR_BITMAPS | PRIMARY_SEC_CONTROLS,
            clear: PRIMARY_CR3_LOAD_EXITING | PRIMARY_CR3_STORE_EXITING,
        },
        ControlRequest {
            field: VmcsField::SecondaryVmExecControl,
            capability: caps.procbased_ctls2,
            set: secondary_controls(features),
            clear: 0,
        },
        ControlRequest {
            field: VmcsField::VmExitControls,
            capability: caps.exit_ctls,
            set: EXIT_HOST_ADDR_SPACE_SIZE | EXIT_SAVE_IA32_PAT | EXIT_LOAD_IA32_PAT
                | EXIT_SAVE_IA32_EFER | EXIT_LOAD_IA32_EFER,
            clear: 0,
        },
        ControlRequest {
            field: VmcsField::VmEntryControls,
            capability: caps.entry_ctls,
            set: ENTRY_IA32E_MODE | ENTRY_LOAD_IA32_PAT | ENTRY_LOAD_IA32_EFER,
            clear: 0,
        },
    ]
}

/// The operations that set the controls of the guest up, for the nested page table and the
/// MSR bitmap at the given physical addresses.
pub open spec fn control_ops(
    caps: VmxCapabilities,
    features: CpuFeatures,
    gpm_root: usize,
    msr_bitmap: usize,
) -> Seq<HwOp> {
    control_requests(caps, features).map_values(|r: ControlRequest| HwOp::VmcsControl(r)) + seq![
        HwOp::VmcsWrite(VmcsField::VmExitMsrStoreCount, 0),
        HwOp::VmcsWrite(VmcsField::VmExitMsrLoadCount, 0),
        HwOp::VmcsWrite(VmcsField::VmEntryMsrLoadCount, 0),
        HwOp::VmcsWrite(VmcsField::Cr4GuestHostMask, 0),
        HwOp::VmcsWrite(VmcsField::Cr3TargetCount, 0),
        HwOp::ActivateGuestMemory(gpm_root),
        HwOp::VmcsWrite(VmcsField::MsrBitmap, msr_bitmap as u64),
        HwOp::VmcsWrite(VmcsField::ExceptionBitmap, 0),
    ]
}

/// Whether the processor has the last word on what a field holds.
pub open spec fn decided_by_processor(field: VmcsField) -> bool {
    match field {
        VmcsField::PinBasedVmExecControl => true,
        VmcsField::ProcBasedVmExecControl => true,
        VmcsField::SecondaryVmExecControl => true,
        VmcsField::VmExitControls => true,
        VmcsField::VmEntryControls => true,
        VmcsField::EptPointer => true,
        _ => false,
    }
}

/// What the other controls are: no registers are swapped, the guest has all of CR4, no
/// exception causes an exit.
pub open spec fn control_value(msr_bitmap: usize, field: VmcsField) -> Option<u64> {
    match field {
        VmcsField::VmExitMsrStoreCount => Some(0),
        VmcsField::VmExitMsrLoadCount => Some(0),
        VmcsField::VmEntryMsrLoadCount => Some(0),
        VmcsField::Cr4GuestHostMask => Some(0),
        VmcsField::Cr3TargetCount => Some(0),
        VmcsField::MsrBitmap => Some(msr_bitmap as u64),
        VmcsField::ExceptionBitmap => Some(0),
        _ => None,
    }
}

/// What is known of the VMCS once the controls of the guest are set up.
pub open spec fn with_controls(known: Map<VmcsField, u64>, msr_bitmap: usize) -> Map<
    VmcsField,
    u64,
> {
    Map::new(
        |f: VmcsField|
            control_value(msr_bitmap, f) is Some || (known.dom().contains(f)
                && !decided_by_processor(f)),
        |f: VmcsField|
            match control_value(msr_bitmap, f) {
                Some(value) => value,
                None => known[f],
            },
    )
}

} // verus!
