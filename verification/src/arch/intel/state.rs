//! What the VMCS holds for a guest that continues Linux, and what Linux gets back of it.

use vstd::prelude::*;
use crate::arch::context::{DescriptorTablePointer, GeneralRegisters, LinuxContext, Segment};
use crate::arch::hw::{HwOp, Msr};
use crate::arch::intel::controls::{control_ops, with_controls, CpuFeatures, VmxCapabilities};
use crate::arch::intel::vmcs::{SegReg, VmcsField, VmcsState};
use crate::arch::registers::{
    is_virt_addr, sign_extended, CR0_CACHE_DISABLE, CR0_DEFINED, CR0_NOT_WRITE_THROUGH, CR0_PAGING,
    CR0_PROTECTED_MODE_ENABLE, CR4_DEFINED, CR4_VIRTUAL_MACHINE_EXTENSIONS,
};
use crate::error::HvError;

verus! {

/// The bits that the processor fixes in CR0 and CR4 in VMX operation, as its capability
/// registers tell: a bit that is one in `fixed0` must be one, a bit that is zero in `fixed1`
/// must be zero.
#[derive(Clone, Copy, Debug, PartialEq, Eq, Structural)]
pub struct CrFixedBits {
    pub cr0_fixed0: u64,
    pub cr0_fixed1: u64,
    pub cr4_fixed0: u64,
    pub cr4_fixed1: u64,
}

impl CrFixedBits {
    /// The bits that the guest cannot clear in CR0. PE and PG are its own to choose, for the
    /// processor runs unrestricted guests.
    pub open spec fn cr0_must1(self) -> u64 {
        self.cr0_fixed0 & !(CR0_PAGING | CR0_PROTECTED_MODE_ENABLE)
    }

    /// The bits that the guest may set in CR0. NW and CD are kept off, for they are not updated
    /// when the guest exits and would slow the hypervisor down.
    pub open spec fn cr0_must0(self) -> u64 {
        self.cr0_fixed1 & !(CR0_NOT_WRITE_THROUGH | CR0_CACHE_DISABLE)
    }

    /// What CR0 is in the guest when it asks for a value.
    pub open spec fn guest_cr0(self, val: u64) -> u64 {
        (val & self.cr0_must0()) | self.cr0_must1()
    }

    /// The bits of CR0 that belong to the hypervisor.
    pub open spec fn cr0_mask(self) -> u64 {
        self.cr0_must1() | !self.cr0_must0()
    }

    /// What the guest sees of CR4 when it asks for a value: VMXE is always on.
    pub open spec fn cr4_shadow(self, val: u64) -> u64 {
        val | CR4_VIRTUAL_MACHINE_EXTENSIONS
    }

    /// What CR4 is in the guest when it asks for a value.
    pub open spec fn guest_cr4(self, val: u64) -> u64 {
        (self.cr4_shadow(val) & self.cr4_fixed1) | self.cr4_fixed0
    }

    /// The bits of CR4 that belong to the hypervisor.
    pub open spec fn cr4_mask(self) -> u64 {
        self.cr4_fixed0 | !self.cr4_fixed1
    }
}

/// What the VMCS holds after the guest's control register has been set.
pub open spec fn after_set_cr(
    known: Map<VmcsField, u64>,
    fixed: CrFixedBits,
    cr_idx: int,
    val: u64,
) -> Map<VmcsField, u64> {
    if cr_idx == 0 {
        known.insert(VmcsField::GuestCr0, fixed.guest_cr0(val)).insert(
            VmcsField::Cr0ReadShadow,
            val,
        ).insert(VmcsField::Cr0GuestHostMask, fixed.cr0_mask())
    } else if cr_idx == 3 {
        known.insert(VmcsField::GuestCr3, val)
    } else {
        known.insert(VmcsField::GuestCr4, fixed.guest_cr4(val)).insert(
            VmcsField::Cr4ReadShadow,
            fixed.cr4_shadow(val),
        ).insert(VmcsField::Cr4GuestHostMask, fixed.cr4_mask())
    }
}

/// How the guest's control register is set.
pub open spec fn set_cr_ops(fixed: CrFixedBits, cr_idx: int, val: u64) -> Seq<HwOp> {
    if cr_idx == 0 {
        seq![
            HwOp::VmcsWrite(VmcsField::GuestCr0, fixed.guest_cr0(val)),
            HwOp::VmcsWrite(VmcsField::Cr0ReadShadow, val),
            HwOp::VmcsWrite(VmcsField::Cr0GuestHostMask, fixed.cr0_mask()),
        ]
    } else if cr_idx == 3 {
        seq![HwOp::VmcsWrite(VmcsField::GuestCr3, val)]
    } else {
        seq![
            HwOp::VmcsWrite(VmcsField::GuestCr4, fixed.guest_cr4(val)),
            HwOp::VmcsWrite(VmcsField::Cr4ReadShadow, fixed.cr4_shadow(val)),
            HwOp::VmcsWrite(VmcsField::Cr4GuestHostMask, fixed.cr4_mask()),
        ]
    }
}

/// Whether the fields that make up a control register of the guest could be read.
pub open spec fn cr_known(known: Map<VmcsField, u64>, cr_idx: int) -> bool {
    if cr_idx == 0 {
        known.dom().contains(VmcsField::GuestCr0)
    } else if cr_idx == 3 {
        known.dom().contains(VmcsField::GuestCr3)
    } else {
        &&& known.dom().contains(VmcsField::GuestCr4)
        &&& known.dom().contains(VmcsField::Cr4ReadShadow)
        &&& known.dom().contains(VmcsField::Cr4GuestHostMask)
    }
}

/// The guest's control register, as the VMCS has it: of CR4, the bits that belong to the
/// hypervisor are those that the guest asked for.
pub open spec fn cr_value(known: Map<VmcsField, u64>, cr_idx: int) -> u64 {
    if cr_idx == 0 {
        known[VmcsField::GuestCr0]
    } else if cr_idx == 3 {
        known[VmcsField::GuestCr3]
    } else {
        let mask = known[VmcsField::Cr4GuestHostMask];
        (known[VmcsField::Cr4ReadShadow] & mask) | (known[VmcsField::GuestCr4] & !mask)
    }
}

/// The stored values of the registers that SYSENTER uses.
#[derive(Clone, Copy, Debug, PartialEq, Eq, Structural)]
pub struct SysenterMsrs {
    pub cs: u64,
    pub esp: u64,
    pub eip: u64,
}

/// What the hypervisor has on this CPU, as the guest's exit has to restore it.
#[derive(Clone, Copy, Debug, PartialEq, Eq, Structural)]
pub struct HostState {
    pub pat: u64,
    pub efer: u64,
    pub cr0: u64,
    /// The physical address of the root of the page table.
    pub cr3: u64,
    pub cr4: u64,
    pub gs_base: u64,
    pub kcode_selector: u16,
    pub tss_selector: u16,
    pub gdt_base: u64,
    pub idt_base: u64,
    /// The address of the word behind the saved guest registers, which holds the stack.
    pub rsp: u64,
    /// The address of the code that runs when the guest exits.
    pub rip: u64,
}

/// What the host state of the VMCS is for a hypervisor.
pub open spec fn host_value(host: HostState, field: VmcsField) -> Option<u64> {
    match field {
        VmcsField::HostPat => Some(host.pat),
        VmcsField::HostEfer => Some(host.efer),
        VmcsField::HostCr0 => Some(host.cr0),
        VmcsField::HostCr3 => Some(host.cr3),
        VmcsField::HostCr4 => Some(host.cr4),
        VmcsField::HostSelector(reg) => match reg {
            SegReg::CS => Some(host.kcode_selector as u64),
            SegReg::TR => Some(host.tss_selector as u64),
            SegReg::LDTR => None,
            _ => Some(0),
        },
        VmcsField::HostFsBase => Some(0),
        VmcsField::HostGsBase => Some(host.gs_base),
        VmcsField::HostTrBase => Some(0),
        VmcsField::HostGdtrBase => Some(host.gdt_base),
        VmcsField::HostIdtrBase => Some(host.idt_base),
        VmcsField::HostSysenterCs => Some(0),
        VmcsField::HostSysenterEsp => Some(0),
        VmcsField::HostSysenterEip => Some(0),
        VmcsField::HostRsp => Some(host.rsp),
        VmcsField::HostRip => Some(host.rip),
        _ => None,
    }
}

/// The host state of the VMCS for a hypervisor.
pub open spec fn host_state(host: HostState) -> Map<VmcsField, u64> {
    Map::new(|field: VmcsField| host_value(host, field) is Some, |field: VmcsField|
        host_value(host, field)->0)
}

/// How the host state is filled in.
pub open spec fn host_ops(host: HostState) -> Seq<HwOp> {
    seq![
        HwOp::VmcsWrite(VmcsField::HostPat, host.pat),
        HwOp::VmcsWrite(VmcsField::HostEfer, host.efer),
        HwOp::VmcsWrite(VmcsField::HostCr0, host.cr0),
        HwOp::VmcsWrite(VmcsField::HostCr3, host.cr3),
        HwOp::VmcsWrite(VmcsField::HostCr4, host.cr4),
        HwOp::VmcsWrite(VmcsField::HostSelector(SegReg::ES), 0),
        HwOp::VmcsWrite(VmcsField::HostSelector(SegReg::CS), host.kcode_selector as u64),
        HwOp::VmcsWrite(VmcsField::HostSelector(SegReg::SS), 0),
        HwOp::VmcsWrite(VmcsField::HostSelector(SegReg::DS), 0),
        HwOp::VmcsWrite(VmcsField::HostSelector(SegReg::FS), 0),
        HwOp::VmcsWrite(VmcsField::HostSelector(SegReg::GS), 0),
        HwOp::VmcsWrite(VmcsField::HostSelector(SegReg::TR), host.tss_selector as u64),
        HwOp::VmcsWrite(VmcsField::HostFsBase, 0),
        HwOp::VmcsWrite(VmcsField::HostGsBase, host.gs_base),
        HwOp::VmcsWrite(VmcsField::HostTrBase, 0),
        HwOp::VmcsWrite(VmcsField::HostGdtrBase, host.gdt_base),
        HwOp::VmcsWrite(VmcsField::HostIdtrBase, host.idt_base),
        HwOp::VmcsWrite(VmcsField::HostSysenterEsp, 0),
        HwOp::VmcsWrite(VmcsField::HostSysenterEip, 0),
        HwOp::VmcsWrite(VmcsField::HostSysenterCs, 0),
        HwOp::VmcsWrite(VmcsField::HostRsp, host.rsp),
        HwOp::VmcsWrite(VmcsField::HostRip, host.rip),
    ]
}

/// The segment that Linux had in a segment register. It has no local descriptor table.
pub open spec fn linux_segment(linux: LinuxContext, reg: SegReg) -> Segment {
    match reg {
        SegReg::ES => linux.es,
        SegReg::CS => linux.cs,
        SegReg::SS => linux.ss,
        SegReg::DS => linux.ds,
        SegReg::FS => linux.fs,
        SegReg::GS => linux.gs,
        SegReg::TR => linux.tss,
        SegReg::LDTR => Segment::unusable(),
    }
}

/// What the segment registers of the VMCS are for a guest that continues Linux.
pub open spec fn guest_segment_value(linux: LinuxContext, field: VmcsField) -> Option<u64> {
    match field {
        VmcsField::GuestSelector(reg) => Some(linux_segment(linux, reg).selector as u64),
        VmcsField::GuestBase(reg) => Some(linux_segment(linux, reg).base),
        VmcsField::GuestLimit(reg) => Some(linux_segment(linux, reg).limit as u64),
        VmcsField::GuestArBytes(reg) => Some(
            linux_segment(linux, reg).access_rights.bits as u64,
        ),
        _ => None,
    }
}

/// The segment registers of the VMCS for a guest that continues Linux.
pub open spec fn guest_segments(linux: LinuxContext) -> Map<VmcsField, u64> {
    Map::new(|field: VmcsField| guest_segment_value(linux, field) is Some, |field: VmcsField|
        guest_segment_value(linux, field)->0)
}

/// How a segment register of the guest is filled in.
pub open spec fn segment_ops(reg: SegReg, seg: Segment) -> Seq<HwOp> {
    seq![
        HwOp::VmcsWrite(VmcsField::GuestSelector(reg), seg.selector as u64),
        HwOp::VmcsWrite(VmcsField::GuestBase(reg), seg.base),
        HwOp::VmcsWrite(VmcsField::GuestLimit(reg), seg.limit as u64),
        HwOp::VmcsWrite(VmcsField::GuestArBytes(reg), seg.access_rights.bits as u64),
    ]
}

/// How the segment registers of the guest are filled in.
pub open spec fn segments_ops(linux: LinuxContext) -> Seq<HwOp> {
    segment_ops(SegReg::ES, linux.es) + segment_ops(SegReg::CS, linux.cs) + segment_ops(
        SegReg::SS,
        linux.ss,
    ) + segment_ops(SegReg::DS, linux.ds) + segment_ops(SegReg::FS, linux.fs) + segment_ops(
        SegReg::GS,
        linux.gs,
    ) + segment_ops(SegReg::TR, linux.tss) + segment_ops(SegReg::LDTR, Segment::unusable())
}

/// What the other registers of the guest, and its activity, are in the VMCS for a guest that
/// continues Linux.
pub open spec fn guest_register_value(
    linux: LinuxContext,
    sysenter: SysenterMsrs,
    field: VmcsField,
) -> Option<u64> {
    match field {
        VmcsField::GuestGdtrBase => Some(linux.gdt.base),
        VmcsField::GuestGdtrLimit => Some(linux.gdt.limit as u64),
        VmcsField::GuestIdtrBase => Some(linux.idt.base),
        VmcsField::GuestIdtrLimit => Some(linux.idt.limit as u64),
        VmcsField::GuestRsp => Some(linux.rsp),
        VmcsField::GuestRip => Some(linux.rip),
        VmcsField::GuestRflags => Some(0x2),
        VmcsField::GuestSysenterCs => Some(sysenter.cs as u32 as u64),
        VmcsField::GuestSysenterEsp => Some(sysenter.esp),
        VmcsField::GuestSysenterEip => Some(sysenter.eip),
        VmcsField::GuestDr7 => Some(0x400),
        VmcsField::GuestDebugctl => Some(0),
        VmcsField::GuestActivityState => Some(0),
        VmcsField::GuestInterruptibilityInfo => Some(0),
        VmcsField::GuestPendingDbgExceptions => Some(0),
        VmcsField::VmcsLinkPointer => Some(u64::MAX),
        VmcsField::VmxPreemptionTimerValue => Some(0),
        _ => None,
    }
}

/// The other registers of the guest, and its activity, in the VMCS for a guest that continues
/// Linux.
pub open spec fn guest_registers(linux: LinuxContext, sysenter: SysenterMsrs) -> Map<
    VmcsField,
    u64,
> {
    Map::new(
        |field: VmcsField| guest_register_value(linux, sysenter, field) is Some,
        |field: VmcsField| guest_register_value(linux, sysenter, field)->0,
    )
}

/// How the other registers of the guest, and its activity, are filled in.
pub open spec fn register_ops(linux: LinuxContext, sysenter: SysenterMsrs) -> Seq<HwOp> {
    seq![
        HwOp::VmcsWrite(VmcsField::GuestGdtrBase, linux.gdt.base),
        HwOp::VmcsWrite(VmcsField::GuestGdtrLimit, linux.gdt.limit as u64),
        HwOp::VmcsWrite(VmcsField::GuestIdtrBase, linux.idt.base),
        HwOp::VmcsWrite(VmcsField::GuestIdtrLimit, linux.idt.limit as u64),
        HwOp::VmcsWrite(VmcsField::GuestRsp, linux.rsp),
        HwOp::VmcsWrite(VmcsField::GuestRip, linux.rip),
        HwOp::VmcsWrite(VmcsField::GuestRflags, 0x2),
        HwOp::VmcsWrite(VmcsField::GuestSysenterCs, sysenter.cs as u32 as u64),
        HwOp::VmcsWrite(VmcsField::GuestSysenterEsp, sysenter.esp),
        HwOp::VmcsWrite(VmcsField::GuestSysenterEip, sysenter.eip),
        HwOp::VmcsWrite(VmcsField::GuestDr7, 0x400),
        HwOp::VmcsWrite(VmcsField::GuestDebugctl, 0),
        HwOp::VmcsWrite(VmcsField::GuestActivityState, 0),
        HwOp::VmcsWrite(VmcsField::GuestInterruptibilityInfo, 0),
        HwOp::VmcsWrite(VmcsField::GuestPendingDbgExceptions, 0),
        HwOp::VmcsWrite(VmcsField::VmcsLinkPointer, u64::MAX),
        HwOp::VmcsWrite(VmcsField::VmxPreemptionTimerValue, 0),
    ]
}

/// What the guest state of the VMCS is for a guest that continues Linux.
pub open spec fn guest_value(
    linux: LinuxContext,
    sysenter: SysenterMsrs,
    fixed: CrFixedBits,
    field: VmcsField,
) -> Option<u64> {
    match field {
        VmcsField::GuestPat => Some(linux.pat),
        VmcsField::GuestEfer => Some(linux.efer),
        VmcsField::GuestCr0 => Some(fixed.guest_cr0(linux.cr0)),
        VmcsField::Cr0ReadShadow => Some(linux.cr0),
        VmcsField::Cr0GuestHostMask => Some(fixed.cr0_mask()),
        VmcsField::GuestCr3 => Some(linux.cr3),
        VmcsField::GuestCr4 => Some(fixed.guest_cr4(linux.cr4)),
        VmcsField::Cr4ReadShadow => Some(fixed.cr4_shadow(linux.cr4)),
        VmcsField::Cr4GuestHostMask => Some(fixed.cr4_mask()),
        _ => match guest_register_value(linux, sysenter, field) {
            Some(value) => Some(value),
            None => guest_segment_value(linux, field),
        },
    }
}

/// The guest state of the VMCS for a guest that continues Linux.
pub open spec fn guest_state(
    linux: LinuxContext,
    sysenter: SysenterMsrs,
    fixed: CrFixedBits,
) -> Map<VmcsField, u64> {
    Map::new(
        |field: VmcsField| guest_value(linux, sysenter, fixed, field) is Some,
        |field: VmcsField| guest_value(linux, sysenter, fixed, field)->0,
    )
}

/// How the guest state is filled in.
pub open spec fn guest_ops(linux: LinuxContext, sysenter: SysenterMsrs, fixed: CrFixedBits) -> Seq<
    HwOp,
> {
    seq![
        HwOp::VmcsWrite(VmcsField::GuestPat, linux.pat),
        HwOp::VmcsWrite(VmcsField::GuestEfer, linux.efer),
    ] + set_cr_ops(fixed, 0, linux.cr0) + set_cr_ops(fixed, 4, linux.cr4) + set_cr_ops(
        fixed,
        3,
        linux.cr3,
    ) + segments_ops(linux) + register_ops(linux, sysenter)
}

/// What setting the VMCS up starts from, once VMX is on.
#[derive(Clone, Copy, Debug, PartialEq, Eq, Structural)]
pub struct VmcsEnv {
    pub host: HostState,
    pub sysenter: SysenterMsrs,
    pub caps: VmxCapabilities,
    pub features: CpuFeatures,
    /// The physical address of the MSR bitmap.
    pub msr_bitmap: usize,
}

/// What is known of the VMCS once it is set up for a guest that continues Linux.
pub open spec fn vmcs_content(linux: LinuxContext, env: VmcsEnv, fixed: CrFixedBits) -> Map<
    VmcsField,
    u64,
> {
    with_controls(
        host_state(env.host).union_prefer_right(guest_state(linux, env.sysenter, fixed)),
        env.msr_bitmap,
    )
}

/// How the VMCS at a physical address is set up: it is cleared and made the current one, then the
/// host state, the guest state and the controls are filled in.
pub open spec fn setup_ops(
    linux: LinuxContext,
    env: VmcsEnv,
    fixed: CrFixedBits,
    vmcs: usize,
    gpm_root: usize,
) -> Seq<HwOp> {
    seq![HwOp::VmcsClear(vmcs), HwOp::VmcsLoad(vmcs)] + host_ops(env.host) + guest_ops(
        linux,
        env.sysenter,
        fixed,
    ) + control_ops(env.caps, env.features, gpm_root, env.msr_bitmap)
}

/// The fields that are read when the guest's state is taken back, in the order in which they
/// are read.
pub open spec fn load_order() -> Seq<VmcsField> {
    seq![
        VmcsField::GuestRip,
        VmcsField::GuestRsp,
        VmcsField::GuestCr0,
        VmcsField::GuestCr3,
        VmcsField::GuestCr4,
        VmcsField::GuestSelector(SegReg::ES),
        VmcsField::GuestSelector(SegReg::CS),
        VmcsField::GuestSelector(SegReg::SS),
        VmcsField::GuestSelector(SegReg::DS),
        VmcsField::GuestSelector(SegReg::FS),
        VmcsField::GuestBase(SegReg::FS),
        VmcsField::GuestSelector(SegReg::GS),
        VmcsField::GuestBase(SegReg::GS),
        VmcsField::GuestSelector(SegReg::TR),
        VmcsField::GuestGdtrBase,
        VmcsField::GuestGdtrLimit,
        VmcsField::GuestIdtrBase,
        VmcsField::GuestIdtrLimit,
        VmcsField::GuestSysenterCs,
        VmcsField::GuestSysenterEsp,
        VmcsField::GuestSysenterEip,
    ]
}

/// How many fields of a list are known before the first that is not.
pub open spec fn known_before_gap(known: Map<VmcsField, u64>, order: Seq<VmcsField>) -> nat
    decreases order.len(),
{
    if order.len() == 0 || !known.dom().contains(order[0]) {
        0
    } else {
        1 + known_before_gap(known, order.skip(1))
    }
}

/// What the count means: every field before it is known, and the one at it is not.
pub proof fn lemma_known_before_gap_meaning(known: Map<VmcsField, u64>, order: Seq<VmcsField>)
    ensures
        known_before_gap(known, order) <= order.len(),
        forall|i: int|
            0 <= i < known_before_gap(known, order) ==> known.dom().contains(#[trigger] order[i]),
        known_before_gap(known, order) < order.len() ==> !known.dom().contains(
            order[known_before_gap(known, order) as int],
        ),
    decreases order.len(),
{
    if order.len() > 0 && known.dom().contains(order[0]) {
        lemma_known_before_gap_meaning(known, order.skip(1));
        assert forall|i: int| 0 <= i < known_before_gap(known, order) implies known.dom().contains(
            #[trigger] order[i],
        ) by {
            if i > 0 {
                assert(order.skip(1)[i - 1] == order[i]);
            }
        }
    }
}

/// How many of the fields that hold the guest's state could be read before the first that
/// could not.
pub open spec fn fields_read(known: Map<VmcsField, u64>) -> nat {
    known_before_gap(known, load_order())
}

/// It is known what reading gives of the fields that hold the guest's state, up to the first that
/// cannot be read.
pub open spec fn readings_suffice(vmcs: VmcsState) -> bool {
    fields_read(vmcs.values) < load_order().len() ==> vmcs.faults.dom().contains(
        load_order()[fields_read(vmcs.values) as int],
    )
}

/// The error of the first of the fields that hold the guest's state that cannot be read.
pub open spec fn first_fault(vmcs: VmcsState) -> HvError {
    vmcs.faults[load_order()[fields_read(vmcs.values) as int]]
}

/// A segment register with another selector.
pub open spec fn with_selector(seg: Segment, selector: u64) -> Segment {
    Segment { selector: selector as u16, ..seg }
}

/// What Linux continues with when the first `n` of the fields that hold the guest's state are
/// taken back.
pub open spec fn linux_after(
    linux: LinuxContext,
    known: Map<VmcsField, u64>,
    n: int,
) -> LinuxContext {
    LinuxContext {
        rip: if n > 0 {
            known[VmcsField::GuestRip]
        } else {
            linux.rip
        },
        rsp: if n > 1 {
            known[VmcsField::GuestRsp]
        } else {
            linux.rsp
        },
        cr0: if n > 2 {
            known[VmcsField::GuestCr0] & CR0_DEFINED
        } else {
            linux.cr0
        },
        cr3: if n > 3 {
            known[VmcsField::GuestCr3]
        } else {
            linux.cr3
        },
        cr4: if n > 4 {
            (known[VmcsField::GuestCr4] & CR4_DEFINED) & !CR4_VIRTUAL_MACHINE_EXTENSIONS
        } else {
            linux.cr4
        },
        es: if n > 5 {
            with_selector(linux.es, known[VmcsField::GuestSelector(SegReg::ES)])
        } else {
            linux.es
        },
        cs: if n > 6 {
            with_selector(linux.cs, known[VmcsField::GuestSelector(SegReg::CS)])
        } else {
            linux.cs
        },
        ss: if n > 7 {
            with_selector(linux.ss, known[VmcsField::GuestSelector(SegReg::SS)])
        } else {
            linux.ss
        },
        ds: if n > 8 {
            with_selector(linux.ds, known[VmcsField::GuestSelector(SegReg::DS)])
        } else {
            linux.ds
        },
        fs: Segment {
            selector: if n > 9 {
                known[VmcsField::GuestSelector(SegReg::FS)] as u16
            } else {
                linux.fs.selector
            },
            base: if n > 10 {
                known[VmcsField::GuestBase(SegReg::FS)]
            } else {
                linux.fs.base
            },
            ..linux.fs
        },
        gs: Segment {
            selector: if n > 11 {
                known[VmcsField::GuestSelector(SegReg::GS)] as u16
            } else {
                linux.gs.selector
            },
            base: if n > 12 {
                known[VmcsField::GuestBase(SegReg::GS)]
            } else {
                linux.gs.base
            },
            ..linux.gs
        },
        tss: if n > 13 {
            with_selector(linux.tss, known[VmcsField::GuestSelector(SegReg::TR)])
        } else {
            linux.tss
        },
        gdt: DescriptorTablePointer {
            base: if n > 14 {
                sign_extended(known[VmcsField::GuestGdtrBase])
            } else {
                linux.gdt.base
            },
            limit: if n > 15 {
                known[VmcsField::GuestGdtrLimit] as u16
            } else {
                linux.gdt.limit
            },
        },
        idt: DescriptorTablePointer {
            base: if n > 16 {
                sign_extended(known[VmcsField::GuestIdtrBase])
            } else {
                linux.idt.base
            },
            limit: if n > 17 {
                known[VmcsField::GuestIdtrLimit] as u16
            } else {
                linux.idt.limit
            },
        },
        ..linux
    }
}

/// The registers of SYSENTER that are given back when the first `n` of the fields that hold
/// the guest's state are taken back.
pub open spec fn sysenter_after(known: Map<VmcsField, u64>, n: int) -> Seq<HwOp> {
    let cs = HwOp::WriteMsr(
        Msr::IA32_SYSENTER_CS,
        known[VmcsField::GuestSysenterCs] as u32 as u64,
    );
    let esp = HwOp::WriteMsr(Msr::IA32_SYSENTER_ESP, known[VmcsField::GuestSysenterEsp]);
    let eip = HwOp::WriteMsr(Msr::IA32_SYSENTER_EIP, known[VmcsField::GuestSysenterEip]);
    if n <= 18 {
        Seq::empty()
    } else if n == 19 {
        seq![cs]
    } else if n == 20 {
        seq![cs, esp]
    } else {
        seq![cs, esp, eip]
    }
}

/// What can be taken as the addresses of the descriptor tables, as far as they are read.
pub open spec fn tables_readable(known: Map<VmcsField, u64>) -> bool {
    &&& fields_read(known) > 14 ==> is_virt_addr(known[VmcsField::GuestGdtrBase])
    &&& fields_read(known) > 16 ==> is_virt_addr(known[VmcsField::GuestIdtrBase])
}

/// The fields that are shown of a virtual CPU could be read.
pub open spec fn dump_known(known: Map<VmcsField, u64>) -> bool {
    &&& known.dom().contains(VmcsField::GuestRip)
    &&& known.dom().contains(VmcsField::GuestRsp)
    &&& known.dom().contains(VmcsField::GuestRflags)
    &&& cr_known(known, 0)
    &&& cr_known(known, 3)
    &&& cr_known(known, 4)
    &&& known.dom().contains(VmcsField::GuestSelector(SegReg::CS))
    &&& known.dom().contains(VmcsField::GuestSelector(SegReg::TR))
    &&& known.dom().contains(VmcsField::GuestBase(SegReg::FS))
    &&& known.dom().contains(VmcsField::GuestBase(SegReg::GS))
}

/// What is shown of a virtual CPU with the given registers and fields.
pub open spec fn dump_of(guest_regs: GeneralRegisters, known: Map<VmcsField, u64>) -> VcpuDump {
    VcpuDump {
        guest_regs,
        rip: known[VmcsField::GuestRip],
        rsp: known[VmcsField::GuestRsp],
        rflags: known[VmcsField::GuestRflags],
        cr0: cr_value(known, 0),
        cr3: cr_value(known, 3),
        cr4: cr_value(known, 4),
        cs: known[VmcsField::GuestSelector(SegReg::CS)] as u16,
        fs_base: known[VmcsField::GuestBase(SegReg::FS)],
        gs_base: known[VmcsField::GuestBase(SegReg::GS)],
        tss: known[VmcsField::GuestSelector(SegReg::TR)] as u16,
    }
}

/// What is shown of a virtual CPU when it is printed.
#[derive(Clone, Copy, Debug, PartialEq, Eq, Structural)]
pub struct VcpuDump {
    pub guest_regs: GeneralRegisters,
    pub rip: u64,
    pub rsp: u64,
    pub rflags: u64,
    pub cr0: u64,
    pub cr3: u64,
    pub cr4: u64,
    pub cs: u16,
    pub fs_base: u64,
    pub gs_base: u64,
    pub tss: u16,
}

} // verus!
