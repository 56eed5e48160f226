//! What a VMX guest is set up with and what is taken back of it, field by field.

use vstd::prelude::*;
use crate::arch::context::{GeneralRegisters, LinuxContext, Segment};
use crate::arch::hw::{HwOp, Msr};
use crate::arch::intel::controls::{
    control_ops, control_requests, secondary_controls, with_controls, CpuFeatures, VmxCapabilities,
};
use crate::arch::intel::laws::lemma_all_known;
use crate::arch::intel::state::{
    after_set_cr, cr_known, cr_value, dump_of, fields_read, first_fault, guest_ops, guest_state,
    host_ops, host_state, lemma_known_before_gap_meaning, linux_after, load_order,
    readings_suffice, segment_ops, set_cr_ops, setup_ops, sysenter_after, vmcs_content, CrFixedBits,
    HostState, SysenterMsrs, VmcsEnv,
};
use crate::arch::intel::vcpu::{vmx_in_use, Vcpu, VmxonEnv};
use crate::arch::intel::vmcs::{SegReg, VmcsField, VmcsState};
use crate::arch::registers::{canonical, sign_extended, virt_addr_keeps_the_low_bits};
use crate::memory::Frame;

verus! {

/// Whether the VMCS holds what a guest is set up with, by itself or with the host state and the
/// controls.
pub open spec fn set_up_for(
    known: Map<VmcsField, u64>,
    before: Map<VmcsField, u64>,
    linux: LinuxContext,
    env: VmcsEnv,
    fixed: CrFixedBits,
) -> bool {
    ||| known == before.union_prefer_right(guest_state(linux, env.sysenter, fixed))
    ||| known == vmcs_content(linux, env, fixed)
}

/// Every segment register of the guest has the selector, the base, the limit and the access rights
/// of the register of the same name of Linux; the guest has no local descriptor table.
pub proof fn the_guest_has_the_segments_of_linux(
    known: Map<VmcsField, u64>,
    before: Map<VmcsField, u64>,
    linux: LinuxContext,
    env: VmcsEnv,
    fixed: CrFixedBits,
)
    requires
        set_up_for(known, before, linux, env, fixed),
    ensures
        forall|reg: SegReg|
            #![trigger known[VmcsField::GuestSelector(reg)]]
            known.dom().contains(VmcsField::GuestSelector(reg)) && known.dom().contains(
                VmcsField::GuestBase(reg),
            ) && known.dom().contains(VmcsField::GuestLimit(reg)) && known.dom().contains(
                VmcsField::GuestArBytes(reg),
            ),
        known[VmcsField::GuestSelector(SegReg::ES)] == linux.es.selector,
        known[VmcsField::GuestBase(SegReg::ES)] == linux.es.base,
        known[VmcsField::GuestLimit(SegReg::ES)] == linux.es.limit,
        known[VmcsField::GuestArBytes(SegReg::ES)] == linux.es.access_rights.bits,
        known[VmcsField::GuestSelector(SegReg::CS)] == linux.cs.selector,
        known[VmcsField::GuestBase(SegReg::CS)] == linux.cs.base,
        known[VmcsField::GuestLimit(SegReg::CS)] == linux.cs.limit,
        known[VmcsField::GuestArBytes(SegReg::CS)] == linux.cs.access_rights.bits,
        known[VmcsField::GuestSelector(SegReg::SS)] == linux.ss.selector,
        known[VmcsField::GuestBase(SegReg::SS)] == linux.ss.base,
        known[VmcsField::GuestLimit(SegReg::SS)] == linux.ss.limit,
        known[VmcsField::GuestArBytes(SegReg::SS)] == linux.ss.access_rights.bits,
        known[VmcsField::GuestSelector(SegReg::DS)] == linux.ds.selector,
        known[VmcsField::GuestBase(SegReg::DS)] == linux.ds.base,
        known[VmcsField::GuestLimit(SegReg::DS)] == linux.ds.limit,
        known[VmcsField::GuestArBytes(SegReg::DS)] == linux.ds.access_rights.bits,
        known[VmcsField::GuestSelector(SegReg::FS)] == linux.fs.selector,
        known[VmcsField::GuestBase(SegReg::FS)] == linux.fs.base,
        known[VmcsField::GuestLimit(SegReg::FS)] == linux.fs.limit,
        known[VmcsField::GuestArBytes(SegReg::FS)] == linux.fs.access_rights.bits,
        known[VmcsField::GuestSelector(SegReg::GS)] == linux.gs.selector,
        known[VmcsField::GuestBase(SegReg::GS)] == linux.gs.base,
        known[VmcsField::GuestLimit(SegReg::GS)] == linux.gs.limit,
        known[VmcsField::GuestArBytes(SegReg::GS)] == linux.gs.access_rights.bits,
        known[VmcsField::GuestSelector(SegReg::TR)] == linux.tss.selector,
        known[VmcsField::GuestBase(SegReg::TR)] == linux.tss.base,
        known[VmcsField::GuestLimit(SegReg::TR)] == linux.tss.limit,
        known[VmcsField::GuestArBytes(SegReg::TR)] == linux.tss.access_rights.bits,
        known[VmcsField::GuestSelector(SegReg::LDTR)] == 0,
        known[VmcsField::GuestBase(SegReg::LDTR)] == 0,
        known[VmcsField::GuestLimit(SegReg::LDTR)] == 0,
        known[VmcsField::GuestArBytes(SegReg::LDTR)] == 0x1_0000,
{
}

/// The guest goes on where Linux called the hypervisor, on its stack, with its page table, its
/// descriptor tables and its memory types; it starts with clean flags, nothing pending and
/// nothing of the debugger.
pub proof fn the_guest_goes_on_where_linux_called(
    known: Map<VmcsField, u64>,
    before: Map<VmcsField, u64>,
    linux: LinuxContext,
    env: VmcsEnv,
    fixed: CrFixedBits,
)
    requires
        set_up_for(known, before, linux, env, fixed),
    ensures
        forall|f: VmcsField| is_guest_field(f) ==> #[trigger] known.dom().contains(f),
        known.dom().contains(VmcsField::Cr0ReadShadow),
        known[VmcsField::GuestPat] == linux.pat,
        known[VmcsField::GuestEfer] == linux.efer,
        known[VmcsField::GuestCr3] == linux.cr3,
        known[VmcsField::Cr0ReadShadow] == linux.cr0,
        known[VmcsField::GuestGdtrBase] == linux.gdt.base,
        known[VmcsField::GuestGdtrLimit] == linux.gdt.limit,
        known[VmcsField::GuestIdtrBase] == linux.idt.base,
        known[VmcsField::GuestIdtrLimit] == linux.idt.limit,
        known[VmcsField::GuestRsp] == linux.rsp,
        known[VmcsField::GuestRip] == linux.rip,
        known[VmcsField::GuestRflags] == 0x2,
        known[VmcsField::GuestSysenterEsp] == env.sysenter.esp,
        known[VmcsField::GuestSysenterEip] == env.sysenter.eip,
        known[VmcsField::GuestSysenterCs] == env.sysenter.cs % 0x1_0000_0000,
        known[VmcsField::GuestDr7] == 0x400,
        known[VmcsField::GuestDebugctl] == 0,
        known[VmcsField::GuestActivityState] == 0,
        known[VmcsField::GuestInterruptibilityInfo] == 0,
        known[VmcsField::GuestPendingDbgExceptions] == 0,
        known[VmcsField::VmcsLinkPointer] == 0xffff_ffff_ffff_ffff,
        known[VmcsField::VmxPreemptionTimerValue] == 0,
{
    let cs = env.sysenter.cs;
    assert(cs as u32 == cs % 0x1_0000_0000) by (bit_vector);
}

/// When the guest exits, the processor goes on with exactly the hypervisor's registers, and with
/// nothing in the segment registers that the hypervisor does not use.
pub proof fn exits_go_to_the_hypervisor(
    known: Map<VmcsField, u64>,
    before: Map<VmcsField, u64>,
    linux: LinuxContext,
    env: VmcsEnv,
    fixed: CrFixedBits,
    host: HostState,
)
    requires
        known == before.union_prefer_right(host_state(host)) || (known == vmcs_content(
            linux,
            env,
            fixed,
        ) && host == env.host),
    ensures
        forall|f: VmcsField|
            is_host_field(f) && f != VmcsField::HostSelector(SegReg::LDTR)
                ==> #[trigger] known.dom().contains(f),
        known[VmcsField::HostPat] == host.pat,
        known[VmcsField::HostEfer] == host.efer,
        known[VmcsField::HostCr0] == host.cr0,
        known[VmcsField::HostCr3] == host.cr3,
        known[VmcsField::HostCr4] == host.cr4,
        known[VmcsField::HostSelector(SegReg::CS)] == host.kcode_selector,
        known[VmcsField::HostSelector(SegReg::TR)] == host.tss_selector,
        known[VmcsField::HostGsBase] == host.gs_base,
        known[VmcsField::HostGdtrBase] == host.gdt_base,
        known[VmcsField::HostIdtrBase] == host.idt_base,
        known[VmcsField::HostRsp] == host.rsp,
        known[VmcsField::HostRip] == host.rip,
        known[VmcsField::HostSelector(SegReg::ES)] == 0,
        known[VmcsField::HostSelector(SegReg::SS)] == 0,
        known[VmcsField::HostSelector(SegReg::DS)] == 0,
        known[VmcsField::HostSelector(SegReg::FS)] == 0,
        known[VmcsField::HostSelector(SegReg::GS)] == 0,
        known[VmcsField::HostFsBase] == 0,
        known[VmcsField::HostTrBase] == 0,
        known[VmcsField::HostSysenterCs] == 0,
        known[VmcsField::HostSysenterEsp] == 0,
        known[VmcsField::HostSysenterEip] == 0,
{
}

/// Filling in the host state leaves every field of the guest state and every control as it was;
/// filling in the guest state leaves every field of the host state, and every control but the
/// shadows and masks of CR0 and CR4.
pub proof fn filling_in_one_state_leaves_the_other(
    before: Map<VmcsField, u64>,
    linux: LinuxContext,
    sysenter: SysenterMsrs,
    fixed: CrFixedBits,
    host: HostState,
    f: VmcsField,
)
    ensures
        !is_host_field(f) ==> {
            let after = before.union_prefer_right(host_state(host));
            &&& after.dom().contains(f) == before.dom().contains(f)
            &&& before.dom().contains(f) ==> after[f] == before[f]
        },
        !is_guest_field(f) && !(f is Cr0ReadShadow || f is Cr0GuestHostMask || f is Cr4ReadShadow
            || f is Cr4GuestHostMask) ==> {
            let after = before.union_prefer_right(guest_state(linux, sysenter, fixed));
            &&& after.dom().contains(f) == before.dom().contains(f)
            &&& before.dom().contains(f) ==> after[f] == before[f]
        },
{
}

/// What the controls ask for: each of the five control fields once, with the capabilities that the
/// processor tells for that very field. Interrupts and ports do not exit, non-maskable
/// interrupts do; the guest has CR3 to itself.
pub proof fn controls_ask_for_what_the_guest_needs(caps: VmxCapabilities, features: CpuFeatures)
    ensures
        ({
            let requests = control_requests(caps, features);
            &&& requests.len() == 5
            &&& requests[0].field is PinBasedVmExecControl
            &&& requests[0].capability == caps.pinbased_ctls
            &&& requests[0].set == 0x8 && requests[0].clear == 0
            &&& requests[1].field is ProcBasedVmExecControl
            &&& requests[1].capability == caps.procbased_ctls
            &&& requests[1].set == 0x9000_0000 && requests[1].clear == 0x1_8000
            &&& requests[2].field is SecondaryVmExecControl
            &&& requests[2].capability == caps.procbased_ctls2
            &&& requests[2].clear == 0
            &&& requests[2].set & 0x82 == 0x82
            &&& requests[2].set & 0x8 != 0 <==> features.has_rdtscp
            &&& requests[2].set & 0x1000 != 0 <==> features.has_invpcid
            &&& requests[2].set & 0x10_0000 != 0 <==> features.has_xsaves_xrstors
            &&& requests[2].set & !0x10_108au32 == 0
            &&& requests[3].field is VmExitControls
            &&& requests[3].capability == caps.exit_ctls
            &&& requests[3].set == 0x3c_0200 && requests[3].clear == 0
            &&& requests[4].field is VmEntryControls
            &&& requests[4].capability == caps.entry_ctls
            &&& requests[4].set == 0xc200 && requests[4].clear == 0
        }),
{
    let a = if features.has_rdtscp { 0x8u32 } else { 0 };
    let b = if features.has_invpcid { 0x1000u32 } else { 0 };
    let c = if features.has_xsaves_xrstors { 0x10_0000u32 } else { 0 };
    let set = secondary_controls(features);
    assert(set == 0x2u32 | 0x80u32 | a | b | c);
    assert((a == 0x8 || a == 0) && (b == 0x1000 || b == 0) && (c == 0x10_0000 || c == 0) ==> ({
        let s = 0x2u32 | 0x80u32 | a | b | c;
        &&& s & 0x82 == 0x82
        &&& (s & 0x8 != 0) == (a == 0x8)
        &&& (s & 0x1000 != 0) == (b == 0x1000)
        &&& (s & 0x10_0000 != 0) == (c == 0x10_0000)
        &&& s & !0x10_108au32 == 0
    })) by (bit_vector);
    assert(0x1000_0000u32 | 0x8000_0000u32 == 0x9000_0000u32 && 0x8000u32 | 0x1_0000u32
        == 0x1_8000u32 && 0x200u32 | 0x4_0000u32 | 0x8_0000u32 | 0x10_0000u32 | 0x20_0000u32
        == 0x3c_0200u32 && 0x200u32 | 0x4000u32 | 0x8000u32 == 0xc200u32) by (bit_vector);
}

/// The controls are set by the five requests, the nested page table of the cell and eight more
/// operations at most: no register is swapped, the MSR bitmap is the one that is given, in full,
/// and no exception makes the guest exit.
pub proof fn controls_are_set_by(
    linux: LinuxContext,
    env: VmcsEnv,
    fixed: CrFixedBits,
    gpm_root: usize,
)
    ensures
        ({
            let ops = control_ops(env.caps, env.features, gpm_root, env.msr_bitmap);
            let requests = control_requests(env.caps, env.features);
            let known = vmcs_content(linux, env, fixed);
            &&& ops.len() == 13
            &&& forall|i: int|
                0 <= i < 5 ==> (#[trigger] ops[i] matches HwOp::VmcsControl(r) && r == requests[i])
            &&& ops[10] matches HwOp::ActivateGuestMemory(root) && root == gpm_root
            &&& known[VmcsField::MsrBitmap] == env.msr_bitmap
            &&& known[VmcsField::ExceptionBitmap] == 0
            &&& known[VmcsField::VmExitMsrStoreCount] == 0
            &&& known[VmcsField::VmExitMsrLoadCount] == 0
            &&& known[VmcsField::VmEntryMsrLoadCount] == 0
            &&& known[VmcsField::Cr4GuestHostMask] == 0
            &&& known[VmcsField::Cr3TargetCount] == 0
            &&& known.dom().contains(VmcsField::MsrBitmap)
            &&& known.dom().contains(VmcsField::ExceptionBitmap)
            &&& known.dom().contains(VmcsField::VmExitMsrStoreCount)
            &&& known.dom().contains(VmcsField::VmExitMsrLoadCount)
            &&& known.dom().contains(VmcsField::VmEntryMsrLoadCount)
            &&& known.dom().contains(VmcsField::Cr4GuestHostMask)
            &&& known.dom().contains(VmcsField::Cr3TargetCount)
        }),
{
}

/// The VMCS of this CPU, and no other, is cleared and made the current one before anything is
/// written to it, and there are no more operations than fields and requests: nothing is written
/// twice but the mask of CR4.
pub proof fn setup_is_on_the_own_vmcs(
    linux: LinuxContext,
    env: VmcsEnv,
    fixed: CrFixedBits,
    vmcs: usize,
    gpm_root: usize,
)
    ensures
        ({
            let ops = setup_ops(linux, env, fixed, vmcs, gpm_root);
            &&& ops.len() == 95
            &&& ops[0] matches HwOp::VmcsClear(paddr) && paddr == vmcs
            &&& ops[1] matches HwOp::VmcsLoad(paddr) && paddr == vmcs
            &&& ops.skip(82) == control_ops(env.caps, env.features, gpm_root, env.msr_bitmap)
        }),
        host_ops(env.host).len() == 22,
        guest_ops(linux, env.sysenter, fixed).len() == 58,
        set_cr_ops(fixed, 0, linux.cr0).len() == 3,
        set_cr_ops(fixed, 3, linux.cr3).len() == 1,
        set_cr_ops(fixed, 4, linux.cr4).len() == 3,
{
    assert(setup_ops(linux, env, fixed, vmcs, gpm_root).skip(82) =~= control_ops(
        env.caps,
        env.features,
        gpm_root,
        env.msr_bitmap,
    ));
}

/// The host state is written field by field, in this order.
pub proof fn the_host_state_is_written_by(host: HostState)
    ensures
        ({
            let ops = host_ops(host);
            &&& ops.len() == 22
            &&& ops[0] == HwOp::VmcsWrite(VmcsField::HostPat, host.pat)
            &&& ops[1] == HwOp::VmcsWrite(VmcsField::HostEfer, host.efer)
            &&& ops[2] == HwOp::VmcsWrite(VmcsField::HostCr0, host.cr0)
            &&& ops[3] == HwOp::VmcsWrite(VmcsField::HostCr3, host.cr3)
            &&& ops[4] == HwOp::VmcsWrite(VmcsField::HostCr4, host.cr4)
            &&& ops[5] == HwOp::VmcsWrite(VmcsField::HostSelector(SegReg::ES), 0)
            &&& ops[6] == HwOp::VmcsWrite(
                VmcsField::HostSelector(SegReg::CS),
                host.kcode_selector as u64,
            )
            &&& ops[7] == HwOp::VmcsWrite(VmcsField::HostSelector(SegReg::SS), 0)
            &&& ops[8] == HwOp::VmcsWrite(VmcsField::HostSelector(SegReg::DS), 0)
            &&& ops[9] == HwOp::VmcsWrite(VmcsField::HostSelector(SegReg::FS), 0)
            &&& ops[10] == HwOp::VmcsWrite(VmcsField::HostSelector(SegReg::GS), 0)
            &&& ops[11] == HwOp::VmcsWrite(
                VmcsField::HostSelector(SegReg::TR),
                host.tss_selector as u64,
            )
            &&& ops[12] == HwOp::VmcsWrite(VmcsField::HostFsBase, 0)
            &&& ops[13] == HwOp::VmcsWrite(VmcsField::HostGsBase, host.gs_base)
            &&& ops[14] == HwOp::VmcsWrite(VmcsField::HostTrBase, 0)
            &&& ops[15] == HwOp::VmcsWrite(VmcsField::HostGdtrBase, host.gdt_base)
            &&& ops[16] == HwOp::VmcsWrite(VmcsField::HostIdtrBase, host.idt_base)
            &&& ops[17] == HwOp::VmcsWrite(VmcsField::HostSysenterEsp, 0)
            &&& ops[18] == HwOp::VmcsWrite(VmcsField::HostSysenterEip, 0)
            &&& ops[19] == HwOp::VmcsWrite(VmcsField::HostSysenterCs, 0)
            &&& ops[20] == HwOp::VmcsWrite(VmcsField::HostRsp, host.rsp)
            &&& ops[21] == HwOp::VmcsWrite(VmcsField::HostRip, host.rip)
        }),
{
}

/// A segment register of the guest is written by its selector, its base, its limit and its access
/// rights, in this order.
pub proof fn a_segment_is_written_by(reg: SegReg, seg: Segment)
    ensures
        ({
            let ops = segment_ops(reg, seg);
            &&& ops.len() == 4
            &&& ops[0] == HwOp::VmcsWrite(VmcsField::GuestSelector(reg), seg.selector as u64)
            &&& ops[1] == HwOp::VmcsWrite(VmcsField::GuestBase(reg), seg.base)
            &&& ops[2] == HwOp::VmcsWrite(VmcsField::GuestLimit(reg), seg.limit as u64)
            &&& ops[3] == HwOp::VmcsWrite(
                VmcsField::GuestArBytes(reg),
                seg.access_rights.bits as u64,
            )
        }),
{
}

/// Setting a control register writes exactly the fields that it changes, each with the value that
/// it has afterwards.
pub proof fn a_control_register_is_written_by(
    known: Map<VmcsField, u64>,
    fixed: CrFixedBits,
    val: u64,
)
    ensures
        ({
            let ops = set_cr_ops(fixed, 0, val);
            let after = after_set_cr(known, fixed, 0, val);
            &&& ops.len() == 3
            &&& ops[0] == HwOp::VmcsWrite(VmcsField::GuestCr0, after[VmcsField::GuestCr0])
            &&& ops[1] == HwOp::VmcsWrite(VmcsField::Cr0ReadShadow, val)
            &&& ops[2] == HwOp::VmcsWrite(
                VmcsField::Cr0GuestHostMask,
                after[VmcsField::Cr0GuestHostMask],
            )
        }),
        set_cr_ops(fixed, 3, val).len() == 1,
        set_cr_ops(fixed, 3, val)[0] == HwOp::VmcsWrite(VmcsField::GuestCr3, val),
        ({
            let ops = set_cr_ops(fixed, 4, val);
            let after = after_set_cr(known, fixed, 4, val);
            &&& ops.len() == 3
            &&& ops[0] == HwOp::VmcsWrite(VmcsField::GuestCr4, after[VmcsField::GuestCr4])
            &&& ops[1] == HwOp::VmcsWrite(
                VmcsField::Cr4ReadShadow,
                after[VmcsField::Cr4ReadShadow],
            )
            &&& ops[2] == HwOp::VmcsWrite(
                VmcsField::Cr4GuestHostMask,
                after[VmcsField::Cr4GuestHostMask],
            )
        }),
{
}

/// The guest state is written in this order: the memory types and the mode, the control registers,
/// the segment registers, and the other registers with the guest's activity.
pub proof fn the_guest_state_is_written_by(
    linux: LinuxContext,
    sysenter: SysenterMsrs,
    fixed: CrFixedBits,
)
    ensures
        ({
            let ops = guest_ops(linux, sysenter, fixed);
            &&& ops.len() == 58
            &&& ops[0] == HwOp::VmcsWrite(VmcsField::GuestPat, linux.pat)
            &&& ops[1] == HwOp::VmcsWrite(VmcsField::GuestEfer, linux.efer)
            &&& ops.subrange(2, 5) == set_cr_ops(fixed, 0, linux.cr0)
            &&& ops.subrange(5, 8) == set_cr_ops(fixed, 4, linux.cr4)
            &&& ops.subrange(8, 9) == set_cr_ops(fixed, 3, linux.cr3)
            &&& ops.subrange(9, 13) == segment_ops(SegReg::ES, linux.es)
            &&& ops.subrange(13, 17) == segment_ops(SegReg::CS, linux.cs)
            &&& ops.subrange(17, 21) == segment_ops(SegReg::SS, linux.ss)
            &&& ops.subrange(21, 25) == segment_ops(SegReg::DS, linux.ds)
            &&& ops.subrange(25, 29) == segment_ops(SegReg::FS, linux.fs)
            &&& ops.subrange(29, 33) == segment_ops(SegReg::GS, linux.gs)
            &&& ops.subrange(33, 37) == segment_ops(SegReg::TR, linux.tss)
            &&& ops.subrange(37, 41) == segment_ops(SegReg::LDTR, Segment::unusable())
            &&& ops[41] == HwOp::VmcsWrite(VmcsField::GuestGdtrBase, linux.gdt.base)
            &&& ops[42] == HwOp::VmcsWrite(VmcsField::GuestGdtrLimit, linux.gdt.limit as u64)
            &&& ops[43] == HwOp::VmcsWrite(VmcsField::GuestIdtrBase, linux.idt.base)
            &&& ops[44] == HwOp::VmcsWrite(VmcsField::GuestIdtrLimit, linux.idt.limit as u64)
            &&& ops[45] == HwOp::VmcsWrite(VmcsField::GuestRsp, linux.rsp)
            &&& ops[46] == HwOp::VmcsWrite(VmcsField::GuestRip, linux.rip)
            &&& ops[47] == HwOp::VmcsWrite(VmcsField::GuestRflags, 0x2)
            &&& ops[48] matches HwOp::VmcsWrite(f, v) && f is GuestSysenterCs && v == sysenter.cs
                % 0x1_0000_0000
            &&& ops[49] == HwOp::VmcsWrite(VmcsField::GuestSysenterEsp, sysenter.esp)
            &&& ops[50] == HwOp::VmcsWrite(VmcsField::GuestSysenterEip, sysenter.eip)
            &&& ops[51] == HwOp::VmcsWrite(VmcsField::GuestDr7, 0x400)
            &&& ops[52] == HwOp::VmcsWrite(VmcsField::GuestDebugctl, 0)
            &&& ops[53] == HwOp::VmcsWrite(VmcsField::GuestActivityState, 0)
            &&& ops[54] == HwOp::VmcsWrite(VmcsField::GuestInterruptibilityInfo, 0)
            &&& ops[55] == HwOp::VmcsWrite(VmcsField::GuestPendingDbgExceptions, 0)
            &&& ops[56] == HwOp::VmcsWrite(VmcsField::VmcsLinkPointer, 0xffff_ffff_ffff_ffff)
            &&& ops[57] == HwOp::VmcsWrite(VmcsField::VmxPreemptionTimerValue, 0)
        }),
{
    lemma_low_halves();
}

/// After the five requests, the rest of the controls is written in this order.
pub proof fn the_controls_are_written_by(
    caps: VmxCapabilities,
    features: CpuFeatures,
    gpm_root: usize,
    msr_bitmap: usize,
)
    ensures
        ({
            let ops = control_ops(caps, features, gpm_root, msr_bitmap);
            &&& ops.len() == 13
            &&& ops[5] == HwOp::VmcsWrite(VmcsField::VmExitMsrStoreCount, 0)
            &&& ops[6] == HwOp::VmcsWrite(VmcsField::VmExitMsrLoadCount, 0)
            &&& ops[7] == HwOp::VmcsWrite(VmcsField::VmEntryMsrLoadCount, 0)
            &&& ops[8] == HwOp::VmcsWrite(VmcsField::Cr4GuestHostMask, 0)
            &&& ops[9] == HwOp::VmcsWrite(VmcsField::Cr3TargetCount, 0)
            &&& ops[10] == HwOp::ActivateGuestMemory(gpm_root)
            &&& ops[11] == HwOp::VmcsWrite(VmcsField::MsrBitmap, msr_bitmap as u64)
            &&& ops[12] == HwOp::VmcsWrite(VmcsField::ExceptionBitmap, 0)
        }),
{
}

/// Setting the VMCS up is clearing it, making it the current one, and writing the host state, the
/// guest state and the controls, in this order.
pub proof fn the_vmcs_is_set_up_in_order(
    linux: LinuxContext,
    env: VmcsEnv,
    fixed: CrFixedBits,
    vmcs: usize,
    gpm_root: usize,
)
    ensures
        ({
            let ops = setup_ops(linux, env, fixed, vmcs, gpm_root);
            &&& ops.len() == 95
            &&& ops[0] == HwOp::VmcsClear(vmcs)
            &&& ops[1] == HwOp::VmcsLoad(vmcs)
            &&& ops.subrange(2, 24) == host_ops(env.host)
            &&& ops.subrange(24, 82) == guest_ops(linux, env.sysenter, fixed)
            &&& ops.subrange(82, 95) == control_ops(
                env.caps,
                env.features,
                gpm_root,
                env.msr_bitmap,
            )
        }),
{
}

/// Whether a field is part of the host state.
pub open spec fn is_host_field(field: VmcsField) -> bool {
    field is HostSelector || field is HostPat || field is HostEfer || field is HostCr0 || field
        is HostCr3 || field is HostCr4 || field is HostFsBase || field is HostGsBase || field
        is HostTrBase || field is HostGdtrBase || field is HostIdtrBase || field is HostSysenterCs
        || field is HostSysenterEsp || field is HostSysenterEip || field is HostRsp || field
        is HostRip
}

/// Whether a field is part of the guest state.
pub open spec fn is_guest_field(field: VmcsField) -> bool {
    field is GuestSelector || field is GuestBase || field is GuestLimit || field is GuestArBytes
        || field is GuestGdtrBase || field is GuestGdtrLimit || field is GuestIdtrBase || field
        is GuestIdtrLimit || field is GuestPat || field is GuestEfer || field is GuestCr0 || field
        is GuestCr3 || field is GuestCr4 || field is GuestDr7 || field is GuestDebugctl || field
        is GuestRsp || field is GuestRip || field is GuestRflags || field is GuestSysenterCs
        || field is GuestSysenterEsp || field is GuestSysenterEip || field is GuestActivityState
        || field is GuestInterruptibilityInfo || field is GuestPendingDbgExceptions || field
        is VmcsLinkPointer || field is VmxPreemptionTimerValue
}

/// What becomes of each bit of CR0 that the guest asks for. A bit that the processor wants set,
/// other than PE and PG, is set. Of the rest, a bit that it wants clear, and NW and CD, are
/// clear. Every other bit is as asked for. Exactly these last are the guest's own; the others
/// are masked, and the guest reads back all that it asked for.
pub proof fn every_bit_of_cr0(known: Map<VmcsField, u64>, fixed: CrFixedBits, val: u64)
    ensures
        ({
            let after = after_set_cr(known, fixed, 0, val);
            let cr0 = after[VmcsField::GuestCr0];
            let mask = after[VmcsField::Cr0GuestHostMask];
            let shadow = after[VmcsField::Cr0ReadShadow];
            let forced = fixed.cr0_fixed0 & 0xffff_ffff_7fff_fffe;
            let allowed = fixed.cr0_fixed1 & 0xffff_ffff_9fff_ffff;
            &&& cr0 & forced == forced
            &&& cr0 & !forced & !allowed == 0
            &&& cr0 & (allowed & !forced) == val & (allowed & !forced)
            &&& mask == !(allowed & !forced)
            &&& shadow == val
            &&& (shadow & mask) | (cr0 & !mask) == val
            &&& after.dom() == known.dom().insert(VmcsField::GuestCr0).insert(
                VmcsField::Cr0GuestHostMask,
            ).insert(VmcsField::Cr0ReadShadow)
            &&& forall|f: VmcsField|
                f != VmcsField::GuestCr0 && f != VmcsField::Cr0GuestHostMask && f
                    != VmcsField::Cr0ReadShadow ==> #[trigger] after[f] == known[f]
        }),
{
    let (f0, f1) = (fixed.cr0_fixed0, fixed.cr0_fixed1);
    assert(({
        let must1 = f0 & !(0x8000_0000u64 | 0x1u64);
        let must0 = f1 & !(0x2000_0000u64 | 0x4000_0000u64);
        let cr0 = (val & must0) | must1;
        let mask = must1 | !must0;
        let forced = f0 & 0xffff_ffff_7fff_fffeu64;
        let allowed = f1 & 0xffff_ffff_9fff_ffffu64;
        &&& cr0 & forced == forced
        &&& cr0 & !forced & !allowed == 0
        &&& cr0 & (allowed & !forced) == val & (allowed & !forced)
        &&& mask == !(allowed & !forced)
        &&& (val & mask) | (cr0 & !mask) == val
    })) by (bit_vector);
    assert(after_set_cr(known, fixed, 0, val).dom() =~= known.dom().insert(
        VmcsField::GuestCr0,
    ).insert(VmcsField::Cr0GuestHostMask).insert(VmcsField::Cr0ReadShadow));
}

/// What becomes of each bit of CR4 that the guest asks for, where it always asks for VMXE: a bit
/// that the processor wants set is set, of the rest a bit that it wants clear is clear, and every
/// other bit is as asked for. Exactly these last are the guest's own; the others are masked, and
/// the guest reads back all that it asked for.
pub proof fn every_bit_of_cr4(known: Map<VmcsField, u64>, fixed: CrFixedBits, val: u64)
    ensures
        ({
            let after = after_set_cr(known, fixed, 4, val);
            let cr4 = after[VmcsField::GuestCr4];
            let mask = after[VmcsField::Cr4GuestHostMask];
            let shadow = after[VmcsField::Cr4ReadShadow];
            let forced = fixed.cr4_fixed0;
            let allowed = fixed.cr4_fixed1;
            &&& shadow & 0x2000 == 0x2000
            &&& shadow & 0xffff_ffff_ffff_dfff == val & 0xffff_ffff_ffff_dfff
            &&& cr4 & forced == forced
            &&& cr4 & !forced & !allowed == 0
            &&& cr4 & (allowed & !forced) == shadow & (allowed & !forced)
            &&& mask == !(allowed & !forced)
            &&& after.dom() == known.dom().insert(VmcsField::GuestCr4).insert(
                VmcsField::Cr4GuestHostMask,
            ).insert(VmcsField::Cr4ReadShadow)
            &&& forall|f: VmcsField|
                f != VmcsField::GuestCr4 && f != VmcsField::Cr4GuestHostMask && f
                    != VmcsField::Cr4ReadShadow ==> #[trigger] after[f] == known[f]
        }),
{
    let (f0, f1) = (fixed.cr4_fixed0, fixed.cr4_fixed1);
    assert(({
        let shadow = val | 0x2000u64;
        let cr4 = (shadow & f1) | f0;
        &&& shadow & 0x2000 == 0x2000
        &&& shadow & 0xffff_ffff_ffff_dfffu64 == val & 0xffff_ffff_ffff_dfffu64
        &&& cr4 & f0 == f0
        &&& cr4 & !f0 & !f1 == 0
        &&& cr4 & (f1 & !f0) == shadow & (f1 & !f0)
        &&& f0 | !f1 == !(f1 & !f0)
    })) by (bit_vector);
    assert(after_set_cr(known, fixed, 4, val).dom() =~= known.dom().insert(
        VmcsField::GuestCr4,
    ).insert(VmcsField::Cr4GuestHostMask).insert(VmcsField::Cr4ReadShadow));
}

/// Setting CR3 is writing it, and nothing else.
pub proof fn setting_cr3_is_writing_it(known: Map<VmcsField, u64>, fixed: CrFixedBits, val: u64)
    ensures
        after_set_cr(known, fixed, 3, val)[VmcsField::GuestCr3] == val,
        after_set_cr(known, fixed, 3, val).dom() == known.dom().insert(VmcsField::GuestCr3),
        forall|f: VmcsField|
            f != VmcsField::GuestCr3 ==> #[trigger] after_set_cr(known, fixed, 3, val)[f]
                == known[f],
{
    assert(after_set_cr(known, fixed, 3, val).dom() =~= known.dom().insert(VmcsField::GuestCr3));
}

/// What is read of the guest's control registers: CR0 and CR3 as they are; of CR4, the masked bits
/// from what the guest asked for and the others as they are.
pub proof fn control_registers_are_read_from(known: Map<VmcsField, u64>)
    ensures
        cr_value(known, 0) == known[VmcsField::GuestCr0],
        cr_value(known, 3) == known[VmcsField::GuestCr3],
        ({
            let mask = known[VmcsField::Cr4GuestHostMask];
            &&& cr_value(known, 4) & mask == known[VmcsField::Cr4ReadShadow] & mask
            &&& cr_value(known, 4) & !mask == known[VmcsField::GuestCr4] & !mask
        }),
        cr_known(known, 0) <==> known.dom().contains(VmcsField::GuestCr0),
        cr_known(known, 3) <==> known.dom().contains(VmcsField::GuestCr3),
        cr_known(known, 4) <==> known.dom().contains(VmcsField::GuestCr4) && known.dom().contains(
            VmcsField::Cr4ReadShadow,
        ) && known.dom().contains(VmcsField::Cr4GuestHostMask),
{
    let mask = known[VmcsField::Cr4GuestHostMask];
    let shadow = known[VmcsField::Cr4ReadShadow];
    let cr4 = known[VmcsField::GuestCr4];
    assert(((shadow & mask) | (cr4 & !mask)) & mask == shadow & mask && ((shadow & mask) | (cr4
        & !mask)) & !mask == cr4 & !mask) by (bit_vector);
}

/// The guest's state is taken back field by field in this order.
pub proof fn the_state_is_taken_back_in_order()
    ensures
        load_order().len() == 21,
        load_order()[0] == VmcsField::GuestRip,
        load_order()[1] == VmcsField::GuestRsp,
        load_order()[2] == VmcsField::GuestCr0,
        load_order()[3] == VmcsField::GuestCr3,
        load_order()[4] == VmcsField::GuestCr4,
        load_order()[5] == VmcsField::GuestSelector(SegReg::ES),
        load_order()[6] == VmcsField::GuestSelector(SegReg::CS),
        load_order()[7] == VmcsField::GuestSelector(SegReg::SS),
        load_order()[8] == VmcsField::GuestSelector(SegReg::DS),
        load_order()[9] == VmcsField::GuestSelector(SegReg::FS),
        load_order()[10] == VmcsField::GuestBase(SegReg::FS),
        load_order()[11] == VmcsField::GuestSelector(SegReg::GS),
        load_order()[12] == VmcsField::GuestBase(SegReg::GS),
        load_order()[13] == VmcsField::GuestSelector(SegReg::TR),
        load_order()[14] == VmcsField::GuestGdtrBase,
        load_order()[15] == VmcsField::GuestGdtrLimit,
        load_order()[16] == VmcsField::GuestIdtrBase,
        load_order()[17] == VmcsField::GuestIdtrLimit,
        load_order()[18] == VmcsField::GuestSysenterCs,
        load_order()[19] == VmcsField::GuestSysenterEsp,
        load_order()[20] == VmcsField::GuestSysenterEip,
{
}

/// Wherever Linux was before, once the guest's state has been taken back it goes on where the guest
/// is: on the guest's stack, with its page table, its segments and its descriptor tables, and
/// with the defined bits of its CR0 and CR4 but VMXE. Everything else is as Linux left it.
pub proof fn linux_goes_on_where_the_guest_is(linux: LinuxContext, known: Map<VmcsField, u64>)
    requires
        forall|i: int|
            0 <= i < load_order().len() ==> known.dom().contains(#[trigger] load_order()[i]),
    ensures
        ({
            let after = linux_after(linux, known, fields_read(known) as int);
            &&& after.rip == known[VmcsField::GuestRip]
            &&& after.rsp == known[VmcsField::GuestRsp]
            &&& after.cr0 == known[VmcsField::GuestCr0] & 0xe005_003f
            &&& after.cr3 == known[VmcsField::GuestCr3]
            &&& after.cr4 == known[VmcsField::GuestCr4] & 0x01ff_5fff
            &&& after.es.selector == known[VmcsField::GuestSelector(SegReg::ES)] % 0x1_0000
            &&& after.cs.selector == known[VmcsField::GuestSelector(SegReg::CS)] % 0x1_0000
            &&& after.ss.selector == known[VmcsField::GuestSelector(SegReg::SS)] % 0x1_0000
            &&& after.ds.selector == known[VmcsField::GuestSelector(SegReg::DS)] % 0x1_0000
            &&& after.fs.selector == known[VmcsField::GuestSelector(SegReg::FS)] % 0x1_0000
            &&& after.fs.base == known[VmcsField::GuestBase(SegReg::FS)]
            &&& after.gs.selector == known[VmcsField::GuestSelector(SegReg::GS)] % 0x1_0000
            &&& after.gs.base == known[VmcsField::GuestBase(SegReg::GS)]
            &&& after.tss.selector == known[VmcsField::GuestSelector(SegReg::TR)] % 0x1_0000
            &&& canonical(known[VmcsField::GuestGdtrBase]) ==> after.gdt.base
                == known[VmcsField::GuestGdtrBase]
            &&& after.gdt.base & 0xffff_ffff_ffff == known[VmcsField::GuestGdtrBase]
                & 0xffff_ffff_ffff
            &&& after.gdt.limit == known[VmcsField::GuestGdtrLimit] % 0x1_0000
            &&& canonical(known[VmcsField::GuestIdtrBase]) ==> after.idt.base
                == known[VmcsField::GuestIdtrBase]
            &&& after.idt.base & 0xffff_ffff_ffff == known[VmcsField::GuestIdtrBase]
                & 0xffff_ffff_ffff
            &&& after.idt.limit == known[VmcsField::GuestIdtrLimit] % 0x1_0000
            &&& after.rbx == linux.rbx
            &&& after.rbp == linux.rbp
            &&& after.r12 == linux.r12
            &&& after.r13 == linux.r13
            &&& after.r14 == linux.r14
            &&& after.r15 == linux.r15
            &&& after.efer == linux.efer
            &&& after.star == linux.star
            &&& after.lstar == linux.lstar
            &&& after.cstar == linux.cstar
            &&& after.fmask == linux.fmask
            &&& after.pat == linux.pat
            &&& after.es.base == linux.es.base
            &&& after.es.limit == linux.es.limit
            &&& after.es.access_rights == linux.es.access_rights
            &&& after.cs.base == linux.cs.base
            &&& after.cs.limit == linux.cs.limit
            &&& after.cs.access_rights == linux.cs.access_rights
            &&& after.ss.base == linux.ss.base
            &&& after.ss.limit == linux.ss.limit
            &&& after.ss.access_rights == linux.ss.access_rights
            &&& after.ds.base == linux.ds.base
            &&& after.ds.limit == linux.ds.limit
            &&& after.ds.access_rights == linux.ds.access_rights
            &&& after.tss.base == linux.tss.base
            &&& after.tss.limit == linux.tss.limit
            &&& after.tss.access_rights == linux.tss.access_rights
            &&& after.fs.limit == linux.fs.limit
            &&& after.fs.access_rights == linux.fs.access_rights
            &&& after.gs.limit == linux.gs.limit
            &&& after.gs.access_rights == linux.gs.access_rights
        }),
{
    lemma_all_known(known, load_order());
    virt_addr_keeps_the_low_bits(known[VmcsField::GuestGdtrBase]);
    virt_addr_keeps_the_low_bits(known[VmcsField::GuestIdtrBase]);
    lemma_low_halves();
    lemma_cr4_bits(known[VmcsField::GuestCr4]);
}

/// However far taking the guest's state back has come, what has been read is what Linux has, and
/// what has not been read is as it was.
pub proof fn what_is_read_is_taken_back(linux: LinuxContext, known: Map<VmcsField, u64>, n: int)
    ensures
        ({
            let after = linux_after(linux, known, n);
            &&& n > 0 ==> after.rip == known[VmcsField::GuestRip]
            &&& n <= 0 ==> after.rip == linux.rip
            &&& n > 1 ==> after.rsp == known[VmcsField::GuestRsp]
            &&& n <= 1 ==> after.rsp == linux.rsp
            &&& n > 2 ==> after.cr0 == known[VmcsField::GuestCr0] & 0xe005_003f
            &&& n <= 2 ==> after.cr0 == linux.cr0
            &&& n > 3 ==> after.cr3 == known[VmcsField::GuestCr3]
            &&& n <= 3 ==> after.cr3 == linux.cr3
            &&& n > 4 ==> after.cr4 == known[VmcsField::GuestCr4] & 0x01ff_5fff
            &&& n <= 4 ==> after.cr4 == linux.cr4
            &&& n > 5 ==> after.es.selector == known[VmcsField::GuestSelector(SegReg::ES)]
                % 0x1_0000
            &&& n <= 5 ==> after.es.selector == linux.es.selector
            &&& n > 6 ==> after.cs.selector == known[VmcsField::GuestSelector(SegReg::CS)]
                % 0x1_0000
            &&& n <= 6 ==> after.cs.selector == linux.cs.selector
            &&& n > 7 ==> after.ss.selector == known[VmcsField::GuestSelector(SegReg::SS)]
                % 0x1_0000
            &&& n <= 7 ==> after.ss.selector == linux.ss.selector
            &&& n > 8 ==> after.ds.selector == known[VmcsField::GuestSelector(SegReg::DS)]
                % 0x1_0000
            &&& n <= 8 ==> after.ds.selector == linux.ds.selector
            &&& n > 9 ==> after.fs.selector == known[VmcsField::GuestSelector(SegReg::FS)]
                % 0x1_0000
            &&& n <= 9 ==> after.fs.selector == linux.fs.selector
            &&& n > 10 ==> after.fs.base == known[VmcsField::GuestBase(SegReg::FS)]
            &&& n <= 10 ==> after.fs.base == linux.fs.base
            &&& n > 11 ==> after.gs.selector == known[VmcsField::GuestSelector(SegReg::GS)]
                % 0x1_0000
            &&& n <= 11 ==> after.gs.selector == linux.gs.selector
            &&& n > 12 ==> after.gs.base == known[VmcsField::GuestBase(SegReg::GS)]
            &&& n <= 12 ==> after.gs.base == linux.gs.base
            &&& n > 13 ==> after.tss.selector == known[VmcsField::GuestSelector(SegReg::TR)]
                % 0x1_0000
            &&& n <= 13 ==> after.tss.selector == linux.tss.selector
            &&& n > 14 ==> after.gdt.base == sign_extended(known[VmcsField::GuestGdtrBase])
            &&& n <= 14 ==> after.gdt.base == linux.gdt.base
            &&& n > 15 ==> after.gdt.limit == known[VmcsField::GuestGdtrLimit] % 0x1_0000
            &&& n <= 15 ==> after.gdt.limit == linux.gdt.limit
            &&& n > 16 ==> after.idt.base == sign_extended(known[VmcsField::GuestIdtrBase])
            &&& n <= 16 ==> after.idt.base == linux.idt.base
            &&& n > 17 ==> after.idt.limit == known[VmcsField::GuestIdtrLimit] % 0x1_0000
            &&& n <= 17 ==> after.idt.limit == linux.idt.limit
            &&& after.rbx == linux.rbx
            &&& after.rbp == linux.rbp
            &&& after.r12 == linux.r12
            &&& after.r13 == linux.r13
            &&& after.r14 == linux.r14
            &&& after.r15 == linux.r15
            &&& after.efer == linux.efer
            &&& after.star == linux.star
            &&& after.lstar == linux.lstar
            &&& after.cstar == linux.cstar
            &&& after.fmask == linux.fmask
            &&& after.pat == linux.pat
            &&& after.es.base == linux.es.base
            &&& after.es.limit == linux.es.limit
            &&& after.es.access_rights == linux.es.access_rights
            &&& after.cs.base == linux.cs.base
            &&& after.cs.limit == linux.cs.limit
            &&& after.cs.access_rights == linux.cs.access_rights
            &&& after.ss.base == linux.ss.base
            &&& after.ss.limit == linux.ss.limit
            &&& after.ss.access_rights == linux.ss.access_rights
            &&& after.ds.base == linux.ds.base
            &&& after.ds.limit == linux.ds.limit
            &&& after.ds.access_rights == linux.ds.access_rights
            &&& after.tss.base == linux.tss.base
            &&& after.tss.limit == linux.tss.limit
            &&& after.tss.access_rights == linux.tss.access_rights
            &&& after.fs.limit == linux.fs.limit
            &&& after.fs.access_rights == linux.fs.access_rights
            &&& after.gs.limit == linux.gs.limit
            &&& after.gs.access_rights == linux.gs.access_rights
        }),
{
    lemma_low_halves();
    lemma_cr4_bits(known[VmcsField::GuestCr4]);
}

/// The low half of a word is its remainder.
proof fn lemma_low_halves()
    ensures
        forall|x: u64| #[trigger] (x as u16) == x % 0x1_0000,
        forall|x: u64| #[trigger] (x as u32) == x % 0x1_0000_0000,
{
    assert(forall|x: u64| #[trigger] (x as u16) == x % 0x1_0000) by (bit_vector);
    assert(forall|x: u64| #[trigger] (x as u32) == x % 0x1_0000_0000) by (bit_vector);
}

/// The defined bits of CR4 without VMXE.
proof fn lemma_cr4_bits(cr4: u64)
    ensures
        (cr4 & 0x01ff_7fff) & !0x2000u64 == cr4 & 0x01ff_5fff,
{
    assert((cr4 & 0x01ff_7fffu64) & !0x2000u64 == cr4 & 0x01ff_5fffu64) by (bit_vector);
}

/// The registers of SYSENTER get what the guest had in them, each its own, as far as they have
/// been read.
pub proof fn sysenter_is_given_back(known: Map<VmcsField, u64>, n: int)
    ensures
        ({
            let ops = sysenter_after(known, n);
            &&& n <= 18 ==> ops.len() == 0
            &&& n == 19 ==> ops.len() == 1
            &&& n == 20 ==> ops.len() == 2
            &&& n >= 21 ==> ops.len() == 3
            &&& n >= 19 ==> (ops[0] matches HwOp::WriteMsr(m, v) && m == Msr::IA32_SYSENTER_CS && v
                == known[VmcsField::GuestSysenterCs] % 0x1_0000_0000)
            &&& n >= 20 ==> (ops[1] matches HwOp::WriteMsr(m, v) && m == Msr::IA32_SYSENTER_ESP
                && v == known[VmcsField::GuestSysenterEsp])
            &&& n >= 21 ==> (ops[2] matches HwOp::WriteMsr(m, v) && m == Msr::IA32_SYSENTER_EIP
                && v == known[VmcsField::GuestSysenterEip])
        }),
{
    lemma_low_halves();
}

/// The error of taking the guest's state back is that of the first field, in order, that cannot be
/// read: all before it can.
pub proof fn the_first_fault_is_reported(vmcs: VmcsState)
    requires
        readings_suffice(vmcs),
        fields_read(vmcs.values) < load_order().len(),
    ensures
        exists|i: int|
            0 <= i < load_order().len() && !vmcs.values.dom().contains(#[trigger] load_order()[i])
                && vmcs.faults.dom().contains(load_order()[i]) && first_fault(vmcs)
                == vmcs.faults[load_order()[i]] && forall|j: int|
                0 <= j < i ==> vmcs.values.dom().contains(#[trigger] load_order()[j]),
{
    lemma_known_before_gap_meaning(vmcs.values, load_order());
    let i = fields_read(vmcs.values) as int;
    assert(!vmcs.values.dom().contains(load_order()[i]));
}

/// What is shown of a virtual CPU is what its registers and its VMCS hold.
pub proof fn what_is_shown_is_what_is_held(regs: GeneralRegisters, known: Map<VmcsField, u64>)
    ensures
        ({
            let dump = dump_of(regs, known);
            let mask = known[VmcsField::Cr4GuestHostMask];
            &&& dump.guest_regs == regs
            &&& dump.rip == known[VmcsField::GuestRip]
            &&& dump.rsp == known[VmcsField::GuestRsp]
            &&& dump.rflags == known[VmcsField::GuestRflags]
            &&& dump.cr0 == known[VmcsField::GuestCr0]
            &&& dump.cr3 == known[VmcsField::GuestCr3]
            &&& dump.cs == known[VmcsField::GuestSelector(SegReg::CS)] % 0x1_0000
            &&& dump.tss == known[VmcsField::GuestSelector(SegReg::TR)] % 0x1_0000
            &&& dump.fs_base == known[VmcsField::GuestBase(SegReg::FS)]
            &&& dump.gs_base == known[VmcsField::GuestBase(SegReg::GS)]
            &&& dump.cr4 & mask == known[VmcsField::Cr4ReadShadow] & mask
            &&& dump.cr4 & !mask == known[VmcsField::GuestCr4] & !mask
        }),
{
    lemma_low_halves();
    control_registers_are_read_from(known);
}

/// Linux uses VMX exactly if VMXE is on; the firmware has locked VMX away exactly if it has locked
/// the feature control register without allowing it.
pub proof fn when_vmx_can_be_turned_on(linux: LinuxContext, env: VmxonEnv)
    ensures
        vmx_in_use(linux) <==> linux.cr4 & 0x2000 != 0,
        env.unlocked() <==> env.feature_control & 1 == 0,
        env.locked_out() <==> env.feature_control & 1 != 0 && env.feature_control & 4 == 0,
{
    let (cr4, control) = (linux.cr4, env.feature_control);
    assert((cr4 & 0x2000 == 0x2000 <==> cr4 & 0x2000 != 0) && (control & 1 == 1 <==> control & 1
        != 0) && (control & 4 == 4 <==> control & 4 != 0)) by (bit_vector);
}

/// How VMX is turned on: the counters are stopped where there are any; an unlocked feature control
/// register is locked with VMX allowed and its other bits kept, a locked one is not written; both
/// pages are stamped with the processor's revision; CR0 and CR4 get the hypervisor's flags, VMXE
/// on, OSXSAVE on where the processor has it; last VMX is turned on with its own page.
pub proof fn how_vmx_is_turned_on(env: VmxonEnv, frame: Frame)
    ensures
        ({
            let stop = env.stop_counters();
            if env.features.perf_monitor_version_id == 0 {
                stop.len() == 0
            } else {
                stop.len() == 1 && (stop[0] matches HwOp::WriteMsr(m, v) && m
                    == Msr::IA32_PERF_GLOBAL_CTRL && v == 0)
            }
        }),
        ({
            let allow = env.allow_vmxon();
            if env.feature_control & 1 != 0 {
                allow.len() == 0
            } else {
                allow.len() == 1 && (allow[0] matches HwOp::WriteFeatureControl(v) && v & 5 == 5
                    && v & !5u64 == env.feature_control & !5u64)
            }
        }),
        env.stamp(frame).len() == 1,
        env.stamp(frame)[0] matches HwOp::InitVmxRegion { paddr, revision_id, shadow } && paddr
            == frame.start_paddr && revision_id == env.revision_id && !shadow,
        env.region(frame).paddr == frame.start_paddr,
        env.region(frame).revision_id == env.revision_id,
        !env.region(frame).shadow,
        ({
            let on = env.turn_on();
            &&& on.len() == 3
            &&& on[0] matches HwOp::WriteCr0(v) && v == env.host_cr0
            &&& on[1] matches HwOp::WriteCr4(v) && v & 0x2000 == 0x2000 && (v & 0x4_0000 != 0 <==> (
            env.features.has_xsave || env.host_cr4 & 0x4_0000 != 0)) && v & !0x4_2000u64
                == env.host_cr4 & !0x4_2000u64
            &&& on[2] matches HwOp::VmxOn(paddr) && paddr == env.vmxon_frame->Ok_0.start_paddr
        }),
{
    let (control, cr4) = (env.feature_control, env.host_cr4);
    assert((control & 1 == 1 <==> control & 1 != 0) && (control | 1 | 4) & 5 == 5 && (control | 1
        | 4) & !5u64 == control & !5u64) by (bit_vector);
    assert((cr4 | 0x2000) & 0x2000 == 0x2000 && (cr4 | 0x2000 | 0x4_0000) & 0x2000 == 0x2000 && (
    cr4 | 0x2000 | 0x4_0000) & 0x4_0000 != 0 && ((cr4 | 0x2000) & 0x4_0000 != 0 <==> cr4 & 0x4_0000
        != 0) && (cr4 | 0x2000) & !0x4_2000u64 == cr4 & !0x4_2000u64 && (cr4 | 0x2000 | 0x4_0000)
        & !0x4_2000u64 == cr4 & !0x4_2000u64) by (bit_vector);
}

/// What changes the VMCS alone, or the registers alone, leaves all else of a virtual CPU.
pub proof fn only_one_part_changes(a: Vcpu, b: Vcpu)
    ensures
        a.fields() == a.vmcs_state().values,
        a.same_but_fields(&b) ==> {
            &&& a.general_registers() == b.general_registers()
            &&& a.host_stack() == b.host_stack()
            &&& a.regions() == b.regions()
            &&& a.fixed_bits() == b.fixed_bits()
        },
        a.same_but_registers(&b) ==> {
            &&& a.vmcs_state() == b.vmcs_state()
            &&& a.fields() == b.fields()
            &&& a.host_stack() == b.host_stack()
            &&& a.regions() == b.regions()
            &&& a.fixed_bits() == b.fixed_bits()
        },
{
}

/// Whether the processor decides what a field holds once the controls have been set.
pub open spec fn is_the_processors(field: VmcsField) -> bool {
    field is PinBasedVmExecControl || field is ProcBasedVmExecControl || field
        is SecondaryVmExecControl || field is VmExitControls || field is VmEntryControls || field
        is EptPointer
}

/// Setting the controls sets the counts of swapped registers, the mask of CR4, the CR3 targets and
/// the exception bitmap to zero and the MSR bitmap to the given address, in full; it leaves the
/// five control fields and the nested page table to the processor, and all else as it was.
pub proof fn setting_the_controls_leaves_the_rest(
    before: Map<VmcsField, u64>,
    msr_bitmap: usize,
    f: VmcsField,
)
    ensures
        ({
            let after = with_controls(before, msr_bitmap);
            if f is VmExitMsrStoreCount || f is VmExitMsrLoadCount || f is VmEntryMsrLoadCount || f
                is Cr4GuestHostMask || f is Cr3TargetCount || f is ExceptionBitmap {
                after.dom().contains(f) && after[f] == 0
            } else if f is MsrBitmap {
                after.dom().contains(f) && after[f] == msr_bitmap
            } else if is_the_processors(f) {
                !after.dom().contains(f)
            } else {
                &&& after.dom().contains(f) == before.dom().contains(f)
                &&& before.dom().contains(f) ==> after[f] == before[f]
            }
        }),
{
}

/// The control registers that the guest is set up with are those that setting them to the values
/// of Linux gives, but that no bit of CR4 is masked.
pub proof fn setup_sets_the_control_registers(
    linux: LinuxContext,
    env: VmcsEnv,
    fixed: CrFixedBits,
    any: Map<VmcsField, u64>,
)
    ensures
        ({
            let known = vmcs_content(linux, env, fixed);
            let cr0 = after_set_cr(any, fixed, 0, linux.cr0);
            let cr4 = after_set_cr(any, fixed, 4, linux.cr4);
            &&& known[VmcsField::GuestCr0] == cr0[VmcsField::GuestCr0]
            &&& known[VmcsField::Cr0ReadShadow] == linux.cr0
            &&& known[VmcsField::Cr0GuestHostMask] == cr0[VmcsField::Cr0GuestHostMask]
            &&& known[VmcsField::GuestCr3] == linux.cr3
            &&& known[VmcsField::GuestCr4] == cr4[VmcsField::GuestCr4]
            &&& known[VmcsField::Cr4ReadShadow] == cr4[VmcsField::Cr4ReadShadow]
            &&& known[VmcsField::Cr4GuestHostMask] == 0
        }),
{
}

} // verus!
