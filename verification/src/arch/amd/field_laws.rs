//! What an SVM guest is set up with and what is taken back of it, field by field.

use vstd::prelude::*;
use crate::arch::amd::vcpu::{
    after_set_cr, controls_guest, cr_value, guest_intercepts, guest_save, linux_after, SvmEnv,
    SvmExitEnv, SvmMsrs,
};
use crate::arch::amd::vmcb::{
    SvmIntercept, VmcbControl, VmcbSave, VmcbSegment, VmcbTlbControl,
};
use crate::arch::context::{svm_attributes_are_the_defined_bits, LinuxContext};
use crate::arch::hw::{HwOp, Msr};
use crate::arch::registers::{canonical, virt_addr_keeps_the_low_bits};

verus! {

/// Every segment register of the guest has the selector, the base and the limit of the register of
/// the same name of Linux, and bits 0 to 7 and 12 to 15 of that very register's access rights;
/// the guest has no local descriptor table.
pub proof fn the_guest_has_the_segments_of_linux(
    linux: LinuxContext,
    msrs: SvmMsrs,
    before: VmcbSave,
)
    ensures
        ({
            let save = guest_save(linux, msrs, before);
            &&& save.es.selector == linux.es.selector
            &&& save.es.base == linux.es.base
            &&& save.es.limit == linux.es.limit
            &&& save.es.attr % 0x100 == linux.es.access_rights.bits & 0xff
            &&& save.es.attr / 0x100 == (linux.es.access_rights.bits >> 12) & 0xf
            &&& save.cs.selector == linux.cs.selector
            &&& save.cs.base == linux.cs.base
            &&& save.cs.limit == linux.cs.limit
            &&& save.cs.attr % 0x100 == linux.cs.access_rights.bits & 0xff
            &&& save.cs.attr / 0x100 == (linux.cs.access_rights.bits >> 12) & 0xf
            &&& save.ss.selector == linux.ss.selector
            &&& save.ss.base == linux.ss.base
            &&& save.ss.limit == linux.ss.limit
            &&& save.ss.attr % 0x100 == linux.ss.access_rights.bits & 0xff
            &&& save.ss.attr / 0x100 == (linux.ss.access_rights.bits >> 12) & 0xf
            &&& save.ds.selector == linux.ds.selector
            &&& save.ds.base == linux.ds.base
            &&& save.ds.limit == linux.ds.limit
            &&& save.ds.attr % 0x100 == linux.ds.access_rights.bits & 0xff
            &&& save.ds.attr / 0x100 == (linux.ds.access_rights.bits >> 12) & 0xf
            &&& save.fs.selector == linux.fs.selector
            &&& save.fs.base == linux.fs.base
            &&& save.fs.limit == linux.fs.limit
            &&& save.fs.attr % 0x100 == linux.fs.access_rights.bits & 0xff
            &&& save.fs.attr / 0x100 == (linux.fs.access_rights.bits >> 12) & 0xf
            &&& save.gs.selector == linux.gs.selector
            &&& save.gs.base == linux.gs.base
            &&& save.gs.limit == linux.gs.limit
            &&& save.gs.attr % 0x100 == linux.gs.access_rights.bits & 0xff
            &&& save.gs.attr / 0x100 == (linux.gs.access_rights.bits >> 12) & 0xf
            &&& save.tr.selector == linux.tss.selector
            &&& save.tr.base == linux.tss.base
            &&& save.tr.limit == linux.tss.limit
            &&& save.tr.attr % 0x100 == linux.tss.access_rights.bits & 0xff
            &&& save.tr.attr / 0x100 == (linux.tss.access_rights.bits >> 12) & 0xf
            &&& save.ldtr.selector == 0 && save.ldtr.base == 0 && save.ldtr.limit == 0
            &&& save.ldtr.attr == 0
        }),
{
    svm_attributes_are_the_defined_bits(linux.es.access_rights);
    svm_attributes_are_the_defined_bits(linux.cs.access_rights);
    svm_attributes_are_the_defined_bits(linux.ss.access_rights);
    svm_attributes_are_the_defined_bits(linux.ds.access_rights);
    svm_attributes_are_the_defined_bits(linux.fs.access_rights);
    svm_attributes_are_the_defined_bits(linux.gs.access_rights);
    svm_attributes_are_the_defined_bits(linux.tss.access_rights);
}

/// The guest goes on where Linux called the hypervisor, at the highest privilege, with the
/// registers of Linux each in its own place; NW is off and SVME is on, the other bits of CR0 and
/// EFER are those of Linux.
pub proof fn the_guest_goes_on_where_linux_called(
    linux: LinuxContext,
    msrs: SvmMsrs,
    before: VmcbSave,
)
    ensures
        ({
            let save = guest_save(linux, msrs, before);
            &&& save.gdtr.base == linux.gdt.base
            &&& save.gdtr.limit == linux.gdt.limit
            &&& save.idtr.base == linux.idt.base
            &&& save.idtr.limit == linux.idt.limit
            &&& save.gdtr.selector == before.gdtr.selector && save.gdtr.attr == before.gdtr.attr
            &&& save.idtr.selector == before.idtr.selector && save.idtr.attr == before.idtr.attr
            &&& save.cpl == 0
            &&& save.rflags == 0x2
            &&& save.rip == linux.rip
            &&& save.rsp == linux.rsp
            &&& save.rax == 0
            &&& save.cr3 == linux.cr3
            &&& save.cr4 == linux.cr4
            &&& save.star == linux.star
            &&& save.lstar == linux.lstar
            &&& save.cstar == linux.cstar
            &&& save.sfmask == linux.fmask
            &&& save.g_pat == linux.pat
            &&& save.kernel_gs_base == msrs.kernel_gs_base
            &&& save.sysenter_cs == msrs.sysenter_cs
            &&& save.sysenter_esp == msrs.sysenter_esp
            &&& save.sysenter_eip == msrs.sysenter_eip
            &&& save.dr7 == 0x400
            &&& save.dr6 == 0xffff_0ff0
            &&& save.cr0 & 0x2000_0000 == 0
            &&& save.cr0 & 0xffff_ffff_dfff_ffff == linux.cr0 & 0xffff_ffff_dfff_ffff
            &&& save.efer & 0x1000 == 0x1000
            &&& save.efer & 0xffff_ffff_ffff_efff == linux.efer & 0xffff_ffff_ffff_efff
        }),
{
    let (cr0, efer) = (linux.cr0, linux.efer);
    assert((cr0 & !0x2000_0000u64) & 0x2000_0000 == 0 && (cr0 & !0x2000_0000u64)
        & 0xffff_ffff_dfff_ffff == cr0 & 0xffff_ffff_dfff_ffff && (efer | 0x1000) & 0x1000 == 0x1000
        && (efer | 0x1000) & 0xffff_ffff_ffff_efff == efer & 0xffff_ffff_ffff_efff)
        by (bit_vector);
}

/// A control block starts clear.
pub proof fn a_control_block_starts_clear()
    ensures
        ({
            let save = VmcbSave::zero();
            let none = VmcbSegment { selector: 0, attr: 0, limit: 0, base: 0 };
            &&& save.es == none
            &&& save.cs == none
            &&& save.ss == none
            &&& save.ds == none
            &&& save.fs == none
            &&& save.gs == none
            &&& save.gdtr == none
            &&& save.ldtr == none
            &&& save.idtr == none
            &&& save.tr == none
            &&& save.cpl == 0
            &&& save.efer == 0
            &&& save.dr7 == 0
            &&& save.dr6 == 0
            &&& save.rflags == 0
            &&& save.rip == 0
            &&& save.rsp == 0
            &&& save.rax == 0
            &&& save.star == 0
            &&& save.lstar == 0
            &&& save.cstar == 0
            &&& save.sfmask == 0
            &&& save.kernel_gs_base == 0
            &&& save.sysenter_cs == 0
            &&& save.sysenter_esp == 0
            &&& save.sysenter_eip == 0
            &&& save.g_pat == 0
            &&& save.cr0 == 0
            &&& save.cr3 == 0
            &&& save.cr4 == 0
        }),
{
}

/// The guest is controlled as it must be: it exits on all ten events in addition to those that it
/// exited on before, its memory is that of the cell, by the address of the whole table, and
/// nothing stale of it is used.
pub proof fn the_guest_is_controlled(control: VmcbControl, gpm_root: usize, before: VmcbControl)
    requires
        controls_guest(control, gpm_root, before),
    ensures
        control.np_enable == 1,
        control.nest_cr3 == gpm_root,
        control.guest_asid == 1,
        control.clean_bits == 0,
        control.intercept_exceptions == 0,
        control.tlb_control is FlushAsid,
        control.exit_code == before.exit_code,
        control.event == before.event,
        forall|i: SvmIntercept| before.intercepts@.contains(i) ==> control.intercepts@.contains(i),
        forall|i: SvmIntercept| #[trigger] control.intercepts@.contains(i),
        guest_intercepts().contains(SvmIntercept::NMI),
        guest_intercepts().contains(SvmIntercept::CPUID),
        guest_intercepts().contains(SvmIntercept::SHUTDOWN),
        guest_intercepts().contains(SvmIntercept::VMRUN),
        guest_intercepts().contains(SvmIntercept::VMMCALL),
        guest_intercepts().contains(SvmIntercept::VMLOAD),
        guest_intercepts().contains(SvmIntercept::VMSAVE),
        guest_intercepts().contains(SvmIntercept::STGI),
        guest_intercepts().contains(SvmIntercept::CLGI),
        guest_intercepts().contains(SvmIntercept::SKINIT),
{
    assert forall|i: SvmIntercept| #[trigger] control.intercepts@.contains(i) by {
        assert(guest_intercepts().contains(i));
    }
}

/// Wherever Linux was before, once the guest's state has been taken back it goes on where the guest
/// is, with the guest's control registers, segments and descriptor tables and with SVME off;
/// everything else is as Linux left it.
pub proof fn linux_goes_on_where_the_guest_is(linux: LinuxContext, save: VmcbSave, env: SvmExitEnv)
    ensures
        ({
            let after = linux_after(linux, save, env);
            &&& after.rip == save.rip
            &&& after.rsp == save.rsp
            &&& after.cr0 == save.cr0 & 0xe005_003f
            &&& after.cr3 == save.cr3
            &&& after.cr4 == save.cr4 & 0x01ff_7fff
            &&& after.efer == save.efer & 0xffff_ffff_ffff_efff
            &&& after.es.selector == save.es.selector
            &&& after.cs.selector == save.cs.selector
            &&& after.ss.selector == save.ss.selector
            &&& after.ds.selector == save.ds.selector
            &&& after.fs.selector == env.fs_selector
            &&& after.fs.base == env.fs_base
            &&& after.gs.selector == env.gs_selector
            &&& after.gs.base == save.gs.base
            &&& after.tss.selector == env.tr_selector
            &&& after.gdt.limit == save.gdtr.limit % 0x1_0000
            &&& after.idt.limit == save.idtr.limit % 0x1_0000
            &&& after.rbx == linux.rbx
            &&& after.rbp == linux.rbp
            &&& after.r12 == linux.r12
            &&& after.r13 == linux.r13
            &&& after.r14 == linux.r14
            &&& after.r15 == linux.r15
            &&& after.star == linux.star
            &&& after.lstar == linux.lstar
            &&& after.cstar == linux.cstar
            &&& after.fmask == linux.fmask
            &&& after.pat == linux.pat
            &&& after.es.base == linux.es.base
            &&& after.es.limit == linux.es.limit
            &&& after.es.access_rights == linux.es.access_rights
            &&& after.cs.base == linux.cs.base
            &&& after.cs.limit == linux.cs.limit
            &&& after.cs.access_rights == linux.cs.access_rights
            &&& after.ss.base == linux.ss.base
            &&& after.ss.limit == linux.ss.limit
            &&& after.ss.access_rights == linux.ss.access_rights
            &&& after.ds.base == linux.ds.base
            &&& after.ds.limit == linux.ds.limit
            &&& after.ds.access_rights == linux.ds.access_rights
            &&& after.tss.base == linux.tss.base
            &&& after.tss.limit == linux.tss.limit
            &&& after.tss.access_rights == linux.tss.access_rights
            &&& after.fs.limit == linux.fs.limit
            &&& after.fs.access_rights == linux.fs.access_rights
            &&& after.gs.limit == linux.gs.limit
            &&& after.gs.access_rights == linux.gs.access_rights
            &&& canonical(save.gdtr.base) ==> after.gdt.base == save.gdtr.base
            &&& after.gdt.base & 0xffff_ffff_ffff == save.gdtr.base & 0xffff_ffff_ffff
            &&& canonical(save.idtr.base) ==> after.idt.base == save.idtr.base
            &&& after.idt.base & 0xffff_ffff_ffff == save.idtr.base & 0xffff_ffff_ffff
        }),
{
    virt_addr_keeps_the_low_bits(save.gdtr.base);
    virt_addr_keeps_the_low_bits(save.idtr.base);
    let efer = save.efer;
    assert(efer & !0x1000u64 == efer & 0xffff_ffff_ffff_efff) by (bit_vector);
    assert(forall|x: u32| #[trigger] (x as u16) == x % 0x1_0000) by (bit_vector);
}

/// Setting a control register sets that one, with NW off in CR0, and nothing else.
pub proof fn setting_a_control_register_sets_it_alone(save: VmcbSave, cr_idx: int, val: u64)
    requires
        cr_idx == 0 || cr_idx == 3 || cr_idx == 4,
    ensures
        ({
            let after = after_set_cr(save, cr_idx, val);
            &&& cr_idx == 0 ==> after.cr0 & 0x2000_0000 == 0 && after.cr0 & 0xffff_ffff_dfff_ffff
                == val & 0xffff_ffff_dfff_ffff && after.cr3 == save.cr3 && after.cr4 == save.cr4
            &&& cr_idx == 3 ==> after.cr3 == val && after.cr0 == save.cr0 && after.cr4 == save.cr4
            &&& cr_idx == 4 ==> after.cr4 == val && after.cr0 == save.cr0 && after.cr3 == save.cr3
            &&& after.es == save.es
            &&& after.cs == save.cs
            &&& after.ss == save.ss
            &&& after.ds == save.ds
            &&& after.fs == save.fs
            &&& after.gs == save.gs
            &&& after.gdtr == save.gdtr
            &&& after.ldtr == save.ldtr
            &&& after.idtr == save.idtr
            &&& after.tr == save.tr
            &&& after.cpl == save.cpl
            &&& after.efer == save.efer
            &&& after.dr7 == save.dr7
            &&& after.dr6 == save.dr6
            &&& after.rflags == save.rflags
            &&& after.rip == save.rip
            &&& after.rsp == save.rsp
            &&& after.rax == save.rax
            &&& after.star == save.star
            &&& after.lstar == save.lstar
            &&& after.cstar == save.cstar
            &&& after.sfmask == save.sfmask
            &&& after.kernel_gs_base == save.kernel_gs_base
            &&& after.sysenter_cs == save.sysenter_cs
            &&& after.sysenter_esp == save.sysenter_esp
            &&& after.sysenter_eip == save.sysenter_eip
            &&& after.g_pat == save.g_pat
        }),
        cr_value(save, 0) == save.cr0,
        cr_value(save, 3) == save.cr3,
        cr_value(save, 4) == save.cr4,
{
    assert((val & !0x2000_0000u64) & 0x2000_0000 == 0 && (val & !0x2000_0000u64)
        & 0xffff_ffff_dfff_ffff == val & 0xffff_ffff_dfff_ffff) by (bit_vector);
}

/// Whether an event selector is another one with its counter stopped and all else kept.
pub open spec fn stopped(before: u64, after: u64) -> bool {
    &&& after & 0x40_0000 == 0
    &&& after & 0xffff_ffff_ffbf_ffff == before & 0xffff_ffff_ffbf_ffff
}

/// How SVM is turned on: each performance counter is stopped by its own selector; it is in use
/// exactly if SVME is on; turning it on sets SVME and keeps the rest of EFER, gives the processor
/// the page for the hypervisor's state, and sets CR0 and CR4 to the hypervisor's flags.
pub proof fn how_svm_is_turned_on(env: SvmEnv)
    ensures
        ({
            let ops = env.stop_counters();
            &&& ops.len() == 6
            &&& ops[0] matches HwOp::WriteMsr(m, v) && m == Msr::PERF_EVT_SEL0 && stopped(
                env.perf_evt_sel@[0],
                v,
            )
            &&& ops[1] matches HwOp::WriteMsr(m, v) && m == Msr::PERF_EVT_SEL1 && stopped(
                env.perf_evt_sel@[1],
                v,
            )
            &&& ops[2] matches HwOp::WriteMsr(m, v) && m == Msr::PERF_EVT_SEL2 && stopped(
                env.perf_evt_sel@[2],
                v,
            )
            &&& ops[3] matches HwOp::WriteMsr(m, v) && m == Msr::PERF_EVT_SEL3 && stopped(
                env.perf_evt_sel@[3],
                v,
            )
            &&& ops[4] matches HwOp::WriteMsr(m, v) && m == Msr::PERF_EVT_SEL4 && stopped(
                env.perf_evt_sel@[4],
                v,
            )
            &&& ops[5] matches HwOp::WriteMsr(m, v) && m == Msr::PERF_EVT_SEL5 && stopped(
                env.perf_evt_sel@[5],
                v,
            )
        }),
        env.svm_in_use() <==> env.efer & 0x1000 != 0,
        ({
            let on = env.turn_on();
            &&& on.len() == 4
            &&& on[0] matches HwOp::WriteEfer(v) && v & 0x1000 == 0x1000 && v
                & 0xffff_ffff_ffff_efff == env.efer & 0xffff_ffff_ffff_efff
            &&& on[1] matches HwOp::WriteMsr(m, v) && m == Msr::VM_HSAVE_PA && v
                == env.host_save_area->Ok_0.start_paddr
            &&& on[2] matches HwOp::WriteCr0(v) && v == env.host_cr0
            &&& on[3] matches HwOp::WriteCr4(v) && v == env.host_cr4
        }),
{
    let efer = env.efer;
    assert((efer & 0x1000 == 0x1000 <==> efer & 0x1000 != 0) && (efer | 0x1000) & 0x1000 == 0x1000
        && (efer | 0x1000) & 0xffff_ffff_ffff_efff == efer & 0xffff_ffff_ffff_efff)
        by (bit_vector);
    assert(forall|x: u64|
        (#[trigger] (x & !0x40_0000u64)) & 0x40_0000 == 0 && (x & !0x40_0000u64)
            & 0xffff_ffff_ffbf_ffff == x & 0xffff_ffff_ffbf_ffff) by (bit_vector);
}

} // verus!
