//! What holds of an SVM guest across several operations.

use vstd::prelude::*;
use crate::arch::amd::vcpu::{
    after_set_cr, cr_value, guest_save, linux_after, tables_readable, SvmExitEnv, SvmMsrs,
};
use crate::arch::amd::vmcb::VmcbSave;
use crate::arch::context::{LinuxContext, Segment};
use crate::arch::registers::{
    CR0_DEFINED, CR0_NOT_WRITE_THROUGH, CR4_DEFINED, EFER_SECURE_VIRTUAL_MACHINE_ENABLE,
};

verus! {

/// A control register reads as what it was set to, but for NW, which reads as clear in CR0.
pub proof fn cr_reads_back(save: VmcbSave, cr_idx: int, val: u64)
    requires
        cr_idx == 0 || cr_idx == 3 || cr_idx == 4,
    ensures
        cr_value(after_set_cr(save, cr_idx, val), cr_idx) == (if cr_idx == 0 {
            val & !CR0_NOT_WRITE_THROUGH
        } else {
            val
        }),
{
}

/// Setting one control register leaves the others as they were.
pub proof fn set_cr_leaves_the_others(save: VmcbSave, set: int, other: int, val: u64)
    requires
        set == 0 || set == 3 || set == 4,
        other == 0 || other == 3 || other == 4,
        set != other,
    ensures
        cr_value(after_set_cr(save, set, val), other) == cr_value(save, other),
{
}

/// A guest always runs with SVM on, and Linux never gets it back on.
pub proof fn svm_is_on_in_the_guest_alone(
    linux: LinuxContext,
    msrs: SvmMsrs,
    before: VmcbSave,
    save: VmcbSave,
    env: SvmExitEnv,
)
    ensures
        guest_save(linux, msrs, before).efer & EFER_SECURE_VIRTUAL_MACHINE_ENABLE
            == EFER_SECURE_VIRTUAL_MACHINE_ENABLE,
        linux_after(linux, save, env).efer & EFER_SECURE_VIRTUAL_MACHINE_ENABLE == 0,
{
    let a = linux.efer;
    let b = save.efer;
    assert((a | 0x1000u64) & 0x1000u64 == 0x1000u64) by (bit_vector);
    assert((b & !0x1000u64) & 0x1000u64 == 0) by (bit_vector);
}

/// A guest that is set up and left at once gives Linux back everything but what is undefined
/// or kept off in CR0 and CR4, SVME, and the registers that stay in the processor, which are
/// taken from there.
pub proof fn leaving_gives_linux_back(
    linux: LinuxContext,
    msrs: SvmMsrs,
    before: VmcbSave,
    env: SvmExitEnv,
)
    requires
        linux.wf(),
    ensures
        tables_readable(guest_save(linux, msrs, before)),
        linux_after(linux, guest_save(linux, msrs, before), env) == (LinuxContext {
            cr0: (linux.cr0 & !CR0_NOT_WRITE_THROUGH) & CR0_DEFINED,
            cr4: linux.cr4 & CR4_DEFINED,
            efer: linux.efer & !EFER_SECURE_VIRTUAL_MACHINE_ENABLE,
            fs: Segment { selector: env.fs_selector, base: env.fs_base, ..linux.fs },
            gs: Segment { selector: env.gs_selector, ..linux.gs },
            tss: Segment { selector: env.tr_selector, ..linux.tss },
            ..linux
        }),
{
    let efer = linux.efer;
    assert((efer | 0x1000u64) & !0x1000u64 == efer & !0x1000u64) by (bit_vector);
    assert(forall|x: u16| #[trigger] (x as u32) as u16 == x) by (bit_vector);
}

/// Where Linux runs with defined bits of CR0 and CR4 alone, with NW and SVME off, and the
/// registers that stay in the processor are those of Linux, a guest that is set up and left at
/// once gives Linux back exactly as it was.
pub proof fn leaving_undoes_entering(
    linux: LinuxContext,
    msrs: SvmMsrs,
    before: VmcbSave,
    env: SvmExitEnv,
)
    requires
        linux.wf(),
        linux.cr0 & CR0_DEFINED == linux.cr0,
        linux.cr0 & CR0_NOT_WRITE_THROUGH == 0,
        linux.cr4 & CR4_DEFINED == linux.cr4,
        linux.efer & EFER_SECURE_VIRTUAL_MACHINE_ENABLE == 0,
        env.fs_selector == linux.fs.selector,
        env.fs_base == linux.fs.base,
        env.gs_selector == linux.gs.selector,
        env.tr_selector == linux.tss.selector,
    ensures
        linux_after(linux, guest_save(linux, msrs, before), env) == linux,
{
    leaving_gives_linux_back(linux, msrs, before, env);
    let cr0 = linux.cr0;
    let efer = linux.efer;
    assert(cr0 & 0x2000_0000u64 == 0 && cr0 & 0xe005_003fu64 == cr0 ==> (cr0 & !0x2000_0000u64)
        & 0xe005_003fu64 == cr0) by (bit_vector);
    assert(efer & 0x1000u64 == 0 ==> efer & !0x1000u64 == efer) by (bit_vector);
}

} // verus!
