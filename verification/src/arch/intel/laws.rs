//! What holds of a VMX guest across several operations.

use vstd::prelude::*;
use crate::arch::context::LinuxContext;
use crate::arch::hw::{HwOp, Msr};
use crate::arch::intel::state::{
    after_set_cr, cr_known, cr_value, dump_known, fields_read, guest_state, host_state,
    known_before_gap, linux_after, load_order, sysenter_after, tables_readable, vmcs_content,
    CrFixedBits, VmcsEnv,
};
use crate::arch::intel::vcpu::vmx_in_use;
use crate::arch::intel::vmcs::{SegReg, VmcsField};
use crate::arch::registers::{
    CR0_CACHE_DISABLE, CR0_DEFINED, CR0_NOT_WRITE_THROUGH, CR0_PAGING, CR0_PROTECTED_MODE_ENABLE,
    CR4_DEFINED, CR4_VIRTUAL_MACHINE_EXTENSIONS,
};

verus! {

/// CR3 reads as what it was set to.
pub proof fn cr3_reads_back(known: Map<VmcsField, u64>, fixed: CrFixedBits, val: u64)
    ensures
        cr_known(after_set_cr(known, fixed, 3, val), 3),
        cr_value(after_set_cr(known, fixed, 3, val), 3) == val,
{
}

/// CR4 reads as what it was set to, with VMXE always on, whatever the processor fixes.
pub proof fn cr4_reads_back(known: Map<VmcsField, u64>, fixed: CrFixedBits, val: u64)
    ensures
        cr_known(after_set_cr(known, fixed, 4, val), 4),
        cr_value(after_set_cr(known, fixed, 4, val), 4) == val | CR4_VIRTUAL_MACHINE_EXTENSIONS,
{
    let f0 = fixed.cr4_fixed0;
    let f1 = fixed.cr4_fixed1;
    let v = val | CR4_VIRTUAL_MACHINE_EXTENSIONS;
    assert((v & (f0 | !f1)) | (((v & f1) | f0) & !(f0 | !f1)) == v) by (bit_vector);
}

/// CR0 reads as what the processor and the hypervisor make of the value that it was set to.
pub proof fn cr0_reads_back(known: Map<VmcsField, u64>, fixed: CrFixedBits, val: u64)
    ensures
        cr_known(after_set_cr(known, fixed, 0, val), 0),
        cr_value(after_set_cr(known, fixed, 0, val), 0) == fixed.guest_cr0(val),
{
}

/// Setting one control register leaves the others as they were.
pub proof fn set_cr_leaves_the_others(
    known: Map<VmcsField, u64>,
    fixed: CrFixedBits,
    set: int,
    other: int,
    val: u64,
)
    requires
        set == 0 || set == 3 || set == 4,
        other == 0 || other == 3 || other == 4,
        set != other,
    ensures
        cr_known(after_set_cr(known, fixed, set, val), other) == cr_known(known, other),
        cr_known(known, other) ==> cr_value(after_set_cr(known, fixed, set, val), other)
            == cr_value(known, other),
{
}

/// In the guest's CR0 every bit that the processor wants set is set, but for PE and PG, which
/// the guest chooses; and every bit that it wants clear is clear, as long as it does not want
/// the same bit set.
pub proof fn guest_cr0_is_allowed(fixed: CrFixedBits, val: u64)
    ensures
        fixed.guest_cr0(val) & fixed.cr0_must1() == fixed.cr0_must1(),
        fixed.guest_cr0(val) & !(fixed.cr0_fixed1 | fixed.cr0_fixed0) == 0,
        fixed.guest_cr0(val) & (CR0_NOT_WRITE_THROUGH | CR0_CACHE_DISABLE) == fixed.cr0_fixed0 & (
        CR0_NOT_WRITE_THROUGH | CR0_CACHE_DISABLE),
        fixed.cr0_fixed1 & CR0_PAGING == CR0_PAGING ==> fixed.guest_cr0(val) & CR0_PAGING == val
            & CR0_PAGING,
        fixed.cr0_fixed1 & CR0_PROTECTED_MODE_ENABLE == CR0_PROTECTED_MODE_ENABLE
            ==> fixed.guest_cr0(val) & CR0_PROTECTED_MODE_ENABLE == val & CR0_PROTECTED_MODE_ENABLE,
{
    let f0 = fixed.cr0_fixed0;
    let f1 = fixed.cr0_fixed1;
    assert(({
        let must1 = f0 & !(0x8000_0000u64 | 0x1u64);
        let must0 = f1 & !(0x2000_0000u64 | 0x4000_0000u64);
        let cr0 = (val & must0) | must1;
        &&& cr0 & must1 == must1
        &&& cr0 & !(f1 | f0) == 0
        &&& cr0 & (0x2000_0000u64 | 0x4000_0000u64) == f0 & (0x2000_0000u64 | 0x4000_0000u64)
        &&& f1 & 0x8000_0000u64 == 0x8000_0000u64 ==> cr0 & 0x8000_0000u64 == val & 0x8000_0000u64
        &&& f1 & 0x1u64 == 0x1u64 ==> cr0 & 0x1u64 == val & 0x1u64
    })) by (bit_vector);
}

/// In the guest's CR4 every bit that the processor wants set is set, and every bit that it
/// wants clear is clear, as long as it does not want the same bit set.
pub proof fn guest_cr4_is_allowed(fixed: CrFixedBits, val: u64)
    ensures
        fixed.guest_cr4(val) & fixed.cr4_fixed0 == fixed.cr4_fixed0,
        fixed.guest_cr4(val) & !(fixed.cr4_fixed1 | fixed.cr4_fixed0) == 0,
{
    let f0 = fixed.cr4_fixed0;
    let f1 = fixed.cr4_fixed1;
    let v = val | CR4_VIRTUAL_MACHINE_EXTENSIONS;
    assert(((v & f1) | f0) & f0 == f0) by (bit_vector);
    assert(((v & f1) | f0) & !(f1 | f0) == 0) by (bit_vector);
}

/// Once the VMCS is set up, everything that the hypervisor reads of the guest can be read.
pub proof fn setup_makes_the_guest_readable(linux: LinuxContext, env: VmcsEnv, fixed: CrFixedBits)
    requires
        linux.wf(),
    ensures
        fields_read(vmcs_content(linux, env, fixed)) == load_order().len(),
        tables_readable(vmcs_content(linux, env, fixed)),
        dump_known(vmcs_content(linux, env, fixed)),
        vmcs_content(linux, env, fixed).dom().contains(VmcsField::GuestArBytes(SegReg::CS)),
{
    let known = vmcs_content(linux, env, fixed);
    assert forall|i: int| 0 <= i < load_order().len() implies known.dom().contains(
        #[trigger] load_order()[i],
    ) by {}
    lemma_all_known(known, load_order());
}

/// Once the VMCS is set up, the guest has CR3 of Linux, and CR0 and CR4 are what the processor
/// and the hypervisor make of those of Linux; no bit of CR4 is kept from the guest.
pub proof fn setup_gives_the_guest_the_control_registers(
    linux: LinuxContext,
    env: VmcsEnv,
    fixed: CrFixedBits,
)
    ensures
        cr_value(vmcs_content(linux, env, fixed), 0) == fixed.guest_cr0(linux.cr0),
        cr_value(vmcs_content(linux, env, fixed), 3) == linux.cr3,
        cr_value(vmcs_content(linux, env, fixed), 4) == fixed.guest_cr4(linux.cr4),
{
    let shadow = fixed.cr4_shadow(linux.cr4);
    let cr4 = fixed.guest_cr4(linux.cr4);
    assert((shadow & 0) | (cr4 & !0u64) == cr4) by (bit_vector);
}

/// Where every field of a list is known, the count is the length of the list.
pub proof fn lemma_all_known(known: Map<VmcsField, u64>, order: Seq<VmcsField>)
    requires
        forall|i: int| 0 <= i < order.len() ==> known.dom().contains(#[trigger] order[i]),
    ensures
        known_before_gap(known, order) == order.len(),
    decreases order.len(),
{
    if order.len() > 0 {
        assert forall|i: int| 0 <= i < order.skip(1).len() implies known.dom().contains(
            #[trigger] order.skip(1)[i],
        ) by {
            assert(order.skip(1)[i] == order[i + 1]);
        }
        lemma_all_known(known, order.skip(1));
    }
}

/// A guest that is set up and left at once gives Linux back everything but what the processor
/// made of CR0 and CR4; VMXE is off again, and the registers of SYSENTER are given back.
pub proof fn leaving_gives_linux_back(linux: LinuxContext, env: VmcsEnv, fixed: CrFixedBits)
    requires
        linux.wf(),
    ensures
        linux_after(
            linux,
            vmcs_content(linux, env, fixed),
            load_order().len() as int,
        ) == (LinuxContext {
            cr0: fixed.guest_cr0(linux.cr0) & CR0_DEFINED,
            cr4: (fixed.guest_cr4(linux.cr4) & CR4_DEFINED) & !CR4_VIRTUAL_MACHINE_EXTENSIONS,
            ..linux
        }),
        sysenter_after(vmcs_content(linux, env, fixed), load_order().len() as int) == seq![
            HwOp::WriteMsr(Msr::IA32_SYSENTER_CS, env.sysenter.cs as u32 as u64),
            HwOp::WriteMsr(Msr::IA32_SYSENTER_ESP, env.sysenter.esp),
            HwOp::WriteMsr(Msr::IA32_SYSENTER_EIP, env.sysenter.eip),
        ],
{
    assert(forall|x: u16| #[trigger] (x as u64) as u16 == x) by (bit_vector);
    let cs = env.sysenter.cs;
    assert(((cs as u32) as u64) as u32 as u64 == cs as u32 as u64) by (bit_vector);
}

/// Whether the values of CR0 and CR4 that Linux runs with are ones that the guest can run with
/// unchanged.
pub open spec fn guest_can_keep(linux: LinuxContext, fixed: CrFixedBits) -> bool {
    &&& linux.cr0 & CR0_DEFINED == linux.cr0
    &&& linux.cr4 & CR4_DEFINED == linux.cr4
    &&& fixed.guest_cr0(linux.cr0) == linux.cr0
    &&& fixed.guest_cr4(linux.cr4) == linux.cr4 | CR4_VIRTUAL_MACHINE_EXTENSIONS
}

/// Where the processor lets the guest run with the control registers of Linux, and Linux does
/// not use VMX itself, a guest that is set up and left at once gives Linux back exactly as it
/// was.
pub proof fn leaving_undoes_entering(linux: LinuxContext, env: VmcsEnv, fixed: CrFixedBits)
    requires
        linux.wf(),
        !vmx_in_use(linux),
        guest_can_keep(linux, fixed),
    ensures
        linux_after(linux, vmcs_content(linux, env, fixed), load_order().len() as int) == linux,
{
    leaving_gives_linux_back(linux, env, fixed);
    let cr4 = linux.cr4;
    assert(cr4 & 0x2000u64 != 0x2000u64 && cr4 & 0x01ff_7fffu64 == cr4 ==> ((cr4 | 0x2000u64)
        & 0x01ff_7fffu64) & !0x2000u64 == cr4) by (bit_vector);
}

/// Setting the guest state up leaves the host state alone, and the other way round.
pub proof fn host_and_guest_state_are_apart(
    linux: LinuxContext,
    env: VmcsEnv,
    fixed: CrFixedBits,
)
    ensures
        host_state(env.host).dom().disjoint(guest_state(linux, env.sysenter, fixed).dom()),
{
}

} // verus!
