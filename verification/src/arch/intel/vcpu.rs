//! A virtual CPU on Intel VMX.

use vstd::prelude::*;
use crate::arch::context::{
    GeneralRegisters, LinuxContext, Segment, SegmentAccessRights, GENERAL_PROTECTION_FAULT,
};
use crate::arch::hw::{
    lemma_queued, lemma_queues_nothing, lemma_queues_op, lemma_vmcs_after_concat, vmcs_after,
    vmcs_after_all, ControlRequest, HwOp, HwQueue, Msr,
};
use crate::arch::intel::controls::{
    control_ops, secondary_controls, with_controls, CpuFeatures, VmxCapabilities,
    ENTRY_IA32E_MODE, ENTRY_LOAD_IA32_EFER, ENTRY_LOAD_IA32_PAT, EXIT_HOST_ADDR_SPACE_SIZE,
    EXIT_LOAD_IA32_EFER, EXIT_LOAD_IA32_PAT, EXIT_SAVE_IA32_EFER, EXIT_SAVE_IA32_PAT,
    FEATURE_LOCKED, FEATURE_VMXON_ENABLED_OUTSIDE_SMX, PIN_NMI_EXITING, PRIMARY_CR3_LOAD_EXITING,
    PRIMARY_CR3_STORE_EXITING, PRIMARY_SEC_CONTROLS, PRIMARY_USE_MSR_BITMAPS, SECONDARY_EPT,
    SECONDARY_INVPCID, SECONDARY_RDTSCP, SECONDARY_UNRESTRICTED_GUEST, SECONDARY_XSAVES,
};
use crate::arch::intel::state::{
    after_set_cr, cr_known, cr_value, dump_known, dump_of, fields_read, first_fault, guest_ops,
    guest_registers, guest_segments, guest_state, host_ops, host_state,
    lemma_known_before_gap_meaning, linux_after, load_order, readings_suffice, register_ops,
    segment_ops, segments_ops, set_cr_ops, setup_ops, sysenter_after,
    tables_readable, vmcs_content, CrFixedBits, HostState, SysenterMsrs, VcpuDump, VmcsEnv,
};
use crate::arch::intel::vmcs::{told_by, SegReg, Vmcs, VmcsField, VmcsState};
use crate::arch::registers::{
    cr0_truncated, cr4_truncated, virt_addr, CR0_CACHE_DISABLE, CR0_NOT_WRITE_THROUGH, CR0_PAGING,
    CR0_PROTECTED_MODE_ENABLE, CR4_OSXSAVE, CR4_VIRTUAL_MACHINE_EXTENSIONS,
};
use crate::cell::Cell;
use crate::error::{HvError, HvErrorNum, HvResult};
use crate::memory::{align_down, page_of, Frame, GuestPageTableImmut};

verus! {

/// A page that the processor uses for VMX.
#[derive(Debug, PartialEq, Eq, Structural)]
pub struct VmxRegion {
    pub paddr: usize,
    pub revision_id: u32,
    pub shadow: bool,
}

/// What turning VMX on starts from.
#[derive(Debug)]
pub struct VmxonEnv {
    /// Whether the processor has what the hypervisor needs.
    pub feature: HvResult<()>,
    pub features: CpuFeatures,
    /// The flags of the feature control register.
    pub feature_control: u64,
    /// The revision that VMX regions are stamped with.
    pub revision_id: u32,
    /// A page for VMX operation, if there was one.
    pub vmxon_frame: HvResult<Frame>,
    /// A page for the VMCS, if there was one.
    pub vmcs_frame: HvResult<Frame>,
    /// The flags of CR0 that the hypervisor runs with.
    pub host_cr0: u64,
    /// The flags of CR4 that the hypervisor runs with, but for those that VMX needs.
    pub host_cr4: u64,
    /// The top of the stack of this CPU.
    pub stack_top: usize,
    pub fixed: CrFixedBits,
}

/// Whether Linux uses VMX itself.
pub open spec fn vmx_in_use(linux: LinuxContext) -> bool {
    linux.cr4 & CR4_VIRTUAL_MACHINE_EXTENSIONS == CR4_VIRTUAL_MACHINE_EXTENSIONS
}

impl VmxonEnv {
    /// Whether the feature control register can still be written.
    pub open spec fn unlocked(self) -> bool {
        self.feature_control & FEATURE_LOCKED != FEATURE_LOCKED
    }

    /// Whether the firmware has locked VMX away.
    pub open spec fn locked_out(self) -> bool {
        &&& !self.unlocked()
        &&& self.feature_control & FEATURE_VMXON_ENABLED_OUTSIDE_SMX
            != FEATURE_VMXON_ENABLED_OUTSIDE_SMX
    }

    /// The performance counters are stopped, where there are any.
    pub open spec fn stop_counters(self) -> Seq<HwOp> {
        if self.features.perf_monitor_version_id > 0 {
            seq![HwOp::WriteMsr(Msr::IA32_PERF_GLOBAL_CTRL, 0)]
        } else {
            Seq::empty()
        }
    }

    /// VMX is allowed and the feature control register is locked, where it is not yet.
    pub open spec fn allow_vmxon(self) -> Seq<HwOp> {
        if self.unlocked() {
            seq![
                HwOp::WriteFeatureControl(
                    self.feature_control | FEATURE_LOCKED | FEATURE_VMXON_ENABLED_OUTSIDE_SMX,
                ),
            ]
        } else {
            Seq::empty()
        }
    }

    /// The page is stamped as a VMX region.
    pub open spec fn stamp(self, frame: Frame) -> Seq<HwOp> {
        seq![
            HwOp::InitVmxRegion {
                paddr: frame.start_paddr,
                revision_id: self.revision_id,
                shadow: false,
            },
        ]
    }

    /// The VMX region that a page is made.
    pub open spec fn region(self, frame: Frame) -> VmxRegion {
        VmxRegion { paddr: frame.start_paddr, revision_id: self.revision_id, shadow: false }
    }

    /// The flags of CR4 that the hypervisor runs with.
    pub open spec fn vmx_cr4(self) -> u64 {
        let cr4 = self.host_cr4 | CR4_VIRTUAL_MACHINE_EXTENSIONS;
        if self.features.has_xsave {
            cr4 | CR4_OSXSAVE
        } else {
            cr4
        }
    }

    /// The control registers are set, and VMX is turned on.
    pub open spec fn turn_on(self) -> Seq<HwOp> {
        seq![
            HwOp::WriteCr0(self.host_cr0),
            HwOp::WriteCr4(self.vmx_cr4()),
            HwOp::VmxOn(self.vmxon_frame->Ok_0.start_paddr),
        ]
    }
}

impl VmxRegion {
    /// Makes a VMX region of a page, if there was one.
    pub fn new(frame: HvResult<Frame>, revision_id: u32, shadow: bool, hw: &mut HwQueue) -> (r:
        HvResult<Self>)
        ensures
            match frame {
                Ok(page) => {
                    &&& r == Ok::<_, HvError>(
                        VmxRegion { paddr: page.start_paddr, revision_id, shadow },
                    )
                    &&& final(hw)@ == old(hw)@.push(
                        HwOp::InitVmxRegion { paddr: page.start_paddr, revision_id, shadow },
                    )
                },
                Err(e) => r == Err::<Self, _>(e) && final(hw)@ == old(hw)@,
            },
    {
        match frame {
            Ok(page) => {
                let paddr: usize = page.start_paddr;
                hw.push(HwOp::InitVmxRegion { paddr, revision_id, shadow });
                Ok(VmxRegion { paddr, revision_id, shadow })
            },
            Err(e) => Err(e),
        }
    }

    /// The physical address of the region.
    pub fn paddr(&self) -> (r: usize)
        ensures
            r == self.paddr,
    {
        self.paddr
    }
}

/// The basic reason of an exit by VMCALL.
pub const EXIT_REASON_VMCALL: u64 = 18;

/// A virtual CPU: the state of a guest on one CPU.
pub struct Vcpu {
    /// The guest's general purpose registers, saved when it exits.
    guest_regs: GeneralRegisters,
    /// The stack on which the hypervisor continues when the guest exits.
    host_stack_top: u64,
    /// The region with which VMX was turned on.
    vmxon_region: VmxRegion,
    /// The region of this CPU's VMCS.
    vmcs_region: VmxRegion,
    /// What is known of the current VMCS.
    vmcs: Vmcs,
    /// The bits that the processor fixes in the control registers.
    fixed: CrFixedBits,
}

impl Vcpu {
    /// The guest's general purpose registers.
    pub closed spec fn general_registers(&self) -> GeneralRegisters {
        self.guest_regs
    }

    /// What is known of the current VMCS.
    pub closed spec fn vmcs_state(&self) -> VmcsState {
        self.vmcs@
    }

    /// What the fields of the current VMCS hold, as far as it is known.
    pub open spec fn fields(&self) -> Map<VmcsField, u64> {
        self.vmcs_state().values
    }

    /// The bits that the processor fixes in the control registers.
    pub closed spec fn fixed_bits(&self) -> CrFixedBits {
        self.fixed
    }

    /// The stack on which the hypervisor continues when the guest exits.
    pub closed spec fn host_stack(&self) -> u64 {
        self.host_stack_top
    }

    /// Where the regions lie: that of VMX operation, and that of the VMCS.
    pub closed spec fn regions(&self) -> (VmxRegion, VmxRegion) {
        (self.vmxon_region, self.vmcs_region)
    }

    /// Everything but what is known of the VMCS is as it is in the other one.
    pub open spec fn same_but_fields(&self, other: &Vcpu) -> bool {
        &&& self.general_registers() == other.general_registers()
        &&& self.host_stack() == other.host_stack()
        &&& self.regions() == other.regions()
        &&& self.fixed_bits() == other.fixed_bits()
    }

    /// The guest's control register.
    pub fn cr(&self, cr_idx: usize) -> (val: u64)
        requires
            cr_idx == 0 || cr_idx == 3 || cr_idx == 4,
            cr_known(self.fields(), cr_idx as int),
        ensures
            val == cr_value(self.fields(), cr_idx as int),
    {
        if cr_idx == 0 {
            self.field(VmcsField::GuestCr0)
        } else if cr_idx == 3 {
            self.field(VmcsField::GuestCr3)
        } else {
            let host_mask: u64 = self.field(VmcsField::Cr4GuestHostMask);
            (self.field(VmcsField::Cr4ReadShadow) & host_mask) | (self.field(VmcsField::GuestCr4)
                & !host_mask)
        }
    }

    /// What reading a field of the current VMCS gives, if that is known.
    pub fn reading(&self, field: VmcsField) -> (r: Option<HvResult<u64>>)
        ensures
            r == (if self.vmcs_state().knows(field) {
                Some(self.vmcs_state().reading(field))
            } else {
                None
            }),
    {
        self.vmcs.reading(field)
    }

    /// A field of the VMCS that could be read.
    fn field(&self, field: VmcsField) -> (val: u64)
        requires
            self.fields().dom().contains(field),
        ensures
            val == self.fields()[field],
    {
        match self.vmcs.read(field) {
            Ok(val) => val,
            Err(_) => 0,
        }
    }

    /// Sets the guest's control register, as far as the processor and the hypervisor leave it
    /// to the guest.
    pub fn set_cr(&mut self, cr_idx: usize, val: u64, hw: &mut HwQueue)
        requires
            cr_idx == 0 || cr_idx == 3 || cr_idx == 4,
        ensures
            final(self).fields() == after_set_cr(
                old(self).fields(),
                old(self).fixed_bits(),
                cr_idx as int,
                val,
            ),
            final(self).same_but_fields(old(self)),
            final(hw)@ == old(hw)@ + set_cr_ops(old(self).fixed_bits(), cr_idx as int, val),
            final(self).vmcs_state() == vmcs_after_all(
                old(self).vmcs_state(),
                set_cr_ops(old(self).fixed_bits(), cr_idx as int, val),
            ),
    {
        broadcast use lemma_queues_op;

        proof {
            lemma_queues_nothing(self.vmcs_state(), hw@);
        }
        let fixed: CrFixedBits = self.fixed;
        if cr_idx == 0 {
            let must0: u64 = fixed.cr0_fixed1 & !(CR0_NOT_WRITE_THROUGH | CR0_CACHE_DISABLE);
            let must1: u64 = fixed.cr0_fixed0 & !(CR0_PAGING | CR0_PROTECTED_MODE_ENABLE);
            self.vmcs.write(VmcsField::GuestCr0, (val & must0) | must1, hw);
            self.vmcs.write(VmcsField::Cr0ReadShadow, val, hw);
            self.vmcs.write(VmcsField::Cr0GuestHostMask, must1 | !must0, hw);
        } else if cr_idx == 3 {
            self.vmcs.write(VmcsField::GuestCr3, val, hw);
        } else {
            let must0: u64 = fixed.cr4_fixed1;
            let must1: u64 = fixed.cr4_fixed0;
            let val: u64 = val | CR4_VIRTUAL_MACHINE_EXTENSIONS;
            self.vmcs.write(VmcsField::GuestCr4, (val & must0) | must1, hw);
            self.vmcs.write(VmcsField::Cr4ReadShadow, val, hw);
            self.vmcs.write(VmcsField::Cr4GuestHostMask, must1 | !must0, hw);
        }
        proof {
            let ops = set_cr_ops(old(self).fixed_bits(), cr_idx as int, val);
            assert(hw@ =~= old(hw)@ + ops);
            lemma_queued(old(self).vmcs_state(), self.vmcs_state(), old(hw)@, hw@, ops);
        }
    }
}

impl Vcpu {
    /// Fills in the host state of the VMCS: what the processor goes back to when the guest
    /// exits.
    pub fn setup_vmcs_host(&mut self, host: &HostState, hw: &mut HwQueue)
        ensures
            final(self).fields() == old(self).fields().union_prefer_right(host_state(*host)),
            final(self).same_but_fields(old(self)),
            final(hw)@ == old(hw)@ + host_ops(*host),
            final(self).vmcs_state() == vmcs_after_all(
                old(self).vmcs_state(),
                host_ops(*host),
            ),
    {
        broadcast use lemma_queues_op;

        proof {
            lemma_queues_nothing(self.vmcs_state(), hw@);
        }
        self.vmcs.write(VmcsField::HostPat, host.pat, hw);
        self.vmcs.write(VmcsField::HostEfer, host.efer, hw);

        self.vmcs.write(VmcsField::HostCr0, host.cr0, hw);
        self.vmcs.write(VmcsField::HostCr3, host.cr3, hw);
        self.vmcs.write(VmcsField::HostCr4, host.cr4, hw);

        self.vmcs.write(VmcsField::HostSelector(SegReg::ES), 0, hw);
        self.vmcs.write(VmcsField::HostSelector(SegReg::CS), host.kcode_selector as u64, hw);
        self.vmcs.write(VmcsField::HostSelector(SegReg::SS), 0, hw);
        self.vmcs.write(VmcsField::HostSelector(SegReg::DS), 0, hw);
        self.vmcs.write(VmcsField::HostSelector(SegReg::FS), 0, hw);
        self.vmcs.write(VmcsField::HostSelector(SegReg::GS), 0, hw);
        self.vmcs.write(VmcsField::HostSelector(SegReg::TR), host.tss_selector as u64, hw);
        self.vmcs.write(VmcsField::HostFsBase, 0, hw);
        self.vmcs.write(VmcsField::HostGsBase, host.gs_base, hw);
        self.vmcs.write(VmcsField::HostTrBase, 0, hw);

        self.vmcs.write(VmcsField::HostGdtrBase, host.gdt_base, hw);
        self.vmcs.write(VmcsField::HostIdtrBase, host.idt_base, hw);

        self.vmcs.write(VmcsField::HostSysenterEsp, 0, hw);
        self.vmcs.write(VmcsField::HostSysenterEip, 0, hw);
        self.vmcs.write(VmcsField::HostSysenterCs, 0, hw);

        self.vmcs.write(VmcsField::HostRsp, host.rsp, hw);
        self.vmcs.write(VmcsField::HostRip, host.rip, hw);
        assert(self.fields() =~= old(self).fields().union_prefer_right(host_state(*host)));
        proof {
            let ops = host_ops(*host);
            assert(hw@ =~= old(hw)@ + ops);
            lemma_queued(old(self).vmcs_state(), self.vmcs_state(), old(hw)@, hw@, ops);
        }
    }

    /// Fills in a segment register of the guest.
    fn set_guest_segment(&mut self, reg: SegReg, seg: &Segment, hw: &mut HwQueue)
        ensures
            final(self).fields() == old(self).fields().insert(
                VmcsField::GuestSelector(reg),
                seg.selector as u64,
            ).insert(VmcsField::GuestBase(reg), seg.base).insert(
                VmcsField::GuestLimit(reg),
                seg.limit as u64,
            ).insert(VmcsField::GuestArBytes(reg), seg.access_rights.bits as u64),
            final(self).same_but_fields(old(self)),
            final(hw)@ == old(hw)@ + segment_ops(reg, *seg),
            final(self).vmcs_state() == vmcs_after_all(
                old(self).vmcs_state(),
                segment_ops(reg, *seg),
            ),
    {
        broadcast use lemma_queues_op;

        proof {
            lemma_queues_nothing(self.vmcs_state(), hw@);
        }
        self.vmcs.write(VmcsField::GuestSelector(reg), seg.selector as u64, hw);
        self.vmcs.write(VmcsField::GuestBase(reg), seg.base, hw);
        self.vmcs.write(VmcsField::GuestLimit(reg), seg.limit as u64, hw);
        self.vmcs.write(VmcsField::GuestArBytes(reg), seg.access_rights.bits as u64, hw);
        proof {
            let ops = segment_ops(reg, *seg);
            assert(hw@ =~= old(hw)@ + ops);
            lemma_queued(old(self).vmcs_state(), self.vmcs_state(), old(hw)@, hw@, ops);
        }
    }

    /// Fills in the segment registers of the guest, which continues with those of Linux.
    fn set_guest_segments(&mut self, linux: &LinuxContext, hw: &mut HwQueue)
        ensures
            final(self).fields() == old(self).fields().union_prefer_right(
                guest_segments(*linux),
            ),
            final(self).same_but_fields(old(self)),
            final(hw)@ == old(hw)@ + segments_ops(*linux),
            final(self).vmcs_state() == vmcs_after_all(
                old(self).vmcs_state(),
                segments_ops(*linux),
            ),
    {
        let ghost queue0 = hw@;
        let ghost state0 = self.vmcs_state();
        self.set_guest_segment(SegReg::ES, &linux.es, hw);
        self.set_guest_segment(SegReg::CS, &linux.cs, hw);
        self.set_guest_segment(SegReg::SS, &linux.ss, hw);
        self.set_guest_segment(SegReg::DS, &linux.ds, hw);
        self.set_guest_segment(SegReg::FS, &linux.fs, hw);
        self.set_guest_segment(SegReg::GS, &linux.gs, hw);
        self.set_guest_segment(SegReg::TR, &linux.tss, hw);
        self.set_guest_segment(SegReg::LDTR, &Segment::invalid(), hw);
        assert(self.fields() =~= old(self).fields().union_prefer_right(guest_segments(*linux)));
        assert(hw@ =~= queue0 + segments_ops(*linux));
        proof {
            let es = segment_ops(SegReg::ES, linux.es);
            let cs = segment_ops(SegReg::CS, linux.cs);
            let ss = segment_ops(SegReg::SS, linux.ss);
            let ds = segment_ops(SegReg::DS, linux.ds);
            let fs = segment_ops(SegReg::FS, linux.fs);
            let gs = segment_ops(SegReg::GS, linux.gs);
            let tr = segment_ops(SegReg::TR, linux.tss);
            let ldtr = segment_ops(SegReg::LDTR, Segment::unusable());
            lemma_vmcs_after_concat(state0, es, cs);
            lemma_vmcs_after_concat(state0, es + cs, ss);
            lemma_vmcs_after_concat(state0, es + cs + ss, ds);
            lemma_vmcs_after_concat(state0, es + cs + ss + ds, fs);
            lemma_vmcs_after_concat(state0, es + cs + ss + ds + fs, gs);
            lemma_vmcs_after_concat(state0, es + cs + ss + ds + fs + gs, tr);
            lemma_vmcs_after_concat(state0, es + cs + ss + ds + fs + gs + tr, ldtr);
        }
    }

    /// Fills in the guest state of the VMCS: the guest continues Linux where it called the
    /// hypervisor.
    pub fn setup_vmcs_guest(
        &mut self,
        linux: &LinuxContext,
        sysenter: &SysenterMsrs,
        hw: &mut HwQueue,
    )
        ensures
            final(self).fields() == old(self).fields().union_prefer_right(
                guest_state(*linux, *sysenter, old(self).fixed_bits()),
            ),
            final(self).same_but_fields(old(self)),
            final(hw)@ == old(hw)@ + guest_ops(*linux, *sysenter, old(self).fixed_bits()),
            final(self).vmcs_state() == vmcs_after_all(
                old(self).vmcs_state(),
                guest_ops(*linux, *sysenter, old(self).fixed_bits()),
            ),
    {
        broadcast use lemma_queues_op;

        let ghost fields0 = self.fields();
        let ghost state0 = self.vmcs_state();
        let ghost queue0 = hw@;
        proof {
            lemma_queues_nothing(state0, queue0);
        }
        self.vmcs.write(VmcsField::GuestPat, linux.pat, hw);
        self.vmcs.write(VmcsField::GuestEfer, linux.efer, hw);
        let ghost first = seq![
            HwOp::VmcsWrite(VmcsField::GuestPat, linux.pat),
            HwOp::VmcsWrite(VmcsField::GuestEfer, linux.efer),
        ];
        proof {
            assert(hw@ =~= queue0 + first);
            lemma_queued(state0, self.vmcs_state(), queue0, hw@, first);
        }

        self.set_cr(0, linux.cr0, hw);
        self.set_cr(4, linux.cr4, hw);
        self.set_cr(3, linux.cr3, hw);
        self.set_guest_segments(linux, hw);
        self.set_guest_registers(linux, sysenter, hw);
        proof {
            let fixed = old(self).fixed_bits();
            let cr0 = set_cr_ops(fixed, 0, linux.cr0);
            let cr4 = set_cr_ops(fixed, 4, linux.cr4);
            let cr3 = set_cr_ops(fixed, 3, linux.cr3);
            let segments = segments_ops(*linux);
            let registers = register_ops(*linux, *sysenter);
            lemma_vmcs_after_concat(state0, first, cr0);
            lemma_vmcs_after_concat(state0, first + cr0, cr4);
            lemma_vmcs_after_concat(state0, first + cr0 + cr4, cr3);
            lemma_vmcs_after_concat(state0, first + cr0 + cr4 + cr3, segments);
            lemma_vmcs_after_concat(state0, first + cr0 + cr4 + cr3 + segments, registers);
            assert(hw@ =~= queue0 + guest_ops(*linux, *sysenter, fixed));
            assert(self.fields() =~= fields0.union_prefer_right(
                guest_state(*linux, *sysenter, fixed),
            ));
        }
    }

    /// Fills in the other registers of the guest, and its activity.
    fn set_guest_registers(
        &mut self,
        linux: &LinuxContext,
        sysenter: &SysenterMsrs,
        hw: &mut HwQueue,
    )
        ensures
            final(self).fields() == old(self).fields().union_prefer_right(
                guest_registers(*linux, *sysenter),
            ),
            final(self).same_but_fields(old(self)),
            final(hw)@ == old(hw)@ + register_ops(*linux, *sysenter),
            final(self).vmcs_state() == vmcs_after_all(
                old(self).vmcs_state(),
                register_ops(*linux, *sysenter),
            ),
    {
        broadcast use lemma_queues_op;

        proof {
            lemma_queues_nothing(self.vmcs_state(), hw@);
        }
        self.vmcs.write(VmcsField::GuestGdtrBase, linux.gdt.base, hw);
        self.vmcs.write(VmcsField::GuestGdtrLimit, linux.gdt.limit as u64, hw);
        self.vmcs.write(VmcsField::GuestIdtrBase, linux.idt.base, hw);
        self.vmcs.write(VmcsField::GuestIdtrLimit, linux.idt.limit as u64, hw);

        self.vmcs.write(VmcsField::GuestRsp, linux.rsp, hw);
        self.vmcs.write(VmcsField::GuestRip, linux.rip, hw);
        self.vmcs.write(VmcsField::GuestRflags, 0x2, hw);

        self.vmcs.write(VmcsField::GuestSysenterCs, sysenter.cs as u32 as u64, hw);
        self.vmcs.write(VmcsField::GuestSysenterEsp, sysenter.esp, hw);
        self.vmcs.write(VmcsField::GuestSysenterEip, sysenter.eip, hw);

        self.vmcs.write(VmcsField::GuestDr7, 0x400, hw);
        self.vmcs.write(VmcsField::GuestDebugctl, 0, hw);

        self.vmcs.write(VmcsField::GuestActivityState, 0, hw);
        self.vmcs.write(VmcsField::GuestInterruptibilityInfo, 0, hw);
        self.vmcs.write(VmcsField::GuestPendingDbgExceptions, 0, hw);

        self.vmcs.write(VmcsField::VmcsLinkPointer, u64::MAX, hw);
        self.vmcs.write(VmcsField::VmxPreemptionTimerValue, 0, hw);
        assert(self.fields() =~= old(self).fields().union_prefer_right(
            guest_registers(*linux, *sysenter),
        ));
        proof {
            let ops = register_ops(*linux, *sysenter);
            assert(hw@ =~= old(hw)@ + ops);
            lemma_queued(old(self).vmcs_state(), self.vmcs_state(), old(hw)@, hw@, ops);
        }
    }

    /// Sets the controls of the guest up.
    pub fn setup_vmcs_control(
        &mut self,
        cell: &Cell,
        caps: &VmxCapabilities,
        features: &CpuFeatures,
        msr_bitmap: usize,
        hw: &mut HwQueue,
    )
        ensures
            final(self).fields() == with_controls(old(self).fields(), msr_bitmap),
            final(self).same_but_fields(old(self)),
            final(hw)@ == old(hw)@ + control_ops(*caps, *features, cell.gpm.root(), msr_bitmap),
            final(self).vmcs_state() == vmcs_after_all(
                old(self).vmcs_state(),
                control_ops(*caps, *features, cell.gpm.root(), msr_bitmap),
            ),
    {
        broadcast use lemma_queues_op;

        proof {
            lemma_queues_nothing(self.vmcs_state(), hw@);
        }
        // No exit on interrupts: they are passed through.
        self.set_control(
            VmcsField::PinBasedVmExecControl,
            caps.pinbased_ctls,
            PIN_NMI_EXITING,
            0,
            hw,
        );
        // No exit on port accesses: they are passed through.
        self.set_control(
            VmcsField::ProcBasedVmExecControl,
            caps.procbased_ctls,
            PRIMARY_USE_MSR_BITMAPS | PRIMARY_SEC_CONTROLS,
            PRIMARY_CR3_LOAD_EXITING | PRIMARY_CR3_STORE_EXITING,
            hw,
        );
        let mut val: u32 = SECONDARY_EPT | SECONDARY_UNRESTRICTED_GUEST;
        assert(forall|x: u32| #[trigger] (x | 0) == x) by (bit_vector);
        if features.has_rdtscp {
            val = val | SECONDARY_RDTSCP;
        }
        if features.has_invpcid {
            val = val | SECONDARY_INVPCID;
        }
        if features.has_xsaves_xrstors {
            val = val | SECONDARY_XSAVES;
        }
        assert(val == secondary_controls(*features));
        self.set_control(VmcsField::SecondaryVmExecControl, caps.procbased_ctls2, val, 0, hw);
        self.set_control(
            VmcsField::VmExitControls,
            caps.exit_ctls,
            EXIT_HOST_ADDR_SPACE_SIZE | EXIT_SAVE_IA32_PAT | EXIT_LOAD_IA32_PAT
                | EXIT_SAVE_IA32_EFER | EXIT_LOAD_IA32_EFER,
            0,
            hw,
        );
        self.set_control(
            VmcsField::VmEntryControls,
            caps.entry_ctls,
            ENTRY_IA32E_MODE | ENTRY_LOAD_IA32_PAT | ENTRY_LOAD_IA32_EFER,
            0,
            hw,
        );

        self.vmcs.write(VmcsField::VmExitMsrStoreCount, 0, hw);
        self.vmcs.write(VmcsField::VmExitMsrLoadCount, 0, hw);
        self.vmcs.write(VmcsField::VmEntryMsrLoadCount, 0, hw);

        self.vmcs.write(VmcsField::Cr4GuestHostMask, 0, hw);
        self.vmcs.write(VmcsField::Cr3TargetCount, 0, hw);

        self.vmcs.queue(HwOp::ActivateGuestMemory(cell.gpm.root_paddr()), hw);

        self.vmcs.write(VmcsField::MsrBitmap, msr_bitmap as u64, hw);
        self.vmcs.write(VmcsField::ExceptionBitmap, 0, hw);
        proof {
            let ops = control_ops(*caps, *features, cell.gpm.root(), msr_bitmap);
            assert(hw@ =~= old(hw)@ + ops);
            assert(self.fields() =~= with_controls(old(self).fields(), msr_bitmap));
            lemma_queued(old(self).vmcs_state(), self.vmcs_state(), old(hw)@, hw@, ops);
        }
    }

    /// Asks for bits of a control field.
    fn set_control(
        &mut self,
        field: VmcsField,
        capability: u64,
        set: u32,
        clear: u32,
        hw: &mut HwQueue,
    )
        ensures
            final(self).vmcs_state() == vmcs_after(
                old(self).vmcs_state(),
                HwOp::VmcsControl(ControlRequest { field, capability, set, clear }),
            ),
            final(self).same_but_fields(old(self)),
            final(hw)@ == old(hw)@.push(
                HwOp::VmcsControl(ControlRequest { field, capability, set, clear }),
            ),
    {
        self.vmcs.queue(HwOp::VmcsControl(ControlRequest { field, capability, set, clear }), hw);
    }
}

impl Vcpu {
    /// Makes a virtual CPU and turns VMX on: the performance counters are stopped, the feature
    /// control register is locked with VMX allowed, CR0 and CR4 are set to what the hypervisor
    /// runs with. It is an error where Linux uses VMX, and where the firmware has locked VMX
    /// away.
    pub fn new(linux: &LinuxContext, env: VmxonEnv, hw: &mut HwQueue) -> (r: HvResult<Self>)
        ensures
            env.feature is Err ==> {
                &&& r is Err && env.feature == Err::<(), _>(r->Err_0)
                &&& final(hw)@ == old(hw)@
            },
            env.feature is Ok && vmx_in_use(*linux) ==> {
                &&& r is Err && r->Err_0.says(HvErrorNum::EBUSY, "VMX is already turned on!"@)
                &&& final(hw)@ == old(hw)@ + env.stop_counters()
            },
            env.feature is Ok && !vmx_in_use(*linux) && env.locked_out() ==> {
                &&& r is Err && r->Err_0.says(HvErrorNum::ENODEV, "VMX disabled by BIOS!"@)
                &&& final(hw)@ == old(hw)@ + env.stop_counters()
            },
            env.feature is Ok && !vmx_in_use(*linux) && !env.locked_out() ==> {
                if env.vmxon_frame is Err {
                    &&& r is Err && env.vmxon_frame == Err::<Frame, _>(r->Err_0)
                    &&& final(hw)@ == old(hw)@ + env.stop_counters() + env.allow_vmxon()
                } else if env.vmcs_frame is Err {
                    &&& r is Err && env.vmcs_frame == Err::<Frame, _>(r->Err_0)
                    &&& final(hw)@ == old(hw)@ + env.stop_counters() + env.allow_vmxon()
                        + env.stamp(env.vmxon_frame->Ok_0)
                } else {
                    &&& r is Ok
                    &&& final(hw)@ == old(hw)@ + env.stop_counters() + env.allow_vmxon()
                        + env.stamp(env.vmxon_frame->Ok_0) + env.stamp(env.vmcs_frame->Ok_0)
                        + env.turn_on()
                    &&& r->Ok_0.general_registers() == GeneralRegisters::zero()
                    &&& r->Ok_0.host_stack() == env.stack_top as u64
                    &&& r->Ok_0.regions() == (
                        env.region(env.vmxon_frame->Ok_0),
                        env.region(env.vmcs_frame->Ok_0),
                    )
                    &&& r->Ok_0.vmcs_state() == VmcsState::unknown()
                    &&& r->Ok_0.fixed_bits() == env.fixed
                }
            },
    {
        let ghost queue0 = hw@;
        match env.feature {
            Ok(()) => {},
            Err(e) => {
                return Err(e);
            },
        }

        if env.features.perf_monitor_version_id > 0 {
            hw.push(HwOp::WriteMsr(Msr::IA32_PERF_GLOBAL_CTRL, 0));
        }
        assert(hw@ =~= queue0 + env.stop_counters());

        if linux.cr4 & CR4_VIRTUAL_MACHINE_EXTENSIONS == CR4_VIRTUAL_MACHINE_EXTENSIONS {
            return Err(HvError::new(HvErrorNum::EBUSY, "VMX is already turned on!"));
        }

        let ctrl: u64 = env.feature_control;
        let locked: bool = ctrl & FEATURE_LOCKED == FEATURE_LOCKED;
        let vmxon_outside: bool = ctrl & FEATURE_VMXON_ENABLED_OUTSIDE_SMX
            == FEATURE_VMXON_ENABLED_OUTSIDE_SMX;
        if !locked {
            hw.push(
                HwOp::WriteFeatureControl(
                    ctrl | FEATURE_LOCKED | FEATURE_VMXON_ENABLED_OUTSIDE_SMX,
                ),
            );
        } else if !vmxon_outside {
            return Err(HvError::new(HvErrorNum::ENODEV, "VMX disabled by BIOS!"));
        }
        assert(hw@ =~= queue0 + env.stop_counters() + env.allow_vmxon());

        let ghost vmxon_frame = env.vmxon_frame;
        let ghost vmcs_frame = env.vmcs_frame;
        let vmxon_region: VmxRegion = match VmxRegion::new(
            env.vmxon_frame,
            env.revision_id,
            false,
            hw,
        ) {
            Ok(region) => region,
            Err(e) => {
                return Err(e);
            },
        };
        assert(hw@ =~= queue0 + env.stop_counters() + env.allow_vmxon() + env.stamp(
            vmxon_frame->Ok_0,
        ));
        let vmcs_region: VmxRegion = match VmxRegion::new(
            env.vmcs_frame,
            env.revision_id,
            false,
            hw,
        ) {
            Ok(region) => region,
            Err(e) => {
                return Err(e);
            },
        };
        assert(hw@ =~= queue0 + env.stop_counters() + env.allow_vmxon() + env.stamp(
            vmxon_frame->Ok_0,
        ) + env.stamp(vmcs_frame->Ok_0));

        let mut cr4: u64 = env.host_cr4 | CR4_VIRTUAL_MACHINE_EXTENSIONS;
        if env.features.has_xsave {
            cr4 = cr4 | CR4_OSXSAVE;
        }
        hw.push(HwOp::WriteCr0(env.host_cr0));
        hw.push(HwOp::WriteCr4(cr4));

        hw.push(HwOp::VmxOn(vmxon_region.paddr()));
        assert(hw@ =~= queue0 + env.stop_counters() + env.allow_vmxon() + env.stamp(
            vmxon_frame->Ok_0,
        ) + env.stamp(vmcs_frame->Ok_0) + env.turn_on());

        Ok(
            Vcpu {
                guest_regs: GeneralRegisters::default(),
                host_stack_top: env.stack_top as u64,
                vmxon_region,
                vmcs_region,
                vmcs: Vmcs::new(Vec::new()),
                fixed: env.fixed,
            },
        )
    }

    /// Sets the VMCS of this CPU up: it is cleared and made the current one, then the host
    /// state, the guest state and the controls are filled in.
    pub fn vmcs_setup(
        &mut self,
        linux: &LinuxContext,
        cell: &Cell,
        env: &VmcsEnv,
        hw: &mut HwQueue,
    )
        ensures
            final(self).same_but_fields(old(self)),
            final(self).fields() == vmcs_content(
                *linux,
                *env,
                old(self).fixed_bits(),
            ),
            final(hw)@ == old(hw)@ + setup_ops(
                *linux,
                *env,
                old(self).fixed_bits(),
                old(self).regions().1.paddr,
                cell.gpm.root(),
            ),
            final(self).vmcs_state() == vmcs_after_all(
                old(self).vmcs_state(),
                setup_ops(
                    *linux,
                    *env,
                    old(self).fixed_bits(),
                    old(self).regions().1.paddr,
                    cell.gpm.root(),
                ),
            ),
    {
        broadcast use lemma_queues_op;

        proof {
            lemma_queues_nothing(self.vmcs_state(), hw@);
        }
        let paddr: usize = self.vmcs_region.paddr();
        self.vmcs.queue(HwOp::VmcsClear(paddr), hw);
        self.vmcs.queue(HwOp::VmcsLoad(paddr), hw);
        let ghost start = seq![HwOp::VmcsClear(paddr), HwOp::VmcsLoad(paddr)];
        proof {
            assert(hw@ =~= old(hw)@ + start);
            lemma_queued(old(self).vmcs_state(), self.vmcs_state(), old(hw)@, hw@, start);
        }
        self.setup_vmcs_host(&env.host, hw);
        self.setup_vmcs_guest(linux, &env.sysenter, hw);
        self.setup_vmcs_control(cell, &env.caps, &env.features, env.msr_bitmap, hw);
        proof {
            let fixed = old(self).fixed_bits();
            let host = host_ops(env.host);
            let guest = guest_ops(*linux, env.sysenter, fixed);
            let controls = control_ops(env.caps, env.features, cell.gpm.root(), env.msr_bitmap);
            let state0 = old(self).vmcs_state();
            lemma_vmcs_after_concat(state0, start, host);
            lemma_vmcs_after_concat(state0, start + host, guest);
            lemma_vmcs_after_concat(state0, start + host + guest, controls);
            assert(hw@ =~= old(hw)@ + (start + host + guest + controls));
            assert(self.fields() =~= vmcs_content(*linux, *env, fixed));
        }
    }

    /// Reads the field that comes after the first `n` of those that hold the guest's state,
    /// all of which could be read.
    fn read_nth(&self, field: VmcsField, Ghost(n): Ghost<int>) -> (r: HvResult<u64>)
        requires
            0 <= n < load_order().len(),
            field == load_order()[n],
            fields_read(self.fields()) >= n,
            readings_suffice(self.vmcs_state()),
        ensures
            r is Ok <==> fields_read(self.fields()) > n,
            r is Ok ==> r->Ok_0 == self.fields()[field],
            r is Err ==> r->Err_0 == first_fault(self.vmcs_state()),
    {
        proof {
            lemma_known_before_gap_meaning(self.fields(), load_order());
        }
        self.vmcs.read(field)
    }

    /// Takes the guest's state back from the VMCS: Linux continues where the guest is, with
    /// the guest's control registers, segment selectors and descriptor tables. Where a field
    /// cannot be read, that is the result, and what comes before it has been taken back.
    pub fn load_vmcs_guest(&self, linux: &mut LinuxContext, hw: &mut HwQueue) -> (r: HvResult<()>)
        requires
            readings_suffice(self.vmcs_state()),
            tables_readable(self.fields()),
        ensures
            r is Ok <==> fields_read(self.fields()) == load_order().len(),
            r is Ok ==> r == Ok::<(), HvError>(()),
            r is Err ==> r->Err_0 == first_fault(self.vmcs_state()),
            *final(linux) == linux_after(
                *old(linux),
                self.fields(),
                fields_read(self.fields()) as int,
            ),
            final(hw)@ == old(hw)@ + sysenter_after(
                self.fields(),
                fields_read(self.fields()) as int,
            ),
    {
        proof {
            lemma_known_before_gap_meaning(self.fields(), load_order());
        }
        match self.read_nth(VmcsField::GuestRip, Ghost(0)) {
            Ok(v) => {
                linux.rip = v;
            },
            Err(e) => {
                return Err(e);
            },
        }
        match self.read_nth(VmcsField::GuestRsp, Ghost(1)) {
            Ok(v) => {
                linux.rsp = v;
            },
            Err(e) => {
                return Err(e);
            },
        }
        match self.read_nth(VmcsField::GuestCr0, Ghost(2)) {
            Ok(v) => {
                linux.cr0 = cr0_truncated(v);
            },
            Err(e) => {
                return Err(e);
            },
        }
        match self.read_nth(VmcsField::GuestCr3, Ghost(3)) {
            Ok(v) => {
                linux.cr3 = v;
            },
            Err(e) => {
                return Err(e);
            },
        }
        match self.read_nth(VmcsField::GuestCr4, Ghost(4)) {
            Ok(v) => {
                linux.cr4 = cr4_truncated(v) & !CR4_VIRTUAL_MACHINE_EXTENSIONS;
            },
            Err(e) => {
                return Err(e);
            },
        }
        match self.read_nth(VmcsField::GuestSelector(SegReg::ES), Ghost(5)) {
            Ok(v) => {
                linux.es.selector = v as u16;
            },
            Err(e) => {
                return Err(e);
            },
        }
        match self.read_nth(VmcsField::GuestSelector(SegReg::CS), Ghost(6)) {
            Ok(v) => {
                linux.cs.selector = v as u16;
            },
            Err(e) => {
                return Err(e);
            },
        }
        match self.read_nth(VmcsField::GuestSelector(SegReg::SS), Ghost(7)) {
            Ok(v) => {
                linux.ss.selector = v as u16;
            },
            Err(e) => {
                return Err(e);
            },
        }
        match self.read_nth(VmcsField::GuestSelector(SegReg::DS), Ghost(8)) {
            Ok(v) => {
                linux.ds.selector = v as u16;
            },
            Err(e) => {
                return Err(e);
            },
        }
        match self.read_nth(VmcsField::GuestSelector(SegReg::FS), Ghost(9)) {
            Ok(v) => {
                linux.fs.selector = v as u16;
            },
            Err(e) => {
                return Err(e);
            },
        }
        match self.read_nth(VmcsField::GuestBase(SegReg::FS), Ghost(10)) {
            Ok(v) => {
                linux.fs.base = v;
            },
            Err(e) => {
                return Err(e);
            },
        }
        match self.read_nth(VmcsField::GuestSelector(SegReg::GS), Ghost(11)) {
            Ok(v) => {
                linux.gs.selector = v as u16;
            },
            Err(e) => {
                return Err(e);
            },
        }
        match self.read_nth(VmcsField::GuestBase(SegReg::GS), Ghost(12)) {
            Ok(v) => {
                linux.gs.base = v;
            },
            Err(e) => {
                return Err(e);
            },
        }
        match self.read_nth(VmcsField::GuestSelector(SegReg::TR), Ghost(13)) {
            Ok(v) => {
                linux.tss.selector = v as u16;
            },
            Err(e) => {
                return Err(e);
            },
        }
        match self.read_nth(VmcsField::GuestGdtrBase, Ghost(14)) {
            Ok(v) => {
                linux.gdt.base = virt_addr(v);
            },
            Err(e) => {
                return Err(e);
            },
        }
        match self.read_nth(VmcsField::GuestGdtrLimit, Ghost(15)) {
            Ok(v) => {
                linux.gdt.limit = v as u16;
            },
            Err(e) => {
                return Err(e);
            },
        }
        match self.read_nth(VmcsField::GuestIdtrBase, Ghost(16)) {
            Ok(v) => {
                linux.idt.base = virt_addr(v);
            },
            Err(e) => {
                return Err(e);
            },
        }
        match self.read_nth(VmcsField::GuestIdtrLimit, Ghost(17)) {
            Ok(v) => {
                linux.idt.limit = v as u16;
            },
            Err(e) => {
                return Err(e);
            },
        }
        match self.read_nth(VmcsField::GuestSysenterCs, Ghost(18)) {
            Ok(v) => {
                hw.push(HwOp::WriteMsr(Msr::IA32_SYSENTER_CS, v as u32 as u64));
            },
            Err(e) => {
                return Err(e);
            },
        }
        match self.read_nth(VmcsField::GuestSysenterEsp, Ghost(19)) {
            Ok(v) => {
                hw.push(HwOp::WriteMsr(Msr::IA32_SYSENTER_ESP, v));
            },
            Err(e) => {
                return Err(e);
            },
        }
        match self.read_nth(VmcsField::GuestSysenterEip, Ghost(20)) {
            Ok(v) => {
                hw.push(HwOp::WriteMsr(Msr::IA32_SYSENTER_EIP, v));
            },
            Err(e) => {
                return Err(e);
            },
        }
        assert(hw@ =~= old(hw)@ + sysenter_after(self.fields(), load_order().len() as int));
        Ok(())
    }

    /// Leaves VMX: the guest's state is taken back, the VMCS is cleared, and VMX is turned
    /// off.
    pub fn exit(&self, linux: &mut LinuxContext, hw: &mut HwQueue) -> (r: HvResult<()>)
        requires
            readings_suffice(self.vmcs_state()),
            tables_readable(self.fields()),
        ensures
            r is Ok <==> fields_read(self.fields()) == load_order().len(),
            r is Ok ==> r == Ok::<(), HvError>(()),
            r is Err ==> r->Err_0 == first_fault(self.vmcs_state()),
            *final(linux) == linux_after(
                *old(linux),
                self.fields(),
                fields_read(self.fields()) as int,
            ),
            r is Ok ==> final(hw)@ == old(hw)@ + sysenter_after(
                self.fields(),
                load_order().len() as int,
            ) + seq![HwOp::VmcsClear(self.regions().1.paddr), HwOp::VmxOff],
            r is Err ==> final(hw)@ == old(hw)@ + sysenter_after(
                self.fields(),
                fields_read(self.fields()) as int,
            ),
    {
        match self.load_vmcs_guest(linux, hw) {
            Ok(()) => {},
            Err(e) => {
                return Err(e);
            },
        }
        hw.push(HwOp::VmcsClear(self.vmcs_region.paddr()));
        hw.push(HwOp::VmxOff);
        assert(hw@ =~= old(hw)@ + sysenter_after(self.fields(), load_order().len() as int) + seq![
            HwOp::VmcsClear(self.regions().1.paddr),
            HwOp::VmxOff,
        ]);
        Ok(())
    }
}

impl Vcpu {
    /// Takes note of what reading the fields of the current VMCS has given.
    pub fn refresh(&mut self, readings: Vec<(VmcsField, HvResult<u64>)>)
        ensures
            final(self).vmcs_state() == told_by(readings@),
            final(self).same_but_fields(old(self)),
    {
        self.vmcs = Vmcs::new(readings);
    }

    /// Loads the registers with which the guest continues Linux. Launching the guest does not
    /// come back; the result is the error to report if it does.
    pub fn enter(&mut self, linux: &LinuxContext) -> (r: HvResult<()>)
        ensures
            r is Err && r->Err_0.says(HvErrorNum::EIO, ""@),
            final(self).general_registers() == old(self).general_registers().entering(0, *linux),
            final(self).general_registers().rax == 0,
            final(self).general_registers().rbx == linux.rbx,
            final(self).general_registers().rbp == linux.rbp,
            final(self).general_registers().r12 == linux.r12,
            final(self).general_registers().r13 == linux.r13,
            final(self).general_registers().r14 == linux.r14,
            final(self).general_registers().r15 == linux.r15,
            final(self).same_but_registers(old(self)),
    {
        self.guest_regs.enter(0, linux);
        Err(HvError::new(HvErrorNum::EIO, ""))
    }

    /// Everything but the guest's general purpose registers is as it is in the other one.
    pub open spec fn same_but_registers(&self, other: &Vcpu) -> bool {
        &&& self.vmcs_state() == other.vmcs_state()
        &&& self.host_stack() == other.host_stack()
        &&& self.regions() == other.regions()
        &&& self.fixed_bits() == other.fixed_bits()
    }

    /// Injects a general protection fault into the guest.
    pub fn inject_fault(&mut self, hw: &mut HwQueue) -> (r: HvResult<()>)
        ensures
            r == Ok::<(), HvError>(()),
            *final(self) == *old(self),
            final(hw)@ == old(hw)@.push(HwOp::InjectException { vector: 13, error_code: 0 }),
    {
        hw.push(HwOp::InjectException { vector: GENERAL_PROTECTION_FAULT, error_code: 0 });
        Ok(())
    }

    /// Moves the guest past an instruction of the given length.
    pub fn advance_rip(&mut self, instr_len: u8, hw: &mut HwQueue) -> (r: HvResult<()>)
        requires
            old(self).vmcs_state().knows(VmcsField::GuestRip),
            old(self).fields().dom().contains(VmcsField::GuestRip)
                ==> old(self).fields()[VmcsField::GuestRip] + instr_len <= u64::MAX,
        ensures
            final(self).same_but_fields(old(self)),
            r is Ok ==> r == Ok::<(), HvError>(()),
            match r {
                Ok(_) => {
                    let rip = (old(self).fields()[VmcsField::GuestRip] + instr_len) as u64;
                    &&& old(self).fields().dom().contains(VmcsField::GuestRip)
                    &&& final(self).vmcs_state() == old(self).vmcs_state().holding(
                        VmcsField::GuestRip,
                        rip,
                    )
                    &&& final(hw)@ == old(hw)@.push(HwOp::VmcsWrite(VmcsField::GuestRip, rip))
                },
                Err(e) => {
                    &&& !old(self).fields().dom().contains(VmcsField::GuestRip)
                    &&& e == old(self).vmcs_state().faults[VmcsField::GuestRip]
                    &&& final(self).vmcs_state() == old(self).vmcs_state()
                    &&& final(hw)@ == old(hw)@
                },
            },
    {
        match self.vmcs.read(VmcsField::GuestRip) {
            Ok(rip) => {
                self.vmcs.write(VmcsField::GuestRip, rip + instr_len as u64, hw);
                Ok(())
            },
            Err(e) => Err(e),
        }
    }

    /// Whether the guest runs at the highest privilege.
    pub fn guest_is_privileged(&self) -> (r: bool)
        requires
            self.fields().dom().contains(VmcsField::GuestArBytes(SegReg::CS)),
        ensures
            r == (SegmentAccessRights {
                bits: self.fields()[VmcsField::GuestArBytes(SegReg::CS)] as u32,
            }.privilege() == 0),
    {
        let bits: u32 = self.field(VmcsField::GuestArBytes(SegReg::CS)) as u32;
        let rights: SegmentAccessRights = SegmentAccessRights { bits };
        rights.dpl() == 0
    }

    /// Whether the guest exited to call the hypervisor.
    pub fn in_hypercall(&self) -> (r: bool)
        ensures
            r <==> self.fields().dom().contains(VmcsField::ExitReason)
                && self.fields()[VmcsField::ExitReason] == EXIT_REASON_VMCALL,
            EXIT_REASON_VMCALL == 18,
    {
        match self.vmcs.reading(VmcsField::ExitReason) {
            Some(Ok(reason)) => reason == EXIT_REASON_VMCALL,
            _ => false,
        }
    }

    /// The page table that the guest uses.
    pub fn guest_page_table(&self) -> (pt: GuestPageTableImmut)
        requires
            cr_known(self.fields(), 3),
        ensures
            pt.root == page_of(cr_value(self.fields(), 3) as usize),
    {
        GuestPageTableImmut { root: align_down(self.cr(3) as usize) }
    }

    /// The guest's general purpose registers.
    pub fn regs(&self) -> (r: &GeneralRegisters)
        ensures
            *r == self.general_registers(),
    {
        &self.guest_regs
    }

    /// The guest's general purpose registers, to be changed.
    pub fn regs_mut(&mut self) -> (r: &mut GeneralRegisters)
        ensures
            *r == old(self).general_registers(),
            final(self).general_registers() == *final(r),
            final(self).same_but_registers(old(self)),
    {
        &mut self.guest_regs
    }

    /// Sets what the guest's call returns.
    pub fn set_return_val(&mut self, ret_val: usize)
        ensures
            final(self).general_registers() == (GeneralRegisters {
                rax: ret_val as u64,
                ..old(self).general_registers()
            }),
            final(self).same_but_registers(old(self)),
    {
        self.guest_regs.rax = ret_val as u64;
    }

    /// The guest's instruction pointer.
    pub fn instr_pointer(&self) -> (r: u64)
        requires
            self.fields().dom().contains(VmcsField::GuestRip),
        ensures
            r == self.fields()[VmcsField::GuestRip],
    {
        self.field(VmcsField::GuestRip)
    }

    /// The guest's stack pointer.
    pub fn stack_pointer(&self) -> (r: u64)
        requires
            self.fields().dom().contains(VmcsField::GuestRsp),
        ensures
            r == self.fields()[VmcsField::GuestRsp],
    {
        self.field(VmcsField::GuestRsp)
    }

    /// Sets the guest's stack pointer.
    pub fn set_stack_pointer(&mut self, sp: u64, hw: &mut HwQueue)
        ensures
            final(self).vmcs_state() == old(self).vmcs_state().holding(VmcsField::GuestRsp, sp),
            final(self).same_but_fields(old(self)),
            final(hw)@ == old(hw)@.push(HwOp::VmcsWrite(VmcsField::GuestRsp, sp)),
    {
        self.vmcs.write(VmcsField::GuestRsp, sp, hw);
    }

    /// The guest's flags register.
    pub fn rflags(&self) -> (r: u64)
        requires
            self.fields().dom().contains(VmcsField::GuestRflags),
        ensures
            r == self.fields()[VmcsField::GuestRflags],
    {
        self.field(VmcsField::GuestRflags)
    }

    /// The base of the guest's FS segment.
    pub fn fs_base(&self) -> (r: u64)
        requires
            self.fields().dom().contains(VmcsField::GuestBase(SegReg::FS)),
        ensures
            r == self.fields()[VmcsField::GuestBase(SegReg::FS)],
    {
        self.field(VmcsField::GuestBase(SegReg::FS))
    }

    /// The base of the guest's GS segment.
    pub fn gs_base(&self) -> (r: u64)
        requires
            self.fields().dom().contains(VmcsField::GuestBase(SegReg::GS)),
        ensures
            r == self.fields()[VmcsField::GuestBase(SegReg::GS)],
    {
        self.field(VmcsField::GuestBase(SegReg::GS))
    }

    /// The stack on which the hypervisor continues when the guest exits.
    pub fn host_stack_top(&self) -> (r: u64)
        ensures
            r == self.host_stack(),
    {
        self.host_stack_top
    }

    /// What is shown of the virtual CPU when it is printed.
    pub fn dump(&self) -> (d: VcpuDump)
        requires
            dump_known(self.fields()),
        ensures
            d == dump_of(self.general_registers(), self.fields()),
    {
        VcpuDump {
            guest_regs: self.guest_regs,
            rip: self.instr_pointer(),
            rsp: self.stack_pointer(),
            rflags: self.rflags(),
            cr0: self.cr(0),
            cr3: self.cr(3),
            cr4: self.cr(4),
            cs: self.field(VmcsField::GuestSelector(SegReg::CS)) as u16,
            fs_base: self.fs_base(),
            gs_base: self.gs_base(),
            tss: self.field(VmcsField::GuestSelector(SegReg::TR)) as u16,
        }
    }
}

} // verus!
