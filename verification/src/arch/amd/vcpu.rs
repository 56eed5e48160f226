//! A virtual CPU on AMD SVM.

use vstd::prelude::*;
use crate::arch::amd::vmcb::{
    InjectedException, SvmIntercept, Vmcb, VmcbControl, VmcbSave, VmcbSegment, VmcbTlbControl,
};
use crate::arch::context::{
    DescriptorTablePointer, GeneralRegisters, LinuxContext, Segment, GENERAL_PROTECTION_FAULT,
};
use crate::arch::hw::{HwOp, HwQueue, Msr};
use crate::arch::registers::{
    cr0_truncated, cr4_truncated, is_virt_addr, sign_extended, virt_addr, CR0_DEFINED,
    CR0_NOT_WRITE_THROUGH, CR4_DEFINED, EFER_SECURE_VIRTUAL_MACHINE_ENABLE,
};
use crate::cell::Cell;
use crate::error::{HvError, HvErrorNum, HvResult};
use crate::memory::{align_down, page_of, Frame, GuestPageTableImmut};

verus! {

/// The bit of an event selector that lets its performance counter run.
pub const PERF_EVT_SEL_EN: u64 = 0x40_0000;

/// The reason of an exit by VMMCALL.
pub const EXIT_CODE_VMMCALL: u64 = 0x81;

/// How many performance counters there are.
pub const PERF_COUNTERS: usize = 6;

/// The event selector of a performance counter.
pub open spec fn event_selector(i: int) -> Msr {
    if i == 0 {
        Msr::PERF_EVT_SEL0
    } else if i == 1 {
        Msr::PERF_EVT_SEL1
    } else if i == 2 {
        Msr::PERF_EVT_SEL2
    } else if i == 3 {
        Msr::PERF_EVT_SEL3
    } else if i == 4 {
        Msr::PERF_EVT_SEL4
    } else {
        Msr::PERF_EVT_SEL5
    }
}

/// The model specific registers that the guest takes over.
#[derive(Clone, Copy, Debug, PartialEq, Eq, Structural)]
pub struct SvmMsrs {
    pub sysenter_cs: u64,
    pub sysenter_esp: u64,
    pub sysenter_eip: u64,
    pub kernel_gs_base: u64,
}

/// What turning SVM on starts from.
#[derive(Debug)]
pub struct SvmEnv {
    /// Whether the processor has what the hypervisor needs.
    pub feature: HvResult<()>,
    /// What the event selectors of the performance counters hold.
    pub perf_evt_sel: [u64; 6],
    /// The flags of EFER.
    pub efer: u64,
    /// A page in which the processor saves the hypervisor's state, if there was one.
    pub host_save_area: HvResult<Frame>,
    /// The flags of CR0 that the hypervisor runs with.
    pub host_cr0: u64,
    /// The flags of CR4 that the hypervisor runs with.
    pub host_cr4: u64,
    /// The address of the data of this CPU.
    pub cpu_data: usize,
    /// The top of the stack of this CPU.
    pub stack_top: usize,
    pub msrs: SvmMsrs,
}

impl SvmEnv {
    /// The performance counters are stopped.
    pub open spec fn stop_counters(self) -> Seq<HwOp> {
        Seq::new(
            6,
            |i: int| HwOp::WriteMsr(event_selector(i), self.perf_evt_sel@[i] & !PERF_EVT_SEL_EN),
        )
    }

    /// Whether SVM is on already.
    pub open spec fn svm_in_use(self) -> bool {
        self.efer & EFER_SECURE_VIRTUAL_MACHINE_ENABLE == EFER_SECURE_VIRTUAL_MACHINE_ENABLE
    }

    /// SVM is turned on, and the control registers are set.
    pub open spec fn turn_on(self) -> Seq<HwOp> {
        seq![
            HwOp::WriteEfer(self.efer | EFER_SECURE_VIRTUAL_MACHINE_ENABLE),
            HwOp::WriteMsr(Msr::VM_HSAVE_PA, self.host_save_area->Ok_0.start_paddr as u64),
            HwOp::WriteCr0(self.host_cr0),
            HwOp::WriteCr4(self.host_cr4),
        ]
    }
}

/// The state of a guest that continues Linux; `before` is what the VMCB held.
pub open spec fn guest_save(linux: LinuxContext, msrs: SvmMsrs, before: VmcbSave) -> VmcbSave {
    VmcbSave {
        es: VmcbSegment::holding(linux.es),
        cs: VmcbSegment::holding(linux.cs),
        ss: VmcbSegment::holding(linux.ss),
        ds: VmcbSegment::holding(linux.ds),
        fs: VmcbSegment::holding(linux.fs),
        gs: VmcbSegment::holding(linux.gs),
        tr: VmcbSegment::holding(linux.tss),
        ldtr: VmcbSegment::holding(Segment::unusable()),
        gdtr: before.gdtr.pointing_to(linux.gdt),
        idtr: before.idtr.pointing_to(linux.idt),
        cpl: 0,
        efer: linux.efer | EFER_SECURE_VIRTUAL_MACHINE_ENABLE,
        cr0: linux.cr0 & !CR0_NOT_WRITE_THROUGH,
        cr3: linux.cr3,
        cr4: linux.cr4,
        dr7: 0x400,
        dr6: 0xffff_0ff0,
        rflags: 0x2,
        rip: linux.rip,
        rsp: linux.rsp,
        rax: 0,
        star: linux.star,
        lstar: linux.lstar,
        cstar: linux.cstar,
        sfmask: linux.fmask,
        kernel_gs_base: msrs.kernel_gs_base,
        sysenter_cs: msrs.sysenter_cs,
        sysenter_esp: msrs.sysenter_esp,
        sysenter_eip: msrs.sysenter_eip,
        g_pat: linux.pat,
    }
}

/// What makes the guest exit: events that the hypervisor has to see, and the instructions of
/// SVM.
pub open spec fn guest_intercepts() -> Set<SvmIntercept> {
    set![
        SvmIntercept::NMI,
        SvmIntercept::CPUID,
        SvmIntercept::SHUTDOWN,
        SvmIntercept::VMRUN,
        SvmIntercept::VMMCALL,
        SvmIntercept::VMLOAD,
        SvmIntercept::VMSAVE,
        SvmIntercept::STGI,
        SvmIntercept::CLGI,
        SvmIntercept::SKINIT,
    ]
}

/// Whether a guest is controlled as one that has been set up: nested paging with the given
/// root, no exception makes it exit, its translations are dropped and nothing is taken from
/// the processor's cache; `before` is what the VMCB held.
pub open spec fn controls_guest(
    control: VmcbControl,
    gpm_root: usize,
    before: VmcbControl,
) -> bool {
    &&& control.intercepts@ == before.intercepts@.union(guest_intercepts())
    &&& control == (VmcbControl {
        intercept_exceptions: 0,
        intercepts: control.intercepts,
        np_enable: 1,
        guest_asid: 1,
        clean_bits: 0,
        nest_cr3: gpm_root as u64,
        tlb_control: VmcbTlbControl::FlushAsid,
        ..before
    })
}

/// The registers that the guest has in the processor itself, not in the VMCB, and EFER.
#[derive(Clone, Copy, Debug, PartialEq, Eq, Structural)]
pub struct SvmExitEnv {
    pub fs_selector: u16,
    pub gs_selector: u16,
    pub tr_selector: u16,
    pub fs_base: u64,
    /// The flags of EFER.
    pub efer: u64,
}

/// What Linux continues with when the guest's state is taken back.
pub open spec fn linux_after(linux: LinuxContext, save: VmcbSave, env: SvmExitEnv) -> LinuxContext {
    LinuxContext {
        rip: save.rip,
        rsp: save.rsp,
        cr0: save.cr0 & CR0_DEFINED,
        cr3: save.cr3,
        cr4: save.cr4 & CR4_DEFINED,
        efer: save.efer & !EFER_SECURE_VIRTUAL_MACHINE_ENABLE,
        es: Segment { selector: save.es.selector, ..linux.es },
        cs: Segment { selector: save.cs.selector, ..linux.cs },
        ss: Segment { selector: save.ss.selector, ..linux.ss },
        ds: Segment { selector: save.ds.selector, ..linux.ds },
        fs: Segment { selector: env.fs_selector, base: env.fs_base, ..linux.fs },
        gs: Segment { selector: env.gs_selector, base: save.gs.base, ..linux.gs },
        tss: Segment { selector: env.tr_selector, ..linux.tss },
        gdt: DescriptorTablePointer {
            base: sign_extended(save.gdtr.base),
            limit: save.gdtr.limit as u16,
        },
        idt: DescriptorTablePointer {
            base: sign_extended(save.idtr.base),
            limit: save.idtr.limit as u16,
        },
        ..linux
    }
}

/// What can be taken as the addresses of the descriptor tables.
pub open spec fn tables_readable(save: VmcbSave) -> bool {
    is_virt_addr(save.gdtr.base) && is_virt_addr(save.idtr.base)
}

/// A guest's control register.
pub open spec fn cr_value(save: VmcbSave, cr_idx: int) -> u64 {
    if cr_idx == 0 {
        save.cr0
    } else if cr_idx == 3 {
        save.cr3
    } else {
        save.cr4
    }
}

/// The guest's state after a control register has been set: NW is kept off.
pub open spec fn after_set_cr(save: VmcbSave, cr_idx: int, val: u64) -> VmcbSave {
    if cr_idx == 0 {
        VmcbSave { cr0: val & !CR0_NOT_WRITE_THROUGH, ..save }
    } else if cr_idx == 3 {
        VmcbSave { cr3: val, ..save }
    } else {
        VmcbSave { cr4: val, ..save }
    }
}

/// What is shown of a virtual CPU when it is printed.
#[derive(Clone, Copy, Debug, PartialEq, Eq, Structural)]
pub struct VcpuDump {
    pub guest_regs: GeneralRegisters,
    pub rip: u64,
    pub rsp: u64,
    pub rflags: u64,
    pub cr0: u64,
    pub cr3: u64,
    pub cr4: u64,
}

/// A virtual CPU: the state of a guest on one CPU.
#[derive(Debug)]
pub struct Vcpu {
    /// The guest's general purpose registers, saved when it exits.
    pub guest_regs: GeneralRegisters,
    /// The thread pointer of the hypervisor.
    pub host_tp: u64,
    /// The stack on which the hypervisor continues when the guest exits.
    pub host_stack_top: u64,
    /// The page in which the processor saves the hypervisor's state.
    pub host_save_area: Frame,
    /// The control block of the guest.
    pub vmcb: Vmcb,
}

impl Vcpu {
    /// Makes a virtual CPU and turns SVM on: the performance counters are stopped, CR0 and CR4
    /// are set to what the hypervisor runs with, and the control block is set up. It is an
    /// error where SVM is on already.
    pub fn new(linux: &LinuxContext, cell: &Cell, env: SvmEnv, hw: &mut HwQueue) -> (r: HvResult<
        Self,
    >)
        ensures
            env.feature is Err ==> {
                &&& r is Err && env.feature == Err::<(), _>(r->Err_0)
                &&& final(hw)@ == old(hw)@
            },
            env.feature is Ok && env.svm_in_use() ==> {
                &&& r is Err && r->Err_0.says(HvErrorNum::EBUSY, "SVM is already turned on!"@)
                &&& final(hw)@ == old(hw)@ + env.stop_counters()
            },
            env.feature is Ok && !env.svm_in_use() && env.host_save_area is Err ==> {
                &&& r is Err && env.host_save_area == Err::<Frame, _>(r->Err_0)
                &&& final(hw)@ == old(hw)@ + env.stop_counters()
            },
            env.feature is Ok && !env.svm_in_use() && env.host_save_area is Ok ==> {
                &&& r is Ok
                &&& final(hw)@ == old(hw)@ + env.stop_counters() + env.turn_on()
                &&& r->Ok_0.guest_regs == GeneralRegisters::zero()
                &&& r->Ok_0.host_tp == env.cpu_data as u64
                &&& r->Ok_0.host_stack_top == env.stack_top as u64
                &&& r->Ok_0.host_save_area == env.host_save_area->Ok_0
                &&& r->Ok_0.vmcb.save == guest_save(*linux, env.msrs, VmcbSave::zero())
                &&& r->Ok_0.vmcb.control.intercepts@ == guest_intercepts()
                &&& r->Ok_0.vmcb.control.intercept_exceptions == 0
                &&& r->Ok_0.vmcb.control.np_enable == 1
                &&& r->Ok_0.vmcb.control.guest_asid == 1
                &&& r->Ok_0.vmcb.control.clean_bits == 0
                &&& r->Ok_0.vmcb.control.nest_cr3 == cell.gpm.root() as u64
                &&& r->Ok_0.vmcb.control.tlb_control == VmcbTlbControl::FlushAsid
                &&& r->Ok_0.vmcb.control.exit_code == 0
                &&& r->Ok_0.vmcb.control.event is None
            },
    {
        let ghost queue0 = hw@;
        match env.feature {
            Ok(()) => {},
            Err(e) => {
                return Err(e);
            },
        }

        let mut i: usize = 0;
        while i < PERF_COUNTERS
            invariant
                i <= PERF_COUNTERS,
                hw@ == queue0 + env.stop_counters().take(i as int),
            decreases PERF_COUNTERS - i,
        {
            let sel: Msr = match i {
                0 => Msr::PERF_EVT_SEL0,
                1 => Msr::PERF_EVT_SEL1,
                2 => Msr::PERF_EVT_SEL2,
                3 => Msr::PERF_EVT_SEL3,
                4 => Msr::PERF_EVT_SEL4,
                _ => Msr::PERF_EVT_SEL5,
            };
            hw.push(HwOp::WriteMsr(sel, env.perf_evt_sel[i] & !PERF_EVT_SEL_EN));
            assert(hw@ =~= queue0 + env.stop_counters().take(i + 1));
            i = i + 1;
        }
        assert(env.stop_counters().take(6) =~= env.stop_counters());

        let efer: u64 = env.efer;
        if efer & EFER_SECURE_VIRTUAL_MACHINE_ENABLE == EFER_SECURE_VIRTUAL_MACHINE_ENABLE {
            return Err(HvError::new(HvErrorNum::EBUSY, "SVM is already turned on!"));
        }
        let ghost area = env.host_save_area;
        let host_save_area: Frame = match env.host_save_area {
            Ok(frame) => frame,
            Err(e) => {
                return Err(e);
            },
        };
        hw.push(HwOp::WriteEfer(efer | EFER_SECURE_VIRTUAL_MACHINE_ENABLE));
        hw.push(HwOp::WriteMsr(Msr::VM_HSAVE_PA, host_save_area.start_paddr as u64));

        hw.push(HwOp::WriteCr0(env.host_cr0));
        hw.push(HwOp::WriteCr4(env.host_cr4));
        assert(hw@ =~= queue0 + env.stop_counters() + env.turn_on());

        let mut ret: Vcpu = Vcpu {
            guest_regs: GeneralRegisters::default(),
            host_tp: env.cpu_data as u64,
            host_stack_top: env.stack_top as u64,
            host_save_area,
            vmcb: Vmcb::default(),
        };
        ret.vmcb_setup(linux, cell, &env.msrs);
        assert(ret.vmcb.control.intercepts@ =~= guest_intercepts());
        Ok(ret)
    }

    /// Points a descriptor table register of the guest to a table.
    fn set_vmcb_dtr(vmcb_seg: &mut VmcbSegment, dtr: &DescriptorTablePointer)
        ensures
            *final(vmcb_seg) == old(vmcb_seg).pointing_to(*dtr),
    {
        let limit: u32 = dtr.limit as u32;
        let limit16: u16 = dtr.limit;
        assert((limit16 as u32) & 0xffff == limit16 as u32) by (bit_vector);
        vmcb_seg.limit = limit & 0xffff;
        vmcb_seg.base = dtr.base;
    }

    /// Loads a segment register of the guest.
    fn set_vmcb_segment(vmcb_seg: &mut VmcbSegment, seg: &Segment)
        ensures
            *final(vmcb_seg) == VmcbSegment::holding(*seg),
    {
        vmcb_seg.selector = seg.selector;
        vmcb_seg.attr = seg.access_rights.as_svm_segment_attributes();
        vmcb_seg.limit = seg.limit;
        vmcb_seg.base = seg.base;
    }

    /// Sets the control block up: the guest continues Linux where it called the hypervisor,
    /// with the memory of the cell.
    pub fn vmcb_setup(&mut self, linux: &LinuxContext, cell: &Cell, msrs: &SvmMsrs)
        ensures
            final(self).vmcb.save == guest_save(*linux, *msrs, old(self).vmcb.save),
            controls_guest(
                final(self).vmcb.control,
                cell.gpm.root(),
                old(self).vmcb.control,
            ),
            *final(self) == (Vcpu { vmcb: final(self).vmcb, ..*old(self) }),
    {
        self.set_cr(0, linux.cr0);
        self.set_cr(4, linux.cr4);
        self.set_cr(3, linux.cr3);

        let save: &mut VmcbSave = &mut self.vmcb.save;
        Self::set_vmcb_segment(&mut save.es, &linux.es);
        Self::set_vmcb_segment(&mut save.cs, &linux.cs);
        Self::set_vmcb_segment(&mut save.ss, &linux.ss);
        Self::set_vmcb_segment(&mut save.ds, &linux.ds);
        Self::set_vmcb_segment(&mut save.fs, &linux.fs);
        Self::set_vmcb_segment(&mut save.gs, &linux.gs);
        Self::set_vmcb_segment(&mut save.tr, &linux.tss);
        Self::set_vmcb_segment(&mut save.ldtr, &Segment::invalid());
        Self::set_vmcb_dtr(&mut save.idtr, &linux.idt);
        Self::set_vmcb_dtr(&mut save.gdtr, &linux.gdt);
        save.cpl = 0;
        save.rflags = 0x2;
        save.rip = linux.rip;
        save.rsp = linux.rsp;
        save.rax = 0;
        save.sysenter_cs = msrs.sysenter_cs;
        save.sysenter_eip = msrs.sysenter_eip;
        save.sysenter_esp = msrs.sysenter_esp;
        save.star = linux.star;
        save.lstar = linux.lstar;
        save.cstar = linux.cstar;
        save.sfmask = linux.fmask;
        save.kernel_gs_base = msrs.kernel_gs_base;
        save.efer = linux.efer | EFER_SECURE_VIRTUAL_MACHINE_ENABLE;
        save.g_pat = linux.pat;
        save.dr7 = 0x400;
        save.dr6 = 0xffff_0ff0;

        let control: &mut VmcbControl = &mut self.vmcb.control;
        control.intercept_exceptions = 0;
        control.np_enable = 1;
        control.guest_asid = 1;
        control.clean_bits = 0;
        control.nest_cr3 = cell.gpm.root_paddr() as u64;
        control.tlb_control = VmcbTlbControl::FlushAsid;

        self.vmcb.set_intercept(SvmIntercept::NMI);
        self.vmcb.set_intercept(SvmIntercept::CPUID);
        self.vmcb.set_intercept(SvmIntercept::SHUTDOWN);
        self.vmcb.set_intercept(SvmIntercept::VMRUN);
        self.vmcb.set_intercept(SvmIntercept::VMMCALL);
        self.vmcb.set_intercept(SvmIntercept::VMLOAD);
        self.vmcb.set_intercept(SvmIntercept::VMSAVE);
        self.vmcb.set_intercept(SvmIntercept::STGI);
        self.vmcb.set_intercept(SvmIntercept::CLGI);
        self.vmcb.set_intercept(SvmIntercept::SKINIT);
        assert(self.vmcb.control.intercepts@ =~= old(self).vmcb.control.intercepts@.union(
            guest_intercepts(),
        ));
    }

    /// Loads the registers with which the guest continues Linux; the accumulator gets the
    /// physical address of the control block, which running the guest takes from there.
    pub fn enter(&mut self, linux: &LinuxContext, vmcb_paddr: usize)
        ensures
            *final(self) == (Vcpu {
                guest_regs: old(self).guest_regs.entering(vmcb_paddr as u64, *linux),
                ..*old(self)
            }),
            final(self).guest_regs.rax == vmcb_paddr,
            final(self).guest_regs.rbx == linux.rbx,
            final(self).guest_regs.rbp == linux.rbp,
            final(self).guest_regs.r12 == linux.r12,
            final(self).guest_regs.r13 == linux.r13,
            final(self).guest_regs.r14 == linux.r14,
            final(self).guest_regs.r15 == linux.r15,
    {
        self.guest_regs.enter(vmcb_paddr as u64, linux);
    }

    /// Takes the guest's state back: Linux continues where the guest is, with the guest's
    /// control registers, segment selectors and descriptor tables.
    pub fn load_vmcb_guest(&self, linux: &mut LinuxContext, env: &SvmExitEnv)
        requires
            tables_readable(self.vmcb.save),
        ensures
            *final(linux) == linux_after(*old(linux), self.vmcb.save, *env),
    {
        let save: &VmcbSave = &self.vmcb.save;
        linux.rip = save.rip;
        linux.rsp = save.rsp;
        linux.cr0 = cr0_truncated(save.cr0);
        linux.cr3 = save.cr3;
        linux.cr4 = cr4_truncated(save.cr4);
        linux.efer = save.efer & !EFER_SECURE_VIRTUAL_MACHINE_ENABLE;

        linux.es.selector = save.es.selector;
        linux.cs.selector = save.cs.selector;
        linux.ss.selector = save.ss.selector;
        linux.ds.selector = save.ds.selector;

        linux.gdt.base = virt_addr(save.gdtr.base);
        linux.gdt.limit = save.gdtr.limit as u16;
        linux.idt.base = virt_addr(save.idtr.base);
        linux.idt.limit = save.idtr.limit as u16;

        linux.fs.selector = env.fs_selector;
        linux.gs.selector = env.gs_selector;
        linux.tss.selector = env.tr_selector;
        linux.fs.base = env.fs_base;
        linux.gs.base = save.gs.base;
    }

    /// Leaves SVM: the guest's state is taken back, interrupts are let through, and SVM is
    /// turned off.
    pub fn exit(&self, linux: &mut LinuxContext, env: &SvmExitEnv, hw: &mut HwQueue) -> (r:
        HvResult<()>)
        requires
            tables_readable(self.vmcb.save),
        ensures
            r == Ok::<(), HvError>(()),
            *final(linux) == linux_after(*old(linux), self.vmcb.save, *env),
            final(hw)@ == old(hw)@ + seq![
                HwOp::Stgi,
                HwOp::WriteEfer(env.efer & !EFER_SECURE_VIRTUAL_MACHINE_ENABLE),
                HwOp::WriteMsr(Msr::VM_HSAVE_PA, 0),
            ],
    {
        self.load_vmcb_guest(linux, env);
        hw.push(HwOp::Stgi);
        hw.push(HwOp::WriteEfer(env.efer & !EFER_SECURE_VIRTUAL_MACHINE_ENABLE));
        hw.push(HwOp::WriteMsr(Msr::VM_HSAVE_PA, 0));
        assert(hw@ =~= old(hw)@ + seq![
            HwOp::Stgi,
            HwOp::WriteEfer(env.efer & !EFER_SECURE_VIRTUAL_MACHINE_ENABLE),
            HwOp::WriteMsr(Msr::VM_HSAVE_PA, 0),
        ]);
        Ok(())
    }

    /// Injects a general protection fault into the guest.
    pub fn inject_fault(&mut self) -> (r: HvResult<()>)
        ensures
            r == Ok::<(), HvError>(()),
            final(self).vmcb.control == (VmcbControl {
                event: Some(InjectedException { vector: 13, error_code: 0 }),
                ..old(self).vmcb.control
            }),
            final(self).vmcb.save == old(self).vmcb.save,
            *final(self) == (Vcpu { vmcb: final(self).vmcb, ..*old(self) }),
    {
        self.vmcb.inject_event(
            InjectedException { vector: GENERAL_PROTECTION_FAULT, error_code: 0 },
        );
        Ok(())
    }

    /// Moves the guest past an instruction of the given length.
    pub fn advance_rip(&mut self, instr_len: u8) -> (r: HvResult<()>)
        requires
            old(self).vmcb.save.rip + instr_len <= u64::MAX,
        ensures
            r == Ok::<(), HvError>(()),
            final(self).vmcb.save == (VmcbSave {
                rip: (old(self).vmcb.save.rip + instr_len) as u64,
                ..old(self).vmcb.save
            }),
            final(self).vmcb.control == old(self).vmcb.control,
            *final(self) == (Vcpu { vmcb: final(self).vmcb, ..*old(self) }),
    {
        self.vmcb.save.rip = self.vmcb.save.rip + instr_len as u64;
        Ok(())
    }

    /// Whether the guest runs at the highest privilege.
    pub fn guest_is_privileged(&self) -> (r: bool)
        ensures
            r == (self.vmcb.save.cpl == 0),
    {
        self.vmcb.save.cpl == 0
    }

    /// Whether the guest exited to call the hypervisor.
    pub fn in_hypercall(&self) -> (r: bool)
        ensures
            r == (self.vmcb.control.exit_code == EXIT_CODE_VMMCALL),
            EXIT_CODE_VMMCALL == 0x81,
    {
        self.vmcb.control.exit_code == EXIT_CODE_VMMCALL
    }

    /// The page table that the guest uses.
    pub fn guest_page_table(&self) -> (pt: GuestPageTableImmut)
        ensures
            pt.root == page_of(self.vmcb.save.cr3 as usize),
    {
        GuestPageTableImmut { root: align_down(self.vmcb.save.cr3 as usize) }
    }

    /// The guest's general purpose registers.
    pub fn regs(&self) -> (r: &GeneralRegisters)
        ensures
            *r == self.guest_regs,
    {
        &self.guest_regs
    }

    /// The guest's general purpose registers, to be changed.
    pub fn regs_mut(&mut self) -> (r: &mut GeneralRegisters)
        ensures
            *r == old(self).guest_regs,
            *final(self) == (Vcpu { guest_regs: *final(r), ..*old(self) }),
    {
        &mut self.guest_regs
    }

    /// Sets what the guest's call returns.
    pub fn set_return_val(&mut self, ret_val: usize)
        ensures
            *final(self) == (Vcpu {
                guest_regs: GeneralRegisters { rax: ret_val as u64, ..old(self).guest_regs },
                ..*old(self)
            }),
    {
        self.guest_regs.rax = ret_val as u64;
    }

    /// The guest's instruction pointer.
    pub fn instr_pointer(&self) -> (r: u64)
        ensures
            r == self.vmcb.save.rip,
    {
        self.vmcb.save.rip
    }

    /// The guest's stack pointer.
    pub fn stack_pointer(&self) -> (r: u64)
        ensures
            r == self.vmcb.save.rsp,
    {
        self.vmcb.save.rsp
    }

    /// Sets the guest's stack pointer.
    pub fn set_stack_pointer(&mut self, sp: u64)
        ensures
            final(self).vmcb.save == (VmcbSave { rsp: sp, ..old(self).vmcb.save }),
            final(self).vmcb.control == old(self).vmcb.control,
            *final(self) == (Vcpu { vmcb: final(self).vmcb, ..*old(self) }),
    {
        self.vmcb.save.rsp = sp;
    }

    /// The guest's flags register.
    pub fn rflags(&self) -> (r: u64)
        ensures
            r == self.vmcb.save.rflags,
    {
        self.vmcb.save.rflags
    }

    /// The base of the guest's GS segment.
    pub fn gs_base(&self) -> (r: u64)
        ensures
            r == self.vmcb.save.gs.base,
    {
        self.vmcb.save.gs.base
    }

    /// The guest's control register.
    pub fn cr(&self, cr_idx: usize) -> (val: u64)
        requires
            cr_idx == 0 || cr_idx == 3 || cr_idx == 4,
        ensures
            val == cr_value(self.vmcb.save, cr_idx as int),
    {
        if cr_idx == 0 {
            self.vmcb.save.cr0
        } else if cr_idx == 3 {
            self.vmcb.save.cr3
        } else {
            self.vmcb.save.cr4
        }
    }

    /// Sets the guest's control register.
    pub fn set_cr(&mut self, cr_idx: usize, val: u64)
        requires
            cr_idx == 0 || cr_idx == 3 || cr_idx == 4,
        ensures
            final(self).vmcb.save == after_set_cr(old(self).vmcb.save, cr_idx as int, val),
            final(self).vmcb.control == old(self).vmcb.control,
            *final(self) == (Vcpu { vmcb: final(self).vmcb, ..*old(self) }),
    {
        if cr_idx == 0 {
            self.vmcb.save.cr0 = val & !CR0_NOT_WRITE_THROUGH;
        } else if cr_idx == 3 {
            self.vmcb.save.cr3 = val;
        } else {
            self.vmcb.save.cr4 = val;
        }
    }

    /// What is shown of the virtual CPU when it is printed.
    pub fn dump(&self) -> (d: VcpuDump)
        ensures
            d == (VcpuDump {
                guest_regs: self.guest_regs,
                rip: self.vmcb.save.rip,
                rsp: self.vmcb.save.rsp,
                rflags: self.vmcb.save.rflags,
                cr0: self.vmcb.save.cr0,
                cr3: self.vmcb.save.cr3,
                cr4: self.vmcb.save.cr4,
            }),
    {
        VcpuDump {
            guest_regs: self.guest_regs,
            rip: self.instr_pointer(),
            rsp: self.stack_pointer(),
            rflags: self.rflags(),
            cr0: self.cr(0),
            cr3: self.cr(3),
            cr4: self.cr(4),
        }
    }

    /// The guest has exited: its thread pointer, which the processor leaves where it is, goes
    /// to the control block, and that of the hypervisor takes its place.
    pub fn begin_exit(&mut self, guest_tp: u64, cpu_data: usize, hw: &mut HwQueue)
        ensures
            final(self).vmcb.save == (VmcbSave {
                gs: VmcbSegment { base: guest_tp, ..old(self).vmcb.save.gs },
                ..old(self).vmcb.save
            }),
            final(self).vmcb.control == old(self).vmcb.control,
            *final(self) == (Vcpu { vmcb: final(self).vmcb, ..*old(self) }),
            final(hw)@ == old(hw)@.push(HwOp::WriteMsr(Msr::IA32_GS_BASE, cpu_data as u64)),
    {
        self.vmcb.save.gs.base = guest_tp;
        hw.push(HwOp::WriteMsr(Msr::IA32_GS_BASE, cpu_data as u64));
    }

    /// The guest is about to go on: it gets the thread pointer back that it exited with.
    pub fn end_exit(guest_tp: u64, hw: &mut HwQueue)
        ensures
            final(hw)@ == old(hw)@.push(HwOp::WriteMsr(Msr::IA32_GS_BASE, guest_tp)),
    {
        hw.push(HwOp::WriteMsr(Msr::IA32_GS_BASE, guest_tp));
    }
}

} // verus!
