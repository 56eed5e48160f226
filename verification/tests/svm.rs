//! A virtual CPU on AMD SVM.

use rvm::arch::amd::vcpu::{SvmEnv, SvmExitEnv, SvmMsrs, Vcpu, EXIT_CODE_VMMCALL};
use rvm::arch::amd::vmcb::{
    InjectedException, SvmIntercept, SvmIntercepts, Vmcb, VmcbSave, VmcbSegment, VmcbTlbControl,
};
use rvm::arch::context::{
    DescriptorTablePointer, GeneralRegisters, LinuxContext, Segment, SegmentAccessRights,
};
use rvm::arch::hw::{HwOp, HwQueue, Msr};
use rvm::cell::{Cell, CellDesc, HvMemoryRegion, HvSystemConfig, MemFlags};
use rvm::error::{HvError, HvErrorNum, HvResult};
use rvm::memory::Frame;

fn segment(selector: u16, base: u64) -> Segment {
    Segment { selector, base, limit: 0xf_ffff, access_rights: SegmentAccessRights { bits: 0xa09b } }
}

fn linux() -> LinuxContext {
    LinuxContext {
        rsp: 0xffff_c900_0000_1000,
        rip: 0xffff_ffff_8100_0000,
        rbx: 1,
        rbp: 2,
        r12: 3,
        r13: 4,
        r14: 5,
        r15: 6,
        es: segment(0, 0),
        cs: segment(0x10, 0),
        ss: segment(0x18, 0),
        ds: segment(0x1b, 0),
        fs: segment(0x23, 0x7f00_0000_0000),
        gs: segment(0x2b, 0xffff_8880_0000_0000),
        tss: segment(0x40, 0xffff_fe00_0000_3000),
        gdt: DescriptorTablePointer { limit: 0x7f, base: 0xffff_fe00_0000_1000 },
        idt: DescriptorTablePointer { limit: 0xfff, base: 0xffff_fe00_0000_0000 },
        cr0: 0x8005_0033,
        cr3: 0x1234_5abc,
        cr4: 0x17_06b0,
        efer: 0xd01,
        star: 0x23_0010 << 32,
        lstar: 0xffff_ffff_8160_0000,
        cstar: 0xffff_ffff_8160_1000,
        fmask: 0x4_7700,
        pat: 0x0407_0506_0007_0106,
    }
}

fn msrs() -> SvmMsrs {
    SvmMsrs {
        sysenter_cs: 0x10,
        sysenter_esp: 0x2000,
        sysenter_eip: 0x3000,
        kernel_gs_base: 0x4000,
    }
}

fn env() -> SvmEnv {
    SvmEnv {
        feature: Ok(()),
        perf_evt_sel: [0x40_0001, 0x40_0002, 0x3, 0, u64::MAX, 0x40_0000],
        efer: 0xd01,
        host_save_area: Ok(Frame { start_paddr: 0x10_0000 }),
        host_cr0: 0x8000_0021,
        host_cr4: 0x20,
        cpu_data: 0xff00_0000,
        stack_top: 0xff07_fff8,
        msrs: msrs(),
    }
}

fn config() -> HvSystemConfig {
    HvSystemConfig {
        hypervisor_memory: HvMemoryRegion {
            phys_start: 0x3a00_0000,
            virt_start: 0,
            size: 0x500_0000,
            flags: MemFlags { bits: 3 },
        },
        root_cell: CellDesc { mem_regions: vec![] },
    }
}

fn performed(hw: &mut HwQueue) -> Vec<HwOp> {
    let mut ops = Vec::new();
    while let Some(op) = hw.next() {
        ops.push(op);
        assert!(hw.complete(Ok(())).is_ok());
    }
    ops
}

fn make(linux: &LinuxContext, env: SvmEnv, hw: &mut HwQueue) -> HvResult<Vcpu> {
    let config = config();
    let cell = Cell::new_root(&config, 0x7_7000, &vec![Ok(())]).unwrap();
    Vcpu::new(linux, &cell, env, hw)
}

fn made() -> Vcpu {
    make(&linux(), env(), &mut HwQueue::new()).unwrap()
}

fn stop_counters() -> Vec<HwOp> {
    vec![
        HwOp::WriteMsr(Msr::PERF_EVT_SEL0, 0x1),
        HwOp::WriteMsr(Msr::PERF_EVT_SEL1, 0x2),
        HwOp::WriteMsr(Msr::PERF_EVT_SEL2, 0x3),
        HwOp::WriteMsr(Msr::PERF_EVT_SEL3, 0),
        HwOp::WriteMsr(Msr::PERF_EVT_SEL4, 0xffff_ffff_ffbf_ffff),
        HwOp::WriteMsr(Msr::PERF_EVT_SEL5, 0),
    ]
}

#[test]
fn svm_is_turned_on() {
    let mut hw = HwQueue::new();
    let vcpu = make(&linux(), env(), &mut hw).unwrap();
    let mut expected = stop_counters();
    expected.push(HwOp::WriteEfer(0x1d01));
    expected.push(HwOp::WriteMsr(Msr::VM_HSAVE_PA, 0x10_0000));
    expected.push(HwOp::WriteCr0(0x8000_0021));
    expected.push(HwOp::WriteCr4(0x20));
    assert_eq!(performed(&mut hw), expected);
    assert_eq!(*vcpu.regs(), GeneralRegisters::default());
    assert_eq!(vcpu.host_tp, 0xff00_0000);
    assert_eq!(vcpu.host_stack_top, 0xff07_fff8);
    assert_eq!(vcpu.host_save_area, Frame { start_paddr: 0x10_0000 });
}

#[test]
fn svm_in_use_is_busy() {
    let mut env = env();
    env.efer |= 0x1000;
    let mut hw = HwQueue::new();
    assert_eq!(
        make(&linux(), env, &mut hw).err(),
        Some(HvError::new(HvErrorNum::EBUSY, "SVM is already turned on!"))
    );
    assert_eq!(performed(&mut hw), stop_counters());
}

#[test]
fn no_page_for_the_save_area() {
    let full = HvError::new(HvErrorNum::ENOMEM, "");
    let mut env = env();
    env.host_save_area = Err(full);
    let mut hw = HwQueue::new();
    assert_eq!(make(&linux(), env, &mut hw).err(), Some(full));
    assert_eq!(performed(&mut hw), stop_counters());
}

#[test]
fn processor_without_svm() {
    let missing = HvError::new(HvErrorNum::ENODEV, "CPU does not support required features!");
    let mut env = env();
    env.feature = Err(missing);
    let mut hw = HwQueue::new();
    assert_eq!(make(&linux(), env, &mut hw).err(), Some(missing));
    assert_eq!(hw.next(), None);
}

fn holding(selector: u16, base: u64) -> VmcbSegment {
    VmcbSegment { selector, attr: 0xa9b, limit: 0xf_ffff, base }
}

#[test]
fn guest_continues_linux() {
    let linux = linux();
    let vcpu = made();
    assert_eq!(
        vcpu.vmcb.save,
        VmcbSave {
            es: holding(0, 0),
            cs: holding(0x10, 0),
            ss: holding(0x18, 0),
            ds: holding(0x1b, 0),
            fs: holding(0x23, 0x7f00_0000_0000),
            gs: holding(0x2b, 0xffff_8880_0000_0000),
            gdtr: VmcbSegment { selector: 0, attr: 0, limit: 0x7f, base: linux.gdt.base },
            ldtr: VmcbSegment::default(),
            idtr: VmcbSegment { selector: 0, attr: 0, limit: 0xfff, base: linux.idt.base },
            tr: holding(0x40, 0xffff_fe00_0000_3000),
            cpl: 0,
            efer: 0x1d01,
            cr4: linux.cr4,
            cr3: linux.cr3,
            cr0: linux.cr0,
            dr7: 0x400,
            dr6: 0xffff_0ff0,
            rflags: 0x2,
            rip: linux.rip,
            rsp: linux.rsp,
            rax: 0,
            star: linux.star,
            lstar: linux.lstar,
            cstar: linux.cstar,
            sfmask: linux.fmask,
            kernel_gs_base: 0x4000,
            sysenter_cs: 0x10,
            sysenter_esp: 0x2000,
            sysenter_eip: 0x3000,
            g_pat: linux.pat,
        }
    );
}

#[test]
fn guest_is_controlled() {
    let control = made().vmcb.control;
    assert_eq!(control.intercept_exceptions, 0);
    assert_eq!(control.np_enable, 1);
    assert_eq!(control.guest_asid, 1);
    assert_eq!(control.clean_bits, 0);
    assert_eq!(control.nest_cr3, 0x7_7000);
    assert_eq!(control.tlb_control, VmcbTlbControl::FlushAsid);
    assert_eq!(control.event, None);
    for intercept in [
        SvmIntercept::NMI,
        SvmIntercept::CPUID,
        SvmIntercept::SHUTDOWN,
        SvmIntercept::VMRUN,
        SvmIntercept::VMMCALL,
        SvmIntercept::VMLOAD,
        SvmIntercept::VMSAVE,
        SvmIntercept::STGI,
        SvmIntercept::CLGI,
        SvmIntercept::SKINIT,
    ] {
        assert!(control.intercepts.contains(intercept));
    }
}

#[test]
fn intercepts_are_a_set() {
    let mut set = SvmIntercepts::new();
    assert!(!set.contains(SvmIntercept::NMI));
    set.insert(SvmIntercept::NMI);
    set.insert(SvmIntercept::NMI);
    assert!(set.contains(SvmIntercept::NMI));
    assert!(!set.contains(SvmIntercept::CPUID));
    let mut vmcb = Vmcb::default();
    vmcb.set_intercept(SvmIntercept::STGI);
    assert!(vmcb.control.intercepts.contains(SvmIntercept::STGI));
}

#[test]
fn registers_for_running_the_guest() {
    let mut vcpu = made();
    vcpu.regs_mut().rsi = 55;
    vcpu.enter(&linux(), 0x8_8000);
    let regs = vcpu.regs();
    assert_eq!(regs.rax, 0x8_8000);
    assert_eq!(regs.rsi, 55);
    assert_eq!((regs.rbx, regs.rbp), (1, 2));
    assert_eq!((regs.r12, regs.r13, regs.r14, regs.r15), (3, 4, 5, 6));
    vcpu.set_return_val(usize::MAX);
    assert_eq!(vcpu.regs().rax, u64::MAX);
}

#[test]
fn leaving_svm_at_once_gives_linux_back() {
    let before = linux();
    let vcpu = made();
    let in_processor = SvmExitEnv {
        fs_selector: before.fs.selector,
        gs_selector: before.gs.selector,
        tr_selector: before.tss.selector,
        fs_base: before.fs.base,
        efer: 0x1d01,
    };
    let mut after = before;
    let mut hw = HwQueue::new();
    assert_eq!(vcpu.exit(&mut after, &in_processor, &mut hw), Ok(()));
    assert_eq!(after, before);
    assert_eq!(
        performed(&mut hw),
        vec![HwOp::Stgi, HwOp::WriteEfer(0xd01), HwOp::WriteMsr(Msr::VM_HSAVE_PA, 0)]
    );
}

#[test]
fn linux_continues_where_the_svm_guest_is() {
    let before = linux();
    let mut vcpu = made();
    let save = &mut vcpu.vmcb.save;
    save.rip = 0x100;
    save.rsp = 0x200;
    save.cr0 = u64::MAX;
    save.cr3 = 0x300;
    save.cr4 = u64::MAX;
    save.efer = u64::MAX;
    save.es.selector = 0x11;
    save.cs.selector = 0x12;
    save.ss.selector = 0x13;
    save.ds.selector = 0x14;
    save.gs.base = 0x1600;
    save.gdtr.base = 0x8000_0000_0000;
    save.gdtr.limit = 0x1_0057;
    save.idtr.base = 0x7fff_ffff_f000;
    let in_processor = SvmExitEnv {
        fs_selector: 0x15,
        gs_selector: 0x16,
        tr_selector: 0x17,
        fs_base: 0x1500,
        efer: 0x1d01,
    };
    let mut after = before;
    vcpu.load_vmcb_guest(&mut after, &in_processor);
    assert_eq!(
        after,
        LinuxContext {
            rip: 0x100,
            rsp: 0x200,
            cr0: 0xe005_003f,
            cr3: 0x300,
            cr4: 0x01ff_7fff,
            efer: 0xffff_ffff_ffff_efff,
            es: Segment { selector: 0x11, ..before.es },
            cs: Segment { selector: 0x12, ..before.cs },
            ss: Segment { selector: 0x13, ..before.ss },
            ds: Segment { selector: 0x14, ..before.ds },
            fs: Segment { selector: 0x15, base: 0x1500, ..before.fs },
            gs: Segment { selector: 0x16, base: 0x1600, ..before.gs },
            tss: Segment { selector: 0x17, ..before.tss },
            gdt: DescriptorTablePointer { base: 0xffff_8000_0000_0000, limit: 0x57 },
            idt: DescriptorTablePointer { base: 0x7fff_ffff_f000, limit: 0xfff },
            ..before
        }
    );
}

#[test]
fn control_registers_of_the_svm_guest() {
    let mut vcpu = made();
    vcpu.set_cr(0, 0xe000_0011);
    assert_eq!(vcpu.cr(0), 0xc000_0011);
    vcpu.set_cr(3, 0x9000);
    vcpu.set_cr(4, 0x4000_0020);
    assert_eq!(vcpu.cr(0), 0xc000_0011);
    assert_eq!(vcpu.cr(3), 0x9000);
    assert_eq!(vcpu.cr(4), 0x4000_0020);
}

#[test]
fn state_of_the_svm_guest() {
    let mut vcpu = made();
    assert_eq!(vcpu.instr_pointer(), 0xffff_ffff_8100_0000);
    assert_eq!(vcpu.advance_rip(3), Ok(()));
    assert_eq!(vcpu.instr_pointer(), 0xffff_ffff_8100_0003);
    vcpu.set_stack_pointer(0x6000);
    assert_eq!(vcpu.stack_pointer(), 0x6000);
    assert_eq!(vcpu.rflags(), 0x2);
    assert_eq!(vcpu.gs_base(), 0xffff_8880_0000_0000);
    assert_eq!(vcpu.guest_page_table().root, 0x1234_5000);
    assert!(vcpu.guest_is_privileged());
    vcpu.vmcb.save.cpl = 3;
    assert!(!vcpu.guest_is_privileged());
    assert!(!vcpu.in_hypercall());
    vcpu.vmcb.control.exit_code = EXIT_CODE_VMMCALL;
    assert!(vcpu.in_hypercall());
    vcpu.vmcb.control.exit_code = 0x72;
    assert!(!vcpu.in_hypercall());
    let dump = vcpu.dump();
    assert_eq!(dump.guest_regs, *vcpu.regs());
    assert_eq!(dump.rip, 0xffff_ffff_8100_0003);
    assert_eq!(dump.rsp, 0x6000);
    assert_eq!(dump.rflags, 0x2);
    assert_eq!((dump.cr0, dump.cr3, dump.cr4), (0x8005_0033, 0x1234_5abc, 0x17_06b0));
}

#[test]
fn the_svm_guest_gets_a_fault() {
    let mut vcpu = made();
    assert_eq!(vcpu.inject_fault(), Ok(()));
    assert_eq!(
        vcpu.vmcb.control.event,
        Some(InjectedException { vector: 13, error_code: 0 })
    );
}

#[test]
fn thread_pointers_are_swapped_around_an_exit() {
    let mut vcpu = made();
    let mut hw = HwQueue::new();
    vcpu.begin_exit(0x7777, 0xff00_0000, &mut hw);
    assert_eq!(vcpu.gs_base(), 0x7777);
    Vcpu::end_exit(0x7777, &mut hw);
    assert_eq!(
        performed(&mut hw),
        vec![
            HwOp::WriteMsr(Msr::IA32_GS_BASE, 0xff00_0000),
            HwOp::WriteMsr(Msr::IA32_GS_BASE, 0x7777),
        ]
    );
}
