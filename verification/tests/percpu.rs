//! The data of each CPU.

use rvm::arch::amd;
use rvm::arch::context::{
    DescriptorTablePointer, LinuxContext, Segment, SegmentAccessRights,
};
use rvm::arch::hw::{HwOp, HwQueue, Msr};
use rvm::arch::intel;
use rvm::arch::intel::vmcs::VmcsField;
use rvm::arch::percpu::{ArchPerCpu, GdtStruct, TssStruct};
use rvm::cell::{Cell, CellDesc, HvMemoryRegion, HvSystemConfig, MemFlags};
use rvm::error::{HvError, HvErrorNum};
use rvm::header::HvHeader;
use rvm::memory::{align_down, Frame};
use rvm::percpu::{CpuState, PerCpu, PerCpuArray};

const ARRAY: PerCpuArray = PerCpuArray { base: 0xff00_0000, size: 0x8_0000 };

fn linux() -> LinuxContext {
    let none = Segment {
        selector: 0,
        base: 0,
        limit: 0,
        access_rights: SegmentAccessRights { bits: 0x93 },
    };
    let table = DescriptorTablePointer { limit: 0x7f, base: 0x1000 };
    LinuxContext {
        rsp: 0x100,
        rip: 0x200,
        rbx: 1,
        rbp: 2,
        r12: 3,
        r13: 4,
        r14: 5,
        r15: 6,
        es: none,
        cs: none,
        ss: none,
        ds: none,
        fs: none,
        gs: none,
        tss: none,
        gdt: table,
        idt: table,
        cr0: 0x8000_0031,
        cr3: 0x5000,
        cr4: 0x20,
        efer: 0xd01,
        star: 0,
        lstar: 0,
        cstar: 0,
        fmask: 0,
        pat: 0,
    }
}

fn arch(addr: usize) -> ArchPerCpu {
    ArchPerCpu {
        tss: TssStruct { addr },
        gdt: GdtStruct { addr, kcode_selector: 0x8, tss_selector: 0x10 },
    }
}

fn header() -> HvHeader {
    let mut header = HvHeader::in_image(0x10_0000, 0x8_0000, 0x40);
    header.max_cpus = 8;
    header
}

fn untouched<V>() -> PerCpu<V> {
    PerCpu {
        self_vaddr: 0,
        id: 99,
        state: CpuState::HvDisabled,
        vcpu: None,
        arch: arch(0),
        linux: linux(),
    }
}

fn taken_up<V>(id: u32, hw: &mut HwQueue) -> PerCpu<V> {
    let mut cpu = untouched();
    assert_eq!(cpu.new(id, &header(), &ARRAY, hw), Ok(()));
    cpu
}

fn performed(hw: &mut HwQueue) -> Vec<HwOp> {
    let mut ops = Vec::new();
    while let Some(op) = hw.next() {
        ops.push(op);
        assert!(hw.complete(Ok(())).is_ok());
    }
    ops
}

fn config() -> HvSystemConfig {
    HvSystemConfig {
        hypervisor_memory: HvMemoryRegion {
            phys_start: 0x3a00_0000,
            virt_start: 0,
            size: 0x500_0000,
            flags: MemFlags { bits: 3 },
        },
        root_cell: CellDesc { mem_regions: vec![] },
    }
}

fn vmx_cpu() -> PerCpu<intel::vcpu::Vcpu> {
    let mut hw = HwQueue::new();
    let env = intel::vcpu::VmxonEnv {
        feature: Ok(()),
        features: intel::controls::CpuFeatures {
            perf_monitor_version_id: 0,
            has_xsave: false,
            has_rdtscp: false,
            has_invpcid: false,
            has_xsaves_xrstors: false,
        },
        feature_control: 5,
        revision_id: 1,
        vmxon_frame: Ok(Frame { start_paddr: 0x10_0000 }),
        vmcs_frame: Ok(Frame { start_paddr: 0x10_1000 }),
        host_cr0: 0,
        host_cr4: 0,
        stack_top: 0,
        fixed: intel::state::CrFixedBits {
            cr0_fixed0: 0,
            cr0_fixed1: u64::MAX,
            cr4_fixed0: 0,
            cr4_fixed1: u64::MAX,
        },
    };
    let vcpu = intel::vcpu::Vcpu::new(&linux(), env, &mut hw);
    let mut cpu = taken_up(1, &mut hw);
    assert_eq!(cpu.init_vcpu(vcpu), Ok(()));
    cpu
}

fn svm_cpu() -> PerCpu<amd::vcpu::Vcpu> {
    let config = config();
    let cell = Cell::new_root(&config, 0x7_7000, &vec![Ok(())]).unwrap();
    let mut hw = HwQueue::new();
    let env = amd::vcpu::SvmEnv {
        feature: Ok(()),
        perf_evt_sel: [0; 6],
        efer: 0xd01,
        host_save_area: Ok(Frame { start_paddr: 0x10_0000 }),
        host_cr0: 0,
        host_cr4: 0,
        cpu_data: 0,
        stack_top: 0,
        msrs: amd::vcpu::SvmMsrs {
            sysenter_cs: 0,
            sysenter_esp: 0,
            sysenter_eip: 0,
            kernel_gs_base: 0,
        },
    };
    let vcpu = amd::vcpu::Vcpu::new(&linux(), &cell, env, &mut hw);
    let mut cpu = taken_up(1, &mut hw);
    assert_eq!(cpu.init_vcpu(vcpu), Ok(()));
    cpu
}

#[test]
fn header_in_the_image() {
    let header = HvHeader::in_image(0x10_0000, 0x8_0000, 0x40);
    assert_eq!(&header.signature, b"RVMIMAGE");
    assert_eq!(header.core_size, 0x10_0000);
    assert_eq!(header.percpu_size, 0x8_0000);
    assert_eq!(header.entry, 0x40);
    assert_eq!((header.max_cpus, header.online_cpus), (0, 0));
    assert_eq!((header.console_page, header.gcov_info_head, header.debug_console_base), (0, 0, 0));
    assert_eq!((header.arm_linux_hyp_vectors, header.arm_linux_hyp_abi), (0, 0));
}

#[test]
fn no_more_cpus_than_there_is_room_for() {
    let mut header = header();
    header.max_cpus = 2;
    let full = HvError::new(HvErrorNum::EINVAL, "");
    assert_eq!(PerCpu::<()>::count_entering(0, &header), Ok(1));
    assert_eq!(PerCpu::<()>::count_entering(1, &header), Ok(2));
    assert_eq!(PerCpu::<()>::count_entering(2, &header), Err(full));
    assert_eq!(PerCpu::<()>::count_entering(u32::MAX, &header), Err(full));
    let mut hw = HwQueue::new();
    let mut cpu: PerCpu<()> = untouched();
    assert_eq!(cpu.new(2, &header, &ARRAY, &mut hw), Err(full));
    assert_eq!((cpu.id, cpu.self_vaddr), (99, 0));
    assert_eq!(hw.next(), None);
}

#[test]
fn numbers_run_from_zero_up_to_the_maximum() {
    let mut header = header();
    header.max_cpus = 3;
    let mut entered = 0;
    let mut numbers = Vec::new();
    for _ in 0..5 {
        if let Ok(count) = PerCpu::<()>::count_entering(entered, &header) {
            numbers.push(entered);
            entered = count;
        }
    }
    assert_eq!(numbers, vec![0, 1, 2]);
    assert_eq!(entered, 3);
}

#[test]
fn cpus_have_areas_of_their_own() {
    for id in 0..4u32 {
        let mut hw = HwQueue::new();
        let cpu: PerCpu<()> = taken_up(id, &mut hw);
        let start = 0xff00_0000 + id as usize * 0x8_0000;
        assert_eq!(cpu.id, id);
        assert_eq!(cpu.self_vaddr, start);
        assert_eq!(cpu.stack_top(&ARRAY), start + 0x8_0000 - 8);
        assert!(cpu.stack_top(&ARRAY) < ARRAY.vaddr(id + 1));
        assert_eq!(performed(&mut hw), vec![HwOp::WriteMsr(Msr::IA32_GS_BASE, start as u64)]);
    }
}

#[test]
fn taking_up_an_area_leaves_the_rest_of_it() {
    let mut hw = HwQueue::new();
    let mut cpu: PerCpu<u8> = PerCpu {
        state: CpuState::HvEnabled,
        vcpu: Some(7),
        arch: arch(0x6000),
        ..untouched()
    };
    assert_eq!(cpu.new(3, &header(), &ARRAY, &mut hw), Ok(()));
    assert_eq!(cpu.state, CpuState::HvEnabled);
    assert_eq!(cpu.vcpu, Some(7));
    assert_eq!(cpu.arch, arch(0x6000));
    assert_eq!(cpu.linux, linux());
}

#[test]
fn a_cpu_is_set_up() {
    let mut hw = HwQueue::new();
    let mut cpu: PerCpu<u8> = taken_up(0, &mut hw);
    performed(&mut hw);
    let mut called = linux();
    called.rip = 0x999;
    let fresh = arch(0x6000);
    cpu.init(called, fresh.tss, fresh.gdt, &mut hw);
    assert_eq!(cpu.linux.rip, 0x999);
    assert_eq!(cpu.arch.gdt.addr, 0x6000);
    assert!(!cpu.shows_vcpu());
    let ops = performed(&mut hw);
    assert_eq!(ops.len(), 10);
    assert_eq!(ops[0], HwOp::InitGdt { gdt: 0x6000, tss: 0x6000 });
    assert_eq!(ops[9], HwOp::ActivateHvPageTable);

    let failed = HvError::new(HvErrorNum::EBUSY, "VMX is already turned on!");
    assert_eq!(cpu.init_vcpu(Err(failed)), Err(failed));
    assert_eq!(cpu.state, CpuState::HvDisabled);
    assert!(cpu.vcpu.is_none());
    assert_eq!(cpu.init_vcpu(Ok(7)), Ok(()));
    assert_eq!(cpu.vcpu, Some(7));
    assert!(cpu.shows_vcpu());
    cpu.deactivated();
    assert_eq!(cpu.state, CpuState::HvDisabled);
}

/// How many CPUs are active after operations, if so many were before.
fn active_after(before: i32, ops: &[HwOp]) -> i32 {
    let mut count = before;
    for op in ops {
        match op {
            HwOp::AddActivated => count += 1,
            HwOp::SubActivated => count -= 1,
            _ => {}
        }
    }
    count
}

#[test]
fn vmx_guest_is_activated() {
    let mut cpu = vmx_cpu();
    let mut hw = HwQueue::new();
    assert_eq!(cpu.activate_vmm(&mut hw), Err(HvError::new(HvErrorNum::EIO, "")));
    let ops = performed(&mut hw);
    assert_eq!(ops, vec![HwOp::AddActivated, HwOp::LaunchGuest, HwOp::SubActivated]);
    assert_eq!(active_after(2, &ops[..2]), 3);
    assert_eq!(active_after(2, &ops), 2);
    assert_eq!(cpu.vcpu.unwrap().regs().r15, 6);
}

#[test]
fn vmx_guest_is_left() {
    let config = config();
    let cell = Cell::new_root(&config, 0x7_7000, &vec![Ok(())]).unwrap();
    let mut cpu = vmx_cpu();
    let mut hw = HwQueue::new();
    let env = intel::state::VmcsEnv {
        host: intel::state::HostState {
            pat: 0,
            efer: 0,
            cr0: 0,
            cr3: 0,
            cr4: 0,
            gs_base: 0,
            kcode_selector: 0,
            tss_selector: 0,
            gdt_base: 0,
            idt_base: 0,
            rsp: 0,
            rip: 0,
        },
        sysenter: intel::state::SysenterMsrs { cs: 7, esp: 8, eip: 9 },
        caps: intel::controls::VmxCapabilities {
            pinbased_ctls: 0,
            procbased_ctls: 0,
            procbased_ctls2: 0,
            exit_ctls: 0,
            entry_ctls: 0,
        },
        features: intel::controls::CpuFeatures {
            perf_monitor_version_id: 0,
            has_xsave: false,
            has_rdtscp: false,
            has_invpcid: false,
            has_xsaves_xrstors: false,
        },
        msr_bitmap: 0,
    };
    let vcpu = cpu.vcpu.as_mut().unwrap();
    vcpu.vmcs_setup(&linux(), &cell, &env, &mut hw);
    vcpu.set_stack_pointer(0xabc, &mut hw);
    performed(&mut hw);
    assert_eq!(cpu.deactivate_vmm(3, &mut hw), Ok(()));
    assert_eq!(
        performed(&mut hw),
        vec![
            HwOp::WriteMsr(Msr::IA32_SYSENTER_CS, 7),
            HwOp::WriteMsr(Msr::IA32_SYSENTER_ESP, 8),
            HwOp::WriteMsr(Msr::IA32_SYSENTER_EIP, 9),
            HwOp::VmcsClear(0x10_1000),
            HwOp::VmxOff,
            HwOp::SubActivated,
        ]
    );
    assert_eq!(cpu.linux, LinuxContext { rsp: 0xabc, ..linux() });
    assert_eq!(cpu.vcpu.as_ref().unwrap().regs().rax, 3);
}

#[test]
fn vmx_guest_that_cannot_be_read_is_not_left() {
    let mut cpu = vmx_cpu();
    let mut hw = HwQueue::new();
    let fault = HvError::new(HvErrorNum::EIO, "VMREAD failed");
    cpu.vcpu.as_mut().unwrap().refresh(vec![(VmcsField::GuestRip, Err(fault))]);
    assert_eq!(cpu.deactivate_vmm(3, &mut hw), Err(fault));
    assert_eq!(hw.next(), None);
    assert_eq!(cpu.linux, linux());
    assert_eq!(cpu.state, CpuState::HvEnabled);
}

#[test]
fn vmx_guest_is_faulted() {
    let mut cpu = vmx_cpu();
    let mut hw = HwQueue::new();
    assert_eq!(cpu.fault(&mut hw), Ok(()));
    assert_eq!(performed(&mut hw), vec![HwOp::InjectException { vector: 13, error_code: 0 }]);
}

#[test]
fn svm_guest_is_activated_and_left() {
    let mut cpu = svm_cpu();
    let mut hw = HwQueue::new();
    cpu.activate_vmm(0x8_8000, &mut hw);
    assert_eq!(cpu.vcpu.as_ref().unwrap().regs().rax, 0x8_8000);
    let env = amd::vcpu::SvmExitEnv {
        fs_selector: 0,
        gs_selector: 0,
        tr_selector: 0,
        fs_base: 0,
        efer: 0x1d01,
    };
    assert_eq!(cpu.deactivate_vmm(3, &env, &mut hw), Ok(()));
    assert_eq!(
        performed(&mut hw),
        vec![
            HwOp::AddActivated,
            HwOp::Stgi,
            HwOp::WriteEfer(0xd01),
            HwOp::WriteMsr(Msr::VM_HSAVE_PA, 0),
            HwOp::SubActivated,
        ]
    );
    assert_eq!(cpu.linux, linux());
    assert_eq!(cpu.vcpu.as_ref().unwrap().regs().rax, 3);
}

#[test]
fn svm_guest_is_faulted() {
    let mut cpu = svm_cpu();
    assert_eq!(cpu.fault(), Ok(()));
    assert!(cpu.vcpu.unwrap().vmcb.control.event.is_some());
}

#[test]
fn addresses_are_rounded_down_to_pages() {
    assert_eq!(align_down(0), 0);
    assert_eq!(align_down(0xfff), 0);
    assert_eq!(align_down(0x1000), 0x1000);
    assert_eq!(align_down(0x1234_5abc), 0x1234_5000);
    assert_eq!(align_down(usize::MAX), usize::MAX - 0xfff);
}
