//! A virtual CPU on Intel VMX.

use rvm::arch::context::{
    DescriptorTablePointer, GeneralRegisters, LinuxContext, Segment, SegmentAccessRights,
};
use rvm::arch::hw::{ControlRequest, HwOp, HwQueue, Msr};
use rvm::arch::intel::controls::{CpuFeatures, VmxCapabilities};
use rvm::arch::intel::state::{CrFixedBits, HostState, SysenterMsrs, VmcsEnv};
use rvm::arch::intel::vcpu::{Vcpu, VmxRegion, VmxonEnv, EXIT_REASON_VMCALL};
use rvm::arch::intel::vmcs::{SegReg, Vmcs, VmcsField};
use rvm::cell::{Cell, CellDesc, HvMemoryRegion, HvSystemConfig, MemFlags};
use rvm::error::{HvError, HvErrorNum, HvResult};
use rvm::memory::Frame;

const FIXED: CrFixedBits = CrFixedBits {
    cr0_fixed0: 0x8000_0021,
    cr0_fixed1: 0xffff_ffff,
    cr4_fixed0: 0x2000,
    cr4_fixed1: 0x3f_ffff,
};

fn segment(selector: u16, base: u64) -> Segment {
    Segment { selector, base, limit: 0xf_ffff, access_rights: SegmentAccessRights { bits: 0xa09b } }
}

fn linux() -> LinuxContext {
    LinuxContext {
        rsp: 0xffff_c900_0000_1000,
        rip: 0xffff_ffff_8100_0000,
        rbx: 1,
        rbp: 2,
        r12: 3,
        r13: 4,
        r14: 5,
        r15: 6,
        es: segment(0, 0),
        cs: segment(0x10, 0),
        ss: segment(0x18, 0),
        ds: segment(0x1b, 0),
        fs: segment(0x23, 0x7f00_0000_0000),
        gs: segment(0x2b, 0xffff_8880_0000_0000),
        tss: segment(0x40, 0xffff_fe00_0000_3000),
        gdt: DescriptorTablePointer { limit: 0x7f, base: 0xffff_fe00_0000_1000 },
        idt: DescriptorTablePointer { limit: 0xfff, base: 0xffff_fe00_0000_0000 },
        cr0: 0x8005_0033,
        cr3: 0x1234_5abc,
        cr4: 0x17_06b0,
        efer: 0xd01,
        star: 0x23_0010 << 32,
        lstar: 0xffff_ffff_8160_0000,
        cstar: 0xffff_ffff_8160_1000,
        fmask: 0x4_7700,
        pat: 0x0407_0506_0007_0106,
    }
}

fn features() -> CpuFeatures {
    CpuFeatures {
        perf_monitor_version_id: 4,
        has_xsave: true,
        has_rdtscp: true,
        has_invpcid: true,
        has_xsaves_xrstors: true,
    }
}

fn unreadable() -> HvError {
    HvError::new(HvErrorNum::EIO, "VMREAD failed")
}

fn vmxon_env() -> VmxonEnv {
    VmxonEnv {
        feature: Ok(()),
        features: features(),
        feature_control: 0x5,
        revision_id: 0x12,
        vmxon_frame: Ok(Frame { start_paddr: 0x10_0000 }),
        vmcs_frame: Ok(Frame { start_paddr: 0x10_1000 }),
        host_cr0: 0x8000_0021,
        host_cr4: 0x20,
        stack_top: 0xffff_ff00_0007_fff8,
        fixed: FIXED,
    }
}

fn vmcs_env() -> VmcsEnv {
    VmcsEnv {
        host: HostState {
            pat: 0x07_0106,
            efer: 0xd00,
            cr0: 0x8000_0031,
            cr3: 0x3b00_0000,
            cr4: 0x4_2020,
            gs_base: 0xffff_ff00_0000_0000,
            kcode_selector: 0x8,
            tss_selector: 0x10,
            gdt_base: 0xffff_ff00_0001_0000,
            idt_base: 0xffff_ff00_0002_0000,
            rsp: 0xffff_ff00_0000_0078,
            rip: 0xffff_ff00_1000_0000,
        },
        sysenter: SysenterMsrs { cs: 0x7_0000_0010, esp: 0x2000, eip: 0x3000 },
        caps: VmxCapabilities {
            pinbased_ctls: 0x11,
            procbased_ctls: 0x22,
            procbased_ctls2: 0x33,
            exit_ctls: 0x44,
            entry_ctls: 0x55,
        },
        features: features(),
        msr_bitmap: 0x20_0000,
    }
}

fn config() -> HvSystemConfig {
    HvSystemConfig {
        hypervisor_memory: HvMemoryRegion {
            phys_start: 0x3a00_0000,
            virt_start: 0,
            size: 0x500_0000,
            flags: MemFlags { bits: 3 },
        },
        root_cell: CellDesc { mem_regions: vec![] },
    }
}

fn performed(hw: &mut HwQueue) -> Vec<HwOp> {
    let mut ops = Vec::new();
    while let Some(op) = hw.next() {
        ops.push(op);
        assert!(hw.complete(Ok(())).is_ok());
    }
    ops
}

fn turned_on() -> Vcpu {
    Vcpu::new(&linux(), vmxon_env(), &mut HwQueue::new()).ok().unwrap()
}

fn set_up(linux: &LinuxContext) -> (Vcpu, Vec<HwOp>) {
    let mut vcpu = turned_on();
    let config = config();
    let cell = Cell::new_root(&config, 0x7_7000, &vec![Ok(())]).unwrap();
    let mut hw = HwQueue::new();
    vcpu.vmcs_setup(linux, &cell, &vmcs_env(), &mut hw);
    (vcpu, performed(&mut hw))
}

/// The last value that was written to a field.
fn written(ops: &Vec<HwOp>, field: VmcsField) -> Option<u64> {
    let mut value = None;
    for op in ops {
        if let HwOp::VmcsWrite(f, v) = op {
            if *f == field {
                value = Some(*v);
            }
        }
    }
    value
}

#[test]
fn vmx_is_turned_on() {
    let mut hw = HwQueue::new();
    let vcpu = Vcpu::new(&linux(), vmxon_env(), &mut hw).ok().unwrap();
    assert_eq!(
        performed(&mut hw),
        vec![
            HwOp::WriteMsr(Msr::IA32_PERF_GLOBAL_CTRL, 0),
            HwOp::InitVmxRegion { paddr: 0x10_0000, revision_id: 0x12, shadow: false },
            HwOp::InitVmxRegion { paddr: 0x10_1000, revision_id: 0x12, shadow: false },
            HwOp::WriteCr0(0x8000_0021),
            HwOp::WriteCr4(0x4_2020),
            HwOp::VmxOn(0x10_0000),
        ]
    );
    assert_eq!(*vcpu.regs(), GeneralRegisters::default());
    assert_eq!(vcpu.host_stack_top(), 0xffff_ff00_0007_fff8);
}

#[test]
fn unlocked_feature_control_is_locked() {
    let mut env = vmxon_env();
    env.feature_control = 0x2;
    env.features.perf_monitor_version_id = 0;
    env.features.has_xsave = false;
    let mut hw = HwQueue::new();
    assert!(Vcpu::new(&linux(), env, &mut hw).is_ok());
    let ops = performed(&mut hw);
    assert_eq!(ops[0], HwOp::WriteFeatureControl(0x7));
    assert_eq!(ops[4], HwOp::WriteCr4(0x2020));
    assert_eq!(ops.len(), 6);
}

#[test]
fn vmx_in_use_is_busy() {
    let mut linux = linux();
    linux.cr4 |= 0x2000;
    let mut hw = HwQueue::new();
    assert_eq!(
        Vcpu::new(&linux, vmxon_env(), &mut hw).err(),
        Some(HvError::new(HvErrorNum::EBUSY, "VMX is already turned on!"))
    );
    assert_eq!(performed(&mut hw), vec![HwOp::WriteMsr(Msr::IA32_PERF_GLOBAL_CTRL, 0)]);
}

#[test]
fn locked_out_by_the_firmware() {
    let mut env = vmxon_env();
    env.feature_control = 0x1;
    let mut hw = HwQueue::new();
    assert_eq!(
        Vcpu::new(&linux(), env, &mut hw).err(),
        Some(HvError::new(HvErrorNum::ENODEV, "VMX disabled by BIOS!"))
    );
    assert_eq!(performed(&mut hw), vec![HwOp::WriteMsr(Msr::IA32_PERF_GLOBAL_CTRL, 0)]);
}

#[test]
fn processor_without_vmx() {
    let missing = HvError::new(HvErrorNum::ENODEV, "CPU does not support required features!");
    let mut env = vmxon_env();
    env.feature = Err(missing);
    let mut hw = HwQueue::new();
    assert_eq!(Vcpu::new(&linux(), env, &mut hw).err(), Some(missing));
    assert_eq!(hw.next(), None);
}

#[test]
fn no_page_for_a_vmx_region() {
    let full = HvError::new(HvErrorNum::ENOMEM, "");
    let mut env = vmxon_env();
    env.vmcs_frame = Err(full);
    let mut hw = HwQueue::new();
    assert_eq!(Vcpu::new(&linux(), env, &mut hw).err(), Some(full));
    assert_eq!(performed(&mut hw).len(), 2);
    let mut env = vmxon_env();
    env.vmxon_frame = Err(full);
    assert_eq!(Vcpu::new(&linux(), env, &mut hw).err(), Some(full));
    assert_eq!(performed(&mut hw).len(), 1);
}

#[test]
fn regions_are_stamped() {
    let mut hw = HwQueue::new();
    let region = VmxRegion::new(Ok(Frame { start_paddr: 0x5000 }), 7, true, &mut hw).unwrap();
    assert_eq!(region.paddr(), 0x5000);
    assert_eq!(
        performed(&mut hw),
        vec![HwOp::InitVmxRegion { paddr: 0x5000, revision_id: 7, shadow: true }]
    );
}

#[test]
fn host_state_is_filled_in() {
    let (_, ops) = set_up(&linux());
    assert_eq!(ops[0], HwOp::VmcsClear(0x10_1000));
    assert_eq!(ops[1], HwOp::VmcsLoad(0x10_1000));
    let host = vmcs_env().host;
    for (field, value) in [
        (VmcsField::HostPat, host.pat),
        (VmcsField::HostEfer, host.efer),
        (VmcsField::HostCr0, host.cr0),
        (VmcsField::HostCr3, host.cr3),
        (VmcsField::HostCr4, host.cr4),
        (VmcsField::HostSelector(SegReg::ES), 0),
        (VmcsField::HostSelector(SegReg::CS), 0x8),
        (VmcsField::HostSelector(SegReg::SS), 0),
        (VmcsField::HostSelector(SegReg::DS), 0),
        (VmcsField::HostSelector(SegReg::FS), 0),
        (VmcsField::HostSelector(SegReg::GS), 0),
        (VmcsField::HostSelector(SegReg::TR), 0x10),
        (VmcsField::HostFsBase, 0),
        (VmcsField::HostGsBase, host.gs_base),
        (VmcsField::HostTrBase, 0),
        (VmcsField::HostGdtrBase, host.gdt_base),
        (VmcsField::HostIdtrBase, host.idt_base),
        (VmcsField::HostSysenterCs, 0),
        (VmcsField::HostSysenterEsp, 0),
        (VmcsField::HostSysenterEip, 0),
        (VmcsField::HostRsp, host.rsp),
        (VmcsField::HostRip, host.rip),
    ] {
        assert_eq!(written(&ops, field), Some(value));
    }
}

#[test]
fn guest_state_is_filled_in() {
    let linux = linux();
    let (_, ops) = set_up(&linux);
    for (field, value) in [
        (VmcsField::GuestPat, linux.pat),
        (VmcsField::GuestEfer, linux.efer),
        (VmcsField::GuestCr0, 0x8005_0033),
        (VmcsField::Cr0ReadShadow, 0x8005_0033),
        (VmcsField::Cr0GuestHostMask, 0xffff_ffff_6000_0020),
        (VmcsField::GuestCr3, linux.cr3),
        (VmcsField::GuestCr4, 0x17_26b0),
        (VmcsField::Cr4ReadShadow, 0x17_26b0),
        (VmcsField::GuestSelector(SegReg::CS), 0x10),
        (VmcsField::GuestBase(SegReg::GS), 0xffff_8880_0000_0000),
        (VmcsField::GuestLimit(SegReg::TR), 0xf_ffff),
        (VmcsField::GuestArBytes(SegReg::SS), 0xa09b),
        (VmcsField::GuestSelector(SegReg::LDTR), 0),
        (VmcsField::GuestArBytes(SegReg::LDTR), 0x1_0000),
        (VmcsField::GuestGdtrBase, linux.gdt.base),
        (VmcsField::GuestGdtrLimit, 0x7f),
        (VmcsField::GuestIdtrBase, linux.idt.base),
        (VmcsField::GuestIdtrLimit, 0xfff),
        (VmcsField::GuestRsp, linux.rsp),
        (VmcsField::GuestRip, linux.rip),
        (VmcsField::GuestRflags, 0x2),
        (VmcsField::GuestSysenterCs, 0x10),
        (VmcsField::GuestSysenterEsp, 0x2000),
        (VmcsField::GuestSysenterEip, 0x3000),
        (VmcsField::GuestDr7, 0x400),
        (VmcsField::GuestDebugctl, 0),
        (VmcsField::GuestActivityState, 0),
        (VmcsField::GuestInterruptibilityInfo, 0),
        (VmcsField::GuestPendingDbgExceptions, 0),
        (VmcsField::VmcsLinkPointer, u64::MAX),
        (VmcsField::VmxPreemptionTimerValue, 0),
    ] {
        assert_eq!(written(&ops, field), Some(value));
    }
}

#[test]
fn controls_are_asked_for() {
    let (_, ops) = set_up(&linux());
    let controls = &ops[ops.len() - 13..];
    assert_eq!(
        controls.to_vec(),
        vec![
            HwOp::VmcsControl(ControlRequest {
                field: VmcsField::PinBasedVmExecControl,
                capability: 0x11,
                set: 0x8,
                clear: 0,
            }),
            HwOp::VmcsControl(ControlRequest {
                field: VmcsField::ProcBasedVmExecControl,
                capability: 0x22,
                set: 0x9000_0000,
                clear: 0x1_8000,
            }),
            HwOp::VmcsControl(ControlRequest {
                field: VmcsField::SecondaryVmExecControl,
                capability: 0x33,
                set: 0x10_108a,
                clear: 0,
            }),
            HwOp::VmcsControl(ControlRequest {
                field: VmcsField::VmExitControls,
                capability: 0x44,
                set: 0x3c_0200,
                clear: 0,
            }),
            HwOp::VmcsControl(ControlRequest {
                field: VmcsField::VmEntryControls,
                capability: 0x55,
                set: 0xc200,
                clear: 0,
            }),
            HwOp::VmcsWrite(VmcsField::VmExitMsrStoreCount, 0),
            HwOp::VmcsWrite(VmcsField::VmExitMsrLoadCount, 0),
            HwOp::VmcsWrite(VmcsField::VmEntryMsrLoadCount, 0),
            HwOp::VmcsWrite(VmcsField::Cr4GuestHostMask, 0),
            HwOp::VmcsWrite(VmcsField::Cr3TargetCount, 0),
            HwOp::ActivateGuestMemory(0x7_7000),
            HwOp::VmcsWrite(VmcsField::MsrBitmap, 0x20_0000),
            HwOp::VmcsWrite(VmcsField::ExceptionBitmap, 0),
        ]
    );
}

#[test]
fn secondary_controls_follow_the_processor() {
    let config = config();
    let cell = Cell::new_root(&config, 0x7_7000, &vec![Ok(())]).unwrap();
    let mut hw = HwQueue::new();
    let none = CpuFeatures {
        perf_monitor_version_id: 0,
        has_xsave: false,
        has_rdtscp: false,
        has_invpcid: false,
        has_xsaves_xrstors: false,
    };
    turned_on().setup_vmcs_control(&cell, &vmcs_env().caps, &none, 0x20_0000, &mut hw);
    match performed(&mut hw)[2] {
        HwOp::VmcsControl(request) => assert_eq!(request.set, 0x82),
        _ => panic!("no control request"),
    }
}

#[test]
fn guest_reads_back_what_it_was_set_up_with() {
    let linux = linux();
    let (vcpu, _) = set_up(&linux);
    assert_eq!(vcpu.instr_pointer(), linux.rip);
    assert_eq!(vcpu.stack_pointer(), linux.rsp);
    assert_eq!(vcpu.rflags(), 0x2);
    assert_eq!(vcpu.fs_base(), linux.fs.base);
    assert_eq!(vcpu.gs_base(), linux.gs.base);
    assert_eq!(vcpu.cr(0), 0x8005_0033);
    assert_eq!(vcpu.cr(3), linux.cr3);
    assert_eq!(vcpu.cr(4), 0x17_26b0);
    assert_eq!(vcpu.guest_page_table().root, 0x1234_5000);
    assert!(vcpu.guest_is_privileged());
    assert!(!vcpu.in_hypercall());
    let dump = vcpu.dump();
    assert_eq!(dump.rip, linux.rip);
    assert_eq!(dump.rsp, linux.rsp);
    assert_eq!(dump.rflags, 0x2);
    assert_eq!(dump.cr0, 0x8005_0033);
    assert_eq!(dump.cr3, linux.cr3);
    assert_eq!(dump.cr4, 0x17_26b0);
    assert_eq!(dump.cs, 0x10);
    assert_eq!(dump.tss, 0x40);
    assert_eq!(dump.fs_base, linux.fs.base);
    assert_eq!(dump.gs_base, linux.gs.base);
    assert_eq!(dump.guest_regs, GeneralRegisters::default());
}

#[test]
fn cr0_is_held_to_what_is_allowed() {
    let mut vcpu = turned_on();
    let mut hw = HwQueue::new();
    // CD and NW are refused, NE comes by itself, PE and PG are the guest's own.
    vcpu.set_cr(0, 0x6000_0010, &mut hw);
    assert_eq!(vcpu.cr(0), 0x30);
    assert_eq!(
        performed(&mut hw),
        vec![
            HwOp::VmcsWrite(VmcsField::GuestCr0, 0x30),
            HwOp::VmcsWrite(VmcsField::Cr0ReadShadow, 0x6000_0010),
            HwOp::VmcsWrite(VmcsField::Cr0GuestHostMask, 0xffff_ffff_6000_0020),
        ]
    );
}

#[test]
fn cr4_reads_as_it_was_set_with_vmxe() {
    let mut vcpu = turned_on();
    let mut hw = HwQueue::new();
    // Bit 30 is not allowed: the guest sees it set all the same.
    vcpu.set_cr(4, 0x4000_0020, &mut hw);
    assert_eq!(vcpu.cr(4), 0x4000_2020);
    assert_eq!(
        performed(&mut hw),
        vec![
            HwOp::VmcsWrite(VmcsField::GuestCr4, 0x2020),
            HwOp::VmcsWrite(VmcsField::Cr4ReadShadow, 0x4000_2020),
            HwOp::VmcsWrite(VmcsField::Cr4GuestHostMask, 0xffff_ffff_ffc0_2000),
        ]
    );
}

#[test]
fn control_registers_do_not_touch_each_other() {
    let mut vcpu = turned_on();
    let mut hw = HwQueue::new();
    vcpu.set_cr(0, 0x8000_0031, &mut hw);
    vcpu.set_cr(3, 0x9000, &mut hw);
    vcpu.set_cr(4, 0x20, &mut hw);
    vcpu.set_cr(3, 0xa000, &mut hw);
    assert_eq!(vcpu.cr(0), 0x8000_0031);
    assert_eq!(vcpu.cr(3), 0xa000);
    assert_eq!(vcpu.cr(4), 0x2020);
}

#[test]
fn guest_is_entered_with_the_registers_of_linux() {
    let mut vcpu = turned_on();
    vcpu.regs_mut().rcx = 77;
    vcpu.regs_mut().rax = 78;
    assert_eq!(vcpu.enter(&linux()), Err(HvError::new(HvErrorNum::EIO, "")));
    let regs = vcpu.regs();
    assert_eq!(regs.rax, 0);
    assert_eq!(regs.rcx, 77);
    assert_eq!((regs.rbx, regs.rbp), (1, 2));
    assert_eq!((regs.r12, regs.r13, regs.r14, regs.r15), (3, 4, 5, 6));
    vcpu.set_return_val(9);
    assert_eq!(vcpu.regs().rax, 9);
}

#[test]
fn leaving_at_once_gives_linux_back() {
    let before = linux();
    let (vcpu, _) = set_up(&before);
    let mut after = before;
    let mut hw = HwQueue::new();
    assert_eq!(vcpu.exit(&mut after, &mut hw), Ok(()));
    assert_eq!(after, before);
    assert_eq!(
        performed(&mut hw),
        vec![
            HwOp::WriteMsr(Msr::IA32_SYSENTER_CS, 0x10),
            HwOp::WriteMsr(Msr::IA32_SYSENTER_ESP, 0x2000),
            HwOp::WriteMsr(Msr::IA32_SYSENTER_EIP, 0x3000),
            HwOp::VmcsClear(0x10_1000),
            HwOp::VmxOff,
        ]
    );
}

fn all_readings() -> Vec<(VmcsField, HvResult<u64>)> {
    vec![
        (VmcsField::GuestRip, Ok(0x100)),
        (VmcsField::GuestRsp, Ok(0x200)),
        (VmcsField::GuestCr0, Ok(u64::MAX)),
        (VmcsField::GuestCr3, Ok(0x300)),
        (VmcsField::GuestCr4, Ok(u64::MAX)),
        (VmcsField::GuestSelector(SegReg::ES), Ok(0x11)),
        (VmcsField::GuestSelector(SegReg::CS), Ok(0x12)),
        (VmcsField::GuestSelector(SegReg::SS), Ok(0x13)),
        (VmcsField::GuestSelector(SegReg::DS), Ok(0x14)),
        (VmcsField::GuestSelector(SegReg::FS), Ok(0x15)),
        (VmcsField::GuestBase(SegReg::FS), Ok(0x1500)),
        (VmcsField::GuestSelector(SegReg::GS), Ok(0x16)),
        (VmcsField::GuestBase(SegReg::GS), Ok(0x1600)),
        (VmcsField::GuestSelector(SegReg::TR), Ok(0x17)),
        (VmcsField::GuestGdtrBase, Ok(0x8000_0000_0000)),
        (VmcsField::GuestGdtrLimit, Ok(0x1_0057)),
        (VmcsField::GuestIdtrBase, Ok(0x7fff_ffff_f000)),
        (VmcsField::GuestIdtrLimit, Ok(0xfff)),
        (VmcsField::GuestSysenterCs, Ok(0x1_0000_0020)),
        (VmcsField::GuestSysenterEsp, Ok(0x21)),
        (VmcsField::GuestSysenterEip, Ok(0x22)),
    ]
}

#[test]
fn linux_continues_where_the_guest_is() {
    let mut vcpu = turned_on();
    vcpu.refresh(all_readings());
    let before = linux();
    let mut after = before;
    let mut hw = HwQueue::new();
    assert_eq!(vcpu.load_vmcs_guest(&mut after, &mut hw), Ok(()));
    assert_eq!(
        after,
        LinuxContext {
            rip: 0x100,
            rsp: 0x200,
            cr0: 0xe005_003f,
            cr3: 0x300,
            cr4: 0x01ff_5fff,
            es: Segment { selector: 0x11, ..before.es },
            cs: Segment { selector: 0x12, ..before.cs },
            ss: Segment { selector: 0x13, ..before.ss },
            ds: Segment { selector: 0x14, ..before.ds },
            fs: Segment { selector: 0x15, base: 0x1500, ..before.fs },
            gs: Segment { selector: 0x16, base: 0x1600, ..before.gs },
            tss: Segment { selector: 0x17, ..before.tss },
            gdt: DescriptorTablePointer { base: 0xffff_8000_0000_0000, limit: 0x57 },
            idt: DescriptorTablePointer { base: 0x7fff_ffff_f000, limit: 0xfff },
            ..before
        }
    );
    assert_eq!(
        performed(&mut hw),
        vec![
            HwOp::WriteMsr(Msr::IA32_SYSENTER_CS, 0x20),
            HwOp::WriteMsr(Msr::IA32_SYSENTER_ESP, 0x21),
            HwOp::WriteMsr(Msr::IA32_SYSENTER_EIP, 0x22),
        ]
    );
}

#[test]
fn a_field_that_cannot_be_read_ends_it() {
    let first = HvError::new(HvErrorNum::EFAULT, "no such field");
    let count = all_readings().len();
    for missing in 0..count {
        let mut readings = all_readings();
        for later in missing + 1..count {
            readings[later].1 = Err(unreadable());
        }
        readings[missing].1 = Err(first);
        let mut vcpu = turned_on();
        vcpu.refresh(readings);
        let before = linux();
        let mut after = before;
        let mut hw = HwQueue::new();
        assert_eq!(vcpu.exit(&mut after, &mut hw), Err(first));
        assert_eq!(after.rip == before.rip, missing == 0);
        assert_eq!(after.cr3 == before.cr3, missing <= 3);
        assert_eq!(after.tss == before.tss, missing <= 13);
        assert_eq!(after.idt.limit, 0xfff);
        assert_eq!(performed(&mut hw).len(), if missing > 18 { missing - 18 } else { 0 });
    }
}

#[test]
fn the_guest_moves_on() {
    let (mut vcpu, _) = set_up(&linux());
    let mut hw = HwQueue::new();
    assert_eq!(vcpu.advance_rip(3, &mut hw), Ok(()));
    assert_eq!(vcpu.instr_pointer(), 0xffff_ffff_8100_0003);
    vcpu.set_stack_pointer(0x6000, &mut hw);
    assert_eq!(vcpu.stack_pointer(), 0x6000);
    assert_eq!(
        performed(&mut hw),
        vec![
            HwOp::VmcsWrite(VmcsField::GuestRip, 0xffff_ffff_8100_0003),
            HwOp::VmcsWrite(VmcsField::GuestRsp, 0x6000),
        ]
    );
    vcpu.refresh(vec![(VmcsField::GuestRip, Err(unreadable()))]);
    assert_eq!(vcpu.advance_rip(3, &mut hw), Err(unreadable()));
    assert_eq!(hw.next(), None);
}

#[test]
fn the_guest_gets_a_fault() {
    let mut vcpu = turned_on();
    let mut hw = HwQueue::new();
    assert_eq!(vcpu.inject_fault(&mut hw), Ok(()));
    assert_eq!(performed(&mut hw), vec![HwOp::InjectException { vector: 13, error_code: 0 }]);
}

#[test]
fn exits_are_told_apart() {
    let mut vcpu = turned_on();
    vcpu.refresh(vec![
        (VmcsField::ExitReason, Ok(EXIT_REASON_VMCALL)),
        (VmcsField::GuestArBytes(SegReg::CS), Ok(0xa0fb)),
    ]);
    assert!(vcpu.in_hypercall());
    assert!(!vcpu.guest_is_privileged());
    vcpu.refresh(vec![
        (VmcsField::ExitReason, Ok(10)),
        (VmcsField::GuestArBytes(SegReg::CS), Ok(0xa09b)),
    ]);
    assert!(!vcpu.in_hypercall());
    assert!(vcpu.guest_is_privileged());
    vcpu.refresh(vec![(VmcsField::ExitReason, Err(unreadable()))]);
    assert!(!vcpu.in_hypercall());
}

#[test]
fn vmcs_keeps_the_last_value_of_a_field() {
    let mut vmcs = Vmcs::new(vec![
        (VmcsField::GuestRip, Ok(1)),
        (VmcsField::GuestRsp, Ok(2)),
        (VmcsField::GuestRsp, Err(unreadable())),
        (VmcsField::EptPointer, Ok(3)),
    ]);
    let mut hw = HwQueue::new();
    assert_eq!(vmcs.read(VmcsField::GuestRip), Ok(1));
    assert_eq!(vmcs.read(VmcsField::GuestRsp), Err(unreadable()));
    assert_eq!(vmcs.reading(VmcsField::GuestRsp), Some(Err(unreadable())));
    assert_eq!(vmcs.reading(VmcsField::GuestCr3), None);
    vmcs.write(VmcsField::GuestRip, 5, &mut hw);
    vmcs.write(VmcsField::GuestRsp, 6, &mut hw);
    assert_eq!(vmcs.read(VmcsField::GuestRip), Ok(5));
    assert_eq!(vmcs.read(VmcsField::GuestRsp), Ok(6));
    vmcs.queue(HwOp::ActivateGuestMemory(0x1000), &mut hw);
    assert_eq!(vmcs.reading(VmcsField::EptPointer), None);
    assert_eq!(vmcs.read(VmcsField::GuestRip), Ok(5));
    vmcs.queue(HwOp::VmcsClear(0x2000), &mut hw);
    assert_eq!(vmcs.reading(VmcsField::GuestRip), None);
    assert_eq!(performed(&mut hw).len(), 4);
}

#[test]
fn fields_are_written_in_order() {
    let (_, ops) = set_up(&linux());
    assert_eq!(ops.len(), 2 + 22 + 58 + 13);
    let host: Vec<HwOp> = ops[2..24].to_vec();
    assert_eq!(host[0], HwOp::VmcsWrite(VmcsField::HostPat, 0x07_0106));
    assert_eq!(host[17], HwOp::VmcsWrite(VmcsField::HostSysenterEsp, 0));
    assert_eq!(host[21], HwOp::VmcsWrite(VmcsField::HostRip, 0xffff_ff00_1000_0000));
    let guest: Vec<HwOp> = ops[24..82].to_vec();
    assert_eq!(guest[0], HwOp::VmcsWrite(VmcsField::GuestPat, 0x0407_0506_0007_0106));
    assert_eq!(guest[2], HwOp::VmcsWrite(VmcsField::GuestCr0, 0x8005_0033));
    assert_eq!(guest[5], HwOp::VmcsWrite(VmcsField::GuestCr4, 0x17_26b0));
    assert_eq!(guest[8], HwOp::VmcsWrite(VmcsField::GuestCr3, 0x1234_5abc));
    assert_eq!(guest[9], HwOp::VmcsWrite(VmcsField::GuestSelector(SegReg::ES), 0));
    assert_eq!(guest[13], HwOp::VmcsWrite(VmcsField::GuestSelector(SegReg::CS), 0x10));
    assert_eq!(guest[40], HwOp::VmcsWrite(VmcsField::GuestArBytes(SegReg::LDTR), 0x1_0000));
    assert_eq!(guest[45], HwOp::VmcsWrite(VmcsField::GuestRsp, 0xffff_c900_0000_1000));
    assert_eq!(guest[46], HwOp::VmcsWrite(VmcsField::GuestRip, 0xffff_ffff_8100_0000));
    assert_eq!(guest[47], HwOp::VmcsWrite(VmcsField::GuestRflags, 0x2));
    assert_eq!(guest[57], HwOp::VmcsWrite(VmcsField::VmxPreemptionTimerValue, 0));
}
