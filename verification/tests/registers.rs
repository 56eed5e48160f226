//! The bits that the hypervisor works with are those of the processor.

use rvm::arch::context::{
    DescriptorTablePointer, GeneralRegisters, Segment, SegmentAccessRights, SEGMENT_UNUSABLE,
};
use rvm::arch::hw::{HwOp, HwQueue, Msr};
use rvm::arch::intel::controls;
use rvm::arch::percpu::{ArchPerCpu, GdtStruct, TssStruct, HOST_PAT};
use rvm::arch::registers;
use x86::vmx::vmcs::control::{
    EntryControls, ExitControls, PinbasedControls, PrimaryControls, SecondaryControls,
};
use x86_64::registers::control::{Cr0Flags, Cr4Flags};
use x86_64::registers::model_specific::EferFlags;

fn performed(hw: &mut HwQueue) -> Vec<HwOp> {
    let mut ops = Vec::new();
    while let Some(op) = hw.next() {
        ops.push(op);
        assert!(hw.complete(Ok(())).is_ok());
    }
    ops
}

#[test]
fn control_register_bits() {
    assert_eq!(registers::CR0_PROTECTED_MODE_ENABLE, Cr0Flags::PROTECTED_MODE_ENABLE.bits());
    assert_eq!(registers::CR0_NOT_WRITE_THROUGH, Cr0Flags::NOT_WRITE_THROUGH.bits());
    assert_eq!(registers::CR0_CACHE_DISABLE, Cr0Flags::CACHE_DISABLE.bits());
    assert_eq!(registers::CR0_PAGING, Cr0Flags::PAGING.bits());
    assert_eq!(registers::CR0_DEFINED, Cr0Flags::all().bits());
    assert_eq!(
        registers::CR4_VIRTUAL_MACHINE_EXTENSIONS,
        Cr4Flags::VIRTUAL_MACHINE_EXTENSIONS.bits()
    );
    assert_eq!(registers::CR4_OSXSAVE, Cr4Flags::OSXSAVE.bits());
    assert_eq!(registers::CR4_DEFINED, Cr4Flags::all().bits());
    assert_eq!(
        registers::EFER_SECURE_VIRTUAL_MACHINE_ENABLE,
        EferFlags::SECURE_VIRTUAL_MACHINE_ENABLE.bits()
    );
}

#[test]
fn vmx_control_bits() {
    assert_eq!(controls::PIN_NMI_EXITING, PinbasedControls::NMI_EXITING.bits());
    assert_eq!(controls::PRIMARY_CR3_LOAD_EXITING, PrimaryControls::CR3_LOAD_EXITING.bits());
    assert_eq!(controls::PRIMARY_CR3_STORE_EXITING, PrimaryControls::CR3_STORE_EXITING.bits());
    assert_eq!(controls::PRIMARY_USE_MSR_BITMAPS, PrimaryControls::USE_MSR_BITMAPS.bits());
    assert_eq!(controls::PRIMARY_SEC_CONTROLS, PrimaryControls::SECONDARY_CONTROLS.bits());
    assert_eq!(controls::SECONDARY_EPT, SecondaryControls::ENABLE_EPT.bits());
    assert_eq!(controls::SECONDARY_RDTSCP, SecondaryControls::ENABLE_RDTSCP.bits());
    assert_eq!(
        controls::SECONDARY_UNRESTRICTED_GUEST,
        SecondaryControls::UNRESTRICTED_GUEST.bits()
    );
    assert_eq!(controls::SECONDARY_INVPCID, SecondaryControls::ENABLE_INVPCID.bits());
    assert_eq!(controls::SECONDARY_XSAVES, SecondaryControls::ENABLE_XSAVES_XRSTORS.bits());
    assert_eq!(
        controls::EXIT_HOST_ADDR_SPACE_SIZE,
        ExitControls::HOST_ADDRESS_SPACE_SIZE.bits()
    );
    assert_eq!(controls::EXIT_SAVE_IA32_PAT, ExitControls::SAVE_IA32_PAT.bits());
    assert_eq!(controls::EXIT_LOAD_IA32_PAT, ExitControls::LOAD_IA32_PAT.bits());
    assert_eq!(controls::EXIT_SAVE_IA32_EFER, ExitControls::SAVE_IA32_EFER.bits());
    assert_eq!(controls::EXIT_LOAD_IA32_EFER, ExitControls::LOAD_IA32_EFER.bits());
    assert_eq!(controls::ENTRY_IA32E_MODE, EntryControls::IA32E_MODE_GUEST.bits());
    assert_eq!(controls::ENTRY_LOAD_IA32_PAT, EntryControls::LOAD_IA32_PAT.bits());
    assert_eq!(controls::ENTRY_LOAD_IA32_EFER, EntryControls::LOAD_IA32_EFER.bits());
}

#[test]
fn access_rights() {
    let kernel_code = SegmentAccessRights { bits: 0xa09b };
    assert_eq!(kernel_code.dpl(), 0);
    assert_eq!(kernel_code.as_svm_segment_attributes(), 0xa9b);
    let user_data = SegmentAccessRights { bits: 0xc0f3 };
    assert_eq!(user_data.dpl(), 3);
    assert_eq!(user_data.as_svm_segment_attributes(), 0xcf3);
    let ring_two = SegmentAccessRights { bits: 0x40 };
    assert_eq!(ring_two.dpl(), 2);
}

#[test]
fn unusable_segment() {
    let none = Segment::invalid();
    assert_eq!(none.selector, 0);
    assert_eq!(none.base, 0);
    assert_eq!(none.limit, 0);
    assert_eq!(none.access_rights, SegmentAccessRights { bits: SEGMENT_UNUSABLE });
    assert_eq!(none.access_rights.as_svm_segment_attributes(), 0);
}

#[test]
fn registers_start_clear() {
    let regs = GeneralRegisters::default();
    assert_eq!(regs.rax | regs.rbx | regs.rcx | regs.rdx | regs.rsi | regs.rdi | regs.rbp, 0);
    assert_eq!(
        regs.r8 | regs.r9 | regs.r10 | regs.r11 | regs.r12 | regs.r13 | regs.r14 | regs.r15,
        0
    );
}

#[test]
fn descriptor_tables_are_taken_up_in_order() {
    let mut arch = ArchPerCpu {
        tss: TssStruct { addr: 0 },
        gdt: GdtStruct { addr: 0, kcode_selector: 0, tss_selector: 0 },
    };
    let mut hw = HwQueue::new();
    arch.init(
        TssStruct { addr: 0x1000 },
        GdtStruct { addr: 0x2000, kcode_selector: 0x8, tss_selector: 0x10 },
        &mut hw,
    );
    assert_eq!(arch.tss.addr, 0x1000);
    assert_eq!(arch.gdt, GdtStruct { addr: 0x2000, kcode_selector: 0x8, tss_selector: 0x10 });
    assert_eq!(
        performed(&mut hw),
        vec![
            HwOp::InitGdt { gdt: 0x2000, tss: 0x1000 },
            HwOp::LoadGdt(0x2000),
            HwOp::LoadEs(0),
            HwOp::LoadCs(0x8),
            HwOp::LoadSs(0),
            HwOp::LoadDs(0),
            HwOp::LoadIdt,
            HwOp::LoadTss(0x10),
            HwOp::WriteMsr(Msr::IA32_PAT, 0x070106),
        ]
    );
    assert_eq!(HOST_PAT, 0x070106);
}

#[test]
fn table_pointers_compare_by_value() {
    let a = DescriptorTablePointer { limit: 0x7f, base: 0x1000 };
    assert_eq!(a, DescriptorTablePointer { limit: 0x7f, base: 0x1000 });
    assert_ne!(a, DescriptorTablePointer { limit: 0x7f, base: 0x2000 });
}
