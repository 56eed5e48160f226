//! Register contexts: what Linux had when it called the hypervisor, and the guest's
//! general purpose registers.

use vstd::prelude::*;
use crate::arch::registers::canonical;

verus! {

/// The vector of the general protection fault.
pub const GENERAL_PROTECTION_FAULT: u8 = 13;

/// A guest that faults gets exception 13, as the processor numbers them.
pub proof fn faults_are_general_protection_faults()
    ensures
        GENERAL_PROTECTION_FAULT == 13,
{
}

/// The general purpose registers that are saved when the guest exits.
#[derive(Clone, Copy, Debug, PartialEq, Eq, Structural)]
pub struct GeneralRegisters {
    pub rax: u64,
    pub rcx: u64,
    pub rdx: u64,
    pub rbx: u64,
    pub rbp: u64,
    pub rsi: u64,
    pub rdi: u64,
    pub r8: u64,
    pub r9: u64,
    pub r10: u64,
    pub r11: u64,
    pub r12: u64,
    pub r13: u64,
    pub r14: u64,
    pub r15: u64,
}

impl GeneralRegisters {
    /// All registers clear.
    pub open spec fn zero() -> Self {
        GeneralRegisters {
            rax: 0,
            rcx: 0,
            rdx: 0,
            rbx: 0,
            rbp: 0,
            rsi: 0,
            rdi: 0,
            r8: 0,
            r9: 0,
            r10: 0,
            r11: 0,
            r12: 0,
            r13: 0,
            r14: 0,
            r15: 0,
        }
    }

    /// These registers with the ones that a callee has to preserve taken from Linux, and
    /// with the given accumulator.
    pub open spec fn entering(self, rax: u64, linux: LinuxContext) -> Self {
        GeneralRegisters {
            rax,
            rbx: linux.rbx,
            rbp: linux.rbp,
            r12: linux.r12,
            r13: linux.r13,
            r14: linux.r14,
            r15: linux.r15,
            ..self
        }
    }

    /// Loads the registers with which the guest continues Linux.
    pub(crate) fn enter(&mut self, rax: u64, linux: &LinuxContext)
        ensures
            *final(self) == old(self).entering(rax, *linux),
            final(self).rbx == linux.rbx,
            final(self).rbp == linux.rbp,
            final(self).r12 == linux.r12,
            final(self).r13 == linux.r13,
            final(self).r14 == linux.r14,
            final(self).r15 == linux.r15,
    {
        self.rax = rax;
        self.rbx = linux.rbx;
        self.rbp = linux.rbp;
        self.r12 = linux.r12;
        self.r13 = linux.r13;
        self.r14 = linux.r14;
        self.r15 = linux.r15;
    }
}

impl Default for GeneralRegisters {
    fn default() -> (r: Self)
        ensures
            r == GeneralRegisters::zero(),
    {
        GeneralRegisters {
            rax: 0,
            rcx: 0,
            rdx: 0,
            rbx: 0,
            rbp: 0,
            rsi: 0,
            rdi: 0,
            r8: 0,
            r9: 0,
            r10: 0,
            r11: 0,
            r12: 0,
            r13: 0,
            r14: 0,
            r15: 0,
        }
    }
}

/// The access rights of a segment, in the layout of the VMCS.
#[derive(Clone, Copy, Debug, PartialEq, Eq, Structural)]
pub struct SegmentAccessRights {
    pub bits: u32,
}

/// The access right that marks a segment as not usable.
pub const SEGMENT_UNUSABLE: u32 = 0x1_0000;

impl SegmentAccessRights {
    /// The descriptor privilege level: bits 5 and 6.
    pub open spec fn privilege(self) -> int {
        (self.bits as int / 32) % 4
    }

    /// The attributes as the VMCB holds them: bits 0 to 7 stay, bits 12 to 15 follow them, and
    /// the rest is left out.
    pub open spec fn svm_attributes(self) -> int {
        self.bits as int % 256 + ((self.bits as int / 4096) % 16) * 256
    }

    /// The descriptor privilege level.
    pub fn dpl(&self) -> (dpl: u8)
        ensures
            dpl == self.privilege(),
    {
        let bits: u32 = self.bits;
        assert(((bits >> 5) & 3) as u8 == (bits / 32) % 4) by (bit_vector);
        ((bits >> 5) & 3) as u8
    }

    /// The attributes as the VMCB holds them.
    pub fn as_svm_segment_attributes(&self) -> (attr: u16)
        ensures
            attr == self.svm_attributes(),
    {
        let bits: u32 = self.bits;
        assert(((bits & 0xff) | ((bits & 0xf000) >> 4)) as u16 == bits % 256 + ((bits / 4096) % 16)
            * 256) by (bit_vector);
        ((bits & 0xff) | ((bits & 0xf000) >> 4)) as u16
    }
}

/// A segment register with its hidden part.
#[derive(Clone, Copy, Debug, PartialEq, Eq, Structural)]
pub struct Segment {
    pub selector: u16,
    pub base: u64,
    pub limit: u32,
    pub access_rights: SegmentAccessRights,
}

impl Segment {
    /// A segment that cannot be used.
    pub open spec fn unusable() -> Self {
        Segment {
            selector: 0,
            base: 0,
            limit: 0,
            access_rights: SegmentAccessRights { bits: SEGMENT_UNUSABLE },
        }
    }

    /// A segment that cannot be used.
    pub fn invalid() -> (s: Self)
        ensures
            s == Segment::unusable(),
    {
        Segment {
            selector: 0,
            base: 0,
            limit: 0,
            access_rights: SegmentAccessRights { bits: SEGMENT_UNUSABLE },
        }
    }
}

/// Where a descriptor table lies.
#[derive(Clone, Copy, Debug, PartialEq, Eq, Structural)]
pub struct DescriptorTablePointer {
    pub limit: u16,
    pub base: u64,
}

/// The state in which Linux called the hypervisor, and to which it goes back.
#[derive(Clone, Copy, Debug, PartialEq, Eq, Structural)]
pub struct LinuxContext {
    pub rsp: u64,
    pub rip: u64,
    pub rbx: u64,
    pub rbp: u64,
    pub r12: u64,
    pub r13: u64,
    pub r14: u64,
    pub r15: u64,
    pub es: Segment,
    pub cs: Segment,
    pub ss: Segment,
    pub ds: Segment,
    pub fs: Segment,
    pub gs: Segment,
    pub tss: Segment,
    pub gdt: DescriptorTablePointer,
    pub idt: DescriptorTablePointer,
    pub cr0: u64,
    pub cr3: u64,
    pub cr4: u64,
    pub efer: u64,
    pub star: u64,
    pub lstar: u64,
    pub cstar: u64,
    pub fmask: u64,
    pub pat: u64,
}

impl LinuxContext {
    /// The descriptor tables lie at canonical addresses.
    pub open spec fn wf(self) -> bool {
        canonical(self.gdt.base) && canonical(self.idt.base)
    }
}

/// All registers start clear.
pub proof fn registers_start_clear()
    ensures
        ({
            let r = GeneralRegisters::zero();
            &&& r.rax == 0 && r.rcx == 0 && r.rdx == 0 && r.rbx == 0 && r.rbp == 0
            &&& r.rsi == 0 && r.rdi == 0
            &&& r.r8 == 0 && r.r9 == 0 && r.r10 == 0 && r.r11 == 0
            &&& r.r12 == 0 && r.r13 == 0 && r.r14 == 0 && r.r15 == 0
        }),
{
}

/// A guest that is entered has every register that a callee preserves from Linux, in full, and the
/// accumulator that it is given; the other registers are what they were.
pub proof fn the_guest_goes_on_with_linux_registers(
    regs: GeneralRegisters,
    rax: u64,
    linux: LinuxContext,
)
    ensures
        ({
            let guest = regs.entering(rax, linux);
            &&& guest.rbx == linux.rbx
            &&& guest.rbp == linux.rbp
            &&& guest.r12 == linux.r12
            &&& guest.r13 == linux.r13
            &&& guest.r14 == linux.r14
            &&& guest.r15 == linux.r15
            &&& guest.rax == rax
            &&& guest.rcx == regs.rcx
            &&& guest.rdx == regs.rdx
            &&& guest.rsi == regs.rsi
            &&& guest.rdi == regs.rdi
            &&& guest.r8 == regs.r8
            &&& guest.r9 == regs.r9
            &&& guest.r10 == regs.r10
            &&& guest.r11 == regs.r11
        }),
{
}

/// The privilege level is what bits 5 and 6 of the access rights say.
pub proof fn privilege_is_bits_five_and_six(rights: SegmentAccessRights)
    ensures
        0 <= rights.privilege() < 4,
        rights.bits & 0x60 == rights.privilege() * 32,
{
    let bits = rights.bits;
    assert(bits & 0x60 == ((bits / 32) % 4) * 32) by (bit_vector);
}

/// The attributes in the VMCB are twelve bits: the low eight are bits 0 to 7 of the access rights,
/// the high four are bits 12 to 15.
pub proof fn svm_attributes_are_the_defined_bits(rights: SegmentAccessRights)
    ensures
        0 <= rights.svm_attributes() < 0x1000,
        rights.svm_attributes() % 0x100 == rights.bits & 0xff,
        rights.svm_attributes() / 0x100 == (rights.bits >> 12) & 0xf,
{
    let bits = rights.bits;
    assert(bits & 0xff == bits % 256 && (bits >> 12) & 0xf == (bits / 4096) % 16) by (bit_vector);
}

/// An unusable segment is marked as such, and is otherwise clear.
pub proof fn unusable_segments_are_marked()
    ensures
        Segment::unusable().selector == 0,
        Segment::unusable().base == 0,
        Segment::unusable().limit == 0,
        Segment::unusable().access_rights.bits == 0x1_0000,
{
}

} // verus!
