//! The virtual machine control block (VMCB), as far as the hypervisor uses it.

use vstd::prelude::*;
use crate::arch::context::{DescriptorTablePointer, Segment};

verus! {

/// A segment register or a descriptor table register of the guest.
#[derive(Clone, Copy, Debug, PartialEq, Eq, Structural)]
pub struct VmcbSegment {
    pub selector: u16,
    pub attr: u16,
    pub limit: u32,
    pub base: u64,
}

impl VmcbSegment {
    /// All clear.
    pub open spec fn zero() -> Self {
        VmcbSegment { selector: 0, attr: 0, limit: 0, base: 0 }
    }

    /// The register that holds a segment.
    pub open spec fn holding(seg: Segment) -> Self {
        VmcbSegment {
            selector: seg.selector,
            attr: seg.access_rights.svm_attributes() as u16,
            limit: seg.limit,
            base: seg.base,
        }
    }

    /// This register, pointed to a descriptor table.
    pub open spec fn pointing_to(self, dtr: DescriptorTablePointer) -> Self {
        VmcbSegment { limit: dtr.limit as u32, base: dtr.base, ..self }
    }
}

impl Default for VmcbSegment {
    fn default() -> (r: Self)
        ensures
            r == VmcbSegment::zero(),
    {
        VmcbSegment { selector: 0, attr: 0, limit: 0, base: 0 }
    }
}

/// The state of the guest.
#[derive(Clone, Copy, Debug, PartialEq, Eq, Structural)]
pub struct VmcbSave {
    pub es: VmcbSegment,
    pub cs: VmcbSegment,
    pub ss: VmcbSegment,
    pub ds: VmcbSegment,
    pub fs: VmcbSegment,
    pub gs: VmcbSegment,
    pub gdtr: VmcbSegment,
    pub ldtr: VmcbSegment,
    pub idtr: VmcbSegment,
    pub tr: VmcbSegment,
    pub cpl: u8,
    pub efer: u64,
    pub cr4: u64,
    pub cr3: u64,
    pub cr0: u64,
    pub dr7: u64,
    pub dr6: u64,
    pub rflags: u64,
    pub rip: u64,
    pub rsp: u64,
    pub rax: u64,
    pub star: u64,
    pub lstar: u64,
    pub cstar: u64,
    pub sfmask: u64,
    pub kernel_gs_base: u64,
    pub sysenter_cs: u64,
    pub sysenter_esp: u64,
    pub sysenter_eip: u64,
    pub g_pat: u64,
}

impl VmcbSave {
    /// All clear.
    pub open spec fn zero() -> Self {
        VmcbSave {
            es: VmcbSegment::zero(),
            cs: VmcbSegment::zero(),
            ss: VmcbSegment::zero(),
            ds: VmcbSegment::zero(),
            fs: VmcbSegment::zero(),
            gs: VmcbSegment::zero(),
            gdtr: VmcbSegment::zero(),
            ldtr: VmcbSegment::zero(),
            idtr: VmcbSegment::zero(),
            tr: VmcbSegment::zero(),
            cpl: 0,
            efer: 0,
            cr4: 0,
            cr3: 0,
            cr0: 0,
            dr7: 0,
            dr6: 0,
            rflags: 0,
            rip: 0,
            rsp: 0,
            rax: 0,
            star: 0,
            lstar: 0,
            cstar: 0,
            sfmask: 0,
            kernel_gs_base: 0,
            sysenter_cs: 0,
            sysenter_esp: 0,
            sysenter_eip: 0,
            g_pat: 0,
        }
    }
}

impl Default for VmcbSave {
    fn default() -> (r: Self)
        ensures
            r == VmcbSave::zero(),
    {
        let none: VmcbSegment = VmcbSegment::default();
        VmcbSave {
            es: none,
            cs: none,
            ss: none,
            ds: none,
            fs: none,
            gs: none,
            gdtr: none,
            ldtr: none,
            idtr: none,
            tr: none,
            cpl: 0,
            efer: 0,
            cr4: 0,
            cr3: 0,
            cr0: 0,
            dr7: 0,
            dr6: 0,
            rflags: 0,
            rip: 0,
            rsp: 0,
            rax: 0,
            star: 0,
            lstar: 0,
            cstar: 0,
            sfmask: 0,
            kernel_gs_base: 0,
            sysenter_cs: 0,
            sysenter_esp: 0,
            sysenter_eip: 0,
            g_pat: 0,
        }
    }
}

/// What can make the guest exit.
#[derive(Clone, Copy, Debug, PartialEq, Eq, Structural)]
pub enum SvmIntercept {
    NMI,
    CPUID,
    SHUTDOWN,
    VMRUN,
    VMMCALL,
    VMLOAD,
    VMSAVE,
    STGI,
    CLGI,
    SKINIT,
}

/// A set of things that make the guest exit.
#[derive(Debug)]
pub struct SvmIntercepts {
    list: Vec<SvmIntercept>,
}

impl View for SvmIntercepts {
    type V = Set<SvmIntercept>;

    closed spec fn view(&self) -> Set<SvmIntercept> {
        self.list@.to_set()
    }
}

impl SvmIntercepts {
    /// Nothing makes the guest exit.
    pub fn new() -> (s: Self)
        ensures
            s@ == Set::<SvmIntercept>::empty(),
    {
        let s = SvmIntercepts { list: Vec::new() };
        assert(s@ =~= Set::<SvmIntercept>::empty());
        s
    }

    /// Whether something makes the guest exit.
    pub fn contains(&self, intercept: SvmIntercept) -> (r: bool)
        ensures
            r == self@.contains(intercept),
    {
        let mut i: usize = 0;
        while i < self.list.len()
            invariant
                i <= self.list@.len(),
                forall|k: int| 0 <= k < i ==> self.list@[k] != intercept,
            decreases self.list@.len() - i,
        {
            if self.list[i] == intercept {
                assert(self.list@.contains(intercept));
                return true;
            }
            i = i + 1;
        }
        false
    }

    /// Lets something make the guest exit.
    pub fn insert(&mut self, intercept: SvmIntercept)
        ensures
            final(self)@ == old(self)@.insert(intercept),
    {
        let ghost before = self.list@;
        if !self.contains(intercept) {
            self.list.push(intercept);
            assert(self@ =~= old(self)@.insert(intercept)) by {
                assert forall|x: SvmIntercept| self@.contains(x) == old(self)@.insert(
                    intercept,
                ).contains(x) by {
                    if before.contains(x) {
                        let i = choose|i: int| 0 <= i < before.len() && before[i] == x;
                        assert(self.list@[i] == x);
                    }
                    assert(self.list@[before.len() as int] == intercept);
                }
            }
        } else {
            assert(self@ =~= old(self)@.insert(intercept));
        }
    }
}

/// Which translations are dropped when the guest is entered.
#[derive(Clone, Copy, Debug, PartialEq, Eq, Structural)]
pub enum VmcbTlbControl {
    DoNotFlush,
    FlushAsid,
}

/// An exception that the guest gets when it is entered.
#[derive(Clone, Copy, Debug, PartialEq, Eq, Structural)]
pub struct InjectedException {
    pub vector: u8,
    pub error_code: u32,
}

/// How the guest runs.
#[derive(Debug)]
pub struct VmcbControl {
    pub intercept_exceptions: u32,
    pub intercepts: SvmIntercepts,
    pub guest_asid: u32,
    pub tlb_control: VmcbTlbControl,
    /// Why the guest exited.
    pub exit_code: u64,
    /// Whether guest physical addresses are translated.
    pub np_enable: u64,
    /// The root of the nested page table.
    pub nest_cr3: u64,
    /// What the processor may take from its cache instead of the VMCB.
    pub clean_bits: u32,
    /// The exception that is to be injected, if any.
    pub event: Option<InjectedException>,
}

impl Default for VmcbControl {
    fn default() -> (r: Self)
        ensures
            r.intercept_exceptions == 0,
            r.intercepts@ == Set::<SvmIntercept>::empty(),
            r.guest_asid == 0,
            r.tlb_control == VmcbTlbControl::DoNotFlush,
            r.exit_code == 0,
            r.np_enable == 0,
            r.nest_cr3 == 0,
            r.clean_bits == 0,
            r.event is None,
    {
        VmcbControl {
            intercept_exceptions: 0,
            intercepts: SvmIntercepts::new(),
            guest_asid: 0,
            tlb_control: VmcbTlbControl::DoNotFlush,
            exit_code: 0,
            np_enable: 0,
            nest_cr3: 0,
            clean_bits: 0,
            event: None,
        }
    }
}

/// The virtual machine control block.
#[derive(Debug)]
pub struct Vmcb {
    pub control: VmcbControl,
    pub save: VmcbSave,
}

impl Vmcb {
    /// Lets something make the guest exit.
    pub fn set_intercept(&mut self, intercept: SvmIntercept)
        ensures
            final(self).save == old(self).save,
            final(self).control.intercepts@ == old(self).control.intercepts@.insert(intercept),
            final(self).control == (VmcbControl {
                intercepts: final(self).control.intercepts,
                ..old(self).control
            }),
    {
        self.control.intercepts.insert(intercept);
    }

    /// Lets the guest get an exception when it is entered.
    pub fn inject_event(&mut self, event: InjectedException)
        ensures
            *final(self) == (Vmcb {
                control: VmcbControl { event: Some(event), ..old(self).control },
                ..*old(self)
            }),
    {
        self.control.event = Some(event);
    }
}

impl Default for Vmcb {
    fn default() -> (r: Self)
        ensures
            r.save == VmcbSave::zero(),
            r.control.intercept_exceptions == 0,
            r.control.intercepts@ == Set::<SvmIntercept>::empty(),
            r.control.guest_asid == 0,
            r.control.tlb_control == VmcbTlbControl::DoNotFlush,
            r.control.exit_code == 0,
            r.control.np_enable == 0,
            r.control.nest_cr3 == 0,
            r.control.clean_bits == 0,
            r.control.event is None,
    {
        Vmcb { control: VmcbControl::default(), save: VmcbSave::default() }
    }
}

} // verus!
