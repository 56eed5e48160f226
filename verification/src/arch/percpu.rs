//! The descriptor tables that each CPU has for itself.

use vstd::prelude::*;
use crate::arch::hw::{HwOp, HwQueue, Msr};

verus! {

/// The memory types of the page attribute table: entry 0 is write-back, entry 1 is
/// write-combining, entry 2 is uncacheable.
pub const HOST_PAT: u64 = 0x07_01_06;

/// A task state segment.
#[derive(Debug, PartialEq, Eq, Structural)]
pub struct TssStruct {
    pub addr: usize,
}

/// A global descriptor table, with the selectors of its code segment and of its task state
/// segment.
#[derive(Debug, PartialEq, Eq, Structural)]
pub struct GdtStruct {
    pub addr: usize,
    pub kcode_selector: u16,
    pub tss_selector: u16,
}

/// The task state segment and the global descriptor table of a CPU.
#[derive(Debug, PartialEq, Eq, Structural)]
pub struct ArchPerCpu {
    pub tss: TssStruct,
    pub gdt: GdtStruct,
}

/// How a CPU takes up the hypervisor's segments and interrupt handlers: its descriptor table
/// first, then the segment registers, the interrupt table, the task register, and last the
/// memory types.
pub open spec fn arch_init_ops(tss: TssStruct, gdt: GdtStruct) -> Seq<HwOp> {
    seq![
        HwOp::InitGdt { gdt: gdt.addr, tss: tss.addr },
        HwOp::LoadGdt(gdt.addr),
        HwOp::LoadEs(0),
        HwOp::LoadCs(gdt.kcode_selector),
        HwOp::LoadSs(0),
        HwOp::LoadDs(0),
        HwOp::LoadIdt,
        HwOp::LoadTss(gdt.tss_selector),
        HwOp::WriteMsr(Msr::IA32_PAT, HOST_PAT),
    ]
}

impl ArchPerCpu {
    /// Gives the CPU a task state segment and a global descriptor table of its own, and takes
    /// them up.
    pub fn init(&mut self, tss: TssStruct, gdt: GdtStruct, hw: &mut HwQueue)
        ensures
            final(self).tss == tss,
            final(self).gdt == gdt,
            final(hw)@ == old(hw)@ + arch_init_ops(tss, gdt),
    {
        self.tss = tss;
        self.gdt = gdt;
        hw.push(HwOp::InitGdt { gdt: self.gdt.addr, tss: self.tss.addr });
        hw.push(HwOp::LoadGdt(self.gdt.addr));
        hw.push(HwOp::LoadEs(0));
        hw.push(HwOp::LoadCs(self.gdt.kcode_selector));
        hw.push(HwOp::LoadSs(0));
        hw.push(HwOp::LoadDs(0));
        hw.push(HwOp::LoadIdt);
        hw.push(HwOp::LoadTss(self.gdt.tss_selector));
        hw.push(HwOp::WriteMsr(Msr::IA32_PAT, HOST_PAT));
        assert(hw@ =~= old(hw)@ + arch_init_ops(tss, gdt));
    }
}

/// A CPU takes up exactly the tables that it is given: its global descriptor table is made to refer
/// to its task state segment before it is loaded, the table is loaded before any register that
/// refers to it, CS and the task register get the table's own selectors and the data segments
/// none.
pub proof fn tables_are_taken_up_in_order(tss: TssStruct, gdt: GdtStruct)
    ensures
        ({
            let ops = arch_init_ops(tss, gdt);
            &&& ops.len() == 9
            &&& ops[0] matches HwOp::InitGdt { gdt: g, tss: t } && g == gdt.addr && t == tss.addr
            &&& ops[1] matches HwOp::LoadGdt(g) && g == gdt.addr
            &&& ops[2] matches HwOp::LoadEs(s) && s == 0
            &&& ops[3] matches HwOp::LoadCs(s) && s == gdt.kcode_selector
            &&& ops[4] matches HwOp::LoadSs(s) && s == 0
            &&& ops[5] matches HwOp::LoadDs(s) && s == 0
            &&& ops[6] is LoadIdt
            &&& ops[7] matches HwOp::LoadTss(s) && s == gdt.tss_selector
            &&& ops[8] matches HwOp::WriteMsr(m, v) && m == Msr::IA32_PAT && v == 0x070106
        }),
{
}

} // verus!
