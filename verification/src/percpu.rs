//! The data of each CPU.

use vstd::prelude::*;
use crate::arch::amd;
use crate::arch::context::{GeneralRegisters, LinuxContext};
use crate::arch::cpu::set_thread_pointer;
use crate::arch::hw::{activated_by_all, lemma_activated_by_push, HwOp, HwQueue, Msr};
use crate::arch::intel;
use crate::arch::intel::vmcs::VmcsField;
use crate::arch::percpu::{arch_init_ops, ArchPerCpu, GdtStruct, TssStruct};
use crate::arch::registers::EFER_SECURE_VIRTUAL_MACHINE_ENABLE;
use crate::error::{HvError, HvErrorNum, HvResult};
use crate::header::HvHeader;

verus! {

/// Whether the hypervisor runs on a CPU.
#[derive(Clone, Copy, Debug, PartialEq, Eq, Structural)]
pub enum CpuState {
    HvDisabled,
    HvEnabled,
}

/// Where the areas of the CPUs lie: one behind the other, all of the same size. An area holds
/// the data of its CPU, and at its end the stack.
#[derive(Clone, Copy, Debug, PartialEq, Eq, Structural)]
pub struct PerCpuArray {
    pub base: usize,
    pub size: usize,
}

impl PerCpuArray {
    /// Where the area of a CPU starts.
    pub open spec fn start(self, cpu_id: int) -> int {
        self.base + cpu_id * self.size
    }

    /// Where the area of a CPU ends.
    pub open spec fn end(self, cpu_id: int) -> int {
        self.start(cpu_id) + self.size
    }

    /// Whether the area of a CPU lies within the address space.
    pub open spec fn has_room_for(self, cpu_id: int) -> bool {
        self.end(cpu_id) <= usize::MAX
    }

    /// Where the area of a CPU starts.
    pub fn vaddr(&self, cpu_id: u32) -> (vaddr: usize)
        requires
            self.has_room_for(cpu_id as int),
        ensures
            vaddr == self.start(cpu_id as int),
    {
        let size: usize = self.size;
        proof {
            assert(0 <= cpu_id * size) by (nonlinear_arith);
        }
        self.base + cpu_id as usize * size
    }
}

/// The areas follow each other from the base of the array on, each of the same size.
pub proof fn areas_follow_each_other(array: PerCpuArray, cpu_id: int)
    ensures
        array.start(0) == array.base,
        array.end(cpu_id) == array.start(cpu_id) + array.size,
        array.start(cpu_id + 1) == array.end(cpu_id),
        array.has_room_for(cpu_id) <==> array.end(cpu_id) <= usize::MAX,
{
    let size = array.size as int;
    assert((cpu_id + 1) * size == cpu_id * size + size) by (nonlinear_arith);
}

/// The areas of two CPUs have nothing in common.
pub proof fn areas_are_apart(array: PerCpuArray, a: u32, b: u32)
    requires
        a < b,
    ensures
        array.end(a as int) <= array.start(b as int),
{
    let size = array.size as int;
    assert(a * size + size <= b * size) by (nonlinear_arith)
        requires
            a < b,
            size >= 0,
    ;
}

/// Where the array has room for as many CPUs as the header allows, every CPU that may enter,
/// and gets the number of those that have entered before it, has its place in the array.
pub proof fn every_cpu_that_may_enter_has_a_place(
    array: PerCpuArray,
    header: HvHeader,
    entered_cpus: u32,
)
    requires
        entered_cpus < header.max_cpus,
        array.has_room_for(header.max_cpus - 1),
    ensures
        array.has_room_for(entered_cpus as int),
{
    let size = array.size as int;
    let last = header.max_cpus - 1;
    assert(entered_cpus * size <= last * size) by (nonlinear_arith)
        requires
            entered_cpus <= last,
            size >= 0,
    ;
}

/// What the number of CPUs that have entered becomes when one more enters, or that there is no
/// room for it.
pub open spec fn counts_entering(entered_cpus: u32, header: HvHeader, r: HvResult<u32>) -> bool {
    &&& r is Ok <==> entered_cpus < header.max_cpus
    &&& r is Ok ==> r->Ok_0 == entered_cpus + 1
    &&& r is Err ==> r->Err_0.says(HvErrorNum::EINVAL, ""@)
}

/// A CPU is let in as long as there is room, and is then counted once.
pub proof fn entering_counts_one(entered_cpus: u32, header: HvHeader, r: HvResult<u32>)
    requires
        counts_entering(entered_cpus, header, r),
    ensures
        r is Ok <==> entered_cpus < header.max_cpus,
        r is Ok ==> r->Ok_0 - entered_cpus == 1 && r->Ok_0 <= header.max_cpus,
        r is Err ==> r->Err_0.num == HvErrorNum::EINVAL,
{
}

/// The data of a CPU, on which the guest runs as a virtual CPU of type `V`.
pub struct PerCpu<V> {
    /// The address of this data.
    pub self_vaddr: usize,
    pub id: u32,
    pub state: CpuState,
    /// The virtual CPU, once there is one.
    pub vcpu: Option<V>,
    pub arch: ArchPerCpu,
    /// The context to which this CPU goes back.
    pub linux: LinuxContext,
}

impl<V> PerCpu<V> {
    /// What the number of CPUs that have entered the hypervisor becomes when one more enters. No
    /// more may enter than the header has room for.
    ///
    /// The CPU that enters gets the number of those that entered before it. The count has to be
    /// taken and set in one go, so that no two CPUs get the same one.
    pub fn count_entering(entered_cpus: u32, header: &HvHeader) -> (r: HvResult<u32>)
        ensures
            counts_entering(entered_cpus, *header, r),
    {
        if entered_cpus >= header.max_cpus {
            return Err(HvError::new(HvErrorNum::EINVAL, ""));
        }
        Ok(entered_cpus + 1)
    }

    /// Takes up the data of the CPU that entered as number `cpu_id`, in its place in the array,
    /// and points the CPU to it. Nothing but the number and the address is filled in. There is
    /// no place for a number that is not below what the header has room for.
    pub fn new(
        &mut self,
        cpu_id: u32,
        header: &HvHeader,
        array: &PerCpuArray,
        hw: &mut HwQueue,
    ) -> (r: HvResult<()>)
        requires
            cpu_id < header.max_cpus ==> array.has_room_for(cpu_id as int),
        ensures
            r is Ok <==> cpu_id < header.max_cpus,
            match r {
                Ok(_) => {
                    let vaddr = array.start(cpu_id as int) as usize;
                    &&& r == Ok::<(), HvError>(())
                    &&& vaddr == array.start(cpu_id as int)
                    &&& *final(self) == (PerCpu { id: cpu_id, self_vaddr: vaddr, ..*old(self) })
                    &&& final(hw)@ == old(hw)@.push(
                        HwOp::WriteMsr(Msr::IA32_GS_BASE, vaddr as u64),
                    )
                },
                Err(e) => {
                    &&& e.says(HvErrorNum::EINVAL, ""@)
                    &&& *final(self) == *old(self)
                    &&& final(hw)@ == old(hw)@
                },
            },
    {
        match Self::count_entering(cpu_id, header) {
            Ok(_) => {},
            Err(e) => {
                return Err(e);
            },
        }
        let vaddr: usize = array.vaddr(cpu_id);
        self.id = cpu_id;
        self.self_vaddr = vaddr;
        set_thread_pointer(vaddr, hw);
        Ok(())
    }

    /// The top of the stack of this CPU: the last word of its area.
    pub fn stack_top(&self, array: &PerCpuArray) -> (top: usize)
        requires
            array.size >= 8,
            self.self_vaddr + array.size <= usize::MAX,
        ensures
            top == self.self_vaddr + array.size - 8,
    {
        self.self_vaddr + array.size - 8
    }

    /// Begins to set this CPU up: the context of Linux is kept, the CPU takes up the
    /// hypervisor's descriptor tables and then its page table. The virtual CPU is made after
    /// that.
    pub fn init(
        &mut self,
        linux: LinuxContext,
        tss: TssStruct,
        gdt: GdtStruct,
        hw: &mut HwQueue,
    )
        ensures
            *final(self) == (PerCpu {
                state: CpuState::HvDisabled,
                linux,
                arch: ArchPerCpu { tss, gdt },
                ..*old(self)
            }),
            final(hw)@ == old(hw)@ + arch_init_ops(tss, gdt) + seq![HwOp::ActivateHvPageTable],
    {
        self.state = CpuState::HvDisabled;
        self.linux = linux;
        self.arch.init(tss, gdt, hw);
        hw.push(HwOp::ActivateHvPageTable);
        assert(hw@ =~= old(hw)@ + arch_init_ops(tss, gdt) + seq![HwOp::ActivateHvPageTable]);
    }

    /// Ends setting this CPU up: if its virtual CPU could be made, the hypervisor runs on it
    /// from now on.
    pub fn init_vcpu(&mut self, vcpu: HvResult<V>) -> (r: HvResult<()>)
        ensures
            match vcpu {
                Ok(v) => {
                    &&& r == Ok::<(), HvError>(())
                    &&& *final(self) == (PerCpu {
                        vcpu: Some(v),
                        state: CpuState::HvEnabled,
                        ..*old(self)
                    })
                },
                Err(e) => r == Err::<(), _>(e) && *final(self) == *old(self),
            },
    {
        match vcpu {
            Ok(v) => {
                self.vcpu = Some(v);
                self.state = CpuState::HvEnabled;
                Ok(())
            },
            Err(e) => Err(e),
        }
    }

    /// The guest has been left: the hypervisor does not run on this CPU any more.
    pub fn deactivated(&mut self)
        ensures
            *final(self) == (PerCpu { state: CpuState::HvDisabled, ..*old(self) }),
    {
        self.state = CpuState::HvDisabled;
    }

    /// Whether the virtual CPU is what is shown when the data is printed; else it is the
    /// context of Linux.
    pub fn shows_vcpu(&self) -> (r: bool)
        ensures
            r == (self.state != CpuState::HvDisabled),
    {
        self.state != CpuState::HvDisabled
    }
}

/// The stack of a CPU lies in its own area, at its end.
pub proof fn stack_top_is_in_the_area<V>(cpu: PerCpu<V>, array: PerCpuArray, top: usize)
    requires
        cpu.self_vaddr == array.start(cpu.id as int),
        array.size >= 8,
        top == cpu.self_vaddr + array.size - 8,
    ensures
        array.start(cpu.id as int) <= top < array.end(cpu.id as int),
        top + 8 == array.end(cpu.id as int),
{
}

/// How a CPU enters a guest of VMX. What is behind the launch is performed only if the guest
/// does not start.
pub open spec fn launch_ops() -> Seq<HwOp> {
    seq![HwOp::AddActivated, HwOp::LaunchGuest, HwOp::SubActivated]
}

/// How a CPU leaves a guest of VMX whose VMCS has the given physical address, once the guest's
/// state has been taken back.
pub open spec fn leave_ops(vmcs: usize) -> Seq<HwOp> {
    seq![HwOp::VmcsClear(vmcs), HwOp::VmxOff, HwOp::SubActivated]
}

/// A guest of VMX is launched once, between counting the CPU and taking that back; a guest is left
/// by clearing its own VMCS first, then turning VMX off, and only then is the CPU not counted.
pub proof fn launching_and_leaving_are_in_order(vmcs: usize)
    ensures
        launch_ops().len() == 3,
        launch_ops()[0] is AddActivated,
        launch_ops()[1] is LaunchGuest,
        launch_ops()[2] is SubActivated,
        leave_ops(vmcs).len() == 3,
        leave_ops(vmcs)[0] == HwOp::VmcsClear(vmcs),
        leave_ops(vmcs)[1] is VmxOff,
        leave_ops(vmcs)[2] is SubActivated,
{
}

/// A CPU counts as active from when its guest is launched; if the guest does not start, it does
/// not count, so that the number of active CPUs is what it was.
pub proof fn failed_launch_leaves_the_count(queue: Seq<HwOp>)
    ensures
        activated_by_all(queue + launch_ops().take(2)) == activated_by_all(queue) + 1,
        activated_by_all(queue + launch_ops()) == activated_by_all(queue),
{
    broadcast use lemma_activated_by_push;

    let launched = queue.push(HwOp::AddActivated).push(HwOp::LaunchGuest);
    assert(queue + launch_ops().take(2) =~= launched);
    assert(queue + launch_ops() =~= launched.push(HwOp::SubActivated));
}

/// A CPU counts as active until its guest has been left: taking the guest's state back, however
/// far that comes, clearing the VMCS and turning VMX off change nothing of the number of active
/// CPUs, and once all that has been performed it is one less.
pub proof fn only_a_cpu_that_has_left_stops_counting(
    queue: Seq<HwOp>,
    known: Map<VmcsField, u64>,
    n: int,
    vmcs: usize,
)
    ensures
        ({
            let taken_back = queue + intel::state::sysenter_after(known, n);
            let count = activated_by_all(queue);
            &&& activated_by_all(taken_back) == count
            &&& activated_by_all(taken_back + leave_ops(vmcs).take(1)) == count
            &&& activated_by_all(taken_back + leave_ops(vmcs).take(2)) == count
            &&& activated_by_all(taken_back + leave_ops(vmcs)) == count - 1
        }),
{
    broadcast use lemma_activated_by_push;

    let back = intel::state::sysenter_after(known, n);
    let taken_back = queue + back;
    if back.len() == 0 {
        assert(taken_back =~= queue);
    } else if back.len() == 1 {
        assert(taken_back =~= queue.push(back[0]));
    } else if back.len() == 2 {
        assert(taken_back =~= queue.push(back[0]).push(back[1]));
    } else {
        assert(taken_back =~= queue.push(back[0]).push(back[1]).push(back[2]));
    }
    let cleared = taken_back.push(HwOp::VmcsClear(vmcs));
    assert(taken_back + leave_ops(vmcs).take(1) =~= cleared);
    assert(taken_back + leave_ops(vmcs).take(2) =~= cleared.push(HwOp::VmxOff));
    assert(taken_back + leave_ops(vmcs) =~= cleared.push(HwOp::VmxOff).push(HwOp::SubActivated));
}

impl PerCpu<intel::vcpu::Vcpu> {
    /// Enters the guest: the registers are loaded with which the guest continues Linux, this
    /// CPU counts as active, and the guest is launched. If it does not start, the CPU does not
    /// count as active any more, and the result is the error to report.
    pub fn activate_vmm(&mut self, hw: &mut HwQueue) -> (r: HvResult<()>)
        requires
            old(self).vcpu is Some,
        ensures
            r is Err && r->Err_0.says(HvErrorNum::EIO, ""@),
            final(hw)@ == old(hw)@ + launch_ops(),
            final(self).vcpu is Some,
            final(self).vcpu->0.general_registers()
                == old(self).vcpu->0.general_registers().entering(0, old(self).linux),
            final(self).vcpu->0.general_registers().rbx == old(self).linux.rbx,
            final(self).vcpu->0.general_registers().rbp == old(self).linux.rbp,
            final(self).vcpu->0.general_registers().r12 == old(self).linux.r12,
            final(self).vcpu->0.general_registers().r13 == old(self).linux.r13,
            final(self).vcpu->0.general_registers().r14 == old(self).linux.r14,
            final(self).vcpu->0.general_registers().r15 == old(self).linux.r15,
            final(self).vcpu->0.same_but_registers(&old(self).vcpu->0),
            *final(self) == (PerCpu { vcpu: final(self).vcpu, ..*old(self) }),
    {
        hw.push(HwOp::AddActivated);
        hw.push(HwOp::LaunchGuest);
        hw.push(HwOp::SubActivated);
        assert(hw@ =~= old(hw)@ + launch_ops());
        match &mut self.vcpu {
            Some(vcpu) => vcpu.enter(&self.linux),
            None => Err(HvError::new(HvErrorNum::EIO, "")),
        }
    }

    /// Leaves the guest, whose call returns `ret_code`: the guest's state becomes the context of
    /// Linux, VMX is turned off, and only then does this CPU not count as active any more. Once
    /// that has been performed, [`PerCpu::deactivated`] ends it.
    pub fn deactivate_vmm(&mut self, ret_code: usize, hw: &mut HwQueue) -> (r: HvResult<()>)
        requires
            old(self).vcpu is Some,
            intel::state::readings_suffice(old(self).vcpu->0.vmcs_state()),
            intel::state::tables_readable(old(self).vcpu->0.fields()),
        ensures
            ({
                let vcpu = old(self).vcpu->0;
                let known = vcpu.fields();
                let n = intel::state::fields_read(known);
                let started = old(hw)@ + intel::state::sysenter_after(known, n as int);
                &&& r is Ok <==> n == intel::state::load_order().len()
                &&& r is Ok ==> r == Ok::<(), HvError>(())
                &&& r is Err ==> r->Err_0 == intel::state::first_fault(vcpu.vmcs_state())
                &&& r is Ok ==> final(hw)@ == started + leave_ops(vcpu.regions().1.paddr)
                &&& r is Err ==> final(hw)@ == started
                &&& final(self).vcpu is Some
                &&& final(self).vcpu->0.general_registers() == (GeneralRegisters {
                    rax: ret_code as u64,
                    ..vcpu.general_registers()
                })
                &&& final(self).vcpu->0.same_but_registers(&vcpu)
                &&& *final(self) == (PerCpu {
                    vcpu: final(self).vcpu,
                    linux: intel::state::linux_after(old(self).linux, known, n as int),
                    ..*old(self)
                })
            }),
    {
        match &mut self.vcpu {
            Some(vcpu) => {
                vcpu.set_return_val(ret_code);
                let r: HvResult<()> = vcpu.exit(&mut self.linux, hw);
                if r.is_ok() {
                    hw.push(HwOp::SubActivated);
                    assert(hw@ =~= old(hw)@ + intel::state::sysenter_after(
                        vcpu.fields(),
                        intel::state::load_order().len() as int,
                    ) + leave_ops(vcpu.regions().1.paddr));
                }
                r
            },
            None => Err(HvError::new(HvErrorNum::EIO, "")),
        }
    }

    /// Answers a fault of the guest: it gets a general protection fault.
    pub fn fault(&mut self, hw: &mut HwQueue) -> (r: HvResult<()>)
        requires
            old(self).vcpu is Some,
        ensures
            r == Ok::<(), HvError>(()),
            *final(self) == *old(self),
            final(hw)@ == old(hw)@.push(HwOp::InjectException { vector: 13, error_code: 0 }),
    {
        match &mut self.vcpu {
            Some(vcpu) => vcpu.inject_fault(hw),
            None => Err(HvError::new(HvErrorNum::EIO, "")),
        }
    }
}

impl PerCpu<amd::vcpu::Vcpu> {
    /// Enters the guest, whose control block has the given physical address: this CPU counts
    /// as active, and the registers are loaded with which the guest continues Linux.
    pub fn activate_vmm(&mut self, vmcb_paddr: usize, hw: &mut HwQueue)
        requires
            old(self).vcpu is Some,
        ensures
            final(hw)@ == old(hw)@.push(HwOp::AddActivated),
            *final(self) == (PerCpu {
                vcpu: Some(
                    amd::vcpu::Vcpu {
                        guest_regs: old(self).vcpu->0.guest_regs.entering(
                            vmcb_paddr as u64,
                            old(self).linux,
                        ),
                        ..old(self).vcpu->0
                    },
                ),
                ..*old(self)
            }),
            final(self).vcpu is Some,
            final(self).vcpu->0.guest_regs.rax == vmcb_paddr,
            final(self).vcpu->0.guest_regs.rbx == old(self).linux.rbx,
            final(self).vcpu->0.guest_regs.rbp == old(self).linux.rbp,
            final(self).vcpu->0.guest_regs.r12 == old(self).linux.r12,
            final(self).vcpu->0.guest_regs.r13 == old(self).linux.r13,
            final(self).vcpu->0.guest_regs.r14 == old(self).linux.r14,
            final(self).vcpu->0.guest_regs.r15 == old(self).linux.r15,
    {
        hw.push(HwOp::AddActivated);
        match &mut self.vcpu {
            Some(vcpu) => {
                vcpu.enter(&self.linux, vmcb_paddr);
            },
            None => {},
        }
    }

    /// Leaves the guest, whose call returns `ret_code`: the guest's state becomes the context of
    /// Linux, SVM is turned off, and only then does this CPU not count as active any more. Once
    /// that has been performed, [`PerCpu::deactivated`] ends it.
    pub fn deactivate_vmm(
        &mut self,
        ret_code: usize,
        env: &amd::vcpu::SvmExitEnv,
        hw: &mut HwQueue,
    ) -> (r: HvResult<()>)
        requires
            old(self).vcpu is Some,
            amd::vcpu::tables_readable(old(self).vcpu->0.vmcb.save),
        ensures
            r == Ok::<(), HvError>(()),
            final(hw)@ == old(hw)@ + seq![
                HwOp::Stgi,
                HwOp::WriteEfer(env.efer & !EFER_SECURE_VIRTUAL_MACHINE_ENABLE),
                HwOp::WriteMsr(Msr::VM_HSAVE_PA, 0),
                HwOp::SubActivated,
            ],
            *final(self) == (PerCpu {
                vcpu: Some(
                    amd::vcpu::Vcpu {
                        guest_regs: GeneralRegisters {
                            rax: ret_code as u64,
                            ..old(self).vcpu->0.guest_regs
                        },
                        ..old(self).vcpu->0
                    },
                ),
                linux: amd::vcpu::linux_after(
                    old(self).linux,
                    old(self).vcpu->0.vmcb.save,
                    *env,
                ),
                ..*old(self)
            }),
    {
        match &mut self.vcpu {
            Some(vcpu) => {
                vcpu.set_return_val(ret_code);
                let r: HvResult<()> = vcpu.exit(&mut self.linux, env, hw);
                hw.push(HwOp::SubActivated);
                assert(hw@ =~= old(hw)@ + seq![
                    HwOp::Stgi,
                    HwOp::WriteEfer(env.efer & !EFER_SECURE_VIRTUAL_MACHINE_ENABLE),
                    HwOp::WriteMsr(Msr::VM_HSAVE_PA, 0),
                    HwOp::SubActivated,
                ]);
                r
            },
            None => Err(HvError::new(HvErrorNum::EIO, "")),
        }
    }

    /// Answers a fault of the guest: it gets a general protection fault.
    pub fn fault(&mut self) -> (r: HvResult<()>)
        requires
            old(self).vcpu is Some,
        ensures
            r == Ok::<(), HvError>(()),
            final(self).vcpu is Some,
            final(self).vcpu->0.vmcb.control == (amd::vmcb::VmcbControl {
                event: Some(amd::vmcb::InjectedException { vector: 13, error_code: 0 }),
                ..old(self).vcpu->0.vmcb.control
            }),
            final(self).vcpu->0 == (amd::vcpu::Vcpu {
                vmcb: amd::vmcb::Vmcb {
                    control: final(self).vcpu->0.vmcb.control,
                    ..old(self).vcpu->0.vmcb
                },
                ..old(self).vcpu->0
            }),
            *final(self) == (PerCpu { vcpu: final(self).vcpu, ..*old(self) }),
    {
        match &mut self.vcpu {
            Some(vcpu) => vcpu.inject_fault(),
            None => Err(HvError::new(HvErrorNum::EIO, "")),
        }
    }
}

} // verus!
