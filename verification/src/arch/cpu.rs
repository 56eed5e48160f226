//! Time on the CPU, and its thread pointer.

use vstd::prelude::*;
use x86::cpuid::CpuId;
use crate::arch::hw::{HwOp, HwQueue, Msr};

verus! {

/// The frequency that is taken where the processor does not tell, or tells less, in MHz.
pub const DEFAULT_FREQUENCY: u16 = 4000;

/// The frequency that is used for a processor that tells the given base frequency.
pub open spec fn usable_frequency(base: Option<u16>) -> u16 {
    match base {
        Some(mhz) => if mhz > DEFAULT_FREQUENCY {
            mhz
        } else {
            DEFAULT_FREQUENCY
        },
        None => DEFAULT_FREQUENCY,
    }
}

/// How `spin` waits.
#[verifier::external_type_specification]
#[verifier::external_body]
pub struct ExSpin(spin::relax::Spin);

/// A value of `spin` that is computed once.
#[verifier::external_type_specification]
#[verifier::external_body]
#[verifier::reject_recursive_types(T)]
#[verifier::reject_recursive_types(R)]
pub struct ExOnce<T, R>(spin::once::Once<T, R>);

/// The frequency of the CPU, asked for once.
pub struct FrequencyCache {
    once: spin::Once<u16>,
}

impl FrequencyCache {
    /// A frequency that has not been asked for yet.
    pub fn new() -> (cache: Self)
        ensures
            cache.known() is None,
    {
        FrequencyCache { once: new_once() }
    }

    /// The frequency in MHz, if it has been asked for.
    pub closed spec fn known(&self) -> Option<u16> {
        held_by(self.once)
    }

    /// The frequency is not below the default, if it has been asked for.
    pub open spec fn wf(&self) -> bool {
        self.known() is Some ==> self.known()->0 >= DEFAULT_FREQUENCY
    }
}

/// The value that a `spin::Once` holds, if it holds one yet.
pub uninterp spec fn held_by(once: spin::once::Once<u16, spin::relax::Spin>) -> Option<u16>;

/// Rests on `spin::Once::new`: it is claimed that a new `Once` holds no value.
#[verifier::external_body]
fn new_once() -> (once: spin::Once<u16>)
    ensures
        held_by(once) is None,
{
    spin::Once::new()
}

/// Rests on `spin::Once::call_once`: it is claimed that the call returns the value that the
/// `Once` holds, that a value that it holds already stays, and that otherwise the value is what
/// the closure returns. The closure is [`probe_frequency`], which returns and does not panic, so
/// that no `Once` is left poisoned. A `Once` changes behind a shared reference; it is taken
/// by an exclusive one here, so that what it holds is known.
#[verifier::external_body]
fn cached_frequency(once: &mut spin::Once<u16>) -> (mhz: u16)
    ensures
        held_by(*final(once)) == Some(mhz),
        held_by(*old(once)) is Some ==> mhz == held_by(*old(once))->0,
        held_by(*old(once)) is None ==> mhz >= DEFAULT_FREQUENCY,
{
    *once.call_once(|| probe_frequency())
}

/// The base frequency that the processor tells in MHz, if it tells any.
///
/// Rests on `raw_cpuid::CpuId::get_processor_frequency_info` and
/// `ProcessorFrequencyInfo::processor_base_frequency` (as `x86::cpuid`), of which nothing is
/// claimed: the answer is the machine's.
#[verifier::external_body]
fn processor_base_frequency() -> (base: Option<u16>) {
    CpuId::new().get_processor_frequency_info().map(|info| info.processor_base_frequency())
}

/// The frequency that is used for a processor that tells the given base frequency: that one,
/// but no less than the default.
pub fn frequency_from(base: Option<u16>) -> (mhz: u16)
    ensures
        mhz == usable_frequency(base),
{
    let told: u16 = match base {
        Some(mhz) => mhz,
        None => DEFAULT_FREQUENCY,
    };
    if told > DEFAULT_FREQUENCY {
        told
    } else {
        DEFAULT_FREQUENCY
    }
}

/// Asks the processor for its frequency.
fn probe_frequency() -> (mhz: u16)
    ensures
        mhz >= DEFAULT_FREQUENCY,
{
    let base: Option<u16> = processor_base_frequency();
    frequency_from(base)
}

/// The frequency of the CPU in MHz: what the processor tells, but no less than the default. The
/// processor is asked the first time alone; from then on the answer stays.
pub fn frequency(cache: &mut FrequencyCache) -> (mhz: u16)
    ensures
        final(cache).known() == Some(mhz),
        old(cache).known() is Some ==> mhz == old(cache).known()->0,
        old(cache).known() is None ==> mhz >= DEFAULT_FREQUENCY,
        old(cache).wf() ==> mhz >= DEFAULT_FREQUENCY && final(cache).wf(),
{
    cached_frequency(&mut cache.once)
}

/// The time in nanoseconds at a cycle of the time stamp counter, on a CPU of a frequency in
/// MHz.
pub fn current_time_nanos(cycle: u64, frequency: u16) -> (nanos: u64)
    requires
        cycle * 1000 <= u64::MAX,
        frequency > 0,
    ensures
        nanos == cycle * 1000 / frequency as int,
        nanos * frequency <= cycle * 1000 < (nanos + 1) * frequency,
{
    proof {
        let (ticks, mhz) = (cycle * 1000, frequency as int);
        let q = ticks / mhz;
        assert(q * mhz <= ticks < (q + 1) * mhz) by (nonlinear_arith)
            requires
                q == ticks / mhz,
                mhz > 0,
        ;
    }
    cycle * 1000 / frequency as u64
}

/// Points `gs` to the area of this CPU.
pub fn set_thread_pointer(tp: usize, hw: &mut HwQueue)
    ensures
        final(hw)@ == old(hw)@.push(HwOp::WriteMsr(Msr::IA32_GS_BASE, tp as u64)),
{
    hw.push(HwOp::WriteMsr(Msr::IA32_GS_BASE, tp as u64));
}

/// The frequency that is used is the larger of what the processor tells and 4000 MHz.
pub proof fn the_larger_frequency_is_used(base: Option<u16>)
    ensures
        usable_frequency(base) >= 4000,
        base is Some ==> usable_frequency(base) >= base->0,
        usable_frequency(base) == 4000 || base == Some(usable_frequency(base)),
{
}

} // verus!
