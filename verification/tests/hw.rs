//! The queue of operations on the machine.

use rvm::arch::cpu::set_thread_pointer;
use rvm::arch::hw::{HwOp, HwQueue, Msr};
use rvm::error::{HvError, HvErrorNum};

#[test]
fn operations_are_performed_in_order() {
    let mut hw = HwQueue::new();
    assert_eq!(hw.next(), None);
    hw.push(HwOp::VmxOff);
    hw.push(HwOp::Stgi);
    assert_eq!(hw.next(), Some(HwOp::VmxOff));
    assert_eq!(hw.next(), Some(HwOp::VmxOff));
    assert_eq!(hw.complete(Ok(())), Ok(()));
    assert_eq!(hw.next(), Some(HwOp::Stgi));
    assert_eq!(hw.complete(Ok(())), Ok(()));
    assert_eq!(hw.next(), None);
}

#[test]
fn a_failure_drops_what_is_behind_it() {
    let mut hw = HwQueue::new();
    hw.push(HwOp::VmcsClear(0x1000));
    hw.push(HwOp::VmcsLoad(0x1000));
    hw.push(HwOp::VmxOff);
    assert_eq!(hw.complete(Ok(())), Ok(()));
    let refused = HvError::new(HvErrorNum::EIO, "refused");
    assert_eq!(hw.complete(Err(refused)), Err(refused));
    assert_eq!(hw.next(), None);
}

#[test]
fn vmx_that_cannot_be_turned_off_keeps_the_cpu_active() {
    let mut hw = HwQueue::new();
    hw.push(HwOp::VmcsClear(0x1000));
    hw.push(HwOp::VmxOff);
    hw.push(HwOp::SubActivated);
    assert_eq!(hw.complete(Ok(())), Ok(()));
    assert!(hw.complete(Err(HvError::new(HvErrorNum::EIO, "refused"))).is_err());
    assert_eq!(hw.next(), None);
}

#[test]
fn thread_pointer_goes_to_gs() {
    let mut hw = HwQueue::new();
    set_thread_pointer(0xffff_0000, &mut hw);
    assert_eq!(hw.next(), Some(HwOp::WriteMsr(Msr::IA32_GS_BASE, 0xffff_0000)));
}

#[test]
fn error_codes_are_negated_linux_numbers() {
    let codes = [
        (HvErrorNum::EIO, -5),
        (HvErrorNum::ENOMEM, -12),
        (HvErrorNum::EFAULT, -14),
        (HvErrorNum::EBUSY, -16),
        (HvErrorNum::ENODEV, -19),
        (HvErrorNum::EINVAL, -22),
    ];
    for (num, code) in codes {
        let e = HvError::new(num, "what happened");
        assert_eq!(e.code(), code);
        assert_eq!(e.num, num);
        assert_eq!(e.msg, "what happened");
    }
}
