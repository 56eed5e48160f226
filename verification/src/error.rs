//! Errors of the hypervisor.

use vstd::prelude::*;

verus! {

/// The kinds of failure that the hypervisor reports, named after the Linux error numbers.
#[derive(Clone, Copy, Debug, PartialEq, Eq, Structural)]
pub enum HvErrorNum {
    /// Input/output error.
    EIO,
    /// Bad address.
    EFAULT,
    /// Device or resource busy.
    EBUSY,
    /// No such device.
    ENODEV,
    /// Invalid argument.
    EINVAL,
    /// Out of memory.
    ENOMEM,
}

impl HvErrorNum {
    /// The positive Linux error number.
    pub open spec fn errno(self) -> int {
        match self {
            HvErrorNum::EIO => 5,
            HvErrorNum::ENOMEM => 12,
            HvErrorNum::EFAULT => 14,
            HvErrorNum::EBUSY => 16,
            HvErrorNum::ENODEV => 19,
            HvErrorNum::EINVAL => 22,
        }
    }
}

/// An error with an optional message (empty where there is nothing to add).
#[derive(Clone, Copy, Debug, PartialEq, Eq)]
pub struct HvError {
    /// What went wrong.
    pub num: HvErrorNum,
    /// What to tell the user about it.
    pub msg: &'static str,
}

/// The result of a hypervisor operation.
pub type HvResult<T> = Result<T, HvError>;

impl HvError {
    /// Makes an error from its kind and its message.
    pub fn new(num: HvErrorNum, msg: &'static str) -> (e: Self)
        ensures
            e.num == num,
            e.msg@ == msg@,
            e == (HvError { num, msg }),
    {
        HvError { num, msg }
    }

    /// Whether the error has the given kind and message.
    pub open spec fn says(self, num: HvErrorNum, msg: Seq<char>) -> bool {
        self.num == num && self.msg@ == msg
    }

    /// The code that is handed back to the driver: the negated error number.
    pub fn code(&self) -> (code: i32)
        ensures
            code == -self.num.errno(),
            code < 0,
    {
        match self.num {
            HvErrorNum::EIO => -5,
            HvErrorNum::ENOMEM => -12,
            HvErrorNum::EFAULT => -14,
            HvErrorNum::EBUSY => -16,
            HvErrorNum::ENODEV => -19,
            HvErrorNum::EINVAL => -22,
        }
    }
}

} // verus!
