pub mod awakener;
pub mod poll;

use vstd::prelude::*;

verus! {

/// What a call into the library can fail with.
#[derive(Clone, Copy, Debug, PartialEq, Eq, Structural)]
pub enum PollError {
    /// The resource belongs to another selector, or an argument is malformed.
    InvalidInput,
    /// The handle already has a registration on this selector.
    AlreadyRegistered,
    /// The handle has no registration on this selector.
    NotFound,
    /// No selector identifier is left to hand out.
    IdsExhausted,
    /// The operating system refused the call; holds its error number.
    Os(i32),
}

/// A system call result whose value `-1` means failure.
pub trait IsMinusOne {
    spec fn is_minus_one_spec(&self) -> bool;

    fn is_minus_one(&self) -> (r: bool)
        ensures
            r == self.is_minus_one_spec(),
    ;
}

impl IsMinusOne for i32 {
    open spec fn is_minus_one_spec(&self) -> bool {
        *self == -1
    }

    fn is_minus_one(&self) -> (r: bool) {
        *self == -1
    }
}

impl IsMinusOne for isize {
    open spec fn is_minus_one_spec(&self) -> bool {
        *self == -1
    }

    fn is_minus_one(&self) -> (r: bool) {
        *self == -1
    }
}

/// Turns a system call's return value into a result: `-1` is the failure whose
/// error number the caller read right after the call.
pub fn cvt<T: IsMinusOne>(t: T, errno: i32) -> (r: Result<T, PollError>)
    ensures
        t.is_minus_one_spec() ==> r == Err::<T, PollError>(PollError::Os(errno)),
        !t.is_minus_one_spec() ==> r == Ok::<T, PollError>(t),
{
    if t.is_minus_one() {
        Err(PollError::Os(errno))
    } else {
        Ok(t)
    }
}

} // verus!
