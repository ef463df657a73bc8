//! Kernel exceptions and the record of the current system-call error.
use vstd::prelude::*;

use crate::types::{bool_t, word_t};

verus! {

/// The outcome of a kernel operation.
#[derive(Clone, Copy, PartialEq, Eq, Structural)]
pub enum exception {
    EXCEPTION_NONE,
    EXCEPTION_FAULT,
    EXCEPTION_LOOKUP_FAULT,
    EXCEPTION_SYSCALL_ERROR,
    EXCEPTION_PREEMPTED,
}

/// An exception as the word that kernel functions return.
pub type exception_t = word_t;

pub const EXCEPTION_NONE: exception_t = 0;
pub const EXCEPTION_FAULT: exception_t = 1;
pub const EXCEPTION_LOOKUP_FAULT: exception_t = 2;
pub const EXCEPTION_SYSCALL_ERROR: exception_t = 3;
pub const EXCEPTION_PREEMPTED: exception_t = 4;

impl exception {
    pub open spec fn spec_word(self) -> exception_t {
        match self {
            exception::EXCEPTION_NONE => EXCEPTION_NONE,
            exception::EXCEPTION_FAULT => EXCEPTION_FAULT,
            exception::EXCEPTION_LOOKUP_FAULT => EXCEPTION_LOOKUP_FAULT,
            exception::EXCEPTION_SYSCALL_ERROR => EXCEPTION_SYSCALL_ERROR,
            exception::EXCEPTION_PREEMPTED => EXCEPTION_PREEMPTED,
        }
    }

    /// The word by which the exception is returned.
    pub fn word(self) -> (r: exception_t)
        ensures
            r == self.spec_word(),
    {
        match self {
            exception::EXCEPTION_NONE => EXCEPTION_NONE,
            exception::EXCEPTION_FAULT => EXCEPTION_FAULT,
            exception::EXCEPTION_LOOKUP_FAULT => EXCEPTION_LOOKUP_FAULT,
            exception::EXCEPTION_SYSCALL_ERROR => EXCEPTION_SYSCALL_ERROR,
            exception::EXCEPTION_PREEMPTED => EXCEPTION_PREEMPTED,
        }
    }
}

pub type syscall_error_type_t = word_t;

/// Error codes reported to user level.
pub const seL4_NoError: word_t = 0;
pub const seL4_InvalidArgument: word_t = 1;
pub const seL4_InvalidCapability: word_t = 2;
pub const seL4_IllegalOperation: word_t = 3;
pub const seL4_RangeError: word_t = 4;
pub const seL4_AlignmentError: word_t = 5;
pub const seL4_FailedLookup: word_t = 6;
pub const seL4_TruncatedMessage: word_t = 7;
pub const seL4_DeleteFirst: word_t = 8;
pub const seL4_RevokeFirst: word_t = 9;
pub const seL4_NotEnoughMemory: word_t = 10;

/// Details of the error that a system call ran into.
#[derive(Clone, Copy)]
pub struct syscall_error {
    pub invalidArgumentNumber: word_t,
    pub invalidCapNumber: word_t,
    pub rangeErrorMin: word_t,
    pub rangeErrorMax: word_t,
    pub memoryLeft: word_t,
    pub failedLookupWasSource: bool_t,
    pub error_type: syscall_error_type_t,
}

pub type syscall_error_t = syscall_error;

impl syscall_error {
    /// A record with every field zero.
    pub fn empty() -> (r: syscall_error_t)
        ensures
            r.invalidArgumentNumber == 0,
            r.invalidCapNumber == 0,
            r.rangeErrorMin == 0,
            r.rangeErrorMax == 0,
            r.memoryLeft == 0,
            r.failedLookupWasSource == 0,
            r.error_type == 0,
    {
        syscall_error {
            invalidArgumentNumber: 0,
            invalidCapNumber: 0,
            rangeErrorMin: 0,
            rangeErrorMax: 0,
            memoryLeft: 0,
            failedLookupWasSource: 0,
            error_type: 0,
        }
    }
}

} // verus!
