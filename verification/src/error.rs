//! Errors that end the service.

use vstd::prelude::*;

verus! {

/// Exit status of a process that a fatal error ends.
pub const EXIT_FAILURE: i32 = 1;

/// An error of the host interface, by the call that met it. `E` is the host's
/// own error, carried along for the report. None of these can be recovered
/// from: the caller reports it and ends the process.
#[derive(Debug, PartialEq, Eq)]
pub enum Fatal<E> {
    /// Polling the capsules failed.
    CapsulePoll(E),
    /// Polling the hypervisor failed.
    HypervisorPoll(E),
    /// Registering the console service failed.
    Registration(E),
}

impl<E> Fatal<E> {
    /// The status to exit with; never zero.
    pub fn exit_status(&self) -> (status: i32)
        ensures
            status == EXIT_FAILURE,
            status != 0,
    {
        EXIT_FAILURE
    }

    /// The host's error that caused this.
    pub fn cause(&self) -> (cause: &E)
        ensures
            *cause == match *self {
                Fatal::CapsulePoll(e) => e,
                Fatal::HypervisorPoll(e) => e,
                Fatal::Registration(e) => e,
            },
    {
        match self {
            Fatal::CapsulePoll(e) => e,
            Fatal::HypervisorPoll(e) => e,
            Fatal::Registration(e) => e,
        }
    }
}

} // verus!
