//! Startup and the duties of a worker thread.
//!
//! The thread with identifier 0 is the leader. It registers the console
//! service with the host; once that succeeded it clears the screen and raises
//! the startup flag. Every other thread is a follower and reads the flag
//! until it finds it raised. After that each thread runs the main loop: every
//! thread gathers output, and the leader also relays input and then draws.
//!
//! The steps are types. Only a `Registration` can raise the flag on behalf of
//! a worker, only the leader gets one, and it is used up by its outcome. Only
//! a `Worker` has duties, and a follower gets one only for a raised flag.

use vstd::prelude::*;
use crate::ansi::{clear_screen, clear_screen_text};
use crate::error::Fatal;

verus! {

/// The thread identifier of the leader.
pub const LEADER: usize = 0;

/// The startup flag: lowered at first, raised once, never lowered again.
pub struct StartupFlag {
    raised: bool,
}

impl View for StartupFlag {
    type V = bool;

    /// Whether the flag is raised.
    closed spec fn view(&self) -> bool {
        self.raised
    }
}

impl StartupFlag {
    /// A lowered flag.
    pub fn new() -> (flag: StartupFlag)
        ensures
            !flag@,
    {
        StartupFlag { raised: false }
    }

    /// Raises the flag.
    pub fn raise(&mut self)
        ensures
            final(self)@,
    {
        self.raised = true;
    }

    /// Whether the flag is raised.
    pub fn is_raised(&self) -> (raised: bool)
        ensures
            raised == self@,
    {
        self.raised
    }
}

/// What a worker does in one iteration of the main loop, in this order:
/// gather, relay input, draw.
#[derive(Clone, Copy, Debug, PartialEq, Eq)]
pub struct Duties {
    pub gather: bool,
    pub relay_input: bool,
    pub draw: bool,
}

/// The duties of thread `tid`: every thread gathers; only the leader relays
/// input and draws.
pub open spec fn duties_of(tid: usize) -> Duties {
    Duties { gather: true, relay_input: tid == LEADER, draw: tid == LEADER }
}

/// A thread that has passed startup and runs the main loop.
pub struct Worker {
    tid: usize,
}

impl Worker {
    /// The thread's identifier.
    pub closed spec fn tid(&self) -> usize {
        self.tid
    }

    /// The thread's identifier.
    pub fn thread_id(&self) -> (tid: usize)
        ensures
            tid == self.tid(),
    {
        self.tid
    }

    /// What this worker does in each iteration of the main loop.
    pub fn duties(&self) -> (duties: Duties)
        ensures
            duties == duties_of(self.tid()),
    {
        let leads = self.tid == LEADER;
        Duties { gather: true, relay_input: leads, draw: leads }
    }
}

/// The leader before the outcome of its registration is known.
pub struct Registration {
    tid: usize,
}

impl Registration {
    #[verifier::type_invariant]
    spec fn is_leader(self) -> bool {
        self.tid == LEADER
    }

    /// Takes in the outcome of registering the console service. On success
    /// the flag is raised and the leader becomes a worker; the text returned
    /// with it clears the screen. On failure the flag is left as it was and
    /// the error is fatal.
    pub fn registered<E>(self, flag: &mut StartupFlag, outcome: Result<(), E>) -> (next: Result<
        (Worker, String),
        Fatal<E>,
    >)
        ensures
            match outcome {
                Ok(_) => {
                    &&& next matches Ok((worker, shown))
                    &&& worker.tid() == LEADER
                    &&& shown@ == clear_screen_text()
                    &&& final(flag)@
                },
                Err(e) => next == Err::<(Worker, String), Fatal<E>>(Fatal::Registration(e))
                    && final(flag)@ == old(flag)@,
            },
    {
        proof {
            use_type_invariant(&self);
        }
        match outcome {
            Ok(_) => {
                let shown = clear_screen();
                flag.raise();
                Ok((Worker { tid: self.tid }, shown))
            },
            Err(e) => Err(Fatal::Registration(e)),
        }
    }
}

/// A follower that has not yet found the flag raised.
pub struct Waiting {
    tid: usize,
}

/// A follower after one read of the flag.
pub enum Wait {
    /// The flag was raised: the follower runs the main loop.
    Proceed(Worker),
    /// The flag was not raised: the follower reads it again.
    Again(Waiting),
}

impl Waiting {
    #[verifier::type_invariant]
    spec fn is_follower(self) -> bool {
        self.tid != LEADER
    }

    /// The thread's identifier.
    pub closed spec fn tid(&self) -> usize {
        self.tid
    }

    /// Takes in what one read of the flag found. The follower becomes a
    /// worker if the flag was raised, and goes on waiting if not.
    pub fn flag_read(self, raised: bool) -> (next: Wait)
        ensures
            self.tid() != LEADER,
            match next {
                Wait::Proceed(worker) => raised && worker.tid() == self.tid(),
                Wait::Again(waiting) => !raised && waiting.tid() == self.tid(),
            },
    {
        proof {
            use_type_invariant(&self);
        }
        if raised {
            Wait::Proceed(Worker { tid: self.tid })
        } else {
            Wait::Again(self)
        }
    }
}

/// A thread at startup.
pub enum Startup {
    Leader(Registration),
    Follower(Waiting),
}

/// The part of thread `tid` at startup: thread 0 is the leader and has to
/// register the console service, every other thread is a follower and waits
/// for the flag.
pub fn enter(tid: usize) -> (startup: Startup)
    ensures
        match startup {
            Startup::Leader(_) => tid == LEADER,
            Startup::Follower(waiting) => tid != LEADER && waiting.tid() == tid,
        },
{
    if tid == LEADER {
        Startup::Leader(Registration { tid })
    } else {
        Startup::Follower(Waiting { tid })
    }
}

} // verus!
