//! The output store as the worker threads share it: each buffer behind a
//! spin lock of its own, and the startup flag behind a third.
//!
//! A lock is held for one append, one drain or one look at the flag, and
//! never while another is held. What a lock guards may change whenever it is
//! free, so the contracts here say what holds whatever the buffers held when
//! the lock was taken; what an operation does to a buffer is stated where it
//! works on the buffer itself, in `store`, `gather`, `render` and `startup`.
//! Only of a console that was just made is it known what its locks guard:
//! what they were made around.

use vstd::prelude::*;
use spin::mutex::{Mutex, MutexGuard};
use spin::relax::Spin;
use crate::ansi::{clear_attributes, clear_screen_text};
use crate::error::Fatal;
use crate::gather::{after_capsule_poll, after_hypervisor_poll, GatherPhase};
use crate::frame::{frame, CapsuleText};
use crate::source::TaggedChar;
use crate::startup::{Registration, StartupFlag, Wait, Waiting, Worker, LEADER};
use crate::store::{CapsuleStore, HypervisorBuffer};

verus! {

/// `spin::mutex::Mutex`: a value behind a spin lock. Nothing is known of the
/// value but its type.
#[verifier::external_type_specification]
#[verifier::external_body]
#[verifier::reject_recursive_types(T)]
#[verifier::reject_recursive_types(R)]
pub struct ExMutex<T: ?Sized, R>(Mutex<T, R>);

/// `spin::mutex::MutexGuard`: the held lock, which gives access to the value
/// and frees the lock when it goes out of scope.
#[verifier::external_type_specification]
#[verifier::external_body]
#[verifier::reject_recursive_types(T)]
#[verifier::reject_recursive_types(R)]
pub struct ExMutexGuard<'a, T: 'a + ?Sized, R>(MutexGuard<'a, T, R>);

/// `spin::relax::Spin`: the strategy of a lock that spins while it waits.
#[verifier::external_type_specification]
#[verifier::external_body]
pub struct ExSpin(Spin);

/// `Mutex::lock`: spins until the lock is free and takes it. Nothing is
/// claimed of the value behind it. The call does not return while the
/// calling thread itself holds the lock, so no function here takes a lock
/// while it holds a guard.
#[verifier::external_body]
fn lock<'a, T>(mutex: &'a Mutex<T, Spin>) -> (guard: MutexGuard<'a, T, Spin>) {
    mutex.lock()
}

/// `DerefMut::deref_mut` of the guard: the value behind the held lock.
/// Nothing is claimed of it.
#[verifier::external_body]
fn held<'g, 'a, T>(guard: &'g mut MutexGuard<'a, T, Spin>) -> (value: &'g mut T) {
    &mut **guard
}

/// The buffers and the startup flag that the worker threads share.
pub struct SharedConsole {
    init_done: Mutex<StartupFlag, Spin>,
    capsule_stdout: Mutex<CapsuleStore, Spin>,
    hv_stdout: Mutex<HypervisorBuffer, Spin>,
}

/// The console that `Mutex::new` makes around a startup flag that is raised
/// or not as `raised` says, capsule buffers that hold `capsules`, and a
/// hypervisor buffer that holds `hypervisor`: each behind a free lock of its
/// own. This says what the locks guard when the console is made, not what
/// they guard once threads have worked on it.
pub uninterp spec fn locked_around(
    raised: bool,
    capsules: CapsuleText,
    hypervisor: Seq<char>,
) -> SharedConsole;

/// `Mutex::new`, once for each part: a free lock that guards the value it was
/// given. The console that comes back is the one made around what the three
/// parts hold.
#[verifier::external_body]
fn lock_up(
    init_done: StartupFlag,
    capsule_stdout: CapsuleStore,
    hv_stdout: HypervisorBuffer,
) -> (console: SharedConsole)
    ensures
        console == locked_around(init_done@, capsule_stdout@, hv_stdout@),
{
    SharedConsole {
        init_done: Mutex::new(init_done),
        capsule_stdout: Mutex::new(capsule_stdout),
        hv_stdout: Mutex::new(hv_stdout),
    }
}

impl SharedConsole {
    /// A console for a service that starts: its locks are made around a
    /// lowered flag, no capsule buffer at all, and an empty hypervisor
    /// buffer.
    pub fn new() -> (console: SharedConsole)
        ensures
            console == locked_around(
                false,
                Map::<usize, Seq<char>>::empty(),
                Seq::<char>::empty(),
            ),
    {
        lock_up(StartupFlag::new(), CapsuleStore::new(), HypervisorBuffer::new())
    }

    /// Takes in the result of one poll of the capsules, under the lock of the
    /// capsule buffers, and says how the round goes on.
    pub fn capsule_polled<E>(&self, result: Result<TaggedChar, E>) -> (next: Result<
        GatherPhase,
        Fatal<E>,
    >)
        ensures
            next == after_capsule_poll(result),
    {
        let mut guard = lock(&self.capsule_stdout);
        crate::gather::capsule_polled(held(&mut guard), result)
    }

    /// Takes in the result of one poll of the hypervisor, under the lock of
    /// the hypervisor's buffer, and says how the round goes on.
    pub fn hypervisor_polled<E>(&self, result: Result<char, E>) -> (next: Result<
        GatherPhase,
        Fatal<E>,
    >)
        ensures
            next == after_hypervisor_poll(result),
    {
        let mut guard = lock(&self.hv_stdout);
        crate::gather::hypervisor_polled(held(&mut guard), result)
    }

    /// One render pass. The hypervisor's buffer is drained under its lock,
    /// which is freed before the capsule buffers are drained under theirs:
    /// the text is the frame of what each was found to hold at its turn.
    pub fn draw_ui(&self) -> (text: String)
        ensures
            exists|hypervisor: Seq<char>, capsules: CapsuleText|
                text@ == frame(hypervisor, capsules),
    {
        let mut text = clear_attributes();
        let ghost hypervisor: Seq<char>;
        let ghost capsules: CapsuleText;
        {
            let mut guard = lock(&self.hv_stdout);
            let buffer = held(&mut guard);
            proof {
                hypervisor = buffer@;
            }
            buffer.drain_into(&mut text);
        }
        {
            let mut guard = lock(&self.capsule_stdout);
            let store = held(&mut guard);
            proof {
                capsules = store@;
            }
            store.drain_into(&mut text);
        }
        assert(text@ == frame(hypervisor, capsules));
        text
    }

    /// Takes in the outcome of the leader's registration. On success the
    /// shared flag is raised under its lock and the leader becomes a worker;
    /// the text returned with it clears the screen. On failure the flag is
    /// not touched and the error is fatal.
    pub fn registered<E>(&self, leader: Registration, outcome: Result<(), E>) -> (next: Result<
        (Worker, String),
        Fatal<E>,
    >)
        ensures
            match outcome {
                Ok(_) => {
                    &&& next matches Ok((worker, shown))
                    &&& worker.tid() == LEADER
                    &&& shown@ == clear_screen_text()
                },
                Err(e) => next == Err::<(Worker, String), Fatal<E>>(Fatal::Registration(e)),
            },
    {
        match outcome {
            Ok(done) => {
                let mut guard = lock(&self.init_done);
                leader.registered(held(&mut guard), Ok(done))
            },
            Err(e) => Err(Fatal::Registration(e)),
        }
    }

    /// One look of a follower at the shared flag, under its lock. The
    /// follower becomes a worker if it found the flag raised, and goes on
    /// waiting if not.
    pub fn await_init(&self, follower: Waiting) -> (next: Wait)
        ensures
            follower.tid() != LEADER,
            match next {
                Wait::Proceed(worker) => worker.tid() == follower.tid(),
                Wait::Again(waiting) => waiting.tid() == follower.tid(),
            },
    {
        let raised = {
            let mut guard = lock(&self.init_done);
            held(&mut guard).is_raised()
        };
        follower.flag_read(raised)
    }
}

} // verus!
