//! The input relay: a character typed at the local console goes to one
//! capsule.

use vstd::prelude::*;

verus! {

/// The capsule that receives local input unless another is configured.
pub const DEFAULT_TARGET: usize = 1;

/// A character to send, and the capsule to send it to.
#[derive(Clone, Copy, Debug, PartialEq, Eq)]
pub struct Forward {
    pub character: char,
    pub capsule_id: usize,
}

/// Where local input goes.
#[derive(Clone, Copy, Debug, PartialEq, Eq)]
pub struct InputRelay {
    pub target: usize,
}

impl InputRelay {
    /// A relay to capsule `target`.
    pub fn new(target: usize) -> (relay: InputRelay)
        ensures
            relay.target == target,
    {
        InputRelay { target }
    }

    /// A relay to the default target.
    pub fn to_default_target() -> (relay: InputRelay)
        ensures
            relay.target == DEFAULT_TARGET,
    {
        InputRelay { target: DEFAULT_TARGET }
    }

    /// What to send after one read of the local console: a character that was
    /// read goes to the target as it is, whatever it is; a read that failed
    /// sends nothing and is not an error.
    pub fn get_user_input<E>(&self, read: Result<char, E>) -> (forward: Option<Forward>)
        ensures
            forward == match read {
                Ok(c) => Some(Forward { character: c, capsule_id: self.target }),
                Err(_) => None::<Forward>,
            },
    {
        match read {
            Ok(c) => Some(Forward { character: c, capsule_id: self.target }),
            Err(_) => None,
        }
    }
}

} // verus!
