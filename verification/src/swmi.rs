//! The endpoint to the central SwMI.
use vstd::prelude::*;

verus! {

/// The endpoint to the central SwMI as an entity finds it.
#[derive(Debug, Clone, Copy, PartialEq, Eq, Structural)]
pub struct SwmiEndpoint {
    /// The station has a SwMI endpoint.
    pub present: bool,
    /// The connection is up.
    pub online: bool,
    /// The outgoing queue takes messages.
    pub accepting: bool,
}

impl SwmiEndpoint {
    /// Whether the SwMI decides.
    #[verifier::allow_in_spec]
    pub fn is_online(self) -> bool
        returns
            (self.present && self.online),
    {
        self.present && self.online
    }

    /// Whether a message that is submitted now is taken.
    #[verifier::allow_in_spec]
    pub fn takes(self) -> bool
        returns
            (self.present && self.accepting),
    {
        self.present && self.accepting
    }
}

} // verus!
