//! The gait field of the robot command message.
use vstd::prelude::*;

verus! {

/// Gait of the robot, numbered as in the `gait` field of the command message.
#[derive(Debug, Clone, Copy, PartialEq, Eq, Structural)]
pub enum Gait {
    STAND,
    WALK,
    JUMP,
    DEACTIVE,
}

impl Gait {
    /// The number that stands for this gait in the command message.
    pub open spec fn spec_code(self) -> u8 {
        match self {
            Gait::STAND => 0,
            Gait::WALK => 1,
            Gait::JUMP => 2,
            Gait::DEACTIVE => 3,
        }
    }

    /// The number that stands for this gait in the command message.
    #[verifier::when_used_as_spec(spec_code)]
    pub fn code(self) -> (n: u8)
        ensures
            n == self.spec_code(),
    {
        match self {
            Gait::STAND => 0,
            Gait::WALK => 1,
            Gait::JUMP => 2,
            Gait::DEACTIVE => 3,
        }
    }
}

/// Distinct gaits have distinct codes, and every code is below four.
pub proof fn lemma_gait_code_injective(a: Gait, b: Gait)
    ensures
        a.spec_code() < 4,
        a.spec_code() == b.spec_code() ==> a == b,
{
}

} // verus!
