//! The three operations that the proving engine offers.

use vstd::prelude::*;

verus! {

/// What the engine is asked to do. The set is closed: the engine's command
/// line knows these three sub-commands and no other.
#[derive(Clone, Copy, Debug, PartialEq, Eq, Structural)]
pub enum Operation {
    /// Compile the circuit and set up the keys.
    Build,
    /// Generate a proof from the inputs in the data directory.
    Prove,
    /// Verify the proof found in the data directory.
    Verify,
}

impl Operation {
    /// The command-line token that names this operation to the engine.
    pub open spec fn token(self) -> Seq<char> {
        match self {
            Operation::Build => "build"@,
            Operation::Prove => "prove"@,
            Operation::Verify => "verify"@,
        }
    }

    /// The command-line token, as a string slice.
    pub fn name(self) -> (name: &'static str)
        ensures
            name@ == self.token(),
    {
        match self {
            Operation::Build => "build",
            Operation::Prove => "prove",
            Operation::Verify => "verify",
        }
    }
}

/// The mapping from operation to token is injective: two operations with
/// the same token are the same operation.
pub proof fn lemma_token_injective(a: Operation, b: Operation)
    requires
        a.token() == b.token(),
    ensures
        a == b,
{
    reveal_strlit("build");
    reveal_strlit("prove");
    reveal_strlit("verify");
    assert("build"@[0] == 'b');
    assert("prove"@[0] == 'p');
    assert("verify"@[0] == 'v');
}

} // verus!
