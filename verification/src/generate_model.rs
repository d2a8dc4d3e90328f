use vstd::prelude::*;

verus! {

/// Model generation mode.
#[derive(Copy, Clone, Debug, PartialEq, Eq, PartialOrd, Ord, Hash, Structural)]
pub enum GenerateModel {
    /// Generate model for asserted expressions.
    Asserted,
    /// Generate model for all expressions.
    All,
}

impl GenerateModel {
    /// The value of the engine's model generation option that selects this mode.
    pub open spec fn spec_value(self) -> u32 {
        match self {
            GenerateModel::Asserted => 1,
            GenerateModel::All => 2,
        }
    }

    /// The value of the engine's model generation option that selects this mode.
    /// It is never zero: zero switches model generation off.
    #[verifier::when_used_as_spec(spec_value)]
    pub fn value(self) -> (v: u32)
        ensures
            v == self.spec_value(),
            v != 0,
    {
        match self {
            GenerateModel::Asserted => 1,
            GenerateModel::All => 2,
        }
    }
}

} // verus!
