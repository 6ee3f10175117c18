use vstd::prelude::*;

verus! {

/// The kinds of account the tip router keeps; the first byte of an
/// account's data tells which it is.
#[derive(Debug, Clone, Copy, PartialEq, Eq, Structural)]
pub enum Discriminators {
    Config,
    VaultRegistry,
    WeightTable,
    EpochSnapshot,
    OperatorSnapshot,
    BallotBox,
    BaseRewardRouter,
    NcnRewardRouter,
    EpochState,
    EpochMarker,
}

/// The byte that marks each kind of account.
pub open spec fn discriminator_value(d: Discriminators) -> u8 {
    match d {
        Discriminators::Config => 0x01,
        Discriminators::VaultRegistry => 0x02,
        Discriminators::WeightTable => 0x10,
        Discriminators::EpochSnapshot => 0x11,
        Discriminators::OperatorSnapshot => 0x12,
        Discriminators::BallotBox => 0x20,
        Discriminators::BaseRewardRouter => 0x40,
        Discriminators::NcnRewardRouter => 0x41,
        Discriminators::EpochState => 0x50,
        Discriminators::EpochMarker => 0x51,
    }
}

impl Discriminators {
    /// The byte that marks this kind of account.
    pub fn value(&self) -> (v: u8)
        ensures
            v == discriminator_value(*self),
    {
        match self {
            Discriminators::Config => 0x01,
            Discriminators::VaultRegistry => 0x02,
            Discriminators::WeightTable => 0x10,
            Discriminators::EpochSnapshot => 0x11,
            Discriminators::OperatorSnapshot => 0x12,
            Discriminators::BallotBox => 0x20,
            Discriminators::BaseRewardRouter => 0x40,
            Discriminators::NcnRewardRouter => 0x41,
            Discriminators::EpochState => 0x50,
            Discriminators::EpochMarker => 0x51,
        }
    }
}

/// No two kinds of account share a marker byte.
pub proof fn lemma_discriminators_distinct(a: Discriminators, b: Discriminators)
    requires
        a != b,
    ensures
        discriminator_value(a) != discriminator_value(b),
{
}

} // verus!
