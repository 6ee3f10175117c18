use vstd::prelude::*;

verus! {

/// Errors raised by the tip router.
#[derive(Debug, Clone, Copy, PartialEq, Eq, Structural)]
pub enum TipRouterError {
    /// Zero in the denominator
    DenominatorIsZero,
    /// Overflow
    ArithmeticOverflow,
    /// Underflow
    ArithmeticUnderflowError,
    /// Floor Overflow
    ArithmeticFloorError,
    /// Modulo Overflow
    ModuloOverflow,
    /// New precise number error
    NewPreciseNumberError,
    /// Cast to imprecise number error
    CastToImpreciseNumberError,
    /// Cast to u64 error
    CastToU64Error,
    /// Cast to u128 error
    CastToU128Error,
    /// Incorrect weight table admin
    IncorrectWeightTableAdmin,
    /// Duplicate mints in table
    DuplicateMintsInTable,
    /// There are no mints in the table
    NoMintsInTable,
    /// Table not initialized
    TableNotInitialized,
    /// Registry not initialized
    RegistryNotInitialized,
    /// There are no vaults in the registry
    NoVaultsInRegistry,
    /// Vault not in weight table registry
    VaultNotInRegistry,
    /// Mint is already in the table
    MintInTable,
    /// Too many mints for table
    TooManyMintsForTable,
    /// Too many vaults for registry
    TooManyVaultsForRegistry,
    /// Weight table already initialized
    WeightTableAlreadyInitialized,
    /// Cannnot create future weight tables
    CannotCreateFutureWeightTables,
    /// Weight mints do not match - length
    WeightMintsDoNotMatchLength,
    /// Weight mints do not match - mint hash
    WeightMintsDoNotMatchMintHash,
    /// Invalid mint for weight table
    InvalidMintForWeightTable,
    /// Config supported mints do not match NCN Vault Count
    ConfigMintsNotUpdated,
    /// NCN config vaults are at capacity
    ConfigMintListFull,
    /// Vault Registry mints are at capacity
    VaultRegistryListFull,
    /// Vault registry are locked for the epoch
    VaultRegistryVaultLocked,
    /// Vault index already in use by a different mint
    VaultIndexAlreadyInUse,
    /// Mint Entry not found
    MintEntryNotFound,
    /// Fee cap exceeded
    FeeCapExceeded,
    /// DAO wallet cannot be default
    DefaultDaoWallet,
    /// Incorrect NCN Admin
    IncorrectNcnAdmin,
    /// Incorrect NCN
    IncorrectNcn,
    /// Incorrect fee admin
    IncorrectFeeAdmin,
    /// Weight table not finalized
    WeightTableNotFinalized,
    /// Weight not found
    WeightNotFound,
    /// No operators in ncn
    NoOperators,
    /// Vault operator delegation is already finalized - should not happen
    VaultOperatorDelegationFinalized,
    /// Operator is already finalized - should not happen
    OperatorFinalized,
    /// Too many vault operator delegations
    TooManyVaultOperatorDelegations,
    /// Duplicate vault operator delegation
    DuplicateVaultOperatorDelegation,
    /// Duplicate Vote Cast
    DuplicateVoteCast,
    /// Operator votes full
    OperatorVotesFull,
    /// Merkle root tally full
    BallotTallyFull,
    /// Ballot tally not found
    BallotTallyNotFoundFull,
    /// Ballot tally not empty
    BallotTallyNotEmpty,
    /// Consensus already reached, cannot change vote
    ConsensusAlreadyReached,
    /// Consensus not reached
    ConsensusNotReached,
    /// Epoch snapshot not finalized
    EpochSnapshotNotFinalized,
    /// Voting not valid, too many slots after consensus reached
    VotingNotValid,
    /// Tie breaker admin invalid
    TieBreakerAdminInvalid,
    /// Voting not finalized
    VotingNotFinalized,
    /// Tie breaking ballot must be one of the prior votes
    TieBreakerNotInPriorVotes,
    /// Invalid merkle proof
    InvalidMerkleProof,
    /// Operator admin needs to sign its vote
    OperatorAdminInvalid,
    /// Not a valid NCN fee group
    InvalidNcnFeeGroup,
    /// Not a valid base fee group
    InvalidBaseFeeGroup,
    /// Operator reward list full
    OperatorRewardListFull,
    /// Operator Reward not found
    OperatorRewardNotFound,
    /// Vault Reward not found
    VaultRewardNotFound,
    /// Destination mismatch
    DestinationMismatch,
    /// Ncn reward route not found
    NcnRewardRouteNotFound,
    /// Fee not active
    FeeNotActive,
    /// No rewards to distribute
    NoRewards,
    /// No Feed Weight not set
    NoFeedWeightNotSet,
    /// Switchboard not registered
    SwitchboardNotRegistered,
    /// Bad switchboard feed
    BadSwitchboardFeed,
    /// Bad switchboard value
    BadSwitchboardValue,
    /// Stale switchboard feed
    StaleSwitchboardFeed,
    /// Weight entry needs either a feed or a no feed weight
    NoFeedWeightOrSwitchboardFeed,
    /// Router still routing
    RouterStillRouting,
    /// Invalid epochs before stall
    InvalidEpochsBeforeStall,
    /// Invalid slots after consensus
    InvalidSlotsAfterConsensus,
    /// Vault needs to be updated
    VaultNeedsUpdate,
    /// Invalid Account Status
    InvalidAccountStatus,
    /// Account already initialized
    AccountAlreadyInitialized,
    /// Cannot vote with uninitialized account
    BadBallot,
    /// Cannot route until voting is over
    VotingIsNotOver,
    /// Operator is not in snapshot
    OperatorIsNotInSnapshot,
}

/// The numeric code of each error: the arithmetic errors count up from
/// 0x2100, all others from 0x2200.
pub open spec fn error_code(e: TipRouterError) -> u32 {
    match e {
        TipRouterError::DenominatorIsZero => 0x2100,
        TipRouterError::ArithmeticOverflow => 0x2101,
        TipRouterError::ArithmeticUnderflowError => 0x2102,
        TipRouterError::ArithmeticFloorError => 0x2103,
        TipRouterError::ModuloOverflow => 0x2104,
        TipRouterError::NewPreciseNumberError => 0x2105,
        TipRouterError::CastToImpreciseNumberError => 0x2106,
        TipRouterError::CastToU64Error => 0x2107,
        TipRouterError::CastToU128Error => 0x2108,
        TipRouterError::IncorrectWeightTableAdmin => 0x2200,
        TipRouterError::DuplicateMintsInTable => 0x2201,
        TipRouterError::NoMintsInTable => 0x2202,
        TipRouterError::TableNotInitialized => 0x2203,
        TipRouterError::RegistryNotInitialized => 0x2204,
        TipRouterError::NoVaultsInRegistry => 0x2205,
        TipRouterError::VaultNotInRegistry => 0x2206,
        TipRouterError::MintInTable => 0x2207,
        TipRouterError::TooManyMintsForTable => 0x2208,
        TipRouterError::TooManyVaultsForRegistry => 0x2209,
        TipRouterError::WeightTableAlreadyInitialized => 0x220a,
        TipRouterError::CannotCreateFutureWeightTables => 0x220b,
        TipRouterError::WeightMintsDoNotMatchLength => 0x220c,
        TipRouterError::WeightMintsDoNotMatchMintHash => 0x220d,
        TipRouterError::InvalidMintForWeightTable => 0x220e,
        TipRouterError::ConfigMintsNotUpdated => 0x220f,
        TipRouterError::ConfigMintListFull => 0x2210,
        TipRouterError::VaultRegistryListFull => 0x2211,
        TipRouterError::VaultRegistryVaultLocked => 0x2212,
        TipRouterError::VaultIndexAlreadyInUse => 0x2213,
        TipRouterError::MintEntryNotFound => 0x2214,
        TipRouterError::FeeCapExceeded => 0x2215,
        TipRouterError::DefaultDaoWallet => 0x2216,
        TipRouterError::IncorrectNcnAdmin => 0x2217,
        TipRouterError::IncorrectNcn => 0x2218,
        TipRouterError::IncorrectFeeAdmin => 0x2219,
        TipRouterError::WeightTableNotFinalized => 0x221a,
        TipRouterError::WeightNotFound => 0x221b,
        TipRouterError::NoOperators => 0x221c,
        TipRouterError::VaultOperatorDelegationFinalized => 0x221d,
        TipRouterError::OperatorFinalized => 0x221e,
        TipRouterError::TooManyVaultOperatorDelegations => 0x221f,
        TipRouterError::DuplicateVaultOperatorDelegation => 0x2220,
        TipRouterError::DuplicateVoteCast => 0x2221,
        TipRouterError::OperatorVotesFull => 0x2222,
        TipRouterError::BallotTallyFull => 0x2223,
        TipRouterError::BallotTallyNotFoundFull => 0x2224,
        TipRouterError::BallotTallyNotEmpty => 0x2225,
        TipRouterError::ConsensusAlreadyReached => 0x2226,
        TipRouterError::ConsensusNotReached => 0x2227,
        TipRouterError::EpochSnapshotNotFinalized => 0x2228,
        TipRouterError::VotingNotValid => 0x2229,
        TipRouterError::TieBreakerAdminInvalid => 0x222a,
        TipRouterError::VotingNotFinalized => 0x222b,
        TipRouterError::TieBreakerNotInPriorVotes => 0x222c,
        TipRouterError::InvalidMerkleProof => 0x222d,
        TipRouterError::OperatorAdminInvalid => 0x222e,
        TipRouterError::InvalidNcnFeeGroup => 0x222f,
        TipRouterError::InvalidBaseFeeGroup => 0x2230,
        TipRouterError::OperatorRewardListFull => 0x2231,
        TipRouterError::OperatorRewardNotFound => 0x2232,
        TipRouterError::VaultRewardNotFound => 0x2233,
        TipRouterError::DestinationMismatch => 0x2234,
        TipRouterError::NcnRewardRouteNotFound => 0x2235,
        TipRouterError::FeeNotActive => 0x2236,
        TipRouterError::NoRewards => 0x2237,
        TipRouterError::NoFeedWeightNotSet => 0x2238,
        TipRouterError::SwitchboardNotRegistered => 0x2239,
        TipRouterError::BadSwitchboardFeed => 0x223a,
        TipRouterError::BadSwitchboardValue => 0x223b,
        TipRouterError::StaleSwitchboardFeed => 0x223c,
        TipRouterError::NoFeedWeightOrSwitchboardFeed => 0x223d,
        TipRouterError::RouterStillRouting => 0x223e,
        TipRouterError::InvalidEpochsBeforeStall => 0x223f,
        TipRouterError::InvalidSlotsAfterConsensus => 0x2240,
        TipRouterError::VaultNeedsUpdate => 0x2241,
        TipRouterError::InvalidAccountStatus => 0x2242,
        TipRouterError::AccountAlreadyInitialized => 0x2243,
        TipRouterError::BadBallot => 0x2244,
        TipRouterError::VotingIsNotOver => 0x2245,
        TipRouterError::OperatorIsNotInSnapshot => 0x2246,
    }
}

/// The human-readable message of each error.
pub open spec fn error_message(e: TipRouterError) -> Seq<char> {
    match e {
        TipRouterError::DenominatorIsZero => "Zero in the denominator"@,
        TipRouterError::ArithmeticOverflow => "Overflow"@,
        TipRouterError::ArithmeticUnderflowError => "Underflow"@,
        TipRouterError::ArithmeticFloorError => "Floor Overflow"@,
        TipRouterError::ModuloOverflow => "Modulo Overflow"@,
        TipRouterError::NewPreciseNumberError => "New precise number error"@,
        TipRouterError::CastToImpreciseNumberError => "Cast to imprecise number error"@,
        TipRouterError::CastToU64Error => "Cast to u64 error"@,
        TipRouterError::CastToU128Error => "Cast to u128 error"@,
        TipRouterError::IncorrectWeightTableAdmin => "Incorrect weight table admin"@,
        TipRouterError::DuplicateMintsInTable => "Duplicate mints in table"@,
        TipRouterError::NoMintsInTable => "There are no mints in the table"@,
        TipRouterError::TableNotInitialized => "Table not initialized"@,
        TipRouterError::RegistryNotInitialized => "Registry not initialized"@,
        TipRouterError::NoVaultsInRegistry => "There are no vaults in the registry"@,
        TipRouterError::VaultNotInRegistry => "Vault not in weight table registry"@,
        TipRouterError::MintInTable => "Mint is already in the table"@,
        TipRouterError::TooManyMintsForTable => "Too many mints for table"@,
        TipRouterError::TooManyVaultsForRegistry => "Too many vaults for registry"@,
        TipRouterError::WeightTableAlreadyInitialized => "Weight table already initialized"@,
        TipRouterError::CannotCreateFutureWeightTables => "Cannnot create future weight tables"@,
        TipRouterError::WeightMintsDoNotMatchLength => "Weight mints do not match - length"@,
        TipRouterError::WeightMintsDoNotMatchMintHash => "Weight mints do not match - mint hash"@,
        TipRouterError::InvalidMintForWeightTable => "Invalid mint for weight table"@,
        TipRouterError::ConfigMintsNotUpdated => "Config supported mints do not match NCN Vault Count"@,
        TipRouterError::ConfigMintListFull => "NCN config vaults are at capacity"@,
        TipRouterError::VaultRegistryListFull => "Vault Registry mints are at capacity"@,
        TipRouterError::VaultRegistryVaultLocked => "Vault registry are locked for the epoch"@,
        TipRouterError::VaultIndexAlreadyInUse => "Vault index already in use by a different mint"@,
        TipRouterError::MintEntryNotFound => "Mint Entry not found"@,
        TipRouterError::FeeCapExceeded => "Fee cap exceeded"@,
        TipRouterError::DefaultDaoWallet => "DAO wallet cannot be default"@,
        TipRouterError::IncorrectNcnAdmin => "Incorrect NCN Admin"@,
        TipRouterError::IncorrectNcn => "Incorrect NCN"@,
        TipRouterError::IncorrectFeeAdmin => "Incorrect fee admin"@,
        TipRouterError::WeightTableNotFinalized => "Weight table not finalized"@,
        TipRouterError::WeightNotFound => "Weight not found"@,
        TipRouterError::NoOperators => "No operators in ncn"@,
        TipRouterError::VaultOperatorDelegationFinalized => "Vault operator delegation is already finalized - should not happen"@,
        TipRouterError::OperatorFinalized => "Operator is already finalized - should not happen"@,
        TipRouterError::TooManyVaultOperatorDelegations => "Too many vault operator delegations"@,
        TipRouterError::DuplicateVaultOperatorDelegation => "Duplicate vault operator delegation"@,
        TipRouterError::DuplicateVoteCast => "Duplicate Vote Cast"@,
        TipRouterError::OperatorVotesFull => "Operator votes full"@,
        TipRouterError::BallotTallyFull => "Merkle root tally full"@,
        TipRouterError::BallotTallyNotFoundFull => "Ballot tally not found"@,
        TipRouterError::BallotTallyNotEmpty => "Ballot tally not empty"@,
        TipRouterError::ConsensusAlreadyReached => "Consensus already reached, cannot change vote"@,
        TipRouterError::ConsensusNotReached => "Consensus not reached"@,
        TipRouterError::EpochSnapshotNotFinalized => "Epoch snapshot not finalized"@,
        TipRouterError::VotingNotValid => "Voting not valid, too many slots after consensus reached"@,
        TipRouterError::TieBreakerAdminInvalid => "Tie breaker admin invalid"@,
        TipRouterError::VotingNotFinalized => "Voting not finalized"@,
        TipRouterError::TieBreakerNotInPriorVotes => "Tie breaking ballot must be one of the prior votes"@,
        TipRouterError::InvalidMerkleProof => "Invalid merkle proof"@,
        TipRouterError::OperatorAdminInvalid => "Operator admin needs to sign its vote"@,
        TipRouterError::InvalidNcnFeeGroup => "Not a valid NCN fee group"@,
        TipRouterError::InvalidBaseFeeGroup => "Not a valid base fee group"@,
        TipRouterError::OperatorRewardListFull => "Operator reward list full"@,
        TipRouterError::OperatorRewardNotFound => "Operator Reward not found"@,
        TipRouterError::VaultRewardNotFound => "Vault Reward not found"@,
        TipRouterError::DestinationMismatch => "Destination mismatch"@,
        TipRouterError::NcnRewardRouteNotFound => "Ncn reward route not found"@,
        TipRouterError::FeeNotActive => "Fee not active"@,
        TipRouterError::NoRewards => "No rewards to distribute"@,
        TipRouterError::NoFeedWeightNotSet => "No Feed Weight not set"@,
        TipRouterError::SwitchboardNotRegistered => "Switchboard not registered"@,
        TipRouterError::BadSwitchboardFeed => "Bad switchboard feed"@,
        TipRouterError::BadSwitchboardValue => "Bad switchboard value"@,
        TipRouterError::StaleSwitchboardFeed => "Stale switchboard feed"@,
        TipRouterError::NoFeedWeightOrSwitchboardFeed => "Weight entry needs either a feed or a no feed weight"@,
        TipRouterError::RouterStillRouting => "Router still routing"@,
        TipRouterError::InvalidEpochsBeforeStall => "Invalid epochs before stall"@,
        TipRouterError::InvalidSlotsAfterConsensus => "Invalid slots after consensus"@,
        TipRouterError::VaultNeedsUpdate => "Vault needs to be updated"@,
        TipRouterError::InvalidAccountStatus => "Invalid Account Status"@,
        TipRouterError::AccountAlreadyInitialized => "Account already initialized"@,
        TipRouterError::BadBallot => "Cannot vote with uninitialized account"@,
        TipRouterError::VotingIsNotOver => "Cannot route until voting is over"@,
        TipRouterError::OperatorIsNotInSnapshot => "Operator is not in snapshot"@,
    }
}

impl TipRouterError {
    /// The numeric code of the error.
    pub fn code(&self) -> (c: u32)
        ensures
            c == error_code(*self),
    {
        match self {
            TipRouterError::DenominatorIsZero => 0x2100,
            TipRouterError::ArithmeticOverflow => 0x2101,
            TipRouterError::ArithmeticUnderflowError => 0x2102,
            TipRouterError::ArithmeticFloorError => 0x2103,
            TipRouterError::ModuloOverflow => 0x2104,
            TipRouterError::NewPreciseNumberError => 0x2105,
            TipRouterError::CastToImpreciseNumberError => 0x2106,
            TipRouterError::CastToU64Error => 0x2107,
            TipRouterError::CastToU128Error => 0x2108,
            TipRouterError::IncorrectWeightTableAdmin => 0x2200,
            TipRouterError::DuplicateMintsInTable => 0x2201,
            TipRouterError::NoMintsInTable => 0x2202,
            TipRouterError::TableNotInitialized => 0x2203,
            TipRouterError::RegistryNotInitialized => 0x2204,
            TipRouterError::NoVaultsInRegistry => 0x2205,
            TipRouterError::VaultNotInRegistry => 0x2206,
            TipRouterError::MintInTable => 0x2207,
            TipRouterError::TooManyMintsForTable => 0x2208,
            TipRouterError::TooManyVaultsForRegistry => 0x2209,
            TipRouterError::WeightTableAlreadyInitialized => 0x220a,
            TipRouterError::CannotCreateFutureWeightTables => 0x220b,
            TipRouterError::WeightMintsDoNotMatchLength => 0x220c,
            TipRouterError::WeightMintsDoNotMatchMintHash => 0x220d,
            TipRouterError::InvalidMintForWeightTable => 0x220e,
            TipRouterError::ConfigMintsNotUpdated => 0x220f,
            TipRouterError::ConfigMintListFull => 0x2210,
            TipRouterError::VaultRegistryListFull => 0x2211,
            TipRouterError::VaultRegistryVaultLocked => 0x2212,
            TipRouterError::VaultIndexAlreadyInUse => 0x2213,
            TipRouterError::MintEntryNotFound => 0x2214,
            TipRouterError::FeeCapExceeded => 0x2215,
            TipRouterError::DefaultDaoWallet => 0x2216,
            TipRouterError::IncorrectNcnAdmin => 0x2217,
            TipRouterError::IncorrectNcn => 0x2218,
            TipRouterError::IncorrectFeeAdmin => 0x2219,
            TipRouterError::WeightTableNotFinalized => 0x221a,
            TipRouterError::WeightNotFound => 0x221b,
            TipRouterError::NoOperators => 0x221c,
            TipRouterError::VaultOperatorDelegationFinalized => 0x221d,
            TipRouterError::OperatorFinalized => 0x221e,
            TipRouterError::TooManyVaultOperatorDelegations => 0x221f,
            TipRouterError::DuplicateVaultOperatorDelegation => 0x2220,
            TipRouterError::DuplicateVoteCast => 0x2221,
            TipRouterError::OperatorVotesFull => 0x2222,
            TipRouterError::BallotTallyFull => 0x2223,
            TipRouterError::BallotTallyNotFoundFull => 0x2224,
            TipRouterError::BallotTallyNotEmpty => 0x2225,
            TipRouterError::ConsensusAlreadyReached => 0x2226,
            TipRouterError::ConsensusNotReached => 0x2227,
            TipRouterError::EpochSnapshotNotFinalized => 0x2228,
            TipRouterError::VotingNotValid => 0x2229,
            TipRouterError::TieBreakerAdminInvalid => 0x222a,
            TipRouterError::VotingNotFinalized => 0x222b,
            TipRouterError::TieBreakerNotInPriorVotes => 0x222c,
            TipRouterError::InvalidMerkleProof => 0x222d,
            TipRouterError::OperatorAdminInvalid => 0x222e,
            TipRouterError::InvalidNcnFeeGroup => 0x222f,
            TipRouterError::InvalidBaseFeeGroup => 0x2230,
            TipRouterError::OperatorRewardListFull => 0x2231,
            TipRouterError::OperatorRewardNotFound => 0x2232,
            TipRouterError::VaultRewardNotFound => 0x2233,
            TipRouterError::DestinationMismatch => 0x2234,
            TipRouterError::NcnRewardRouteNotFound => 0x2235,
            TipRouterError::FeeNotActive => 0x2236,
            TipRouterError::NoRewards => 0x2237,
            TipRouterError::NoFeedWeightNotSet => 0x2238,
            TipRouterError::SwitchboardNotRegistered => 0x2239,
            TipRouterError::BadSwitchboardFeed => 0x223a,
            TipRouterError::BadSwitchboardValue => 0x223b,
            TipRouterError::StaleSwitchboardFeed => 0x223c,
            TipRouterError::NoFeedWeightOrSwitchboardFeed => 0x223d,
            TipRouterError::RouterStillRouting => 0x223e,
            TipRouterError::InvalidEpochsBeforeStall => 0x223f,
            TipRouterError::InvalidSlotsAfterConsensus => 0x2240,
            TipRouterError::VaultNeedsUpdate => 0x2241,
            TipRouterError::InvalidAccountStatus => 0x2242,
            TipRouterError::AccountAlreadyInitialized => 0x2243,
            TipRouterError::BadBallot => 0x2244,
            TipRouterError::VotingIsNotOver => 0x2245,
            TipRouterError::OperatorIsNotInSnapshot => 0x2246,
        }
    }

    /// The message of the error.
    pub fn to_string(&self) -> (s: String)
        ensures
            s@ == error_message(*self),
    {
        let m: &str = match self {
            TipRouterError::DenominatorIsZero => "Zero in the denominator",
            TipRouterError::ArithmeticOverflow => "Overflow",
            TipRouterError::ArithmeticUnderflowError => "Underflow",
            TipRouterError::ArithmeticFloorError => "Floor Overflow",
            TipRouterError::ModuloOverflow => "Modulo Overflow",
            TipRouterError::NewPreciseNumberError => "New precise number error",
            TipRouterError::CastToImpreciseNumberError => "Cast to imprecise number error",
            TipRouterError::CastToU64Error => "Cast to u64 error",
            TipRouterError::CastToU128Error => "Cast to u128 error",
            TipRouterError::IncorrectWeightTableAdmin => "Incorrect weight table admin",
            TipRouterError::DuplicateMintsInTable => "Duplicate mints in table",
            TipRouterError::NoMintsInTable => "There are no mints in the table",
            TipRouterError::TableNotInitialized => "Table not initialized",
            TipRouterError::RegistryNotInitialized => "Registry not initialized",
            TipRouterError::NoVaultsInRegistry => "There are no vaults in the registry",
            TipRouterError::VaultNotInRegistry => "Vault not in weight table registry",
            TipRouterError::MintInTable => "Mint is already in the table",
            TipRouterError::TooManyMintsForTable => "Too many mints for table",
            TipRouterError::TooManyVaultsForRegistry => "Too many vaults for registry",
            TipRouterError::WeightTableAlreadyInitialized => "Weight table already initialized",
            TipRouterError::CannotCreateFutureWeightTables => "Cannnot create future weight tables",
            TipRouterError::WeightMintsDoNotMatchLength => "Weight mints do not match - length",
            TipRouterError::WeightMintsDoNotMatchMintHash => "Weight mints do not match - mint hash",
            TipRouterError::InvalidMintForWeightTable => "Invalid mint for weight table",
            TipRouterError::ConfigMintsNotUpdated => "Config supported mints do not match NCN Vault Count",
            TipRouterError::ConfigMintListFull => "NCN config vaults are at capacity",
            TipRouterError::VaultRegistryListFull => "Vault Registry mints are at capacity",
            TipRouterError::VaultRegistryVaultLocked => "Vault registry are locked for the epoch",
            TipRouterError::VaultIndexAlreadyInUse => "Vault index already in use by a different mint",
            TipRouterError::MintEntryNotFound => "Mint Entry not found",
            TipRouterError::FeeCapExceeded => "Fee cap exceeded",
            TipRouterError::DefaultDaoWallet => "DAO wallet cannot be default",
            TipRouterError::IncorrectNcnAdmin => "Incorrect NCN Admin",
            TipRouterError::IncorrectNcn => "Incorrect NCN",
            TipRouterError::IncorrectFeeAdmin => "Incorrect fee admin",
            TipRouterError::WeightTableNotFinalized => "Weight table not finalized",
            TipRouterError::WeightNotFound => "Weight not found",
            TipRouterError::NoOperators => "No operators in ncn",
            TipRouterError::VaultOperatorDelegationFinalized => "Vault operator delegation is already finalized - should not happen",
            TipRouterError::OperatorFinalized => "Operator is already finalized - should not happen",
            TipRouterError::TooManyVaultOperatorDelegations => "Too many vault operator delegations",
            TipRouterError::DuplicateVaultOperatorDelegation => "Duplicate vault operator delegation",
            TipRouterError::DuplicateVoteCast => "Duplicate Vote Cast",
            TipRouterError::OperatorVotesFull => "Operator votes full",
            TipRouterError::BallotTallyFull => "Merkle root tally full",
            TipRouterError::BallotTallyNotFoundFull => "Ballot tally not found",
            TipRouterError::BallotTallyNotEmpty => "Ballot tally not empty",
            TipRouterError::ConsensusAlreadyReached => "Consensus already reached, cannot change vote",
            TipRouterError::ConsensusNotReached => "Consensus not reached",
            TipRouterError::EpochSnapshotNotFinalized => "Epoch snapshot not finalized",
            TipRouterError::VotingNotValid => "Voting not valid, too many slots after consensus reached",
            TipRouterError::TieBreakerAdminInvalid => "Tie breaker admin invalid",
            TipRouterError::VotingNotFinalized => "Voting not finalized",
            TipRouterError::TieBreakerNotInPriorVotes => "Tie breaking ballot must be one of the prior votes",
            TipRouterError::InvalidMerkleProof => "Invalid merkle proof",
            TipRouterError::OperatorAdminInvalid => "Operator admin needs to sign its vote",
            TipRouterError::InvalidNcnFeeGroup => "Not a valid NCN fee group",
            TipRouterError::InvalidBaseFeeGroup => "Not a valid base fee group",
            TipRouterError::OperatorRewardListFull => "Operator reward list full",
            TipRouterError::OperatorRewardNotFound => "Operator Reward not found",
            TipRouterError::VaultRewardNotFound => "Vault Reward not found",
            TipRouterError::DestinationMismatch => "Destination mismatch",
            TipRouterError::NcnRewardRouteNotFound => "Ncn reward route not found",
            TipRouterError::FeeNotActive => "Fee not active",
            TipRouterError::NoRewards => "No rewards to distribute",
            TipRouterError::NoFeedWeightNotSet => "No Feed Weight not set",
            TipRouterError::SwitchboardNotRegistered => "Switchboard not registered",
            TipRouterError::BadSwitchboardFeed => "Bad switchboard feed",
            TipRouterError::BadSwitchboardValue => "Bad switchboard value",
            TipRouterError::StaleSwitchboardFeed => "Stale switchboard feed",
            TipRouterError::NoFeedWeightOrSwitchboardFeed => "Weight entry needs either a feed or a no feed weight",
            TipRouterError::RouterStillRouting => "Router still routing",
            TipRouterError::InvalidEpochsBeforeStall => "Invalid epochs before stall",
            TipRouterError::InvalidSlotsAfterConsensus => "Invalid slots after consensus",
            TipRouterError::VaultNeedsUpdate => "Vault needs to be updated",
            TipRouterError::InvalidAccountStatus => "Invalid Account Status",
            TipRouterError::AccountAlreadyInitialized => "Account already initialized",
            TipRouterError::BadBallot => "Cannot vote with uninitialized account",
            TipRouterError::VotingIsNotOver => "Cannot route until voting is over",
            TipRouterError::OperatorIsNotInSnapshot => "Operator is not in snapshot",
        };
        m.to_owned()
    }
}

impl From<TipRouterError> for u32 {
    fn from(e: TipRouterError) -> (c: u32) {
        e.code()
    }
}

impl vstd::std_specs::convert::FromSpecImpl<TipRouterError> for u32 {
    open spec fn obeys_from_spec() -> bool {
        true
    }

    open spec fn from_spec(e: TipRouterError) -> u32 {
        error_code(e)
    }
}

impl From<TipRouterError> for u64 {
    fn from(e: TipRouterError) -> (c: u64) {
        e.code() as u64
    }
}

impl vstd::std_specs::convert::FromSpecImpl<TipRouterError> for u64 {
    open spec fn obeys_from_spec() -> bool {
        true
    }

    open spec fn from_spec(e: TipRouterError) -> u64 {
        error_code(e) as u64
    }
}

} // verus!
