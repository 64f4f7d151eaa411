//! The reasons for which a contract operation is refused.
use vstd::prelude::*;

verus! {

/// Why an operation was refused; the contract reverts the whole invocation on any of them.
#[derive(Clone, Copy, Debug, PartialEq, Eq, Structural)]
pub enum ContractError {
    /// An intermediate value left the range of its integer type.
    Overflow,
    /// A division by zero.
    DivisionByZero,
    AlreadyInitialized,
    NotInitialized,
    Unauthorized,
    AmountNotPositive,
    InvalidToken,
    SlippageLimitExceeded,
    InsufficientLpBalance,
    ValidatorAlreadyRegistered,
    ValidatorNotFound,
    ValidatorNotActive,
    DelegationNotFound,
    InsufficientDelegation,
    RewardNotPositive,
    NoDelegators,
    SlashExceedsTotal,
    ProposalNotFound,
    VotingNotStarted,
    VotingEnded,
    AlreadyVoted,
    DelegatedVoterCannotVote,
    NoVotingPower,
    VotingOngoing,
    ProposalFailed,
    ProposalAlreadyQueued,
    AlreadyExecuted,
    ProposalNotQueued,
    TimelockNotExpired,
    CannotDelegateToSelf,
    AlreadyDelegatedToAddress,
    NoActiveDelegation,
    RewardPerWindowNotPositive,
    PenaltyPerWindowNegative,
    WindowsExpectedZero,
    WindowsReportedExceedExpected,
    NodeNotFound,
    NoRewardsToClaim,
    ContractAlreadyRegistered,
    ContractNotRegistered,
    AbiTooLarge,
    InvalidTargetVersion,
    VersionNotFound,
    InvalidFeeBps,
    FeesExceedAmount,
    FeeConfigInvalid,
    UnlockTimeNotInFuture,
    InvalidParticipants,
    EscrowNotFound,
    EscrowNotDisputable,
    NotEscrowParty,
    EscrowNotInDispute,
    NotAuthorizedToResolve,
    EscrowNotActiveOrDisputed,
    NotAuthorizedToRelease,
    NotAuthorizedToCancel,
    EscrowNotAutoResolvable,
    UnlockTimeNotPassed,
    UseRevokeToRemoveAccess,
    InsufficientPermissionLevel,
    AddressHasNoAccess,
    NoAccessToRenounce,
    OnlySuperAdminCanTransfer,
    InsufficientCollateral,
    NotEligibleForLiquidation,
    PriceFeedNotConfigured,
    ThresholdZero,
    ThresholdExceedsSignerCount,
    NoSigners,
    TimelockDelayZero,
    AlreadySigner,
    NotSigner,
    EventNotFound,
    EventNotPending,
    AlreadyApproved,
    EventNotCancellable,
    EventNotQueued,
    QuorumNotPositive,
    VotingPeriodNotPositive,
    ProposalAlreadyExecuted,
    VotingNotEnded,
    NotWhitelisted,
    RegistrationFeeNegative,
    FeePerCallNegative,
    OwnerAlreadyRegistered,
    ProviderNotFound,
    ProviderNotActive,
    ScoreOutOfRange,
    AdminOnly,
    ProviderNotSuspended,
    InsufficientWrappedBalance,
    InsufficientBalance,
    InsufficientAllowance,
    AmountNegative,
    ContractPaused,
    OperationNotFound,
    OperationNotPending,
    TimelockDelayNotElapsed,
    MinTwoOutcomes,
    InvalidDeadline,
    InitialLiquidityRequired,
    MarketNotFound,
    WrongMarketStatus,
    MarketLocked,
    InvalidOutcome,
    NoSharesFound,
    NoWinningShares,
    TxNotFound,
    TxNotPending,
    EpochNotFound,
    DividendsAlreadyDistributed,
    AlreadyDistributed,
    DividendsNotCalculated,
    FeeNegative,
    SplitsEmpty,
    SplitsMustSumTo10000,
    ServiceNotFound,
    SubServiceNotFound,
    MaxRecursionDepth,
    InvalidReserveRatio,
    InvalidBasePrice,
    TokensNotPositive,
    UnauthorizedOracle,
    TimestampOverflow,
    MaxDepthZero,
    RecursiveLoopDetected,
    NoActiveEntry,
    AirdropExpired,
    AlreadyClaimed,
    InvalidProof,
    /// The bytes are not the strkey of an address.
    InvalidAddress,
    AirdropNotYetExpired,
    TotalBpsExceeds10000,
    NoRoyaltyConfig,
    IntentionalFailure,
    ContractBusy,
    InsufficientRepayment,
    UnauthorizedRelayer,
    NotAuthorizedAdmin,
}

/// The result is the error `e`.
pub open spec fn is_err<T>(r: Result<T, ContractError>, e: ContractError) -> bool {
    r matches Err(x) && x == e
}

} // verus!
