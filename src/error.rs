use vstd::prelude::*;

verus! {

/// Why a governance instruction was refused. Every refusal leaves all accounts
/// as they were.
#[derive(Clone, Copy, Debug, PartialEq, Eq, Structural)]
pub enum GovernanceError {
    /// Fewer accounts were supplied than the instruction reads.
    NotEnoughAccountKeys,
    /// The account is not owned by the expected program.
    InvalidAccountOwner,
    /// The account does not hold a record of the expected kind.
    InvalidAccountType,
    /// The account's address is not the one derived for the claimed relationship.
    InvalidAccountAddress,
    RealmAlreadyExists,
    ProposalAlreadyExists,
    VoteAlreadyExists,
    VoteAlreadyRelinquished,
    /// The mint is neither the realm's community mint nor its council mint.
    InvalidGoverningTokenMint,
    InvalidRealmForGovernance,
    InvalidRealmForTokenOwnerRecord,
    InvalidGoverningMintForTokenOwnerRecord,
    InvalidGovernanceForProposal,
    InvalidGoverningMintForProposal,
    InvalidProposalForVoteRecord,
    InvalidGoverningTokenOwnerForVoteRecord,
    InvalidProposalForProposalInstruction,
    InvalidTokenOwnerRecordForProposal,
    InvalidGoverningTokenHoldingAccount,
    InvalidGoverningTokenSource,
    GoverningTokenOwnerMustSign,
    GovernanceMustSign,
    /// The governed resource's current authority did not sign its hand-over.
    GovernedAuthorityMustSign,
    RealmAuthorityMustSign,
    GoverningTokenOwnerOrDelegateMustSign,
    AllVotesMustBeRelinquishedToWithdrawGoverningTokens,
    AllProposalsMustBeFinalisedToWithdrawGoverningTokens,
    NotEnoughTokensToCreateProposal,
    TooManyOutstandingProposals,
    InsufficientFunds,
    InvalidStateCannotSignOff,
    InvalidStateCannotEditSignatories,
    InvalidProposalForSignatoryRecord,
    SignatoryAlreadyExists,
    SignatoryMustSign,
    SignatoryAlreadySignedOff,
    InvalidStateCannotVote,
    ProposalVotingTimeExpired,
    InvalidStateCannotFinalize,
    CannotFinalizeVotingInProgress,
    InvalidStateCannotCancelProposal,
    InvalidStateCannotInsertInstruction,
    InvalidStateCannotRemoveInstruction,
    InvalidInstructionIndex,
    InstructionHoldUpTimeBelowRequiredMin,
    InvalidStateCannotExecuteInstruction,
    CannotExecuteInstructionWithinHoldUpTime,
    InstructionAlreadyExecuted,
    InvalidVoteThresholdPercentage,
    InvalidMaxVoteWeightSupplyFraction,
    ArithmeticOverflow,
}

} // verus!
