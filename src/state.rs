use vstd::prelude::*;
use crate::address::Address;

verus! {

/// Denominator of a supply fraction: a fraction of this value is the whole supply.
pub const SUPPLY_FRACTION_BASE: u64 = 10_000_000_000;

/// Where a proposal is in its lifecycle.
#[derive(Clone, Copy, Debug, PartialEq, Eq, Structural)]
pub enum ProposalState {
    Draft,
    SigningOff,
    Voting,
    Succeeded,
    Executing,
    Completed,
    Cancelled,
    Defeated,
    ExecutingWithErrors,
}

/// What kind of resource a governance governs.
#[derive(Clone, Copy, Debug, PartialEq, Eq, Structural)]
pub enum GovernedKind {
    /// Any account; nothing is handed over.
    Account,
    /// A program, whose upgrade authority may be handed over.
    Program,
    /// A token mint, whose mint authority may be handed over.
    Mint,
    /// A token account, whose owner may be handed over.
    Token,
}

#[derive(Clone, Copy, Debug, PartialEq, Eq, Structural)]
pub enum Vote {
    Yes,
    No,
}

/// A cast vote with the weight it carried.
#[derive(Clone, Copy, Debug, PartialEq, Eq, Structural)]
pub enum VoteWeight {
    Yes(u64),
    No(u64),
}

/// How a proposal's instructions are to be run.
#[derive(Clone, Copy, Debug, PartialEq, Eq, Structural)]
pub enum InstructionExecutionFlags {
    NoFlags,
    Ordered,
    UseTransaction,
}

/// How the largest possible vote weight of the community mint is obtained.
#[derive(Clone, Copy, Debug, PartialEq, Eq, Structural)]
pub enum MintMaxVoteWeightSource {
    /// A fraction of the mint supply, over `SUPPLY_FRACTION_BASE`.
    SupplyFraction(u64),
    /// A fixed weight.
    Absolute(u64),
}

/// The configuration asked for when a realm is created or reconfigured.
#[derive(Clone, Copy, Debug)]
pub struct RealmConfigArgs {
    pub use_council_mint: bool,
    pub min_community_tokens_to_create_governance: u64,
    pub community_mint_max_vote_weight_source: MintMaxVoteWeightSource,
}

/// A realm's configuration: its optional council mint and how community votes weigh.
#[derive(Clone, Copy, Debug)]
pub struct RealmConfig {
    pub council_mint: Option<Address>,
    pub community_mint_max_vote_weight_source: MintMaxVoteWeightSource,
    pub min_community_tokens_to_create_governance: u64,
}

/// A governed organization, at the address its name derives. A realm whose
/// authority was cleared can no longer be reconfigured.
#[derive(Clone, Debug)]
pub struct Realm {
    pub community_mint: Address,
    pub authority: Option<Address>,
    pub name: Vec<u8>,
    pub config: RealmConfig,
}

/// Where a voter's weight comes from.
#[derive(Clone, Copy, Debug, PartialEq, Eq, Structural)]
pub enum VoteWeightSource {
    /// The governing tokens deposited in the realm.
    Deposit,
    /// A snapshot of the token balances.
    Snapshot,
}

/// The voting rules of a governance.
#[derive(Clone, Copy, Debug)]
pub struct GovernanceConfig {
    pub vote_threshold_percentage: u8,
    pub vote_weight_source: VoteWeightSource,
    pub min_instruction_hold_up_time: u32,
    pub max_voting_time: u32,
    pub proposal_cool_off_time: u32,
}

/// The rules for one governed resource, and the count of its proposals, which
/// gives each new proposal its address and never goes down.
#[derive(Clone, Copy, Debug)]
pub struct Governance {
    pub realm: Address,
    pub governed_account: Address,
    pub kind: GovernedKind,
    pub config: GovernanceConfig,
    pub proposals_count: u32,
}

/// One owner's deposit of one governing mint in a realm, with their vote and
/// proposal counts.
#[derive(Clone, Copy, Debug)]
pub struct TokenOwnerRecord {
    pub realm: Address,
    pub governing_token_mint: Address,
    pub governing_token_owner: Address,
    pub governing_token_deposit_amount: u64,
    pub unrelinquished_votes_count: u32,
    pub total_votes_count: u32,
    pub outstanding_proposal_count: u8,
    pub governance_delegate: Option<Address>,
}

/// A governance decision: its lifecycle state and timestamps, its tally, the
/// weight and threshold fixed when voting started, and its queue of instructions.
#[derive(Clone, Debug)]
pub struct Proposal {
    pub governance: Address,
    pub governing_token_mint: Address,
    pub state: ProposalState,
    pub token_owner_record: Address,
    pub signatories_count: u8,
    pub signatories_signed_off_count: u8,
    pub name: Vec<u8>,
    pub description_link: Vec<u8>,
    pub draft_at: i64,
    pub signing_off_at: Option<i64>,
    pub voting_at: Option<i64>,
    pub voting_at_slot: Option<u64>,
    pub voting_completed_at: Option<i64>,
    pub executing_at: Option<i64>,
    pub closed_at: Option<i64>,
    pub instructions_executed_count: u16,
    pub instructions_count: u16,
    pub instructions_next_index: u16,
    pub execution_flags: InstructionExecutionFlags,
    pub yes_votes_count: u64,
    pub no_votes_count: u64,
    pub max_vote_weight: Option<u64>,
    pub vote_threshold_percentage: Option<u8>,
}

/// One voter's vote on one proposal; its existence refuses a second vote.
#[derive(Clone, Copy, Debug)]
pub struct VoteRecord {
    pub proposal: Address,
    pub governing_token_owner: Address,
    pub vote_weight: VoteWeight,
    pub is_relinquished: bool,
}

/// One signatory of a proposal, and whether they signed it off.
#[derive(Clone, Copy, Debug)]
pub struct SignatoryRecord {
    pub proposal: Address,
    pub signatory: Address,
    pub signed_off: bool,
}

/// One account that a queued instruction is run with.
#[derive(Clone, Copy, Debug)]
pub struct AccountMetaData {
    pub pubkey: Address,
    pub is_signer: bool,
    pub is_writable: bool,
}

/// An instruction queued on a proposal, run once the proposal has passed.
#[derive(Clone, Debug)]
pub struct ProposalInstruction {
    pub proposal: Address,
    pub instruction_index: u16,
    pub hold_up_time: u32,
    pub program_id: Address,
    pub accounts: Vec<AccountMetaData>,
    pub data: Vec<u8>,
    pub executed_at: Option<i64>,
}

/// A balance of one mint held for one owner, kept by the token program.
#[derive(Clone, Copy, Debug)]
pub struct TokenAccount {
    pub mint: Address,
    pub owner: Address,
    pub amount: u64,
}

/// A token mint, kept by the token program.
#[derive(Clone, Copy, Debug)]
pub struct Mint {
    pub supply: u64,
    pub mint_authority: Option<Address>,
}

/// The data of an upgradeable program, kept by the program loader.
#[derive(Clone, Copy, Debug)]
pub struct ProgramData {
    pub upgrade_authority: Option<Address>,
}

/// What an account holds; the variant is the record's discriminant.
#[derive(Clone, Debug)]
pub enum AccountData {
    Uninitialized,
    Realm(Realm),
    Governance(Governance),
    TokenOwnerRecord(TokenOwnerRecord),
    Proposal(Proposal),
    VoteRecord(VoteRecord),
    SignatoryRecord(SignatoryRecord),
    ProposalInstruction(ProposalInstruction),
    Token(TokenAccount),
    Mint(Mint),
    ProgramData(ProgramData),
}

/// An account as an instruction sees it.
#[derive(Clone, Debug)]
pub struct AccountInfo {
    pub key: Address,
    pub owner: Address,
    pub is_signer: bool,
    pub data: AccountData,
}

impl AccountInfo {
    pub fn data_is_empty(&self) -> (r: bool)
        ensures
            r == (self.data is Uninitialized),
    {
        match self.data {
            AccountData::Uninitialized => true,
            _ => false,
        }
    }
}

} // verus!
