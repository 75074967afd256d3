use vstd::prelude::*;
use crate::address::Address;
use crate::state::{AccountMetaData, GovernanceConfig, RealmConfigArgs, Vote};

verus! {

/// The instructions of the governance program, one variant per kind, in the
/// order of their encoding.
#[derive(Clone, Debug)]
pub enum GovernanceInstruction {
    CreateRealm { name: Vec<u8>, config_args: RealmConfigArgs },
    DepositGoverningTokens { amount: u64 },
    WithdrawGoverningTokens,
    SetGovernanceDelegate { new_governance_delegate: Option<Address> },
    CreateProgramGovernance { config: GovernanceConfig, transfer_upgrade_authority: bool },
    CreateMintGovernance { config: GovernanceConfig, transfer_mint_authority: bool },
    CreateTokenGovernance { config: GovernanceConfig, transfer_token_owner: bool },
    CreateAccountGovernance { config: GovernanceConfig },
    CreateProposal { name: Vec<u8>, description_link: Vec<u8>, governing_token_mint: Address },
    AddSignatory { signatory: Address },
    RemoveSignatory { signatory: Address },
    SignOffProposal,
    CastVote { vote: Vote },
    FinalizeVote,
    RelinquishVote,
    CancelProposal,
    InsertInstruction {
        index: u16,
        hold_up_time: u32,
        program_id: Address,
        accounts: Vec<AccountMetaData>,
        data: Vec<u8>,
    },
    RemoveInstruction,
    ExecuteInstruction,
    SetGovernanceConfig { config: GovernanceConfig },
    FlagInstructionError,
    SetRealmAuthority { new_realm_authority: Option<Address> },
    SetRealmConfig { config_args: RealmConfigArgs },
}

/// The time at which an instruction runs.
#[derive(Clone, Copy, Debug)]
pub struct Clock {
    pub slot: u64,
    pub unix_timestamp: i64,
}

} // verus!
