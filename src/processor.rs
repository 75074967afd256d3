//! The instruction processor: one handler per instruction, each checking every
//! account it is given before it writes any.

pub mod cast_vote;
pub mod finalize_vote;
pub mod governance;
pub mod governing_tokens;
pub mod instructions;
pub mod proposal_lifecycle;
pub mod realm;
pub mod relinquish_vote;
pub mod sign_off;

use vstd::prelude::*;
use crate::error::GovernanceError;
use crate::address::Address;
use crate::instruction::{Clock, GovernanceInstruction};
use crate::processor::cast_vote::{cast_vote_outcome, process_cast_vote};
use crate::processor::finalize_vote::{finalize_vote_outcome, process_finalize_vote};
use crate::processor::governance::{
    create_governance_outcome, process_create_governance, process_set_governance_config,
    set_governance_config_outcome,
};
use crate::processor::governing_tokens::{
    deposit_outcome, process_deposit_governing_tokens, process_set_governance_delegate,
    process_withdraw_governing_tokens, set_delegate_outcome, withdraw_outcome,
};
use crate::processor::instructions::{
    execute_instruction_outcome, flag_instruction_error_outcome, insert_instruction_outcome,
    process_execute_instruction, process_flag_instruction_error, process_insert_instruction,
    process_remove_instruction, remove_instruction_outcome,
};
use crate::processor::proposal_lifecycle::{
    cancel_proposal_outcome, create_proposal_outcome, process_cancel_proposal,
    process_create_proposal,
};
use crate::processor::realm::{
    create_realm_outcome, process_create_realm, process_set_realm_authority,
    process_set_realm_config, set_realm_authority_outcome, set_realm_config_outcome,
};
use crate::processor::relinquish_vote::{process_relinquish_vote, relinquish_vote_outcome};
use crate::processor::sign_off::{
    add_signatory_outcome, process_add_signatory, process_remove_signatory,
    process_sign_off_proposal, remove_signatory_outcome, sign_off_outcome,
};
use crate::state::{AccountData, AccountInfo, GovernedKind, Proposal, TokenOwnerRecord};
use crate::validation::{get_proposal_data_for_governance_and_governing_mint, proposal_check};

verus! {

/// The account with its data replaced.
pub open spec fn with_data(acc: AccountInfo, data: AccountData) -> AccountInfo {
    AccountInfo { data, ..acc }
}

/// The account, now owned by the program and holding `data`.
pub open spec fn created(acc: AccountInfo, program_id: Address, data: AccountData) -> AccountInfo {
    AccountInfo { owner: program_id, data, ..acc }
}

/// The owner's record with one fewer outstanding proposal, never below zero.
pub open spec fn proposal_resolved(t: TokenOwnerRecord) -> TokenOwnerRecord {
    TokenOwnerRecord {
        outstanding_proposal_count: if t.outstanding_proposal_count == 0 {
            0
        } else {
            (t.outstanding_proposal_count - 1) as u8
        },
        ..t
    }
}

/// The record of a proposal's owner, checked to be the one the proposal names.
pub open spec fn proposal_owner_record_check(program_id: Seq<u8>, acc: AccountInfo, p: Proposal) -> Result<TokenOwnerRecord, GovernanceError> {
    if acc.owner@ != program_id {
        Err(GovernanceError::InvalidAccountOwner)
    } else {
        match acc.data {
            AccountData::TokenOwnerRecord(t) => if acc.key@ != p.token_owner_record@ {
                Err(GovernanceError::InvalidTokenOwnerRecordForProposal)
            } else {
                Ok(t)
            },
            _ => Err(GovernanceError::InvalidAccountType),
        }
    }
}

pub(crate) fn get_proposal_owner_record<'a>(program_id: &Address, acc: &'a AccountInfo, p: &Proposal) -> (r: Result<&'a TokenOwnerRecord, GovernanceError>)
    ensures
        match r {
            Ok(x) => proposal_owner_record_check(program_id@, *acc, *p) == Ok::<TokenOwnerRecord, GovernanceError>(*x),
            Err(e) => proposal_owner_record_check(program_id@, *acc, *p) == Err::<TokenOwnerRecord, GovernanceError>(e),
        },
{
    if !acc.owner.same(program_id) {
        return Err(GovernanceError::InvalidAccountOwner);
    }
    match &acc.data {
        AccountData::TokenOwnerRecord(t) => if !acc.key.same(&p.token_owner_record) {
            Err(GovernanceError::InvalidTokenOwnerRecordForProposal)
        } else {
            Ok(t)
        },
        _ => Err(GovernanceError::InvalidAccountType),
    }
}

pub(crate) fn set_token_owner_record(accounts: &mut Vec<AccountInfo>, i: usize, t: TokenOwnerRecord)
    requires
        i < old(accounts)@.len(),
    ensures
        final(accounts)@ == old(accounts)@.update(i as int, with_data(old(accounts)@[i as int], AccountData::TokenOwnerRecord(t))),
{
    let acc = &mut accounts[i];
    acc.data = AccountData::TokenOwnerRecord(t);
}

/// The mint supply that an account holds, if it is a mint.
pub open spec fn mint_supply(acc: AccountInfo) -> Option<u64> {
    match acc.data {
        AccountData::Mint(m) => Some(m.supply),
        _ => None,
    }
}

pub(crate) fn get_mint_supply(acc: &AccountInfo) -> (r: Option<u64>)
    ensures
        r == mint_supply(*acc),
{
    match &acc.data {
        AccountData::Mint(m) => Some(m.supply),
        _ => None,
    }
}

/// The proposal an account holds, checked to belong to the governance at `governance`.
pub open spec fn proposal_for_governance_check(program_id: Seq<u8>, acc: AccountInfo, governance: Seq<u8>) -> Result<Proposal, GovernanceError> {
    match acc.data {
        AccountData::Proposal(p) => proposal_check(program_id, acc, governance, p.governing_token_mint@),
        _ => if acc.owner@ != program_id {
            Err(GovernanceError::InvalidAccountOwner)
        } else {
            Err(GovernanceError::InvalidAccountType)
        },
    }
}

pub(crate) fn get_proposal_for_governance<'a>(program_id: &Address, acc: &'a AccountInfo, governance: &Address) -> (r: Result<&'a Proposal, GovernanceError>)
    ensures
        match r {
            Ok(x) => proposal_for_governance_check(program_id@, *acc, governance@) == Ok::<Proposal, GovernanceError>(*x),
            Err(e) => proposal_for_governance_check(program_id@, *acc, governance@) == Err::<Proposal, GovernanceError>(e),
        },
{
    match &acc.data {
        AccountData::Proposal(p) => get_proposal_data_for_governance_and_governing_mint(program_id, acc, governance, &p.governing_token_mint),
        _ => if !acc.owner.same(program_id) {
            Err(GovernanceError::InvalidAccountOwner)
        } else {
            Err(GovernanceError::InvalidAccountType)
        },
    }
}

/// What an instruction does to the accounts it is given, at `clock`.
pub open spec fn instruction_outcome(program_id: Address, accs: Seq<AccountInfo>, ix: GovernanceInstruction, clock: Clock) -> Result<Seq<AccountInfo>, GovernanceError> {
    let now = clock.unix_timestamp;
    match ix {
        GovernanceInstruction::CreateRealm { name, config_args } => create_realm_outcome(program_id, accs, name, config_args),
        GovernanceInstruction::DepositGoverningTokens { amount } => deposit_outcome(program_id, accs, amount),
        GovernanceInstruction::WithdrawGoverningTokens => withdraw_outcome(program_id, accs),
        GovernanceInstruction::SetGovernanceDelegate { new_governance_delegate } =>
            set_delegate_outcome(program_id, accs, new_governance_delegate),
        GovernanceInstruction::CreateProgramGovernance { config, transfer_upgrade_authority } =>
            create_governance_outcome(program_id, accs, GovernedKind::Program, config, transfer_upgrade_authority),
        GovernanceInstruction::CreateMintGovernance { config, transfer_mint_authority } =>
            create_governance_outcome(program_id, accs, GovernedKind::Mint, config, transfer_mint_authority),
        GovernanceInstruction::CreateTokenGovernance { config, transfer_token_owner } =>
            create_governance_outcome(program_id, accs, GovernedKind::Token, config, transfer_token_owner),
        GovernanceInstruction::CreateAccountGovernance { config } =>
            create_governance_outcome(program_id, accs, GovernedKind::Account, config, false),
        GovernanceInstruction::CreateProposal { name, description_link, governing_token_mint } =>
            create_proposal_outcome(program_id, accs, name, description_link, governing_token_mint, now),
        GovernanceInstruction::AddSignatory { signatory } => add_signatory_outcome(program_id, accs, signatory),
        GovernanceInstruction::RemoveSignatory { signatory } => remove_signatory_outcome(program_id, accs, signatory),
        GovernanceInstruction::SignOffProposal => sign_off_outcome(program_id, accs, now, clock.slot),
        GovernanceInstruction::CastVote { vote } => cast_vote_outcome(program_id, accs, vote, now),
        GovernanceInstruction::FinalizeVote => finalize_vote_outcome(program_id, accs, now),
        GovernanceInstruction::RelinquishVote => relinquish_vote_outcome(program_id, accs),
        GovernanceInstruction::CancelProposal => cancel_proposal_outcome(program_id, accs, now),
        GovernanceInstruction::InsertInstruction { index, hold_up_time, program_id: target, accounts: ix_accounts, data } =>
            insert_instruction_outcome(program_id, accs, index, hold_up_time, target, ix_accounts, data),
        GovernanceInstruction::RemoveInstruction => remove_instruction_outcome(program_id, accs),
        GovernanceInstruction::ExecuteInstruction => execute_instruction_outcome(program_id, accs, now),
        GovernanceInstruction::SetGovernanceConfig { config } => set_governance_config_outcome(program_id, accs, config),
        GovernanceInstruction::FlagInstructionError => flag_instruction_error_outcome(program_id, accs),
        GovernanceInstruction::SetRealmAuthority { new_realm_authority } =>
            set_realm_authority_outcome(program_id, accs, new_realm_authority),
        GovernanceInstruction::SetRealmConfig { config_args } => set_realm_config_outcome(program_id, accs, config_args),
    }
}

/// Runs one instruction against the accounts it is given, at `clock`: either
/// every change it makes, or none and the refusal.
pub fn process_instruction(program_id: &Address, accounts: &mut Vec<AccountInfo>, instruction: GovernanceInstruction, clock: Clock) -> (r: Result<(), GovernanceError>)
    ensures
        match r {
            Ok(()) => instruction_outcome(*program_id, old(accounts)@, instruction, clock) == Ok::<Seq<AccountInfo>, GovernanceError>(final(accounts)@),
            Err(e) => instruction_outcome(*program_id, old(accounts)@, instruction, clock) == Err::<Seq<AccountInfo>, GovernanceError>(e)
                && final(accounts)@ == old(accounts)@,
        },
{
    let now = clock.unix_timestamp;
    match instruction {
        GovernanceInstruction::CreateRealm { name, config_args } => process_create_realm(program_id, accounts, name, config_args),
        GovernanceInstruction::DepositGoverningTokens { amount } => process_deposit_governing_tokens(program_id, accounts, amount),
        GovernanceInstruction::WithdrawGoverningTokens => process_withdraw_governing_tokens(program_id, accounts),
        GovernanceInstruction::SetGovernanceDelegate { new_governance_delegate } =>
            process_set_governance_delegate(program_id, accounts, new_governance_delegate),
        GovernanceInstruction::CreateProgramGovernance { config, transfer_upgrade_authority } =>
            process_create_governance(program_id, accounts, GovernedKind::Program, config, transfer_upgrade_authority),
        GovernanceInstruction::CreateMintGovernance { config, transfer_mint_authority } =>
            process_create_governance(program_id, accounts, GovernedKind::Mint, config, transfer_mint_authority),
        GovernanceInstruction::CreateTokenGovernance { config, transfer_token_owner } =>
            process_create_governance(program_id, accounts, GovernedKind::Token, config, transfer_token_owner),
        GovernanceInstruction::CreateAccountGovernance { config } =>
            process_create_governance(program_id, accounts, GovernedKind::Account, config, false),
        GovernanceInstruction::CreateProposal { name, description_link, governing_token_mint } =>
            process_create_proposal(program_id, accounts, name, description_link, governing_token_mint, now),
        GovernanceInstruction::AddSignatory { signatory } => process_add_signatory(program_id, accounts, signatory),
        GovernanceInstruction::RemoveSignatory { signatory } => process_remove_signatory(program_id, accounts, signatory),
        GovernanceInstruction::SignOffProposal => process_sign_off_proposal(program_id, accounts, now, clock.slot),
        GovernanceInstruction::CastVote { vote } => process_cast_vote(program_id, accounts, vote, now),
        GovernanceInstruction::FinalizeVote => process_finalize_vote(program_id, accounts, now),
        GovernanceInstruction::RelinquishVote => process_relinquish_vote(program_id, accounts),
        GovernanceInstruction::CancelProposal => process_cancel_proposal(program_id, accounts, now),
        GovernanceInstruction::InsertInstruction { index, hold_up_time, program_id: target, accounts: ix_accounts, data } =>
            process_insert_instruction(program_id, accounts, index, hold_up_time, target, ix_accounts, data),
        GovernanceInstruction::RemoveInstruction => process_remove_instruction(program_id, accounts),
        GovernanceInstruction::ExecuteInstruction => process_execute_instruction(program_id, accounts, now),
        GovernanceInstruction::SetGovernanceConfig { config } => process_set_governance_config(program_id, accounts, config),
        GovernanceInstruction::FlagInstructionError => process_flag_instruction_error(program_id, accounts),
        GovernanceInstruction::SetRealmAuthority { new_realm_authority } =>
            process_set_realm_authority(program_id, accounts, new_realm_authority),
        GovernanceInstruction::SetRealmConfig { config_args } => process_set_realm_config(program_id, accounts, config_args),
    }
}

} // verus!
