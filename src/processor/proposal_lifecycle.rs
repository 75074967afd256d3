//! Creating and cancelling proposals.

use vstd::prelude::*;
use crate::error::GovernanceError;
use crate::address::{
    Address, derived_address, get_proposal_address, is_derived, key_matches, proposal_seeds,
};
use crate::processor::{
    created, get_proposal_owner_record, proposal_owner_record_check, proposal_resolved,
    set_token_owner_record, with_data,
};
use crate::state::{
    AccountData, AccountInfo, Governance, InstructionExecutionFlags, Proposal, ProposalState,
    TokenOwnerRecord,
};
use crate::validation::{
    get_governance_data_for_realm, get_realm_data_for_governing_token_mint,
    get_token_owner_record_data, governance_for_realm_check, realm_for_mint_check,
    token_owner_record_check,
};

verus! {

/// A new proposal in Draft, created at `now`, with an empty tally and no
/// queued instructions.
pub open spec fn new_proposal(
    governance: Address,
    mint: Address,
    owner_record: Address,
    name: Vec<u8>,
    description_link: Vec<u8>,
    now: i64,
) -> Proposal {
    Proposal {
        governance,
        governing_token_mint: mint,
        state: ProposalState::Draft,
        token_owner_record: owner_record,
        signatories_count: 0,
        signatories_signed_off_count: 0,
        name,
        description_link,
        draft_at: now,
        signing_off_at: None,
        voting_at: None,
        voting_at_slot: None,
        voting_completed_at: None,
        executing_at: None,
        closed_at: None,
        instructions_executed_count: 0,
        instructions_count: 0,
        instructions_next_index: 0,
        execution_flags: InstructionExecutionFlags::NoFlags,
        yes_votes_count: 0,
        no_votes_count: 0,
        max_vote_weight: None,
        vote_threshold_percentage: None,
    }
}

/// What creating a proposal does, over the accounts [realm, proposal,
/// governance, proposal owner record, owner's authority]: the proposal is
/// created in Draft at the address that the governance's proposal count
/// derives, the count goes up by one, and so does the owner's count of
/// outstanding proposals.
pub open spec fn create_proposal_outcome(
    program_id: Address,
    accs: Seq<AccountInfo>,
    name: Vec<u8>,
    description_link: Vec<u8>,
    mint: Address,
    now: i64,
) -> Result<Seq<AccountInfo>, GovernanceError> {
    let pid = program_id@;
    if accs.len() < 5 {
        Err(GovernanceError::NotEnoughAccountKeys)
    } else if !(accs[1].data is Uninitialized) {
        Err(GovernanceError::ProposalAlreadyExists)
    } else {
        match realm_for_mint_check(pid, accs[0], mint@) {
            Err(e) => Err(e),
            Ok(realm) => match governance_for_realm_check(pid, accs[2], accs[0].key@) {
                Err(e) => Err(e),
                Ok(g) => match token_owner_record_check(pid, accs[3], accs[0].key@, Some(mint@)) {
                    Err(e) => Err(e),
                    Ok(t) => if !t.owner_or_delegate_signed(accs[4]) {
                        Err(GovernanceError::GoverningTokenOwnerOrDelegateMustSign)
                    } else if t.create_proposal_check(realm) is Err {
                        Err(t.create_proposal_check(realm)->Err_0)
                    } else if !is_derived(accs[1].key@, derived_address(proposal_seeds(accs[2].key@, mint@, g.proposals_count), pid)) {
                        Err(GovernanceError::InvalidAccountAddress)
                    } else if g.proposals_count == u32::MAX {
                        Err(GovernanceError::ArithmeticOverflow)
                    } else {
                        Ok(accs.update(3, with_data(accs[3], AccountData::TokenOwnerRecord(
                                TokenOwnerRecord { outstanding_proposal_count: (t.outstanding_proposal_count + 1) as u8, ..t })))
                            .update(1, created(accs[1], program_id, AccountData::Proposal(
                                new_proposal(accs[2].key, mint, accs[3].key, name, description_link, now))))
                            .update(2, with_data(accs[2], AccountData::Governance(
                                Governance { proposals_count: (g.proposals_count + 1) as u32, ..g }))))
                    },
                },
            },
        }
    }
}

/// Creates a proposal in Draft at the address derived from the governance, the
/// mint and the governance's proposal count. The accounts are [realm,
/// proposal, governance, proposal owner record, owner's authority].
pub fn process_create_proposal(
    program_id: &Address,
    accounts: &mut Vec<AccountInfo>,
    name: Vec<u8>,
    description_link: Vec<u8>,
    governing_token_mint: Address,
    now: i64,
) -> (r: Result<(), GovernanceError>)
    ensures
        match r {
            Ok(()) => create_proposal_outcome(*program_id, old(accounts)@, name, description_link, governing_token_mint, now)
                == Ok::<Seq<AccountInfo>, GovernanceError>(final(accounts)@),
            Err(e) => create_proposal_outcome(*program_id, old(accounts)@, name, description_link, governing_token_mint, now)
                == Err::<Seq<AccountInfo>, GovernanceError>(e) && final(accounts)@ == old(accounts)@,
        },
{
    if accounts.len() < 5 {
        return Err(GovernanceError::NotEnoughAccountKeys);
    }
    if !accounts[1].data_is_empty() {
        return Err(GovernanceError::ProposalAlreadyExists);
    }
    let realm_key = accounts[0].key;
    let proposal_key = accounts[1].key;
    let governance_key = accounts[2].key;
    let owner_record_key = accounts[3].key;
    let realm = get_realm_data_for_governing_token_mint(program_id, &accounts[0], &governing_token_mint)?;
    let g = *get_governance_data_for_realm(program_id, &accounts[2], &realm_key)?;
    let t = *get_token_owner_record_data(program_id, &accounts[3], &realm_key, &Some(governing_token_mint))?;
    t.assert_token_owner_or_delegate_is_signer(&accounts[4])?;
    t.assert_can_create_proposal(realm)?;
    let d = get_proposal_address(program_id, &governance_key, &governing_token_mint, g.proposals_count);
    if !key_matches(&proposal_key, &d) {
        return Err(GovernanceError::InvalidAccountAddress);
    }
    if g.proposals_count == u32::MAX {
        return Err(GovernanceError::ArithmeticOverflow);
    }
    // All checks are done: the accounts are written from here on.
    let mut t2 = t;
    t2.outstanding_proposal_count = t2.outstanding_proposal_count + 1;
    set_token_owner_record(accounts, 3, t2);
    let proposal = Proposal {
        governance: governance_key,
        governing_token_mint,
        state: ProposalState::Draft,
        token_owner_record: owner_record_key,
        signatories_count: 0,
        signatories_signed_off_count: 0,
        name,
        description_link,
        draft_at: now,
        signing_off_at: None,
        voting_at: None,
        voting_at_slot: None,
        voting_completed_at: None,
        executing_at: None,
        closed_at: None,
        instructions_executed_count: 0,
        instructions_count: 0,
        instructions_next_index: 0,
        execution_flags: InstructionExecutionFlags::NoFlags,
        yes_votes_count: 0,
        no_votes_count: 0,
        max_vote_weight: None,
        vote_threshold_percentage: None,
    };
    {
        let acc = &mut accounts[1];
        acc.owner = *program_id;
        acc.data = AccountData::Proposal(proposal);
    }
    let mut g2 = g;
    g2.proposals_count = g2.proposals_count + 1;
    let acc = &mut accounts[2];
    acc.data = AccountData::Governance(g2);
    Ok(())
}

/// What cancelling a proposal does, over the accounts [proposal, proposal owner
/// record, owner's authority]: a proposal not yet decided is closed at `now`
/// as Cancelled and the owner has one fewer outstanding proposal.
pub open spec fn cancel_proposal_outcome(program_id: Address, accs: Seq<AccountInfo>, now: i64) -> Result<Seq<AccountInfo>, GovernanceError> {
    let pid = program_id@;
    if accs.len() < 3 {
        Err(GovernanceError::NotEnoughAccountKeys)
    } else if accs[0].owner@ != pid {
        Err(GovernanceError::InvalidAccountOwner)
    } else if !(accs[0].data is Proposal) {
        Err(GovernanceError::InvalidAccountType)
    } else {
        let p = accs[0].data->Proposal_0;
        if !(p.state == ProposalState::Draft || p.state == ProposalState::SigningOff || p.state == ProposalState::Voting) {
            Err(GovernanceError::InvalidStateCannotCancelProposal)
        } else {
            match proposal_owner_record_check(pid, accs[1], p) {
                Err(e) => Err(e),
                Ok(t) => if !t.owner_or_delegate_signed(accs[2]) {
                    Err(GovernanceError::GoverningTokenOwnerOrDelegateMustSign)
                } else {
                    Ok(accs.update(0, with_data(accs[0], AccountData::Proposal(
                            Proposal { state: ProposalState::Cancelled, closed_at: Some(now), ..p })))
                        .update(1, with_data(accs[1], AccountData::TokenOwnerRecord(proposal_resolved(t)))))
                },
            }
        }
    }
}

/// Cancels a proposal in Draft, SigningOff or Voting at its owner's request.
/// The accounts are [proposal, proposal owner record, owner's authority].
pub fn process_cancel_proposal(program_id: &Address, accounts: &mut Vec<AccountInfo>, now: i64) -> (r: Result<(), GovernanceError>)
    ensures
        match r {
            Ok(()) => cancel_proposal_outcome(*program_id, old(accounts)@, now) == Ok::<Seq<AccountInfo>, GovernanceError>(final(accounts)@),
            Err(e) => cancel_proposal_outcome(*program_id, old(accounts)@, now) == Err::<Seq<AccountInfo>, GovernanceError>(e)
                && final(accounts)@ == old(accounts)@,
        },
{
    if accounts.len() < 3 {
        return Err(GovernanceError::NotEnoughAccountKeys);
    }
    if !accounts[0].owner.same(program_id) {
        return Err(GovernanceError::InvalidAccountOwner);
    }
    let p = match &accounts[0].data {
        AccountData::Proposal(p) => p,
        _ => {
            return Err(GovernanceError::InvalidAccountType);
        },
    };
    if !(p.state == ProposalState::Draft || p.state == ProposalState::SigningOff || p.state == ProposalState::Voting) {
        return Err(GovernanceError::InvalidStateCannotCancelProposal);
    }
    let t = *get_proposal_owner_record(program_id, &accounts[1], p)?;
    t.assert_token_owner_or_delegate_is_signer(&accounts[2])?;
    // All checks are done: the accounts are written from here on.
    match &mut accounts[0].data {
        AccountData::Proposal(pm) => {
            pm.state = ProposalState::Cancelled;
            pm.closed_at = Some(now);
        },
        _ => {},
    }
    let mut t2 = t;
    t2.decrease_outstanding_proposal_count();
    set_token_owner_record(accounts, 1, t2);
    Ok(())
}

} // verus!
