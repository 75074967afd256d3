//! Signatories and the sign-off that starts voting.

use vstd::prelude::*;
use crate::error::GovernanceError;
use crate::address::{
    Address, derived_address, get_signatory_record_address, is_derived, key_matches,
    signatory_record_seeds,
};
use crate::processor::{
    created, get_mint_supply, get_proposal_owner_record, mint_supply, proposal_owner_record_check,
    with_data,
};
use crate::proposal::{get_max_vote_weight, max_vote_weight_of};
use crate::state::{
    AccountData, AccountInfo, Governance, Proposal, ProposalState, Realm, SignatoryRecord,
};
use crate::validation::{
    get_governance_data_for_realm, get_proposal_data_for_governance_and_governing_mint,
    get_realm_data_for_governing_token_mint, get_signatory_record_data_for_proposal,
    governance_for_realm_check, proposal_check, realm_for_mint_check, signatory_record_check,
};

verus! {

/// The proposal once voting starts at `now`: the largest possible weight and
/// the threshold are fixed for the rest of the vote.
pub open spec fn voting_started(p: Proposal, now: i64, slot: u64, max: u64, pct: u8) -> Proposal {
    Proposal {
        state: ProposalState::Voting,
        voting_at: Some(now),
        voting_at_slot: Some(slot),
        max_vote_weight: Some(max),
        vote_threshold_percentage: Some(pct),
        ..p
    }
}

/// The proposal after one more signatory signed it off at `now`.
pub open spec fn signed_off(p: Proposal, now: i64) -> Proposal {
    Proposal {
        state: ProposalState::SigningOff,
        signatories_signed_off_count: (p.signatories_signed_off_count + 1) as u8,
        signing_off_at: if p.state == ProposalState::Draft { Some(now) } else { p.signing_off_at },
        ..p
    }
}

/// The largest possible vote weight, from the supply in the mint account.
pub open spec fn vote_weight_snapshot(realm: Realm, mint_acc: AccountInfo) -> Result<u64, GovernanceError> {
    match mint_supply(mint_acc) {
        None => Err(GovernanceError::InvalidAccountType),
        Some(supply) => max_vote_weight_of(realm, mint_acc.key@, supply),
    }
}

fn get_vote_weight_snapshot(realm: &Realm, mint_acc: &AccountInfo) -> (r: Result<u64, GovernanceError>)
    ensures
        r == vote_weight_snapshot(*realm, *mint_acc),
{
    match get_mint_supply(mint_acc) {
        None => Err(GovernanceError::InvalidAccountType),
        Some(supply) => get_max_vote_weight(realm, &mint_acc.key, supply),
    }
}

/// What signing off a proposal does, over the accounts [realm, governance,
/// proposal, proposal owner record, signer, governing mint] followed, for a
/// proposal with signatories, by [signatory record]. Without signatories the
/// owner's sign-off starts voting; with them each signatory signs off in turn
/// and the last one starts voting.
pub open spec fn sign_off_outcome(program_id: Address, accs: Seq<AccountInfo>, now: i64, slot: u64) -> Result<Seq<AccountInfo>, GovernanceError> {
    let pid = program_id@;
    if accs.len() < 6 {
        Err(GovernanceError::NotEnoughAccountKeys)
    } else {
        let mint = accs[5].key@;
        match realm_for_mint_check(pid, accs[0], mint) {
            Err(e) => Err(e),
            Ok(realm) => match governance_for_realm_check(pid, accs[1], accs[0].key@) {
                Err(e) => Err(e),
                Ok(g) => match proposal_check(pid, accs[2], accs[1].key@, mint) {
                    Err(e) => Err(e),
                    Ok(p) => if !(p.state == ProposalState::Draft || p.state == ProposalState::SigningOff) {
                        Err(GovernanceError::InvalidStateCannotSignOff)
                    } else if p.signatories_count == 0 {
                        owner_sign_off(program_id, accs, now, slot, realm, g, p)
                    } else {
                        signatory_sign_off(program_id, accs, now, slot, realm, g, p)
                    },
                },
            },
        }
    }
}

/// The owner's sign-off of a proposal without signatories.
pub open spec fn owner_sign_off(program_id: Address, accs: Seq<AccountInfo>, now: i64, slot: u64, realm: Realm, g: Governance, p: Proposal) -> Result<Seq<AccountInfo>, GovernanceError> {
    match proposal_owner_record_check(program_id@, accs[3], p) {
        Err(e) => Err(e),
        Ok(t) => if !t.owner_or_delegate_signed(accs[4]) {
            Err(GovernanceError::GoverningTokenOwnerOrDelegateMustSign)
        } else {
            match vote_weight_snapshot(realm, accs[5]) {
                Err(e) => Err(e),
                Ok(max) => Ok(accs.update(2, with_data(accs[2], AccountData::Proposal(voting_started(
                    Proposal { signing_off_at: Some(now), ..p }, now, slot, max, g.config.vote_threshold_percentage))))),
            }
        },
    }
}

/// One signatory's sign-off of a proposal with signatories.
pub open spec fn signatory_sign_off(program_id: Address, accs: Seq<AccountInfo>, now: i64, slot: u64, realm: Realm, g: Governance, p: Proposal) -> Result<Seq<AccountInfo>, GovernanceError> {
    if accs.len() < 7 {
        Err(GovernanceError::NotEnoughAccountKeys)
    } else {
        match signatory_record_check(program_id@, accs[6], accs[2].key@) {
            Err(e) => Err(e),
            Ok(sr) => if !(accs[4].is_signer && accs[4].key@ == sr.signatory@) {
                Err(GovernanceError::SignatoryMustSign)
            } else if sr.signed_off {
                Err(GovernanceError::SignatoryAlreadySignedOff)
            } else if p.signatories_signed_off_count == u8::MAX {
                Err(GovernanceError::ArithmeticOverflow)
            } else {
                let signed = signed_off(p, now);
                let sr_acc = with_data(accs[6], AccountData::SignatoryRecord(SignatoryRecord { signed_off: true, ..sr }));
                if signed.signatories_signed_off_count == p.signatories_count {
                    match vote_weight_snapshot(realm, accs[5]) {
                        Err(e) => Err(e),
                        Ok(max) => Ok(accs.update(2, with_data(accs[2], AccountData::Proposal(
                            voting_started(signed, now, slot, max, g.config.vote_threshold_percentage))))
                            .update(6, sr_acc)),
                    }
                } else {
                    Ok(accs.update(2, with_data(accs[2], AccountData::Proposal(signed))).update(6, sr_acc))
                }
            },
        }
    }
}

/// Signs off a proposal in Draft or SigningOff. Without signatories the owner
/// signs off and voting starts; with them each signatory signs off with their
/// own signature and the last one starts voting. When voting starts the
/// largest possible vote weight, from the mint supply, and the governance's
/// threshold are fixed. The accounts are [realm, governance, proposal,
/// proposal owner record, signer, governing mint] followed, for a proposal
/// with signatories, by [signatory record].
pub fn process_sign_off_proposal(program_id: &Address, accounts: &mut Vec<AccountInfo>, now: i64, slot: u64) -> (r: Result<(), GovernanceError>)
    ensures
        match r {
            Ok(()) => sign_off_outcome(*program_id, old(accounts)@, now, slot) == Ok::<Seq<AccountInfo>, GovernanceError>(final(accounts)@),
            Err(e) => sign_off_outcome(*program_id, old(accounts)@, now, slot) == Err::<Seq<AccountInfo>, GovernanceError>(e)
                && final(accounts)@ == old(accounts)@,
        },
{
    if accounts.len() < 6 {
        return Err(GovernanceError::NotEnoughAccountKeys);
    }
    let mint = accounts[5].key;
    let realm_key = accounts[0].key;
    let governance_key = accounts[1].key;
    let proposal_key = accounts[2].key;
    let realm = get_realm_data_for_governing_token_mint(program_id, &accounts[0], &mint)?;
    let g = get_governance_data_for_realm(program_id, &accounts[1], &realm_key)?;
    let pct = g.config.vote_threshold_percentage;
    let p = get_proposal_data_for_governance_and_governing_mint(program_id, &accounts[2], &governance_key, &mint)?;
    if !(p.state == ProposalState::Draft || p.state == ProposalState::SigningOff) {
        return Err(GovernanceError::InvalidStateCannotSignOff);
    }
    if p.signatories_count == 0 {
        let t = get_proposal_owner_record(program_id, &accounts[3], p)?;
        t.assert_token_owner_or_delegate_is_signer(&accounts[4])?;
        let max = get_vote_weight_snapshot(realm, &accounts[5])?;
        // All checks are done: the accounts are written from here on.
        match &mut accounts[2].data {
            AccountData::Proposal(pm) => {
                pm.signing_off_at = Some(now);
                pm.state = ProposalState::Voting;
                pm.voting_at = Some(now);
                pm.voting_at_slot = Some(slot);
                pm.max_vote_weight = Some(max);
                pm.vote_threshold_percentage = Some(pct);
            },
            _ => {},
        }
        return Ok(());
    }
    if accounts.len() < 7 {
        return Err(GovernanceError::NotEnoughAccountKeys);
    }
    let sr = *get_signatory_record_data_for_proposal(program_id, &accounts[6], &proposal_key)?;
    if !(accounts[4].is_signer && accounts[4].key.same(&sr.signatory)) {
        return Err(GovernanceError::SignatoryMustSign);
    }
    if sr.signed_off {
        return Err(GovernanceError::SignatoryAlreadySignedOff);
    }
    if p.signatories_signed_off_count == u8::MAX {
        return Err(GovernanceError::ArithmeticOverflow);
    }
    let last = p.signatories_signed_off_count + 1 == p.signatories_count;
    let mut max: u64 = 0;
    if last {
        max = get_vote_weight_snapshot(realm, &accounts[5])?;
    }
    // All checks are done: the accounts are written from here on.
    match &mut accounts[2].data {
        AccountData::Proposal(pm) => {
            if pm.state == ProposalState::Draft {
                pm.signing_off_at = Some(now);
            }
            pm.state = ProposalState::SigningOff;
            pm.signatories_signed_off_count = pm.signatories_signed_off_count + 1;
            if last {
                pm.state = ProposalState::Voting;
                pm.voting_at = Some(now);
                pm.voting_at_slot = Some(slot);
                pm.max_vote_weight = Some(max);
                pm.vote_threshold_percentage = Some(pct);
            }
        },
        _ => {},
    }
    let mut sr2 = sr;
    sr2.signed_off = true;
    let acc = &mut accounts[6];
    acc.data = AccountData::SignatoryRecord(sr2);
    Ok(())
}

/// What adding a signatory does, over the accounts [proposal, proposal owner
/// record, owner's authority, signatory record]: a Draft proposal gains a
/// signatory, whose record is created at its derived address.
pub open spec fn add_signatory_outcome(program_id: Address, accs: Seq<AccountInfo>, signatory: Address) -> Result<Seq<AccountInfo>, GovernanceError> {
    let pid = program_id@;
    if accs.len() < 4 {
        Err(GovernanceError::NotEnoughAccountKeys)
    } else if accs[0].owner@ != pid {
        Err(GovernanceError::InvalidAccountOwner)
    } else if !(accs[0].data is Proposal) {
        Err(GovernanceError::InvalidAccountType)
    } else {
        let p = accs[0].data->Proposal_0;
        if p.state != ProposalState::Draft {
            Err(GovernanceError::InvalidStateCannotEditSignatories)
        } else {
            match proposal_owner_record_check(pid, accs[1], p) {
                Err(e) => Err(e),
                Ok(t) => if !t.owner_or_delegate_signed(accs[2]) {
                    Err(GovernanceError::GoverningTokenOwnerOrDelegateMustSign)
                } else if !(accs[3].data is Uninitialized) {
                    Err(GovernanceError::SignatoryAlreadyExists)
                } else if !is_derived(accs[3].key@, derived_address(signatory_record_seeds(accs[0].key@, signatory@), pid)) {
                    Err(GovernanceError::InvalidAccountAddress)
                } else if p.signatories_count == u8::MAX {
                    Err(GovernanceError::ArithmeticOverflow)
                } else {
                    Ok(accs.update(0, with_data(accs[0], AccountData::Proposal(
                            Proposal { signatories_count: (p.signatories_count + 1) as u8, ..p })))
                        .update(3, created(accs[3], program_id, AccountData::SignatoryRecord(
                            SignatoryRecord { proposal: accs[0].key, signatory, signed_off: false }))))
                },
            }
        }
    }
}

/// Adds a signatory to a Draft proposal. The accounts are [proposal, proposal
/// owner record, owner's authority, signatory record].
pub fn process_add_signatory(program_id: &Address, accounts: &mut Vec<AccountInfo>, signatory: Address) -> (r: Result<(), GovernanceError>)
    ensures
        match r {
            Ok(()) => add_signatory_outcome(*program_id, old(accounts)@, signatory) == Ok::<Seq<AccountInfo>, GovernanceError>(final(accounts)@),
            Err(e) => add_signatory_outcome(*program_id, old(accounts)@, signatory) == Err::<Seq<AccountInfo>, GovernanceError>(e)
                && final(accounts)@ == old(accounts)@,
        },
{
    if accounts.len() < 4 {
        return Err(GovernanceError::NotEnoughAccountKeys);
    }
    if !accounts[0].owner.same(program_id) {
        return Err(GovernanceError::InvalidAccountOwner);
    }
    let proposal_key = accounts[0].key;
    let p = match &accounts[0].data {
        AccountData::Proposal(p) => p,
        _ => {
            return Err(GovernanceError::InvalidAccountType);
        },
    };
    if p.state != ProposalState::Draft {
        return Err(GovernanceError::InvalidStateCannotEditSignatories);
    }
    let t = get_proposal_owner_record(program_id, &accounts[1], p)?;
    t.assert_token_owner_or_delegate_is_signer(&accounts[2])?;
    if !accounts[3].data_is_empty() {
        return Err(GovernanceError::SignatoryAlreadyExists);
    }
    let d = get_signatory_record_address(program_id, &proposal_key, &signatory);
    if !key_matches(&accounts[3].key, &d) {
        return Err(GovernanceError::InvalidAccountAddress);
    }
    if p.signatories_count == u8::MAX {
        return Err(GovernanceError::ArithmeticOverflow);
    }
    // All checks are done: the accounts are written from here on.
    match &mut accounts[0].data {
        AccountData::Proposal(pm) => {
            pm.signatories_count = pm.signatories_count + 1;
        },
        _ => {},
    }
    let acc = &mut accounts[3];
    acc.owner = *program_id;
    acc.data = AccountData::SignatoryRecord(SignatoryRecord { proposal: proposal_key, signatory, signed_off: false });
    Ok(())
}

/// What removing a signatory does, over the accounts [proposal, proposal owner
/// record, owner's authority, signatory record]: a Draft proposal loses the
/// signatory, whose record is deleted.
pub open spec fn remove_signatory_outcome(program_id: Address, accs: Seq<AccountInfo>, signatory: Address) -> Result<Seq<AccountInfo>, GovernanceError> {
    let pid = program_id@;
    if accs.len() < 4 {
        Err(GovernanceError::NotEnoughAccountKeys)
    } else if accs[0].owner@ != pid {
        Err(GovernanceError::InvalidAccountOwner)
    } else if !(accs[0].data is Proposal) {
        Err(GovernanceError::InvalidAccountType)
    } else {
        let p = accs[0].data->Proposal_0;
        if p.state != ProposalState::Draft {
            Err(GovernanceError::InvalidStateCannotEditSignatories)
        } else {
            match proposal_owner_record_check(pid, accs[1], p) {
                Err(e) => Err(e),
                Ok(t) => if !t.owner_or_delegate_signed(accs[2]) {
                    Err(GovernanceError::GoverningTokenOwnerOrDelegateMustSign)
                } else {
                    match signatory_record_check(pid, accs[3], accs[0].key@) {
                        Err(e) => Err(e),
                        Ok(sr) => if sr.signatory@ != signatory@ {
                            Err(GovernanceError::InvalidAccountAddress)
                        } else if sr.signed_off {
                            Err(GovernanceError::SignatoryAlreadySignedOff)
                        } else if p.signatories_count == 0 {
                            Err(GovernanceError::ArithmeticOverflow)
                        } else {
                            Ok(accs.update(0, with_data(accs[0], AccountData::Proposal(
                                    Proposal { signatories_count: (p.signatories_count - 1) as u8, ..p })))
                                .update(3, with_data(accs[3], AccountData::Uninitialized)))
                        },
                    }
                },
            }
        }
    }
}

/// Removes a signatory who has not signed off from a Draft proposal. The
/// accounts are [proposal, proposal owner record, owner's authority,
/// signatory record].
pub fn process_remove_signatory(program_id: &Address, accounts: &mut Vec<AccountInfo>, signatory: Address) -> (r: Result<(), GovernanceError>)
    ensures
        match r {
            Ok(()) => remove_signatory_outcome(*program_id, old(accounts)@, signatory) == Ok::<Seq<AccountInfo>, GovernanceError>(final(accounts)@),
            Err(e) => remove_signatory_outcome(*program_id, old(accounts)@, signatory) == Err::<Seq<AccountInfo>, GovernanceError>(e)
                && final(accounts)@ == old(accounts)@,
        },
{
    if accounts.len() < 4 {
        return Err(GovernanceError::NotEnoughAccountKeys);
    }
    if !accounts[0].owner.same(program_id) {
        return Err(GovernanceError::InvalidAccountOwner);
    }
    let proposal_key = accounts[0].key;
    let p = match &accounts[0].data {
        AccountData::Proposal(p) => p,
        _ => {
            return Err(GovernanceError::InvalidAccountType);
        },
    };
    if p.state != ProposalState::Draft {
        return Err(GovernanceError::InvalidStateCannotEditSignatories);
    }
    let t = get_proposal_owner_record(program_id, &accounts[1], p)?;
    t.assert_token_owner_or_delegate_is_signer(&accounts[2])?;
    let sr = get_signatory_record_data_for_proposal(program_id, &accounts[3], &proposal_key)?;
    if !sr.signatory.same(&signatory) {
        return Err(GovernanceError::InvalidAccountAddress);
    }
    if sr.signed_off {
        return Err(GovernanceError::SignatoryAlreadySignedOff);
    }
    if p.signatories_count == 0 {
        return Err(GovernanceError::ArithmeticOverflow);
    }
    // All checks are done: the accounts are written from here on.
    match &mut accounts[0].data {
        AccountData::Proposal(pm) => {
            pm.signatories_count = pm.signatories_count - 1;
        },
        _ => {},
    }
    let acc = &mut accounts[3];
    acc.data = AccountData::Uninitialized;
    Ok(())
}

} // verus!
