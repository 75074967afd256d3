//! Casting a vote, with the early decision of a tally that settles the outcome.

use vstd::prelude::*;
use crate::error::GovernanceError;
use crate::address::{
    Address, derived_address, get_vote_record_address, is_derived, key_matches, vote_record_seeds,
};
use crate::processor::{
    created, get_proposal_owner_record, proposal_owner_record_check, proposal_resolved,
    set_token_owner_record, with_data,
};
use crate::state::{
    AccountData, AccountInfo, Proposal, TokenOwnerRecord, Vote, VoteRecord, VoteWeight,
};
use crate::validation::{
    get_governance_data_for_realm, get_proposal_data_for_governance_and_governing_mint,
    get_realm_data_for_governing_token_mint, get_token_owner_record_data,
    governance_for_realm_check, proposal_check, realm_for_mint_check, token_owner_record_check,
};

verus! {

/// The voter's record after casting a vote.
pub open spec fn voted(t: TokenOwnerRecord) -> TokenOwnerRecord {
    TokenOwnerRecord {
        unrelinquished_votes_count: (t.unrelinquished_votes_count + 1) as u32,
        total_votes_count: (t.total_votes_count + 1) as u32,
        ..t
    }
}

pub open spec fn vote_weight_of(vote: Vote, amount: u64) -> VoteWeight {
    match vote {
        Vote::Yes => VoteWeight::Yes(amount),
        Vote::No => VoteWeight::No(amount),
    }
}

/// What casting `vote` at `now` does, over the accounts
/// [realm, governance, proposal, proposal owner record, voter record,
/// voter's authority, vote record, governing mint]: the accounts after it, or
/// the refusal.
pub open spec fn cast_vote_outcome(program_id: Address, accs: Seq<AccountInfo>, vote: Vote, now: i64) -> Result<Seq<AccountInfo>, GovernanceError> {
    let pid = program_id@;
    if accs.len() < 8 {
        Err(GovernanceError::NotEnoughAccountKeys)
    } else if !(accs[6].data is Uninitialized) {
        Err(GovernanceError::VoteAlreadyExists)
    } else {
        let mint = accs[7].key@;
        match realm_for_mint_check(pid, accs[0], mint) {
            Err(e) => Err(e),
            Ok(_) => match governance_for_realm_check(pid, accs[1], accs[0].key@) {
                Err(e) => Err(e),
                Ok(g) => match proposal_check(pid, accs[2], accs[1].key@, mint) {
                    Err(e) => Err(e),
                    Ok(p) => if p.cast_vote_check(g.config, now) is Err {
                        Err(p.cast_vote_check(g.config, now)->Err_0)
                    } else {
                        match token_owner_record_check(pid, accs[4], g.realm@, Some(mint)) {
                            Err(e) => Err(e),
                            Ok(v) => cast_vote_apply(program_id, accs, vote, now, p, v),
                        }
                    },
                },
            },
        }
    }
}

/// The part of a vote that follows the checks of the realm, governance,
/// proposal and voter record.
pub open spec fn cast_vote_apply(
    program_id: Address,
    accs: Seq<AccountInfo>,
    vote: Vote,
    now: i64,
    p: Proposal,
    v: TokenOwnerRecord,
) -> Result<Seq<AccountInfo>, GovernanceError> {
    let amount = v.governing_token_deposit_amount;
    let after = p.after_vote(vote, amount, now);
    let tipped = p.tallied(vote, amount).tip() is Some;
    let same_owner = accs[3].key@ == accs[4].key@;
    if !v.owner_or_delegate_signed(accs[5]) {
        Err(GovernanceError::GoverningTokenOwnerOrDelegateMustSign)
    } else if v.unrelinquished_votes_count == u32::MAX || v.total_votes_count == u32::MAX || !p.vote_fits(vote, amount) {
        Err(GovernanceError::ArithmeticOverflow)
    } else if !is_derived(accs[6].key@, derived_address(vote_record_seeds(accs[2].key@, accs[4].key@), program_id@)) {
        Err(GovernanceError::InvalidAccountAddress)
    } else if tipped && same_owner && accs[4].key@ != p.token_owner_record@ {
        Err(GovernanceError::InvalidTokenOwnerRecordForProposal)
    } else if tipped && !same_owner && proposal_owner_record_check(program_id@, accs[3], p) is Err {
        Err(proposal_owner_record_check(program_id@, accs[3], p)->Err_0)
    } else {
        let v2 = if tipped && same_owner { proposal_resolved(voted(v)) } else { voted(v) };
        let record = VoteRecord {
            proposal: accs[2].key,
            governing_token_owner: v.governing_token_owner,
            vote_weight: vote_weight_of(vote, amount),
            is_relinquished: false,
        };
        let a = accs.update(2, with_data(accs[2], AccountData::Proposal(after)))
            .update(4, with_data(accs[4], AccountData::TokenOwnerRecord(v2)))
            .update(6, created(accs[6], program_id, AccountData::VoteRecord(record)));
        if tipped && !same_owner {
            Ok(a.update(3, with_data(accs[3], AccountData::TokenOwnerRecord(
                proposal_resolved(proposal_owner_record_check(program_id@, accs[3], p)->Ok_0)))))
        } else {
            Ok(a)
        }
    }
}

/// Casts the voter's whole deposit as a Yes or No vote on a voting proposal,
/// creating the vote record at its derived address; completes the vote early
/// where the tally decides it. The accounts are
/// [realm, governance, proposal, proposal owner record, voter record,
/// voter's authority, vote record, governing mint].
pub fn process_cast_vote(program_id: &Address, accounts: &mut Vec<AccountInfo>, vote: Vote, now: i64) -> (r: Result<(), GovernanceError>)
    ensures
        match r {
            Ok(()) => cast_vote_outcome(*program_id, old(accounts)@, vote, now) == Ok::<Seq<AccountInfo>, GovernanceError>(final(accounts)@),
            Err(e) => cast_vote_outcome(*program_id, old(accounts)@, vote, now) == Err::<Seq<AccountInfo>, GovernanceError>(e)
                && final(accounts)@ == old(accounts)@,
        },
        !(old(accounts)@.len() < 8) && !(old(accounts)@[6].data is Uninitialized)
            ==> r == Err::<(), GovernanceError>(GovernanceError::VoteAlreadyExists),
{
    if accounts.len() < 8 {
        return Err(GovernanceError::NotEnoughAccountKeys);
    }
    if !accounts[6].data_is_empty() {
        return Err(GovernanceError::VoteAlreadyExists);
    }
    let ghost accs = accounts@;
    let mint = accounts[7].key;
    let realm_key = accounts[0].key;
    let governance_key = accounts[1].key;
    let proposal_key = accounts[2].key;
    let voter_key = accounts[4].key;
    let vote_record_key = accounts[6].key;
    let _realm = get_realm_data_for_governing_token_mint(program_id, &accounts[0], &mint)?;
    let governance = get_governance_data_for_realm(program_id, &accounts[1], &realm_key)?;
    let config = governance.config;
    let governance_realm = governance.realm;
    let proposal = get_proposal_data_for_governance_and_governing_mint(program_id, &accounts[2], &governance_key, &mint)?;
    proposal.assert_can_cast_vote(&config, now)?;
    let voter = *get_token_owner_record_data(program_id, &accounts[4], &governance_realm, &Some(mint))?;
    voter.assert_token_owner_or_delegate_is_signer(&accounts[5])?;
    let amount = voter.governing_token_deposit_amount;
    if voter.unrelinquished_votes_count == u32::MAX || voter.total_votes_count == u32::MAX {
        return Err(GovernanceError::ArithmeticOverflow);
    }
    let fits = match vote {
        Vote::Yes => proposal.yes_votes_count <= u64::MAX - amount,
        Vote::No => proposal.no_votes_count <= u64::MAX - amount,
    };
    if !fits {
        return Err(GovernanceError::ArithmeticOverflow);
    }
    let d = get_vote_record_address(program_id, &proposal_key, &voter_key);
    if !key_matches(&vote_record_key, &d) {
        return Err(GovernanceError::InvalidAccountAddress);
    }
    let would_tip = match (proposal.max_vote_weight, proposal.vote_threshold_percentage) {
        (Some(m), Some(pct)) => {
            let (y, n) = match vote {
                Vote::Yes => (proposal.yes_votes_count + amount, proposal.no_votes_count),
                Vote::No => (proposal.yes_votes_count, proposal.no_votes_count + amount),
            };
            crate::proposal::get_tipped_vote_state(y, n, m, pct).is_some()
        },
        _ => false,
    };
    let same_owner = accounts[3].key.same(&voter_key);
    let mut owner_record: Option<TokenOwnerRecord> = None;
    if would_tip && same_owner && !voter_key.same(&proposal.token_owner_record) {
        return Err(GovernanceError::InvalidTokenOwnerRecordForProposal);
    }
    if would_tip && !same_owner {
        owner_record = Some(*get_proposal_owner_record(program_id, &accounts[3], proposal)?);
    }
    let ghost p = proposal_check(program_id@, accs[2], governance_key@, mint@)->Ok_0;
    // All checks are done: the accounts are written from here on.
    let tipped = match &mut accounts[2].data {
        AccountData::Proposal(pm) => pm.apply_vote(vote, amount, now),
        _ => false,
    };
    let mut v2 = voter;
    v2.unrelinquished_votes_count = v2.unrelinquished_votes_count + 1;
    v2.total_votes_count = v2.total_votes_count + 1;
    if tipped && same_owner {
        v2.decrease_outstanding_proposal_count();
    }
    set_token_owner_record(accounts, 4, v2);
    let record = VoteRecord {
        proposal: proposal_key,
        governing_token_owner: voter.governing_token_owner,
        vote_weight: match vote {
            Vote::Yes => VoteWeight::Yes(amount),
            Vote::No => VoteWeight::No(amount),
        },
        is_relinquished: false,
    };
    {
        let acc = &mut accounts[6];
        acc.owner = *program_id;
        acc.data = AccountData::VoteRecord(record);
    }
    match owner_record {
        Some(o) => {
            let mut o2 = o;
            o2.decrease_outstanding_proposal_count();
            set_token_owner_record(accounts, 3, o2);
        },
        None => {},
    }
    Ok(())
}

/// A second vote on the same proposal by the same voter record is refused with
/// VoteAlreadyExists: the vote record that the first vote created sits at the
/// only address that a vote of this pair can use.
pub proof fn lemma_second_vote_refused(program_id: Address, accs: Seq<AccountInfo>, vote: Vote, now: i64, vote2: Vote, now2: i64)
    requires
        cast_vote_outcome(program_id, accs, vote, now) is Ok,
    ensures
        cast_vote_outcome(program_id, cast_vote_outcome(program_id, accs, vote, now)->Ok_0, vote2, now2)
            == Err::<Seq<AccountInfo>, GovernanceError>(GovernanceError::VoteAlreadyExists),
{
}

} // verus!
