//! Deciding a vote once its voting time is over.

use vstd::prelude::*;
use crate::error::GovernanceError;
use crate::address::Address;
use crate::processor::{
    get_mint_supply, get_proposal_owner_record, mint_supply, proposal_owner_record_check,
    proposal_resolved, set_token_owner_record, with_data,
};
use crate::proposal::{final_state, get_final_vote_state, get_max_vote_weight, max_vote_weight_of};
use crate::state::{AccountData, AccountInfo, Proposal};
use crate::validation::{
    get_governance_data_for_realm, get_proposal_data_for_governance_and_governing_mint,
    get_realm_data_for_governing_token_mint, governance_for_realm_check, proposal_check,
    realm_for_mint_check,
};

verus! {

/// The weight and threshold a proposal's vote is decided against: the snapshot
/// taken when voting started, or else the current ones.
pub open spec fn decided_against(p: Proposal, max_now: u64, pct_now: u8) -> (u64, u8) {
    (
        match p.max_vote_weight { Some(m) => m, None => max_now },
        match p.vote_threshold_percentage { Some(t) => t, None => pct_now },
    )
}

/// The proposal once its vote is finalized at `now`.
pub open spec fn finalized(p: Proposal, now: i64, max: u64, pct: u8) -> Proposal {
    Proposal {
        state: final_state(p.yes_votes_count, max, pct),
        voting_completed_at: Some(now),
        max_vote_weight: Some(max),
        vote_threshold_percentage: Some(pct),
        ..p
    }
}

/// What finalizing a vote whose time is over does, over the accounts [realm,
/// governance, proposal, proposal owner record, governing mint]: the outcome is
/// decided from the tally, and the owner has one fewer outstanding proposal.
pub open spec fn finalize_vote_outcome(program_id: Address, accs: Seq<AccountInfo>, now: i64) -> Result<Seq<AccountInfo>, GovernanceError> {
    let pid = program_id@;
    if accs.len() < 5 {
        Err(GovernanceError::NotEnoughAccountKeys)
    } else {
        let mint = accs[4].key@;
        match realm_for_mint_check(pid, accs[0], mint) {
            Err(e) => Err(e),
            Ok(realm) => match governance_for_realm_check(pid, accs[1], accs[0].key@) {
                Err(e) => Err(e),
                Ok(g) => match proposal_check(pid, accs[2], accs[1].key@, mint) {
                    Err(e) => Err(e),
                    Ok(p) => if p.finalize_check(g.config, now) is Err {
                        Err(p.finalize_check(g.config, now)->Err_0)
                    } else {
                        match proposal_owner_record_check(pid, accs[3], p) {
                            Err(e) => Err(e),
                            Ok(t) => if mint_supply(accs[4]) is None {
                                Err(GovernanceError::InvalidAccountType)
                            } else {
                                match max_vote_weight_of(realm, mint, mint_supply(accs[4])->Some_0) {
                                    Err(e) => Err(e),
                                    Ok(max_now) => {
                                        let (max, pct) = decided_against(p, max_now, g.config.vote_threshold_percentage);
                                        Ok(accs.update(2, with_data(accs[2], AccountData::Proposal(finalized(p, now, max, pct))))
                                            .update(3, with_data(accs[3], AccountData::TokenOwnerRecord(proposal_resolved(t)))))
                                    },
                                }
                            },
                        }
                    },
                },
            },
        }
    }
}

/// Decides a vote whose voting time is over: Succeeded exactly when the yes
/// weight strictly exceeds the threshold share of the largest possible weight,
/// else Defeated. The accounts are [realm, governance, proposal, proposal
/// owner record, governing mint].
pub fn process_finalize_vote(program_id: &Address, accounts: &mut Vec<AccountInfo>, now: i64) -> (r: Result<(), GovernanceError>)
    ensures
        match r {
            Ok(()) => finalize_vote_outcome(*program_id, old(accounts)@, now) == Ok::<Seq<AccountInfo>, GovernanceError>(final(accounts)@),
            Err(e) => finalize_vote_outcome(*program_id, old(accounts)@, now) == Err::<Seq<AccountInfo>, GovernanceError>(e)
                && final(accounts)@ == old(accounts)@,
        },
{
    if accounts.len() < 5 {
        return Err(GovernanceError::NotEnoughAccountKeys);
    }
    let mint = accounts[4].key;
    let realm_key = accounts[0].key;
    let governance_key = accounts[1].key;
    let realm = get_realm_data_for_governing_token_mint(program_id, &accounts[0], &mint)?;
    let g = get_governance_data_for_realm(program_id, &accounts[1], &realm_key)?;
    let config = g.config;
    let p = get_proposal_data_for_governance_and_governing_mint(program_id, &accounts[2], &governance_key, &mint)?;
    p.assert_can_finalize_vote(&config, now)?;
    let t = *get_proposal_owner_record(program_id, &accounts[3], p)?;
    let supply = match get_mint_supply(&accounts[4]) {
        Some(s) => s,
        None => {
            return Err(GovernanceError::InvalidAccountType);
        },
    };
    let max_now = get_max_vote_weight(realm, &mint, supply)?;
    let max = match p.max_vote_weight {
        Some(m) => m,
        None => max_now,
    };
    let pct = match p.vote_threshold_percentage {
        Some(x) => x,
        None => config.vote_threshold_percentage,
    };
    let state = get_final_vote_state(p.yes_votes_count, max, pct);
    // All checks are done: the accounts are written from here on.
    match &mut accounts[2].data {
        AccountData::Proposal(pm) => {
            pm.state = state;
            pm.voting_completed_at = Some(now);
            pm.max_vote_weight = Some(max);
            pm.vote_threshold_percentage = Some(pct);
        },
        _ => {},
    }
    let mut t2 = t;
    t2.decrease_outstanding_proposal_count();
    set_token_owner_record(accounts, 3, t2);
    Ok(())
}

} // verus!
