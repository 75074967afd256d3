//! Relinquishing a cast vote.

use vstd::prelude::*;
use crate::error::GovernanceError;
use crate::address::Address;
use crate::processor::{set_token_owner_record, with_data};
use crate::state::{AccountData, AccountInfo, Proposal, TokenOwnerRecord, VoteRecord, VoteWeight};
use crate::validation::{
    get_governance_data, get_proposal_data_for_governance_and_governing_mint,
    get_token_owner_record_data, get_vote_record_data_for_proposal_and_token_owner,
    governance_check, proposal_check, token_owner_record_check, vote_record_check,
};

verus! {

/// What relinquishing a vote does, over the accounts [governance, proposal,
/// voter record, vote record, governing mint, voter's authority]: while the
/// proposal is voting the weight leaves the tally and the vote record is
/// deleted; afterwards the tally stays and the vote record is marked
/// relinquished. Either way the voter has one fewer unrelinquished vote.
pub open spec fn relinquish_vote_outcome(program_id: Address, accs: Seq<AccountInfo>) -> Result<Seq<AccountInfo>, GovernanceError> {
    let pid = program_id@;
    if accs.len() < 6 {
        Err(GovernanceError::NotEnoughAccountKeys)
    } else {
        let mint = accs[4].key@;
        match governance_check(pid, accs[0]) {
            Err(e) => Err(e),
            Ok(g) => match proposal_check(pid, accs[1], accs[0].key@, mint) {
                Err(e) => Err(e),
                Ok(p) => match token_owner_record_check(pid, accs[2], g.realm@, Some(mint)) {
                    Err(e) => Err(e),
                    Ok(t) => match vote_record_check(pid, accs[3], accs[1].key@, accs[2].key@, t.governing_token_owner@) {
                        Err(e) => Err(e),
                        Ok(v) => relinquish_apply(accs, p, t, v),
                    },
                },
            },
        }
    }
}

/// The part of relinquishing that follows the checks of the records.
pub open spec fn relinquish_apply(accs: Seq<AccountInfo>, p: Proposal, t: TokenOwnerRecord, v: VoteRecord) -> Result<Seq<AccountInfo>, GovernanceError> {
    let t2 = TokenOwnerRecord { unrelinquished_votes_count: (t.unrelinquished_votes_count - 1) as u32, ..t };
    if v.is_relinquished {
        Err(GovernanceError::VoteAlreadyRelinquished)
    } else if p.state == crate::state::ProposalState::Voting {
        if !t.owner_or_delegate_signed(accs[5]) {
            Err(GovernanceError::GoverningTokenOwnerOrDelegateMustSign)
        } else if !p.holds_weight(v.vote_weight) || t.unrelinquished_votes_count == 0 {
            Err(GovernanceError::ArithmeticOverflow)
        } else {
            Ok(accs.update(1, with_data(accs[1], AccountData::Proposal(p.untallied(v.vote_weight))))
                .update(2, with_data(accs[2], AccountData::TokenOwnerRecord(t2)))
                .update(3, with_data(accs[3], AccountData::Uninitialized)))
        }
    } else if t.unrelinquished_votes_count == 0 {
        Err(GovernanceError::ArithmeticOverflow)
    } else {
        Ok(accs.update(2, with_data(accs[2], AccountData::TokenOwnerRecord(t2)))
            .update(3, with_data(accs[3], AccountData::VoteRecord(VoteRecord { is_relinquished: true, ..v }))))
    }
}

/// Relinquishes the voter's vote on a proposal. The accounts are
/// [governance, proposal, voter record, vote record, governing mint,
/// voter's authority].
pub fn process_relinquish_vote(program_id: &Address, accounts: &mut Vec<AccountInfo>) -> (r: Result<(), GovernanceError>)
    ensures
        match r {
            Ok(()) => relinquish_vote_outcome(*program_id, old(accounts)@) == Ok::<Seq<AccountInfo>, GovernanceError>(final(accounts)@),
            Err(e) => relinquish_vote_outcome(*program_id, old(accounts)@) == Err::<Seq<AccountInfo>, GovernanceError>(e)
                && final(accounts)@ == old(accounts)@,
        },
{
    if accounts.len() < 6 {
        return Err(GovernanceError::NotEnoughAccountKeys);
    }
    let ghost accs = accounts@;
    let mint = accounts[4].key;
    let governance_key = accounts[0].key;
    let proposal_key = accounts[1].key;
    let record_key = accounts[2].key;
    let governance = get_governance_data(program_id, &accounts[0])?;
    let realm_key = governance.realm;
    let proposal = get_proposal_data_for_governance_and_governing_mint(program_id, &accounts[1], &governance_key, &mint)?;
    let voter = *get_token_owner_record_data(program_id, &accounts[2], &realm_key, &Some(mint))?;
    let v = *get_vote_record_data_for_proposal_and_token_owner(
        program_id, &accounts[3], &proposal_key, &record_key, &voter.governing_token_owner)?;
    if v.is_relinquished {
        return Err(GovernanceError::VoteAlreadyRelinquished);
    }
    let voting = proposal.state == crate::state::ProposalState::Voting;
    if voting {
        voter.assert_token_owner_or_delegate_is_signer(&accounts[5])?;
        let holds = match v.vote_weight {
            VoteWeight::Yes(a) => a <= proposal.yes_votes_count,
            VoteWeight::No(a) => a <= proposal.no_votes_count,
        };
        if !holds {
            return Err(GovernanceError::ArithmeticOverflow);
        }
    }
    if voter.unrelinquished_votes_count == 0 {
        return Err(GovernanceError::ArithmeticOverflow);
    }
    // All checks are done: the accounts are written from here on.
    if voting {
        match &mut accounts[1].data {
            AccountData::Proposal(pm) => pm.remove_vote(v.vote_weight),
            _ => {},
        }
    }
    let mut t2 = voter;
    t2.unrelinquished_votes_count = t2.unrelinquished_votes_count - 1;
    set_token_owner_record(accounts, 2, t2);
    let acc = &mut accounts[3];
    if voting {
        acc.data = AccountData::Uninitialized;
    } else {
        let mut v2 = v;
        v2.is_relinquished = true;
        acc.data = AccountData::VoteRecord(v2);
    }
    Ok(())
}

pub open spec fn yes_weight(w: VoteWeight) -> int {
    match w {
        VoteWeight::Yes(a) => a as int,
        VoteWeight::No(_) => 0,
    }
}

pub open spec fn no_weight(w: VoteWeight) -> int {
    match w {
        VoteWeight::Yes(_) => 0,
        VoteWeight::No(a) => a as int,
    }
}

/// Whether the accounts of a relinquish are [governance, proposal, voter
/// record, vote record, governing mint, ...] and belong together: each passes
/// its owner, kind, back-reference and address checks.
pub open spec fn relinquish_accounts_valid(program_id: Address, accs: Seq<AccountInfo>) -> bool {
    let pid = program_id@;
    let g = governance_check(pid, accs[0]);
    let t = token_owner_record_check(pid, accs[2], g->Ok_0.realm@, Some(accs[4].key@));
    &&& accs.len() >= 6
    &&& g is Ok
    &&& proposal_check(pid, accs[1], accs[0].key@, accs[4].key@) is Ok
    &&& t is Ok
    &&& vote_record_check(pid, accs[3], accs[1].key@, accs[2].key@, t->Ok_0.governing_token_owner@) is Ok
}

/// Relinquishing a vote not yet relinquished while the proposal is voting,
/// signed by the voter or their delegate, succeeds: it takes exactly the
/// vote's weight off its side of the tally, deletes the vote record, and
/// lowers the voter's unrelinquished votes by one while their total votes
/// stay. The tally holds the vote's weight and the voter's record counts the
/// vote, as casting it made them.
pub proof fn lemma_relinquish_while_voting(program_id: Address, accs: Seq<AccountInfo>)
    requires
        relinquish_accounts_valid(program_id, accs),
        ({
            let p = accs[1].data->Proposal_0;
            let t = accs[2].data->TokenOwnerRecord_0;
            let v = accs[3].data->VoteRecord_0;
            &&& p.state == crate::state::ProposalState::Voting
            &&& !v.is_relinquished
            &&& t.owner_or_delegate_signed(accs[5])
            &&& p.holds_weight(v.vote_weight)
            &&& t.unrelinquished_votes_count > 0
        }),
    ensures
        relinquish_vote_outcome(program_id, accs) is Ok,
        ({
            let after = relinquish_vote_outcome(program_id, accs)->Ok_0;
            let p = accs[1].data->Proposal_0;
            let w = accs[3].data->VoteRecord_0.vote_weight;
            let t = accs[2].data->TokenOwnerRecord_0;
            &&& after.len() == accs.len()
            &&& after[1].data is Proposal
            &&& after[1].data->Proposal_0.yes_votes_count == p.yes_votes_count - yes_weight(w)
            &&& after[1].data->Proposal_0.no_votes_count == p.no_votes_count - no_weight(w)
            &&& after[1].data->Proposal_0.state == p.state
            &&& after[3].data is Uninitialized
            &&& after[2].data is TokenOwnerRecord
            &&& after[2].data->TokenOwnerRecord_0.unrelinquished_votes_count == t.unrelinquished_votes_count - 1
            &&& after[2].data->TokenOwnerRecord_0.total_votes_count == t.total_votes_count
        }),
{
}

/// Relinquishing a vote not yet relinquished once the proposal's vote is
/// decided succeeds: the proposal stays as it was, the vote record stays and
/// is marked relinquished, and the voter's unrelinquished votes go down by
/// one while their total votes stay. The voter's record counts the vote, as
/// casting it made it.
pub proof fn lemma_relinquish_after_vote(program_id: Address, accs: Seq<AccountInfo>)
    requires
        relinquish_accounts_valid(program_id, accs),
        accs[1].data->Proposal_0.state != crate::state::ProposalState::Voting,
        !accs[3].data->VoteRecord_0.is_relinquished,
        accs[2].data->TokenOwnerRecord_0.unrelinquished_votes_count > 0,
    ensures
        relinquish_vote_outcome(program_id, accs) is Ok,
        ({
            let after = relinquish_vote_outcome(program_id, accs)->Ok_0;
            let v = accs[3].data->VoteRecord_0;
            let t = accs[2].data->TokenOwnerRecord_0;
            &&& after.len() == accs.len()
            &&& after[1] == accs[1]
            &&& after[3].data == AccountData::VoteRecord(VoteRecord { is_relinquished: true, ..v })
            &&& after[2].data is TokenOwnerRecord
            &&& after[2].data->TokenOwnerRecord_0.unrelinquished_votes_count == t.unrelinquished_votes_count - 1
            &&& after[2].data->TokenOwnerRecord_0.total_votes_count == t.total_votes_count
        }),
{
}

} // verus!
