use vstd::prelude::*;
use crate::address::Address;
use crate::error::GovernanceError;
use crate::state::{
    GovernanceConfig, Vote, VoteWeight, MintMaxVoteWeightSource, Proposal, ProposalInstruction, ProposalState, Realm,
    SUPPLY_FRACTION_BASE,
};

verus! {

/// Whether `votes` is strictly more than `pct` percent of `max`.
pub open spec fn exceeds_threshold(votes: int, max: int, pct: int) -> bool {
    votes * 100 > max * pct
}

/// Whether the weight not yet cast against can no longer exceed the threshold.
pub open spec fn threshold_unreachable(no: int, max: int, pct: int) -> bool {
    (max - no) * 100 <= max * pct
}

/// The outcome that a tally decides before the voting time is over, if any.
pub open spec fn tipped_state(yes: u64, no: u64, max: u64, pct: u8) -> Option<ProposalState> {
    if exceeds_threshold(yes as int, max as int, pct as int) {
        Some(ProposalState::Succeeded)
    } else if threshold_unreachable(no as int, max as int, pct as int) {
        Some(ProposalState::Defeated)
    } else {
        None
    }
}

/// The outcome of a tally once the voting time is over.
pub open spec fn final_state(yes: u64, max: u64, pct: u8) -> ProposalState {
    if exceeds_threshold(yes as int, max as int, pct as int) {
        ProposalState::Succeeded
    } else {
        ProposalState::Defeated
    }
}

/// An early decision never differs from the one that finalizing the same
/// tally would give, for a tally whose two sides together stay within the
/// largest possible weight.
pub proof fn lemma_tip_agrees_with_final(yes: u64, no: u64, max: u64, pct: u8)
    requires
        yes + no <= max,
        tipped_state(yes, no, max, pct) is Some,
    ensures
        tipped_state(yes, no, max, pct) == Some(final_state(yes, max, pct)),
{
}

/// The outcome that a tally decides before the voting time is over: Succeeded
/// once the yes weight strictly exceeds the threshold share of the largest
/// possible weight, Defeated once the weight not cast against cannot do so.
pub fn get_tipped_vote_state(yes: u64, no: u64, max_vote_weight: u64, pct: u8) -> (r: Option<ProposalState>)
    ensures
        r == tipped_state(yes, no, max_vote_weight, pct),
{
    let bound: u128 = threshold_weight_scaled(max_vote_weight, pct);
    if (yes as u128) * 100 > bound {
        Some(ProposalState::Succeeded)
    } else if no >= max_vote_weight || ((max_vote_weight - no) as u128) * 100 <= bound {
        Some(ProposalState::Defeated)
    } else {
        None
    }
}

/// The outcome of a tally once the voting time is over: Succeeded exactly when
/// the yes weight strictly exceeds the threshold share of the largest possible weight.
pub fn get_final_vote_state(yes: u64, max_vote_weight: u64, pct: u8) -> (r: ProposalState)
    ensures
        r == final_state(yes, max_vote_weight, pct),
{
    let bound: u128 = threshold_weight_scaled(max_vote_weight, pct);
    if (yes as u128) * 100 > bound {
        ProposalState::Succeeded
    } else {
        ProposalState::Defeated
    }
}

fn threshold_weight_scaled(max_vote_weight: u64, pct: u8) -> (r: u128)
    ensures
        r == max_vote_weight as int * pct as int,
{
    assert((max_vote_weight as int) * (pct as int) <= 0xffff_ffff_ffff_ffff * 255) by (nonlinear_arith)
        requires
            max_vote_weight <= 0xffff_ffff_ffff_ffff,
            pct <= 255,
    ;
    (max_vote_weight as u128) * (pct as u128)
}

/// Whether `mint` is the realm's council mint.
pub open spec fn is_council_mint(realm: Realm, mint: Seq<u8>) -> bool {
    realm.config.council_mint matches Some(c) && c@ == mint
}

/// The largest possible vote weight of a mint with the given supply: the whole
/// supply for the council mint, else what the realm's source gives.
pub open spec fn max_vote_weight_of(realm: Realm, mint: Seq<u8>, supply: u64) -> Result<u64, GovernanceError> {
    if is_council_mint(realm, mint) {
        Ok(supply)
    } else {
        match realm.config.community_mint_max_vote_weight_source {
            MintMaxVoteWeightSource::SupplyFraction(f) => if f == 0 || f > SUPPLY_FRACTION_BASE {
                Err(GovernanceError::InvalidMaxVoteWeightSupplyFraction)
            } else {
                Ok(((supply as int * f as int) / SUPPLY_FRACTION_BASE as int) as u64)
            },
            MintMaxVoteWeightSource::Absolute(a) => Ok(a),
        }
    }
}

fn is_council(realm: &Realm, mint: &Address) -> (r: bool)
    ensures
        r == is_council_mint(*realm, mint@),
{
    match &realm.config.council_mint {
        Some(c) => c.same(mint),
        None => false,
    }
}

/// The largest possible vote weight of `mint` in the realm, given its supply.
pub fn get_max_vote_weight(realm: &Realm, mint: &Address, supply: u64) -> (r: Result<u64, GovernanceError>)
    ensures
        r == max_vote_weight_of(*realm, mint@, supply),
{
    if is_council(realm, mint) {
        return Ok(supply);
    }
    match realm.config.community_mint_max_vote_weight_source {
        MintMaxVoteWeightSource::SupplyFraction(f) => {
            if f == 0 || f > SUPPLY_FRACTION_BASE {
                return Err(GovernanceError::InvalidMaxVoteWeightSupplyFraction);
            }
            assert((supply as int) * (f as int) <= (supply as int) * (SUPPLY_FRACTION_BASE as int)) by (nonlinear_arith)
                requires
                    f <= SUPPLY_FRACTION_BASE,
                    supply >= 0,
            ;
            assert((supply as int) * (SUPPLY_FRACTION_BASE as int) <= 0xffff_ffff_ffff_ffff * 10_000_000_000) by (nonlinear_arith)
                requires
                    supply <= 0xffff_ffff_ffff_ffff,
                    SUPPLY_FRACTION_BASE == 10_000_000_000,
            ;
            let product: u128 = (supply as u128) * (f as u128);
            assert(((supply as int) * (f as int)) / (SUPPLY_FRACTION_BASE as int) <= supply as int) by (nonlinear_arith)
                requires
                    f <= SUPPLY_FRACTION_BASE,
                    SUPPLY_FRACTION_BASE == 10_000_000_000,
                    supply >= 0,
            ;
            Ok((product / (SUPPLY_FRACTION_BASE as u128)) as u64)
        },
        MintMaxVoteWeightSource::Absolute(a) => Ok(a),
    }
}

impl Proposal {
    /// Whether adding `amount` to the chosen side keeps the tally in range.
    pub open spec fn vote_fits(&self, vote: Vote, amount: u64) -> bool {
        match vote {
            Vote::Yes => self.yes_votes_count + amount <= u64::MAX,
            Vote::No => self.no_votes_count + amount <= u64::MAX,
        }
    }

    /// The proposal with `amount` added to the chosen side.
    pub open spec fn tallied(self, vote: Vote, amount: u64) -> Proposal {
        match vote {
            Vote::Yes => Proposal { yes_votes_count: (self.yes_votes_count + amount) as u64, ..self },
            Vote::No => Proposal { no_votes_count: (self.no_votes_count + amount) as u64, ..self },
        }
    }

    /// The outcome that the tally decides early, against the snapshot taken
    /// when voting started; none without a snapshot.
    pub open spec fn tip(self) -> Option<ProposalState> {
        match (self.max_vote_weight, self.vote_threshold_percentage) {
            (Some(m), Some(pct)) => tipped_state(self.yes_votes_count, self.no_votes_count, m, pct),
            _ => None,
        }
    }

    /// The proposal after a vote of `amount` at `now`: tallied, then completed
    /// at `now` if the tally decides the outcome.
    pub open spec fn after_vote(self, vote: Vote, amount: u64, now: i64) -> Proposal {
        let t = self.tallied(vote, amount);
        match t.tip() {
            Some(s) => Proposal { state: s, voting_completed_at: Some(now), ..t },
            None => t,
        }
    }

    /// Whether the tally holds at least the weight of `w` on its side.
    pub open spec fn holds_weight(&self, w: VoteWeight) -> bool {
        match w {
            VoteWeight::Yes(a) => a <= self.yes_votes_count,
            VoteWeight::No(a) => a <= self.no_votes_count,
        }
    }

    /// The proposal with the weight of `w` taken off its side.
    pub open spec fn untallied(self, w: VoteWeight) -> Proposal {
        match w {
            VoteWeight::Yes(a) => Proposal { yes_votes_count: (self.yes_votes_count - a) as u64, ..self },
            VoteWeight::No(a) => Proposal { no_votes_count: (self.no_votes_count - a) as u64, ..self },
        }
    }

    /// Takes a relinquished vote off the tally.
    pub fn remove_vote(&mut self, w: VoteWeight)
        requires
            old(self).holds_weight(w),
        ensures
            *final(self) == old(self).untallied(w),
    {
        match w {
            VoteWeight::Yes(a) => self.yes_votes_count = self.yes_votes_count - a,
            VoteWeight::No(a) => self.no_votes_count = self.no_votes_count - a,
        }
    }

    /// Adds a vote to the tally and completes the vote early where the tally
    /// decides it; returns whether it did.
    pub fn apply_vote(&mut self, vote: Vote, amount: u64, now: i64) -> (tipped: bool)
        requires
            old(self).vote_fits(vote, amount),
        ensures
            *final(self) == old(self).after_vote(vote, amount, now),
            tipped == old(self).tallied(vote, amount).tip() is Some,
    {
        match vote {
            Vote::Yes => self.yes_votes_count = self.yes_votes_count + amount,
            Vote::No => self.no_votes_count = self.no_votes_count + amount,
        }
        let t = match (self.max_vote_weight, self.vote_threshold_percentage) {
            (Some(m), Some(pct)) => get_tipped_vote_state(self.yes_votes_count, self.no_votes_count, m, pct),
            _ => None,
        };
        match t {
            Some(s) => {
                self.state = s;
                self.voting_completed_at = Some(now);
                true
            },
            None => false,
        }
    }

    /// Whether a vote may be cast now: the proposal is voting, its vote is not
    /// complete, and `now` is strictly before the end of the voting time.
    pub open spec fn cast_vote_check(&self, config: GovernanceConfig, now: i64) -> Result<(), GovernanceError> {
        if self.state != ProposalState::Voting || self.voting_completed_at is Some || self.voting_at is None {
            Err(GovernanceError::InvalidStateCannotVote)
        } else if now >= self.voting_at->Some_0 + config.max_voting_time {
            Err(GovernanceError::ProposalVotingTimeExpired)
        } else {
            Ok(())
        }
    }

    pub fn assert_can_cast_vote(&self, config: &GovernanceConfig, now: i64) -> (r: Result<(), GovernanceError>)
        ensures
            r == self.cast_vote_check(*config, now),
    {
        if self.state != ProposalState::Voting {
            return Err(GovernanceError::InvalidStateCannotVote);
        }
        if self.voting_completed_at.is_some() {
            return Err(GovernanceError::InvalidStateCannotVote);
        }
        match self.voting_at {
            None => Err(GovernanceError::InvalidStateCannotVote),
            Some(t) => if (now as i128) >= (t as i128) + (config.max_voting_time as i128) {
                Err(GovernanceError::ProposalVotingTimeExpired)
            } else {
                Ok(())
            },
        }
    }

    /// Whether the vote may be finalized now: the proposal is voting, its vote
    /// is not complete, and `now` is at or after the end of the voting time.
    pub open spec fn finalize_check(&self, config: GovernanceConfig, now: i64) -> Result<(), GovernanceError> {
        if self.state != ProposalState::Voting || self.voting_completed_at is Some || self.voting_at is None {
            Err(GovernanceError::InvalidStateCannotFinalize)
        } else if self.voting_at->Some_0 + config.max_voting_time > now {
            Err(GovernanceError::CannotFinalizeVotingInProgress)
        } else {
            Ok(())
        }
    }

    pub fn assert_can_finalize_vote(&self, config: &GovernanceConfig, now: i64) -> (r: Result<(), GovernanceError>)
        ensures
            r == self.finalize_check(*config, now),
    {
        if self.state != ProposalState::Voting {
            return Err(GovernanceError::InvalidStateCannotFinalize);
        }
        if self.voting_completed_at.is_some() {
            return Err(GovernanceError::InvalidStateCannotFinalize);
        }
        match self.voting_at {
            None => Err(GovernanceError::InvalidStateCannotFinalize),
            Some(t) => if (t as i128) + (config.max_voting_time as i128) > (now as i128) {
                Err(GovernanceError::CannotFinalizeVotingInProgress)
            } else {
                Ok(())
            },
        }
    }

    /// Whether a queued instruction may run now: the proposal has passed, the
    /// instruction has not run, and its hold-up time after the vote has elapsed.
    pub open spec fn execute_check(&self, instruction: ProposalInstruction, now: i64) -> Result<(), GovernanceError> {
        if !(self.state == ProposalState::Succeeded || self.state == ProposalState::Executing
            || self.state == ProposalState::ExecutingWithErrors) || self.voting_completed_at is None {
            Err(GovernanceError::InvalidStateCannotExecuteInstruction)
        } else if instruction.executed_at is Some {
            Err(GovernanceError::InstructionAlreadyExecuted)
        } else if now < self.voting_completed_at->Some_0 + instruction.hold_up_time {
            Err(GovernanceError::CannotExecuteInstructionWithinHoldUpTime)
        } else {
            Ok(())
        }
    }

    pub fn assert_can_execute_instruction(&self, instruction: &ProposalInstruction, now: i64) -> (r: Result<(), GovernanceError>)
        ensures
            r == self.execute_check(*instruction, now),
    {
        match self.state {
            ProposalState::Succeeded | ProposalState::Executing | ProposalState::ExecutingWithErrors => {},
            _ => {
                return Err(GovernanceError::InvalidStateCannotExecuteInstruction);
            },
        }
        match self.voting_completed_at {
            None => Err(GovernanceError::InvalidStateCannotExecuteInstruction),
            Some(t) => if instruction.executed_at.is_some() {
                Err(GovernanceError::InstructionAlreadyExecuted)
            } else if (now as i128) < (t as i128) + (instruction.hold_up_time as i128) {
                Err(GovernanceError::CannotExecuteInstructionWithinHoldUpTime)
            } else {
                Ok(())
            },
        }
    }
}

} // verus!
