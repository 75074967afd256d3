use vstd::prelude::*;
use crate::error::GovernanceError;
use crate::state::{
    AccountInfo, GovernanceConfig, MintMaxVoteWeightSource, Realm, RealmConfigArgs,
    TokenOwnerRecord, SUPPLY_FRACTION_BASE,
};

verus! {

impl TokenOwnerRecord {
    /// Whether `authority` signed and is the token owner or its delegate.
    pub open spec fn owner_or_delegate_signed(&self, authority: AccountInfo) -> bool {
        authority.is_signer && (authority.key@ == self.governing_token_owner@
            || (self.governance_delegate matches Some(d) && d@ == authority.key@))
    }

    pub fn assert_token_owner_or_delegate_is_signer(&self, authority: &AccountInfo) -> (r: Result<(), GovernanceError>)
        ensures
            r is Ok <==> self.owner_or_delegate_signed(*authority),
            r is Err ==> r == Err::<(), GovernanceError>(GovernanceError::GoverningTokenOwnerOrDelegateMustSign),
    {
        if authority.is_signer {
            if authority.key.same(&self.governing_token_owner) {
                return Ok(());
            }
            match &self.governance_delegate {
                Some(d) => if d.same(&authority.key) {
                    return Ok(());
                },
                None => {},
            }
        }
        Err(GovernanceError::GoverningTokenOwnerOrDelegateMustSign)
    }

    /// Whether the owner may create a proposal: enough tokens deposited and no
    /// proposal of theirs still outstanding.
    pub open spec fn create_proposal_check(&self, realm: Realm) -> Result<(), GovernanceError> {
        if self.governing_token_deposit_amount < realm.config.min_community_tokens_to_create_governance {
            Err(GovernanceError::NotEnoughTokensToCreateProposal)
        } else if self.outstanding_proposal_count > 0 {
            Err(GovernanceError::TooManyOutstandingProposals)
        } else {
            Ok(())
        }
    }

    pub fn assert_can_create_proposal(&self, realm: &Realm) -> (r: Result<(), GovernanceError>)
        ensures
            r == self.create_proposal_check(*realm),
    {
        if self.governing_token_deposit_amount < realm.config.min_community_tokens_to_create_governance {
            Err(GovernanceError::NotEnoughTokensToCreateProposal)
        } else if self.outstanding_proposal_count > 0 {
            Err(GovernanceError::TooManyOutstandingProposals)
        } else {
            Ok(())
        }
    }

    /// Whether the owner may withdraw the deposit: every vote relinquished and
    /// no proposal of theirs outstanding.
    pub open spec fn withdraw_check(&self) -> Result<(), GovernanceError> {
        if self.unrelinquished_votes_count > 0 {
            Err(GovernanceError::AllVotesMustBeRelinquishedToWithdrawGoverningTokens)
        } else if self.outstanding_proposal_count > 0 {
            Err(GovernanceError::AllProposalsMustBeFinalisedToWithdrawGoverningTokens)
        } else {
            Ok(())
        }
    }

    pub fn assert_can_withdraw_governing_tokens(&self) -> (r: Result<(), GovernanceError>)
        ensures
            r == self.withdraw_check(),
    {
        if self.unrelinquished_votes_count > 0 {
            Err(GovernanceError::AllVotesMustBeRelinquishedToWithdrawGoverningTokens)
        } else if self.outstanding_proposal_count > 0 {
            Err(GovernanceError::AllProposalsMustBeFinalisedToWithdrawGoverningTokens)
        } else {
            Ok(())
        }
    }

    /// One fewer outstanding proposal, never below zero.
    pub fn decrease_outstanding_proposal_count(&mut self)
        ensures
            *final(self) == (TokenOwnerRecord {
                outstanding_proposal_count: if old(self).outstanding_proposal_count == 0 {
                    0
                } else {
                    (old(self).outstanding_proposal_count - 1) as u8
                },
                ..*old(self)
            }),
    {
        if self.outstanding_proposal_count != 0 {
            self.outstanding_proposal_count = self.outstanding_proposal_count - 1;
        }
    }
}

/// Whether realm arguments are in bounds: a supply fraction of more than
/// nothing and at most the whole supply.
pub open spec fn realm_config_args_check(args: RealmConfigArgs) -> Result<(), GovernanceError> {
    match args.community_mint_max_vote_weight_source {
        MintMaxVoteWeightSource::SupplyFraction(f) => if f == 0 || f > SUPPLY_FRACTION_BASE {
            Err(GovernanceError::InvalidMaxVoteWeightSupplyFraction)
        } else {
            Ok(())
        },
        MintMaxVoteWeightSource::Absolute(_) => Ok(()),
    }
}

pub fn assert_valid_realm_config_args(args: &RealmConfigArgs) -> (r: Result<(), GovernanceError>)
    ensures
        r == realm_config_args_check(*args),
{
    match args.community_mint_max_vote_weight_source {
        MintMaxVoteWeightSource::SupplyFraction(f) => if f == 0 || f > SUPPLY_FRACTION_BASE {
            Err(GovernanceError::InvalidMaxVoteWeightSupplyFraction)
        } else {
            Ok(())
        },
        MintMaxVoteWeightSource::Absolute(_) => Ok(()),
    }
}

/// Whether a governance configuration is in bounds: a threshold of 1 to 100 percent.
pub open spec fn governance_config_check(config: GovernanceConfig) -> Result<(), GovernanceError> {
    if config.vote_threshold_percentage < 1 || config.vote_threshold_percentage > 100 {
        Err(GovernanceError::InvalidVoteThresholdPercentage)
    } else {
        Ok(())
    }
}

pub fn assert_is_valid_governance_config(config: &GovernanceConfig) -> (r: Result<(), GovernanceError>)
    ensures
        r == governance_config_check(*config),
{
    if config.vote_threshold_percentage < 1 || config.vote_threshold_percentage > 100 {
        Err(GovernanceError::InvalidVoteThresholdPercentage)
    } else {
        Ok(())
    }
}

} // verus!
