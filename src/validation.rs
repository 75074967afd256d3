use vstd::prelude::*;
use crate::address::{
    governance_seeds, derived_address, get_governance_address, get_proposal_instruction_address,
    get_realm_address, get_token_owner_record_address, get_vote_record_address, is_derived, key_matches,
    proposal_instruction_seeds, realm_seeds, get_signatory_record_address, signatory_record_seeds, token_owner_record_seeds, vote_record_seeds, Address,
};
use crate::error::GovernanceError;
use crate::state::{
    AccountData, AccountInfo, Governance, Proposal, ProposalInstruction, Realm, SignatoryRecord, TokenOwnerRecord, VoteRecord,
};

verus! {

/// An optional address as bytes.
pub open spec fn address_option_view(a: Option<Address>) -> Option<Seq<u8>> {
    match a {
        Some(x) => Some(x@),
        None => None,
    }
}

/// The realm an account holds, once its owner, kind and address are checked.
pub open spec fn realm_check(program_id: Seq<u8>, acc: AccountInfo) -> Result<Realm, GovernanceError> {
    if acc.owner@ != program_id {
        Err(GovernanceError::InvalidAccountOwner)
    } else {
        match acc.data {
            AccountData::Realm(realm) => if is_derived(acc.key@, derived_address(realm_seeds(realm.name@), program_id)) {
                Ok(realm)
            } else {
                Err(GovernanceError::InvalidAccountAddress)
            },
            _ => Err(GovernanceError::InvalidAccountType),
        }
    }
}

/// Whether `mint` governs the realm, as its community or its council mint.
pub open spec fn is_governing_mint(realm: Realm, mint: Seq<u8>) -> bool {
    realm.community_mint@ == mint || (realm.config.council_mint matches Some(c) && c@ == mint)
}

/// The realm an account holds, checked, and governed by `mint`.
pub open spec fn realm_for_mint_check(program_id: Seq<u8>, acc: AccountInfo, mint: Seq<u8>) -> Result<Realm, GovernanceError> {
    match realm_check(program_id, acc) {
        Ok(realm) => if is_governing_mint(realm, mint) {
            Ok(realm)
        } else {
            Err(GovernanceError::InvalidGoverningTokenMint)
        },
        Err(e) => Err(e),
    }
}

/// The governance an account holds, checked against the address its own realm
/// and governed account derive.
pub open spec fn governance_check(program_id: Seq<u8>, acc: AccountInfo) -> Result<Governance, GovernanceError> {
    match acc.data {
        AccountData::Governance(g) => governance_for_realm_check(program_id, acc, g.realm@),
        _ => if acc.owner@ != program_id {
            Err(GovernanceError::InvalidAccountOwner)
        } else {
            Err(GovernanceError::InvalidAccountType)
        },
    }
}

/// The governance an account holds, checked, of the realm at `realm`.
pub open spec fn governance_for_realm_check(program_id: Seq<u8>, acc: AccountInfo, realm: Seq<u8>) -> Result<Governance, GovernanceError> {
    if acc.owner@ != program_id {
        Err(GovernanceError::InvalidAccountOwner)
    } else {
        match acc.data {
            AccountData::Governance(g) => if g.realm@ != realm {
                Err(GovernanceError::InvalidRealmForGovernance)
            } else if !is_derived(acc.key@, derived_address(governance_seeds(g.kind, realm, g.governed_account@), program_id)) {
                Err(GovernanceError::InvalidAccountAddress)
            } else {
                Ok(g)
            },
            _ => Err(GovernanceError::InvalidAccountType),
        }
    }
}

/// The proposal an account holds, checked, of the governance at `governance`
/// and voted with `mint`.
pub open spec fn proposal_check(program_id: Seq<u8>, acc: AccountInfo, governance: Seq<u8>, mint: Seq<u8>) -> Result<Proposal, GovernanceError> {
    if acc.owner@ != program_id {
        Err(GovernanceError::InvalidAccountOwner)
    } else {
        match acc.data {
            AccountData::Proposal(p) => if p.governance@ != governance {
                Err(GovernanceError::InvalidGovernanceForProposal)
            } else if p.governing_token_mint@ != mint {
                Err(GovernanceError::InvalidGoverningMintForProposal)
            } else {
                Ok(p)
            },
            _ => Err(GovernanceError::InvalidAccountType),
        }
    }
}

/// The token owner record an account holds, checked, of the realm at `realm`
/// and, where given, of `mint`.
pub open spec fn token_owner_record_check(
    program_id: Seq<u8>,
    acc: AccountInfo,
    realm: Seq<u8>,
    mint: Option<Seq<u8>>,
) -> Result<TokenOwnerRecord, GovernanceError> {
    if acc.owner@ != program_id {
        Err(GovernanceError::InvalidAccountOwner)
    } else {
        match acc.data {
            AccountData::TokenOwnerRecord(t) => if t.realm@ != realm {
                Err(GovernanceError::InvalidRealmForTokenOwnerRecord)
            } else if mint matches Some(m) && t.governing_token_mint@ != m {
                Err(GovernanceError::InvalidGoverningMintForTokenOwnerRecord)
            } else if !is_derived(acc.key@, derived_address(
                token_owner_record_seeds(realm, t.governing_token_mint@, t.governing_token_owner@), program_id)) {
                Err(GovernanceError::InvalidAccountAddress)
            } else {
                Ok(t)
            },
            _ => Err(GovernanceError::InvalidAccountType),
        }
    }
}

/// The vote record an account holds, checked, of the proposal at `proposal`
/// and of the token owner record `record_key`, whose owner is `owner`.
pub open spec fn vote_record_check(
    program_id: Seq<u8>,
    acc: AccountInfo,
    proposal: Seq<u8>,
    record_key: Seq<u8>,
    owner: Seq<u8>,
) -> Result<VoteRecord, GovernanceError> {
    if acc.owner@ != program_id {
        Err(GovernanceError::InvalidAccountOwner)
    } else {
        match acc.data {
            AccountData::VoteRecord(v) => if v.proposal@ != proposal {
                Err(GovernanceError::InvalidProposalForVoteRecord)
            } else if v.governing_token_owner@ != owner {
                Err(GovernanceError::InvalidGoverningTokenOwnerForVoteRecord)
            } else if !is_derived(acc.key@, derived_address(vote_record_seeds(proposal, record_key), program_id)) {
                Err(GovernanceError::InvalidAccountAddress)
            } else {
                Ok(v)
            },
            _ => Err(GovernanceError::InvalidAccountType),
        }
    }
}

/// The queued instruction an account holds, checked, of the proposal at `proposal`.
pub open spec fn proposal_instruction_check(program_id: Seq<u8>, acc: AccountInfo, proposal: Seq<u8>) -> Result<ProposalInstruction, GovernanceError> {
    if acc.owner@ != program_id {
        Err(GovernanceError::InvalidAccountOwner)
    } else {
        match acc.data {
            AccountData::ProposalInstruction(i) => if i.proposal@ != proposal {
                Err(GovernanceError::InvalidProposalForProposalInstruction)
            } else if !is_derived(acc.key@, derived_address(proposal_instruction_seeds(proposal, i.instruction_index), program_id)) {
                Err(GovernanceError::InvalidAccountAddress)
            } else {
                Ok(i)
            },
            _ => Err(GovernanceError::InvalidAccountType),
        }
    }
}

pub fn get_realm_data<'a>(program_id: &Address, acc: &'a AccountInfo) -> (r: Result<&'a Realm, GovernanceError>)
    ensures
        match r {
            Ok(x) => realm_check(program_id@, *acc) == Ok::<Realm, GovernanceError>(*x),
            Err(e) => realm_check(program_id@, *acc) == Err::<Realm, GovernanceError>(e),
        },
{
    if !acc.owner.same(program_id) {
        return Err(GovernanceError::InvalidAccountOwner);
    }
    match &acc.data {
        AccountData::Realm(realm) => {
            let d = get_realm_address(program_id, &realm.name);
            if key_matches(&acc.key, &d) {
                Ok(realm)
            } else {
                Err(GovernanceError::InvalidAccountAddress)
            }
        },
        _ => Err(GovernanceError::InvalidAccountType),
    }
}

pub fn get_realm_data_for_governing_token_mint<'a>(program_id: &Address, acc: &'a AccountInfo, mint: &Address) -> (r: Result<&'a Realm, GovernanceError>)
    ensures
        match r {
            Ok(x) => realm_for_mint_check(program_id@, *acc, mint@) == Ok::<Realm, GovernanceError>(*x),
            Err(e) => realm_for_mint_check(program_id@, *acc, mint@) == Err::<Realm, GovernanceError>(e),
        },
{
    let realm = get_realm_data(program_id, acc)?;
    if realm.community_mint.same(mint) {
        return Ok(realm);
    }
    match &realm.config.council_mint {
        Some(c) => if c.same(mint) {
            return Ok(realm);
        },
        None => {},
    }
    Err(GovernanceError::InvalidGoverningTokenMint)
}

pub fn get_governance_data_for_realm<'a>(program_id: &Address, acc: &'a AccountInfo, realm: &Address) -> (r: Result<&'a Governance, GovernanceError>)
    ensures
        match r {
            Ok(x) => governance_for_realm_check(program_id@, *acc, realm@) == Ok::<Governance, GovernanceError>(*x),
            Err(e) => governance_for_realm_check(program_id@, *acc, realm@) == Err::<Governance, GovernanceError>(e),
        },
{
    if !acc.owner.same(program_id) {
        return Err(GovernanceError::InvalidAccountOwner);
    }
    match &acc.data {
        AccountData::Governance(g) => {
            if !g.realm.same(realm) {
                return Err(GovernanceError::InvalidRealmForGovernance);
            }
            let d = get_governance_address(program_id, g.kind, realm, &g.governed_account);
            if key_matches(&acc.key, &d) {
                Ok(g)
            } else {
                Err(GovernanceError::InvalidAccountAddress)
            }
        },
        _ => Err(GovernanceError::InvalidAccountType),
    }
}

pub fn get_governance_data<'a>(program_id: &Address, acc: &'a AccountInfo) -> (r: Result<&'a Governance, GovernanceError>)
    ensures
        match r {
            Ok(x) => governance_check(program_id@, *acc) == Ok::<Governance, GovernanceError>(*x),
            Err(e) => governance_check(program_id@, *acc) == Err::<Governance, GovernanceError>(e),
        },
{
    match &acc.data {
        AccountData::Governance(g) => get_governance_data_for_realm(program_id, acc, &g.realm),
        _ => if !acc.owner.same(program_id) {
            Err(GovernanceError::InvalidAccountOwner)
        } else {
            Err(GovernanceError::InvalidAccountType)
        },
    }
}

pub fn get_proposal_data_for_governance_and_governing_mint<'a>(
    program_id: &Address,
    acc: &'a AccountInfo,
    governance: &Address,
    mint: &Address,
) -> (r: Result<&'a Proposal, GovernanceError>)
    ensures
        match r {
            Ok(x) => proposal_check(program_id@, *acc, governance@, mint@) == Ok::<Proposal, GovernanceError>(*x),
            Err(e) => proposal_check(program_id@, *acc, governance@, mint@) == Err::<Proposal, GovernanceError>(e),
        },
{
    if !acc.owner.same(program_id) {
        return Err(GovernanceError::InvalidAccountOwner);
    }
    match &acc.data {
        AccountData::Proposal(p) => {
            if !p.governance.same(governance) {
                Err(GovernanceError::InvalidGovernanceForProposal)
            } else if !p.governing_token_mint.same(mint) {
                Err(GovernanceError::InvalidGoverningMintForProposal)
            } else {
                Ok(p)
            }
        },
        _ => Err(GovernanceError::InvalidAccountType),
    }
}

/// The token owner record an account holds, checked against the realm and,
/// where given, the mint.
pub fn get_token_owner_record_data<'a>(
    program_id: &Address,
    acc: &'a AccountInfo,
    realm: &Address,
    mint: &Option<Address>,
) -> (r: Result<&'a TokenOwnerRecord, GovernanceError>)
    ensures
        match r {
            Ok(x) => token_owner_record_check(program_id@, *acc, realm@, address_option_view(*mint))
                == Ok::<TokenOwnerRecord, GovernanceError>(*x),
            Err(e) => token_owner_record_check(program_id@, *acc, realm@, address_option_view(*mint))
                == Err::<TokenOwnerRecord, GovernanceError>(e),
        },
{
    if !acc.owner.same(program_id) {
        return Err(GovernanceError::InvalidAccountOwner);
    }
    match &acc.data {
        AccountData::TokenOwnerRecord(t) => {
            if !t.realm.same(realm) {
                return Err(GovernanceError::InvalidRealmForTokenOwnerRecord);
            }
            match mint {
                Some(m) => if !t.governing_token_mint.same(m) {
                    return Err(GovernanceError::InvalidGoverningMintForTokenOwnerRecord);
                },
                None => {},
            }
            let d = get_token_owner_record_address(program_id, realm, &t.governing_token_mint, &t.governing_token_owner);
            if key_matches(&acc.key, &d) {
                Ok(t)
            } else {
                Err(GovernanceError::InvalidAccountAddress)
            }
        },
        _ => Err(GovernanceError::InvalidAccountType),
    }
}

pub fn get_vote_record_data_for_proposal_and_token_owner<'a>(
    program_id: &Address,
    acc: &'a AccountInfo,
    proposal: &Address,
    record_key: &Address,
    owner: &Address,
) -> (r: Result<&'a VoteRecord, GovernanceError>)
    ensures
        match r {
            Ok(x) => vote_record_check(program_id@, *acc, proposal@, record_key@, owner@) == Ok::<VoteRecord, GovernanceError>(*x),
            Err(e) => vote_record_check(program_id@, *acc, proposal@, record_key@, owner@) == Err::<VoteRecord, GovernanceError>(e),
        },
{
    if !acc.owner.same(program_id) {
        return Err(GovernanceError::InvalidAccountOwner);
    }
    match &acc.data {
        AccountData::VoteRecord(v) => {
            if !v.proposal.same(proposal) {
                return Err(GovernanceError::InvalidProposalForVoteRecord);
            }
            if !v.governing_token_owner.same(owner) {
                return Err(GovernanceError::InvalidGoverningTokenOwnerForVoteRecord);
            }
            let d = get_vote_record_address(program_id, proposal, record_key);
            if key_matches(&acc.key, &d) {
                Ok(v)
            } else {
                Err(GovernanceError::InvalidAccountAddress)
            }
        },
        _ => Err(GovernanceError::InvalidAccountType),
    }
}

pub fn get_proposal_instruction_data_for_proposal<'a>(
    program_id: &Address,
    acc: &'a AccountInfo,
    proposal: &Address,
) -> (r: Result<&'a ProposalInstruction, GovernanceError>)
    ensures
        match r {
            Ok(x) => proposal_instruction_check(program_id@, *acc, proposal@) == Ok::<ProposalInstruction, GovernanceError>(*x),
            Err(e) => proposal_instruction_check(program_id@, *acc, proposal@) == Err::<ProposalInstruction, GovernanceError>(e),
        },
{
    if !acc.owner.same(program_id) {
        return Err(GovernanceError::InvalidAccountOwner);
    }
    match &acc.data {
        AccountData::ProposalInstruction(i) => {
            if !i.proposal.same(proposal) {
                return Err(GovernanceError::InvalidProposalForProposalInstruction);
            }
            let d = get_proposal_instruction_address(program_id, proposal, i.instruction_index);
            if key_matches(&acc.key, &d) {
                Ok(i)
            } else {
                Err(GovernanceError::InvalidAccountAddress)
            }
        },
        _ => Err(GovernanceError::InvalidAccountType),
    }
}

/// The signatory record an account holds, checked, of the proposal at `proposal`.
pub open spec fn signatory_record_check(program_id: Seq<u8>, acc: AccountInfo, proposal: Seq<u8>) -> Result<SignatoryRecord, GovernanceError> {
    if acc.owner@ != program_id {
        Err(GovernanceError::InvalidAccountOwner)
    } else {
        match acc.data {
            AccountData::SignatoryRecord(r) => if r.proposal@ != proposal {
                Err(GovernanceError::InvalidProposalForSignatoryRecord)
            } else if !is_derived(acc.key@, derived_address(signatory_record_seeds(proposal, r.signatory@), program_id)) {
                Err(GovernanceError::InvalidAccountAddress)
            } else {
                Ok(r)
            },
            _ => Err(GovernanceError::InvalidAccountType),
        }
    }
}

pub fn get_signatory_record_data_for_proposal<'a>(
    program_id: &Address,
    acc: &'a AccountInfo,
    proposal: &Address,
) -> (r: Result<&'a SignatoryRecord, GovernanceError>)
    ensures
        match r {
            Ok(x) => signatory_record_check(program_id@, *acc, proposal@) == Ok::<SignatoryRecord, GovernanceError>(*x),
            Err(e) => signatory_record_check(program_id@, *acc, proposal@) == Err::<SignatoryRecord, GovernanceError>(e),
        },
{
    if !acc.owner.same(program_id) {
        return Err(GovernanceError::InvalidAccountOwner);
    }
    match &acc.data {
        AccountData::SignatoryRecord(r) => {
            if !r.proposal.same(proposal) {
                return Err(GovernanceError::InvalidProposalForSignatoryRecord);
            }
            let d = get_signatory_record_address(program_id, proposal, &r.signatory);
            if key_matches(&acc.key, &d) {
                Ok(r)
            } else {
                Err(GovernanceError::InvalidAccountAddress)
            }
        },
        _ => Err(GovernanceError::InvalidAccountType),
    }
}

} // verus!
