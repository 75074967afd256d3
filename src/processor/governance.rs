//! Creating governances of resources and changing their configuration.

use vstd::prelude::*;
use crate::error::GovernanceError;
use crate::address::{
    Address, derived_address, get_governance_address, governance_seeds, is_derived, key_matches,
};
use crate::processor::{created, with_data};
use crate::state::{
    AccountData, AccountInfo, Governance, GovernanceConfig, GovernedKind, Mint, ProgramData,
    TokenAccount,
};
use crate::token_owner_record::{assert_is_valid_governance_config, governance_config_check};
use crate::validation::{get_governance_data, get_realm_data, governance_check, realm_check};

verus! {

/// The governed resource with its authority handed to the governance at
/// `governance`, where its kind has one; `None` where the account is not a
/// resource of that kind, or `authority` did not sign as its authority.
pub open spec fn authority_handed_over(kind: GovernedKind, governed: AccountInfo, authority: AccountInfo, governance: Address) -> Option<AccountInfo> {
    let signed = |a: Option<Address>| authority.is_signer && (a matches Some(x) && x@ == authority.key@);
    match (kind, governed.data) {
        (GovernedKind::Program, AccountData::ProgramData(d)) => if signed(d.upgrade_authority) {
            Some(with_data(governed, AccountData::ProgramData(ProgramData { upgrade_authority: Some(governance) })))
        } else {
            None
        },
        (GovernedKind::Mint, AccountData::Mint(m)) => if signed(m.mint_authority) {
            Some(with_data(governed, AccountData::Mint(Mint { mint_authority: Some(governance), ..m })))
        } else {
            None
        },
        (GovernedKind::Token, AccountData::Token(t)) => if signed(Some(t.owner)) {
            Some(with_data(governed, AccountData::Token(TokenAccount { owner: governance, ..t })))
        } else {
            None
        },
        _ => None,
    }
}

/// What creating a governance does, over the accounts [realm, governance,
/// governed resource] followed, where the resource's authority is handed over,
/// by [its current authority]: the governance is created at the address
/// derived from its kind, the realm and the governed resource, with no
/// proposals yet.
pub open spec fn create_governance_outcome(
    program_id: Address,
    accs: Seq<AccountInfo>,
    kind: GovernedKind,
    config: GovernanceConfig,
    transfer_authority: bool,
) -> Result<Seq<AccountInfo>, GovernanceError> {
    let pid = program_id@;
    if accs.len() < 3 {
        Err(GovernanceError::NotEnoughAccountKeys)
    } else if governance_config_check(config) is Err {
        Err(governance_config_check(config)->Err_0)
    } else {
        match realm_check(pid, accs[0]) {
            Err(e) => Err(e),
            Ok(_) => if !(accs[1].data is Uninitialized)
                || !is_derived(accs[1].key@, derived_address(governance_seeds(kind, accs[0].key@, accs[2].key@), pid)) {
                Err(GovernanceError::InvalidAccountAddress)
            } else if transfer_authority && kind != GovernedKind::Account && accs.len() < 4 {
                Err(GovernanceError::NotEnoughAccountKeys)
            } else if transfer_authority && kind != GovernedKind::Account
                && authority_handed_over(kind, accs[2], accs[3], accs[1].key) is None {
                Err(GovernanceError::GovernedAuthorityMustSign)
            } else {
                let a = accs.update(1, created(accs[1], program_id, AccountData::Governance(Governance {
                    realm: accs[0].key,
                    governed_account: accs[2].key,
                    kind,
                    config,
                    proposals_count: 0,
                })));
                if transfer_authority && kind != GovernedKind::Account {
                    Ok(a.update(2, authority_handed_over(kind, accs[2], accs[3], accs[1].key)->Some_0))
                } else {
                    Ok(a)
                }
            },
        }
    }
}

fn hand_over_authority(accounts: &mut Vec<AccountInfo>, kind: GovernedKind, governance: Address) -> (r: bool)
    requires
        old(accounts)@.len() >= 4,
    ensures
        match authority_handed_over(kind, old(accounts)@[2], old(accounts)@[3], governance) {
            Some(a) => r && final(accounts)@ == old(accounts)@.update(2, a),
            None => !r && final(accounts)@ == old(accounts)@,
        },
{
    let signer = accounts[3].is_signer;
    let authority = accounts[3].key;
    let acc = &mut accounts[2];
    match (kind, &mut acc.data) {
        (GovernedKind::Program, AccountData::ProgramData(d)) => match d.upgrade_authority {
            Some(x) => if signer && x.same(&authority) {
                d.upgrade_authority = Some(governance);
                true
            } else {
                false
            },
            None => false,
        },
        (GovernedKind::Mint, AccountData::Mint(m)) => match m.mint_authority {
            Some(x) => if signer && x.same(&authority) {
                m.mint_authority = Some(governance);
                true
            } else {
                false
            },
            None => false,
        },
        (GovernedKind::Token, AccountData::Token(t)) => if signer && t.owner.same(&authority) {
            t.owner = governance;
            true
        } else {
            false
        },
        _ => false,
    }
}

/// Creates the governance of a resource in a realm, with a threshold of 1 to
/// 100 percent; where asked, and where the kind has one, the resource's
/// authority passes to the new governance. The accounts are [realm,
/// governance, governed resource] followed, where the authority is handed
/// over, by [its current authority].
pub fn process_create_governance(
    program_id: &Address,
    accounts: &mut Vec<AccountInfo>,
    kind: GovernedKind,
    config: GovernanceConfig,
    transfer_authority: bool,
) -> (r: Result<(), GovernanceError>)
    ensures
        match r {
            Ok(()) => create_governance_outcome(*program_id, old(accounts)@, kind, config, transfer_authority)
                == Ok::<Seq<AccountInfo>, GovernanceError>(final(accounts)@),
            Err(e) => create_governance_outcome(*program_id, old(accounts)@, kind, config, transfer_authority)
                == Err::<Seq<AccountInfo>, GovernanceError>(e) && final(accounts)@ == old(accounts)@,
        },
{
    if accounts.len() < 3 {
        return Err(GovernanceError::NotEnoughAccountKeys);
    }
    assert_is_valid_governance_config(&config)?;
    let realm_key = accounts[0].key;
    let governance_key = accounts[1].key;
    let governed = accounts[2].key;
    let _realm = get_realm_data(program_id, &accounts[0])?;
    if !accounts[1].data_is_empty() {
        return Err(GovernanceError::InvalidAccountAddress);
    }
    let d = get_governance_address(program_id, kind, &realm_key, &governed);
    if !key_matches(&governance_key, &d) {
        return Err(GovernanceError::InvalidAccountAddress);
    }
    let hand_over = transfer_authority && kind != GovernedKind::Account;
    if hand_over {
        if accounts.len() < 4 {
            return Err(GovernanceError::NotEnoughAccountKeys);
        }
        // The resource is written here only when its authority signed.
        if !hand_over_authority(accounts, kind, governance_key) {
            return Err(GovernanceError::GovernedAuthorityMustSign);
        }
    }
    let ghost handed = accounts@;
    let acc = &mut accounts[1];
    acc.owner = *program_id;
    acc.data = AccountData::Governance(Governance { realm: realm_key, governed_account: governed, kind, config, proposals_count: 0 });
    proof {
        if hand_over {
            assert(accounts@ =~= old(accounts)@.update(1, created(old(accounts)@[1], *program_id, AccountData::Governance(Governance {
                realm: realm_key, governed_account: governed, kind, config, proposals_count: 0 })))
                .update(2, handed[2]));
        }
    }
    Ok(())
}

/// What changing a governance's configuration does, over the accounts
/// [governance]: the governance itself must sign, which it does only through
/// an instruction of one of its passed proposals.
pub open spec fn set_governance_config_outcome(program_id: Address, accs: Seq<AccountInfo>, config: GovernanceConfig) -> Result<Seq<AccountInfo>, GovernanceError> {
    if accs.len() < 1 {
        Err(GovernanceError::NotEnoughAccountKeys)
    } else {
        match governance_check(program_id@, accs[0]) {
            Err(e) => Err(e),
            Ok(g) => if !accs[0].is_signer {
                Err(GovernanceError::GovernanceMustSign)
            } else if governance_config_check(config) is Err {
                Err(governance_config_check(config)->Err_0)
            } else {
                Ok(accs.update(0, with_data(accs[0], AccountData::Governance(Governance { config, ..g }))))
            },
        }
    }
}

/// Replaces a governance's configuration, on the governance's own signature.
/// The accounts are [governance].
pub fn process_set_governance_config(program_id: &Address, accounts: &mut Vec<AccountInfo>, config: GovernanceConfig) -> (r: Result<(), GovernanceError>)
    ensures
        match r {
            Ok(()) => set_governance_config_outcome(*program_id, old(accounts)@, config) == Ok::<Seq<AccountInfo>, GovernanceError>(final(accounts)@),
            Err(e) => set_governance_config_outcome(*program_id, old(accounts)@, config) == Err::<Seq<AccountInfo>, GovernanceError>(e)
                && final(accounts)@ == old(accounts)@,
        },
{
    if accounts.len() < 1 {
        return Err(GovernanceError::NotEnoughAccountKeys);
    }
    let g = *get_governance_data(program_id, &accounts[0])?;
    if !accounts[0].is_signer {
        return Err(GovernanceError::GovernanceMustSign);
    }
    assert_is_valid_governance_config(&config)?;
    let mut g2 = g;
    g2.config = config;
    let acc = &mut accounts[0];
    acc.data = AccountData::Governance(g2);
    Ok(())
}

} // verus!
