//! Creating realms and changing their authority and configuration.

use vstd::prelude::*;
use crate::error::GovernanceError;
use crate::address::{
    Address, derived_address, get_governing_token_holding_address, get_realm_address, holding_seeds,
    is_derived, key_matches, realm_seeds,
};
use crate::processor::{created, with_data};
use crate::state::{AccountData, AccountInfo, Realm, RealmConfig, RealmConfigArgs, TokenAccount};
use crate::token_owner_record::{assert_valid_realm_config_args, realm_config_args_check};
use crate::validation::{get_realm_data, realm_check};

verus! {

/// The empty holding account of `mint`'s deposits in the realm at `realm`,
/// checked to sit at its derived address.
pub open spec fn holding_account_ok(program_id: Seq<u8>, acc: AccountInfo, realm: Seq<u8>, mint: Seq<u8>) -> bool {
    acc.data is Uninitialized && is_derived(acc.key@, derived_address(holding_seeds(realm, mint), program_id))
}

/// An empty holding account of `mint`, held by the realm at `realm`.
pub open spec fn holding_created(acc: AccountInfo, realm: Address, mint: Address) -> AccountInfo {
    with_data(acc, AccountData::Token(TokenAccount { mint, owner: realm, amount: 0 }))
}

/// What creating a realm named `name` does, over the accounts [realm,
/// realm authority, community mint, community holding] followed, with a
/// council, by [council mint, council holding].
pub open spec fn create_realm_outcome(program_id: Address, accs: Seq<AccountInfo>, name: Vec<u8>, args: RealmConfigArgs) -> Result<Seq<AccountInfo>, GovernanceError> {
    let pid = program_id@;
    if accs.len() < 4 {
        Err(GovernanceError::NotEnoughAccountKeys)
    } else if !(accs[0].data is Uninitialized) {
        Err(GovernanceError::RealmAlreadyExists)
    } else if realm_config_args_check(args) is Err {
        Err(realm_config_args_check(args)->Err_0)
    } else if !is_derived(accs[0].key@, derived_address(realm_seeds(name@), pid)) {
        Err(GovernanceError::InvalidAccountAddress)
    } else if !holding_account_ok(pid, accs[3], accs[0].key@, accs[2].key@) {
        Err(GovernanceError::InvalidGoverningTokenHoldingAccount)
    } else if args.use_council_mint && accs.len() < 6 {
        Err(GovernanceError::NotEnoughAccountKeys)
    } else if args.use_council_mint && !holding_account_ok(pid, accs[5], accs[0].key@, accs[4].key@) {
        Err(GovernanceError::InvalidGoverningTokenHoldingAccount)
    } else {
        let realm = Realm {
            community_mint: accs[2].key,
            authority: Some(accs[1].key),
            name,
            config: RealmConfig {
                council_mint: if args.use_council_mint { Some(accs[4].key) } else { None },
                community_mint_max_vote_weight_source: args.community_mint_max_vote_weight_source,
                min_community_tokens_to_create_governance: args.min_community_tokens_to_create_governance,
            },
        };
        let a = accs.update(3, holding_created(accs[3], accs[0].key, accs[2].key))
            .update(0, created(accs[0], program_id, AccountData::Realm(realm)));
        if args.use_council_mint {
            Ok(a.update(5, holding_created(accs[5], accs[0].key, accs[4].key)))
        } else {
            Ok(a)
        }
    }
}

fn check_holding_account(program_id: &Address, acc: &AccountInfo, realm: &Address, mint: &Address) -> (r: bool)
    ensures
        r == holding_account_ok(program_id@, *acc, realm@, mint@),
{
    if !acc.data_is_empty() {
        return false;
    }
    let d = get_governing_token_holding_address(program_id, realm, mint);
    key_matches(&acc.key, &d)
}

fn create_holding_account(accounts: &mut Vec<AccountInfo>, i: usize, realm: Address, mint: Address)
    requires
        i < old(accounts)@.len(),
    ensures
        final(accounts)@ == old(accounts)@.update(i as int, holding_created(old(accounts)@[i as int], realm, mint)),
{
    let acc = &mut accounts[i];
    acc.data = AccountData::Token(TokenAccount { mint, owner: realm, amount: 0 });
}

/// Creates a realm at the address its name derives, with an empty holding
/// account for the community mint and, where asked, for a council mint. The
/// accounts are [realm, realm authority, community mint, community holding]
/// followed, with a council, by [council mint, council holding].
pub fn process_create_realm(program_id: &Address, accounts: &mut Vec<AccountInfo>, name: Vec<u8>, config_args: RealmConfigArgs) -> (r: Result<(), GovernanceError>)
    ensures
        match r {
            Ok(()) => create_realm_outcome(*program_id, old(accounts)@, name, config_args) == Ok::<Seq<AccountInfo>, GovernanceError>(final(accounts)@),
            Err(e) => create_realm_outcome(*program_id, old(accounts)@, name, config_args) == Err::<Seq<AccountInfo>, GovernanceError>(e)
                && final(accounts)@ == old(accounts)@,
        },
        old(accounts)@.len() >= 4 && !(old(accounts)@[0].data is Uninitialized)
            ==> r == Err::<(), GovernanceError>(GovernanceError::RealmAlreadyExists),
{
    if accounts.len() < 4 {
        return Err(GovernanceError::NotEnoughAccountKeys);
    }
    if !accounts[0].data_is_empty() {
        return Err(GovernanceError::RealmAlreadyExists);
    }
    assert_valid_realm_config_args(&config_args)?;
    let realm_key = accounts[0].key;
    let authority_key = accounts[1].key;
    let community_mint = accounts[2].key;
    let d = get_realm_address(program_id, &name);
    if !key_matches(&realm_key, &d) {
        return Err(GovernanceError::InvalidAccountAddress);
    }
    if !check_holding_account(program_id, &accounts[3], &realm_key, &community_mint) {
        return Err(GovernanceError::InvalidGoverningTokenHoldingAccount);
    }
    let mut council_mint: Option<Address> = None;
    if config_args.use_council_mint {
        if accounts.len() < 6 {
            return Err(GovernanceError::NotEnoughAccountKeys);
        }
        let m = accounts[4].key;
        if !check_holding_account(program_id, &accounts[5], &realm_key, &m) {
            return Err(GovernanceError::InvalidGoverningTokenHoldingAccount);
        }
        council_mint = Some(m);
    }
    // All checks are done: the accounts are written from here on.
    create_holding_account(accounts, 3, realm_key, community_mint);
    let realm = Realm {
        community_mint,
        authority: Some(authority_key),
        name,
        config: RealmConfig {
            council_mint,
            community_mint_max_vote_weight_source: config_args.community_mint_max_vote_weight_source,
            min_community_tokens_to_create_governance: config_args.min_community_tokens_to_create_governance,
        },
    };
    {
        let acc = &mut accounts[0];
        acc.owner = *program_id;
        acc.data = AccountData::Realm(realm);
    }
    match council_mint {
        Some(m) => create_holding_account(accounts, 5, realm_key, m),
        None => {},
    }
    Ok(())
}

/// Whether the realm's authority signed: a realm whose authority was cleared
/// has none, and can no longer be changed.
pub open spec fn realm_authority_signed(realm: Realm, authority: AccountInfo) -> bool {
    authority.is_signer && (realm.authority matches Some(a) && a@ == authority.key@)
}

fn check_realm_authority(realm: &Realm, authority: &AccountInfo) -> (r: bool)
    ensures
        r == realm_authority_signed(*realm, *authority),
{
    match &realm.authority {
        Some(a) => authority.is_signer && a.same(&authority.key),
        None => false,
    }
}

/// What changing a realm's authority does, over the accounts [realm, realm
/// authority]: the authority becomes `new_authority`, or none.
pub open spec fn set_realm_authority_outcome(program_id: Address, accs: Seq<AccountInfo>, new_authority: Option<Address>) -> Result<Seq<AccountInfo>, GovernanceError> {
    if accs.len() < 2 {
        Err(GovernanceError::NotEnoughAccountKeys)
    } else {
        match realm_check(program_id@, accs[0]) {
            Err(e) => Err(e),
            Ok(realm) => if !realm_authority_signed(realm, accs[1]) {
                Err(GovernanceError::RealmAuthorityMustSign)
            } else {
                Ok(accs.update(0, with_data(accs[0], AccountData::Realm(Realm { authority: new_authority, ..realm }))))
            },
        }
    }
}

/// Hands a realm's authority to another account, or clears it for good. The
/// accounts are [realm, realm authority].
pub fn process_set_realm_authority(program_id: &Address, accounts: &mut Vec<AccountInfo>, new_realm_authority: Option<Address>) -> (r: Result<(), GovernanceError>)
    ensures
        match r {
            Ok(()) => set_realm_authority_outcome(*program_id, old(accounts)@, new_realm_authority) == Ok::<Seq<AccountInfo>, GovernanceError>(final(accounts)@),
            Err(e) => set_realm_authority_outcome(*program_id, old(accounts)@, new_realm_authority) == Err::<Seq<AccountInfo>, GovernanceError>(e)
                && final(accounts)@ == old(accounts)@,
        },
{
    if accounts.len() < 2 {
        return Err(GovernanceError::NotEnoughAccountKeys);
    }
    let realm = get_realm_data(program_id, &accounts[0])?;
    if !check_realm_authority(realm, &accounts[1]) {
        return Err(GovernanceError::RealmAuthorityMustSign);
    }
    match &mut accounts[0].data {
        AccountData::Realm(rm) => {
            rm.authority = new_realm_authority;
        },
        _ => {},
    }
    Ok(())
}

/// What changing a realm's configuration does, over the accounts [realm, realm
/// authority] followed, with a council, by [council mint].
pub open spec fn set_realm_config_outcome(program_id: Address, accs: Seq<AccountInfo>, args: RealmConfigArgs) -> Result<Seq<AccountInfo>, GovernanceError> {
    if accs.len() < 2 {
        Err(GovernanceError::NotEnoughAccountKeys)
    } else {
        match realm_check(program_id@, accs[0]) {
            Err(e) => Err(e),
            Ok(realm) => if !realm_authority_signed(realm, accs[1]) {
                Err(GovernanceError::RealmAuthorityMustSign)
            } else if realm_config_args_check(args) is Err {
                Err(realm_config_args_check(args)->Err_0)
            } else if args.use_council_mint && accs.len() < 3 {
                Err(GovernanceError::NotEnoughAccountKeys)
            } else {
                Ok(accs.update(0, with_data(accs[0], AccountData::Realm(Realm {
                    config: RealmConfig {
                        council_mint: if args.use_council_mint { Some(accs[2].key) } else { None },
                        community_mint_max_vote_weight_source: args.community_mint_max_vote_weight_source,
                        min_community_tokens_to_create_governance: args.min_community_tokens_to_create_governance,
                    },
                    ..realm
                }))))
            },
        }
    }
}

/// Replaces a realm's configuration, on the realm authority's signature. The
/// accounts are [realm, realm authority] followed, with a council, by
/// [council mint].
pub fn process_set_realm_config(program_id: &Address, accounts: &mut Vec<AccountInfo>, config_args: RealmConfigArgs) -> (r: Result<(), GovernanceError>)
    ensures
        match r {
            Ok(()) => set_realm_config_outcome(*program_id, old(accounts)@, config_args) == Ok::<Seq<AccountInfo>, GovernanceError>(final(accounts)@),
            Err(e) => set_realm_config_outcome(*program_id, old(accounts)@, config_args) == Err::<Seq<AccountInfo>, GovernanceError>(e)
                && final(accounts)@ == old(accounts)@,
        },
{
    if accounts.len() < 2 {
        return Err(GovernanceError::NotEnoughAccountKeys);
    }
    let realm = get_realm_data(program_id, &accounts[0])?;
    if !check_realm_authority(realm, &accounts[1]) {
        return Err(GovernanceError::RealmAuthorityMustSign);
    }
    assert_valid_realm_config_args(&config_args)?;
    let mut council_mint: Option<Address> = None;
    if config_args.use_council_mint {
        if accounts.len() < 3 {
            return Err(GovernanceError::NotEnoughAccountKeys);
        }
        council_mint = Some(accounts[2].key);
    }
    match &mut accounts[0].data {
        AccountData::Realm(rm) => {
            rm.config = RealmConfig {
                council_mint,
                community_mint_max_vote_weight_source: config_args.community_mint_max_vote_weight_source,
                min_community_tokens_to_create_governance: config_args.min_community_tokens_to_create_governance,
            };
        },
        _ => {},
    }
    Ok(())
}

} // verus!
