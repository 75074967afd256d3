//! Depositing and withdrawing governing tokens, and governance delegates.

use vstd::prelude::*;
use crate::error::GovernanceError;
use crate::address::{
    Address, derived_address, get_governing_token_holding_address, get_token_owner_record_address,
    holding_seeds, is_derived, key_matches, token_owner_record_seeds,
};
use crate::processor::{created, set_token_owner_record, with_data};
use crate::state::{AccountData, AccountInfo, TokenAccount, TokenOwnerRecord};
use crate::validation::{
    get_realm_data_for_governing_token_mint, get_token_owner_record_data, realm_for_mint_check,
    token_owner_record_check,
};

verus! {

/// Whether the account is a holding account of `mint` at the address derived
/// for the realm at `realm`.
pub open spec fn holding_matches(program_id: Seq<u8>, acc: AccountInfo, realm: Seq<u8>, mint: Seq<u8>) -> bool {
    acc.data is Token && acc.data->Token_0.mint@ == mint
        && is_derived(acc.key@, derived_address(holding_seeds(realm, mint), program_id))
}

/// The token account with a new balance.
pub open spec fn with_amount(acc: AccountInfo, amount: int) -> AccountInfo {
    with_data(acc, AccountData::Token(TokenAccount { amount: amount as u64, ..acc.data->Token_0 }))
}

/// The owner's record of deposits of `mint` in the realm at `realm`, checked to
/// sit at the address derived for the owner at `owner`.
pub open spec fn owner_record_check(program_id: Seq<u8>, acc: AccountInfo, realm: Seq<u8>, mint: Seq<u8>, owner: Seq<u8>) -> Result<TokenOwnerRecord, GovernanceError> {
    match token_owner_record_check(program_id, acc, realm, Some(mint)) {
        Err(e) => Err(e),
        Ok(t) => if t.governing_token_owner@ != owner {
            Err(GovernanceError::InvalidAccountAddress)
        } else {
            Ok(t)
        },
    }
}

/// What depositing `amount` governing tokens does, over the accounts [realm,
/// holding, owner's token account, owner, owner record]: the tokens move from
/// the owner's account to the realm's holding account and the owner's record,
/// created on the first deposit, counts them.
pub open spec fn deposit_outcome(program_id: Address, accs: Seq<AccountInfo>, amount: u64) -> Result<Seq<AccountInfo>, GovernanceError> {
    let pid = program_id@;
    if accs.len() < 5 {
        Err(GovernanceError::NotEnoughAccountKeys)
    } else if !accs[3].is_signer {
        Err(GovernanceError::GoverningTokenOwnerMustSign)
    } else if !(accs[2].data is Token) || accs[2].data->Token_0.owner@ != accs[3].key@ {
        Err(GovernanceError::InvalidGoverningTokenSource)
    } else {
        let source = accs[2].data->Token_0;
        let mint = source.mint;
        match realm_for_mint_check(pid, accs[0], mint@) {
            Err(e) => Err(e),
            Ok(_) => if !holding_matches(pid, accs[1], accs[0].key@, mint@) {
                Err(GovernanceError::InvalidGoverningTokenHoldingAccount)
            } else if amount > source.amount {
                Err(GovernanceError::InsufficientFunds)
            } else if accs[1].data->Token_0.amount + amount > u64::MAX {
                Err(GovernanceError::ArithmeticOverflow)
            } else {
                let moved = accs.update(2, with_amount(accs[2], source.amount - amount))
                    .update(1, with_amount(accs[1], accs[1].data->Token_0.amount + amount));
                if accs[4].data is Uninitialized {
                    if !is_derived(accs[4].key@, derived_address(token_owner_record_seeds(accs[0].key@, mint@, accs[3].key@), pid)) {
                        Err(GovernanceError::InvalidAccountAddress)
                    } else {
                        Ok(moved.update(4, created(accs[4], program_id, AccountData::TokenOwnerRecord(TokenOwnerRecord {
                            realm: accs[0].key,
                            governing_token_mint: mint,
                            governing_token_owner: accs[3].key,
                            governing_token_deposit_amount: amount,
                            unrelinquished_votes_count: 0,
                            total_votes_count: 0,
                            outstanding_proposal_count: 0,
                            governance_delegate: None,
                        }))))
                    }
                } else {
                    match owner_record_check(pid, accs[4], accs[0].key@, mint@, accs[3].key@) {
                        Err(e) => Err(e),
                        Ok(t) => if t.governing_token_deposit_amount + amount > u64::MAX {
                            Err(GovernanceError::ArithmeticOverflow)
                        } else {
                            Ok(moved.update(4, with_data(accs[4], AccountData::TokenOwnerRecord(TokenOwnerRecord {
                                governing_token_deposit_amount: (t.governing_token_deposit_amount + amount) as u64,
                                ..t
                            }))))
                        },
                    }
                }
            },
        }
    }
}

/// What withdrawing the whole deposit does, over the accounts [realm, holding,
/// owner's token account, owner, owner record]: the deposit moves back from the
/// realm's holding account to the owner's account and the record counts zero.
pub open spec fn withdraw_outcome(program_id: Address, accs: Seq<AccountInfo>) -> Result<Seq<AccountInfo>, GovernanceError> {
    let pid = program_id@;
    if accs.len() < 5 {
        Err(GovernanceError::NotEnoughAccountKeys)
    } else if !accs[3].is_signer {
        Err(GovernanceError::GoverningTokenOwnerMustSign)
    } else if !(accs[2].data is Token) || accs[2].data->Token_0.owner@ != accs[3].key@ {
        Err(GovernanceError::InvalidGoverningTokenSource)
    } else {
        let dest = accs[2].data->Token_0;
        let mint = dest.mint;
        match realm_for_mint_check(pid, accs[0], mint@) {
            Err(e) => Err(e),
            Ok(_) => if !holding_matches(pid, accs[1], accs[0].key@, mint@) {
                Err(GovernanceError::InvalidGoverningTokenHoldingAccount)
            } else {
                match owner_record_check(pid, accs[4], accs[0].key@, mint@, accs[3].key@) {
                    Err(e) => Err(e),
                    Ok(t) => {
                        let amount = t.governing_token_deposit_amount;
                        if t.withdraw_check() is Err {
                            Err(t.withdraw_check()->Err_0)
                        } else if amount > accs[1].data->Token_0.amount {
                            Err(GovernanceError::InsufficientFunds)
                        } else if dest.amount + amount > u64::MAX {
                            Err(GovernanceError::ArithmeticOverflow)
                        } else {
                            Ok(accs.update(1, with_amount(accs[1], accs[1].data->Token_0.amount - amount))
                                .update(2, with_amount(accs[2], dest.amount + amount))
                                .update(4, with_data(accs[4], AccountData::TokenOwnerRecord(
                                    TokenOwnerRecord { governing_token_deposit_amount: 0, ..t }))))
                        }
                    },
                }
            },
        }
    }
}

fn check_holding(program_id: &Address, acc: &AccountInfo, realm: &Address, mint: &Address) -> (r: bool)
    ensures
        r == holding_matches(program_id@, *acc, realm@, mint@),
{
    match &acc.data {
        AccountData::Token(t) => if !t.mint.same(mint) {
            false
        } else {
            let d = get_governing_token_holding_address(program_id, realm, mint);
            key_matches(&acc.key, &d)
        },
        _ => false,
    }
}

fn get_owner_record<'a>(program_id: &Address, acc: &'a AccountInfo, realm: &Address, mint: &Address, owner: &Address) -> (r: Result<&'a TokenOwnerRecord, GovernanceError>)
    ensures
        match r {
            Ok(x) => owner_record_check(program_id@, *acc, realm@, mint@, owner@) == Ok::<TokenOwnerRecord, GovernanceError>(*x),
            Err(e) => owner_record_check(program_id@, *acc, realm@, mint@, owner@) == Err::<TokenOwnerRecord, GovernanceError>(e),
        },
{
    let t = get_token_owner_record_data(program_id, acc, realm, &Some(*mint))?;
    if !t.governing_token_owner.same(owner) {
        return Err(GovernanceError::InvalidAccountAddress);
    }
    Ok(t)
}

fn set_amount(accounts: &mut Vec<AccountInfo>, i: usize, t: TokenAccount, amount: u64)
    requires
        i < old(accounts)@.len(),
        old(accounts)@[i as int].data == AccountData::Token(t),
    ensures
        final(accounts)@ == old(accounts)@.update(i as int, with_amount(old(accounts)@[i as int], amount as int)),
{
    let acc = &mut accounts[i];
    acc.data = AccountData::Token(TokenAccount { amount, ..t });
}

/// The token account that an account holds, if any.
fn token_data(acc: &AccountInfo) -> (r: Option<TokenAccount>)
    ensures
        match r {
            Some(t) => acc.data == AccountData::Token(t),
            None => !(acc.data is Token),
        },
{
    match &acc.data {
        AccountData::Token(t) => Some(*t),
        _ => None,
    }
}

/// Deposits `amount` governing tokens from the owner's token account into the
/// realm's holding account, and counts them on the owner's record, which the
/// first deposit creates. The accounts are [realm, holding, owner's token
/// account, owner, owner record].
pub fn process_deposit_governing_tokens(program_id: &Address, accounts: &mut Vec<AccountInfo>, amount: u64) -> (r: Result<(), GovernanceError>)
    ensures
        match r {
            Ok(()) => deposit_outcome(*program_id, old(accounts)@, amount) == Ok::<Seq<AccountInfo>, GovernanceError>(final(accounts)@),
            Err(e) => deposit_outcome(*program_id, old(accounts)@, amount) == Err::<Seq<AccountInfo>, GovernanceError>(e)
                && final(accounts)@ == old(accounts)@,
        },
{
    if accounts.len() < 5 {
        return Err(GovernanceError::NotEnoughAccountKeys);
    }
    if !accounts[3].is_signer {
        return Err(GovernanceError::GoverningTokenOwnerMustSign);
    }
    let owner_key = accounts[3].key;
    let source = match token_data(&accounts[2]) {
        Some(t) => t,
        None => {
            return Err(GovernanceError::InvalidGoverningTokenSource);
        },
    };
    if !source.owner.same(&owner_key) {
        return Err(GovernanceError::InvalidGoverningTokenSource);
    }
    let mint = source.mint;
    let realm_key = accounts[0].key;
    let _realm = get_realm_data_for_governing_token_mint(program_id, &accounts[0], &mint)?;
    if !check_holding(program_id, &accounts[1], &realm_key, &mint) {
        return Err(GovernanceError::InvalidGoverningTokenHoldingAccount);
    }
    let holding = match token_data(&accounts[1]) {
        Some(t) => t,
        None => {
            return Err(GovernanceError::InvalidGoverningTokenHoldingAccount);
        },
    };
    if amount > source.amount {
        return Err(GovernanceError::InsufficientFunds);
    }
    if holding.amount > u64::MAX - amount {
        return Err(GovernanceError::ArithmeticOverflow);
    }
    let record: TokenOwnerRecord;
    if accounts[4].data_is_empty() {
        let d = get_token_owner_record_address(program_id, &realm_key, &mint, &owner_key);
        if !key_matches(&accounts[4].key, &d) {
            return Err(GovernanceError::InvalidAccountAddress);
        }
        record = TokenOwnerRecord {
            realm: realm_key,
            governing_token_mint: mint,
            governing_token_owner: owner_key,
            governing_token_deposit_amount: amount,
            unrelinquished_votes_count: 0,
            total_votes_count: 0,
            outstanding_proposal_count: 0,
            governance_delegate: None,
        };
    } else {
        let t = *get_owner_record(program_id, &accounts[4], &realm_key, &mint, &owner_key)?;
        if t.governing_token_deposit_amount > u64::MAX - amount {
            return Err(GovernanceError::ArithmeticOverflow);
        }
        let mut t2 = t;
        t2.governing_token_deposit_amount = t.governing_token_deposit_amount + amount;
        record = t2;
    }
    let is_new = accounts[4].data_is_empty();
    // All checks are done: the accounts are written from here on.
    set_amount(accounts, 2, source, source.amount - amount);
    set_amount(accounts, 1, holding, holding.amount + amount);
    let acc = &mut accounts[4];
    if is_new {
        acc.owner = *program_id;
    }
    acc.data = AccountData::TokenOwnerRecord(record);
    Ok(())
}

/// Withdraws the owner's whole deposit from the realm's holding account back
/// to the owner's token account; refused while any vote of the owner is
/// unrelinquished or any proposal of theirs outstanding. The accounts are
/// [realm, holding, owner's token account, owner, owner record].
pub fn process_withdraw_governing_tokens(program_id: &Address, accounts: &mut Vec<AccountInfo>) -> (r: Result<(), GovernanceError>)
    ensures
        match r {
            Ok(()) => withdraw_outcome(*program_id, old(accounts)@) == Ok::<Seq<AccountInfo>, GovernanceError>(final(accounts)@),
            Err(e) => withdraw_outcome(*program_id, old(accounts)@) == Err::<Seq<AccountInfo>, GovernanceError>(e)
                && final(accounts)@ == old(accounts)@,
        },
{
    if accounts.len() < 5 {
        return Err(GovernanceError::NotEnoughAccountKeys);
    }
    if !accounts[3].is_signer {
        return Err(GovernanceError::GoverningTokenOwnerMustSign);
    }
    let owner_key = accounts[3].key;
    let dest = match token_data(&accounts[2]) {
        Some(t) => t,
        None => {
            return Err(GovernanceError::InvalidGoverningTokenSource);
        },
    };
    if !dest.owner.same(&owner_key) {
        return Err(GovernanceError::InvalidGoverningTokenSource);
    }
    let mint = dest.mint;
    let realm_key = accounts[0].key;
    let _realm = get_realm_data_for_governing_token_mint(program_id, &accounts[0], &mint)?;
    if !check_holding(program_id, &accounts[1], &realm_key, &mint) {
        return Err(GovernanceError::InvalidGoverningTokenHoldingAccount);
    }
    let holding = match token_data(&accounts[1]) {
        Some(t) => t,
        None => {
            return Err(GovernanceError::InvalidGoverningTokenHoldingAccount);
        },
    };
    let t = *get_owner_record(program_id, &accounts[4], &realm_key, &mint, &owner_key)?;
    t.assert_can_withdraw_governing_tokens()?;
    let amount = t.governing_token_deposit_amount;
    if amount > holding.amount {
        return Err(GovernanceError::InsufficientFunds);
    }
    if dest.amount > u64::MAX - amount {
        return Err(GovernanceError::ArithmeticOverflow);
    }
    // All checks are done: the accounts are written from here on.
    set_amount(accounts, 1, holding, holding.amount - amount);
    set_amount(accounts, 2, dest, dest.amount + amount);
    let mut t2 = t;
    t2.governing_token_deposit_amount = 0;
    set_token_owner_record(accounts, 4, t2);
    Ok(())
}

/// Depositing and then withdrawing the whole deposit gives the owner's token
/// account its balance back, leaves the holding account as it was, and leaves
/// the owner's record at zero; for an owner whose record is new, or holds no
/// deposit, no unrelinquished vote and no outstanding proposal.
pub proof fn lemma_deposit_withdraw_round_trip(program_id: Address, accs: Seq<AccountInfo>, amount: u64)
    requires
        deposit_outcome(program_id, accs, amount) is Ok,
        accs[4].data is Uninitialized || ({
            let t = accs[4].data->TokenOwnerRecord_0;
            &&& accs[4].data is TokenOwnerRecord
            &&& t.governing_token_deposit_amount == 0
            &&& t.unrelinquished_votes_count == 0
            &&& t.outstanding_proposal_count == 0
        }),
    ensures
        ({
            let a1 = deposit_outcome(program_id, accs, amount)->Ok_0;
            let a2 = withdraw_outcome(program_id, a1);
            &&& a2 is Ok
            &&& a2->Ok_0[2].data->Token_0.amount == accs[2].data->Token_0.amount
            &&& a2->Ok_0[1].data->Token_0.amount == accs[1].data->Token_0.amount
            &&& a2->Ok_0[4].data is TokenOwnerRecord
            &&& a2->Ok_0[4].data->TokenOwnerRecord_0.governing_token_deposit_amount == 0
        }),
{
    let a1 = deposit_outcome(program_id, accs, amount)->Ok_0;
    let mint = accs[2].data->Token_0.mint;
    assert(a1[0] == accs[0]);
    assert(a1[3] == accs[3]);
    assert(holding_matches(program_id@, a1[1], accs[0].key@, mint@));
}

/// A token owner record checked against the address its own fields derive.
pub open spec fn own_record_check(program_id: Seq<u8>, acc: AccountInfo) -> Result<TokenOwnerRecord, GovernanceError> {
    match acc.data {
        AccountData::TokenOwnerRecord(t) => token_owner_record_check(program_id, acc, t.realm@, None),
        _ => if acc.owner@ != program_id {
            Err(GovernanceError::InvalidAccountOwner)
        } else {
            Err(GovernanceError::InvalidAccountType)
        },
    }
}

/// What setting a governance delegate does, over the accounts [owner's
/// authority, token owner record]: the record's delegate becomes `delegate`.
pub open spec fn set_delegate_outcome(program_id: Address, accs: Seq<AccountInfo>, delegate: Option<Address>) -> Result<Seq<AccountInfo>, GovernanceError> {
    if accs.len() < 2 {
        Err(GovernanceError::NotEnoughAccountKeys)
    } else {
        match own_record_check(program_id@, accs[1]) {
            Err(e) => Err(e),
            Ok(t) => if !t.owner_or_delegate_signed(accs[0]) {
                Err(GovernanceError::GoverningTokenOwnerOrDelegateMustSign)
            } else {
                Ok(accs.update(1, with_data(accs[1], AccountData::TokenOwnerRecord(
                    TokenOwnerRecord { governance_delegate: delegate, ..t }))))
            },
        }
    }
}

/// Lets a second signer vote and propose for the owner, or clears it. The
/// accounts are [owner's authority, token owner record].
pub fn process_set_governance_delegate(program_id: &Address, accounts: &mut Vec<AccountInfo>, delegate: Option<Address>) -> (r: Result<(), GovernanceError>)
    ensures
        match r {
            Ok(()) => set_delegate_outcome(*program_id, old(accounts)@, delegate) == Ok::<Seq<AccountInfo>, GovernanceError>(final(accounts)@),
            Err(e) => set_delegate_outcome(*program_id, old(accounts)@, delegate) == Err::<Seq<AccountInfo>, GovernanceError>(e)
                && final(accounts)@ == old(accounts)@,
        },
{
    if accounts.len() < 2 {
        return Err(GovernanceError::NotEnoughAccountKeys);
    }
    let t = match &accounts[1].data {
        AccountData::TokenOwnerRecord(t) => *get_token_owner_record_data(program_id, &accounts[1], &t.realm, &None)?,
        _ => {
            return if !accounts[1].owner.same(program_id) {
                Err(GovernanceError::InvalidAccountOwner)
            } else {
                Err(GovernanceError::InvalidAccountType)
            };
        },
    };
    t.assert_token_owner_or_delegate_is_signer(&accounts[0])?;
    let mut t2 = t;
    t2.governance_delegate = delegate;
    set_token_owner_record(accounts, 1, t2);
    Ok(())
}

} // verus!
