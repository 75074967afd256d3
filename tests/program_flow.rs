use spl_governance::address::{
    get_proposal_instruction_address, get_signatory_record_address,
    get_governance_address, get_governing_token_holding_address, get_proposal_address, get_realm_address,
    get_token_owner_record_address, get_vote_record_address, Address,
};
use spl_governance::error::GovernanceError;
use spl_governance::instruction::{Clock, GovernanceInstruction};
use spl_governance::processor::process_instruction;
use spl_governance::state::{
    AccountData, AccountInfo, AccountMetaData, GovernanceConfig, GovernedKind, VoteWeightSource, Mint, MintMaxVoteWeightSource, ProposalState, RealmConfigArgs,
    TokenAccount, Vote, VoteWeight, SUPPLY_FRACTION_BASE,
};

/// Every account of a test run, by address.
struct Ledger {
    program_id: Address,
    accounts: Vec<AccountInfo>,
    now: i64,
}

struct Realm {
    realm: Address,
    mint: Address,
    holding: Address,
    governance: Address,
}

struct Owner {
    owner: Address,
    wallet: Address,
    record: Address,
}

impl Ledger {
    fn new() -> Ledger {
        Ledger { program_id: Address::repeat(200), accounts: Vec::new(), now: 1000 }
    }

    fn add(&mut self, key: Address, data: AccountData) {
        self.accounts.push(AccountInfo { key, owner: Address::repeat(0), is_signer: false, data });
    }

    fn get(&self, key: &Address) -> &AccountInfo {
        self.accounts.iter().find(|a| a.key == *key).expect("account")
    }

    fn run(&mut self, keys: &[(Address, bool)], ix: GovernanceInstruction) -> Result<(), GovernanceError> {
        let mut accs: Vec<AccountInfo> = Vec::new();
        for (k, signer) in keys {
            let mut a = self.get(k).clone();
            a.is_signer = *signer;
            accs.push(a);
        }
        let clock = Clock { slot: 5, unix_timestamp: self.now };
        let r = process_instruction(&self.program_id, &mut accs, ix, clock);
        for a in accs {
            let i = self.accounts.iter().position(|b| b.key == a.key).unwrap();
            let mut a = a;
            a.is_signer = false;
            self.accounts[i] = a;
        }
        r
    }

    fn with_realm(&mut self, supply: u64) -> Realm {
        let name = b"realm".to_vec();
        let realm = get_realm_address(&self.program_id, &name).unwrap().0;
        let mint = Address::repeat(1);
        let holding = get_governing_token_holding_address(&self.program_id, &realm, &mint).unwrap().0;
        let authority = Address::repeat(3);
        self.add(realm, AccountData::Uninitialized);
        self.add(authority, AccountData::Uninitialized);
        self.add(mint, AccountData::Mint(Mint { supply, mint_authority: None }));
        self.add(holding, AccountData::Uninitialized);
        let args = RealmConfigArgs {
            use_council_mint: false,
            min_community_tokens_to_create_governance: 10,
            community_mint_max_vote_weight_source: MintMaxVoteWeightSource::SupplyFraction(SUPPLY_FRACTION_BASE),
        };
        self.run(
            &[(realm, false), (authority, true), (mint, false), (holding, false)],
            GovernanceInstruction::CreateRealm { name, config_args: args },
        )
        .unwrap();
        let governed = Address::repeat(4);
        let governance = get_governance_address(&self.program_id, GovernedKind::Account, &realm, &governed).unwrap().0;
        self.add(governed, AccountData::Uninitialized);
        self.add(governance, AccountData::Uninitialized);
        let config = GovernanceConfig {
            vote_threshold_percentage: 60, vote_weight_source: VoteWeightSource::Deposit,
            min_instruction_hold_up_time: 10,
            max_voting_time: 100,
            proposal_cool_off_time: 0,
        };
        self.run(
            &[(realm, false), (governance, false), (governed, false)],
            GovernanceInstruction::CreateAccountGovernance { config },
        )
        .unwrap();
        Realm { realm, mint, holding, governance }
    }

    fn with_deposit(&mut self, r: &Realm, seed: u8, amount: u64) -> Owner {
        let owner = Address::repeat(seed);
        let wallet = Address::repeat(seed + 1);
        let record = get_token_owner_record_address(&self.program_id, &r.realm, &r.mint, &owner).unwrap().0;
        self.add(owner, AccountData::Uninitialized);
        self.add(wallet, AccountData::Token(TokenAccount { mint: r.mint, owner, amount }));
        self.add(record, AccountData::Uninitialized);
        self.run(
            &[(r.realm, false), (r.holding, false), (wallet, false), (owner, true), (record, false)],
            GovernanceInstruction::DepositGoverningTokens { amount },
        )
        .unwrap();
        Owner { owner, wallet, record }
    }

    fn set_supply(&mut self, r: &Realm, supply: u64) {
        let i = self.accounts.iter().position(|b| b.key == r.mint).unwrap();
        self.accounts[i].data = AccountData::Mint(Mint { supply, mint_authority: None });
    }

    fn with_signed_off_proposal(&mut self, r: &Realm, o: &Owner) -> Address {
        let index = match &self.get(&r.governance).data {
            AccountData::Governance(g) => g.proposals_count,
            _ => panic!("governance"),
        };
        let proposal = get_proposal_address(&self.program_id, &r.governance, &r.mint, index).unwrap().0;
        self.add(proposal, AccountData::Uninitialized);
        self.run(
            &[(r.realm, false), (proposal, false), (r.governance, false), (o.record, false), (o.owner, true)],
            GovernanceInstruction::CreateProposal {
                name: b"proposal".to_vec(),
                description_link: b"link".to_vec(),
                governing_token_mint: r.mint,
            },
        )
        .unwrap();
        self.run(
            &[(r.realm, false), (r.governance, false), (proposal, false), (o.record, false), (o.owner, true), (r.mint, false)],
            GovernanceInstruction::SignOffProposal,
        )
        .unwrap();
        proposal
    }

    fn cast_vote(&mut self, r: &Realm, proposal: &Address, owner_record: &Address, o: &Owner, vote: Vote) -> Result<Address, GovernanceError> {
        let vote_record = get_vote_record_address(&self.program_id, proposal, &o.record).unwrap().0;
        if !self.accounts.iter().any(|a| a.key == vote_record) {
            self.add(vote_record, AccountData::Uninitialized);
        }
        self.run(
            &[
                (r.realm, false),
                (r.governance, false),
                (*proposal, false),
                (*owner_record, false),
                (o.record, false),
                (o.owner, true),
                (vote_record, false),
                (r.mint, false),
            ],
            GovernanceInstruction::CastVote { vote },
        )?;
        Ok(vote_record)
    }

    fn relinquish(&mut self, r: &Realm, proposal: &Address, o: &Owner, vote_record: &Address, mint: &Address, authority: &Address) -> Result<(), GovernanceError> {
        self.run(
            &[(r.governance, false), (*proposal, false), (o.record, false), (*vote_record, false), (*mint, false), (*authority, true)],
            GovernanceInstruction::RelinquishVote,
        )
    }

    fn proposal(&self, key: &Address) -> spl_governance::state::Proposal {
        match &self.get(key).data {
            AccountData::Proposal(p) => p.clone(),
            _ => panic!("proposal"),
        }
    }

    fn record(&self, key: &Address) -> spl_governance::state::TokenOwnerRecord {
        match &self.get(key).data {
            AccountData::TokenOwnerRecord(t) => *t,
            _ => panic!("token owner record"),
        }
    }

    fn vote_record(&self, key: &Address) -> Option<spl_governance::state::VoteRecord> {
        match &self.get(key).data {
            AccountData::VoteRecord(v) => Some(*v),
            _ => None,
        }
    }
}

#[test]
fn test_relinquish_voted_proposal() {
    let mut t = Ledger::new();
    let r = t.with_realm(100);
    let o = t.with_deposit(&r, 10, 100);
    let p = t.with_signed_off_proposal(&r, &o);
    let vr = t.cast_vote(&r, &p, &o.record, &o, Vote::Yes).unwrap();
    let before = t.vote_record(&vr).unwrap();

    t.relinquish(&r, &p, &o, &vr, &r.mint, &o.owner).unwrap();

    let proposal = t.proposal(&p);
    assert_eq!(100, proposal.yes_votes_count);
    assert_eq!(ProposalState::Succeeded, proposal.state);
    let record = t.record(&o.record);
    assert_eq!(0, record.unrelinquished_votes_count);
    assert_eq!(1, record.total_votes_count);
    let after = t.vote_record(&vr).unwrap();
    assert!(after.is_relinquished);
    assert_eq!(before.vote_weight, after.vote_weight);
    assert_eq!(before.proposal, after.proposal);
    assert_eq!(before.governing_token_owner, after.governing_token_owner);
}

#[test]
fn test_relinquish_active_yes_vote() {
    let mut t = Ledger::new();
    let r = t.with_realm(100);
    let o = t.with_deposit(&r, 10, 100);
    // Total 300 tokens
    t.set_supply(&r, 300);
    let p = t.with_signed_off_proposal(&r, &o);
    let vr = t.cast_vote(&r, &p, &o.record, &o, Vote::Yes).unwrap();

    t.relinquish(&r, &p, &o, &vr, &r.mint, &o.owner).unwrap();

    let proposal = t.proposal(&p);
    assert_eq!(0, proposal.yes_votes_count);
    assert_eq!(0, proposal.no_votes_count);
    assert_eq!(ProposalState::Voting, proposal.state);
    let record = t.record(&o.record);
    assert_eq!(0, record.unrelinquished_votes_count);
    // Relinquishing keeps the count of votes ever cast.
    assert_eq!(1, record.total_votes_count);
    assert!(t.vote_record(&vr).is_none());
}

#[test]
fn test_relinquish_active_no_vote() {
    let mut t = Ledger::new();
    let r = t.with_realm(100);
    let o = t.with_deposit(&r, 10, 100);
    // Total 300 tokens
    t.set_supply(&r, 300);
    let p = t.with_signed_off_proposal(&r, &o);
    let vr = t.cast_vote(&r, &p, &o.record, &o, Vote::No).unwrap();

    t.relinquish(&r, &p, &o, &vr, &r.mint, &o.owner).unwrap();

    let proposal = t.proposal(&p);
    assert_eq!(0, proposal.yes_votes_count);
    assert_eq!(0, proposal.no_votes_count);
    assert_eq!(ProposalState::Voting, proposal.state);
    let record = t.record(&o.record);
    assert_eq!(0, record.unrelinquished_votes_count);
    assert_eq!(1, record.total_votes_count);
    assert!(t.vote_record(&vr).is_none());
}

#[test]
fn test_relinquish_vote_with_invalid_mint_error() {
    let mut t = Ledger::new();
    let r = t.with_realm(100);
    let o = t.with_deposit(&r, 10, 100);
    let p = t.with_signed_off_proposal(&r, &o);
    let vr = t.cast_vote(&r, &p, &o.record, &o, Vote::No).unwrap();
    let other_mint = Address::repeat(90);
    t.add(other_mint, AccountData::Mint(Mint { supply: 100, mint_authority: None }));

    let err = t.relinquish(&r, &p, &o, &vr, &other_mint, &o.owner).err().unwrap();

    assert_eq!(err, GovernanceError::InvalidGoverningMintForProposal);
}

#[test]
fn test_relinquish_vote_with_governance_authority_must_sign_error() {
    let mut t = Ledger::new();
    let r = t.with_realm(100);
    let o = t.with_deposit(&r, 10, 100);
    // Total 300 tokens
    t.set_supply(&r, 300);
    let p = t.with_signed_off_proposal(&r, &o);
    let vr = t.cast_vote(&r, &p, &o.record, &o, Vote::No).unwrap();
    // Try to use a different owner to sign
    let o2 = t.with_deposit(&r, 20, 100);

    let err = t.relinquish(&r, &p, &o, &vr, &r.mint, &o2.owner).err().unwrap();

    assert_eq!(err, GovernanceError::GoverningTokenOwnerOrDelegateMustSign);
}

#[test]
fn test_relinquish_vote_with_invalid_vote_record_error() {
    let mut t = Ledger::new();
    let r = t.with_realm(100);
    let o = t.with_deposit(&r, 10, 100);
    let o2 = t.with_deposit(&r, 20, 100);
    // Total 400 tokens
    t.set_supply(&r, 400);
    let p = t.with_signed_off_proposal(&r, &o);
    t.cast_vote(&r, &p, &o.record, &o, Vote::No).unwrap();
    let vr2 = t.cast_vote(&r, &p, &o.record, &o2, Vote::Yes).unwrap();

    // Try to use a vote record of another token owner
    let err = t.relinquish(&r, &p, &o, &vr2, &r.mint, &o.owner).err().unwrap();

    assert_eq!(err, GovernanceError::InvalidGoverningTokenOwnerForVoteRecord);
}

#[test]
fn test_relinquish_vote_with_already_relinquished_error() {
    let mut t = Ledger::new();
    let r = t.with_realm(100);
    let o = t.with_deposit(&r, 10, 100);
    let p = t.with_signed_off_proposal(&r, &o);
    let vr = t.cast_vote(&r, &p, &o.record, &o, Vote::No).unwrap();
    t.relinquish(&r, &p, &o, &vr, &r.mint, &o.owner).unwrap();
    assert_eq!(true, t.vote_record(&vr).unwrap().is_relinquished);
    t.set_supply(&r, 110);

    let err = t.relinquish(&r, &p, &o, &vr, &r.mint, &o.owner).err().unwrap();

    assert_eq!(err, GovernanceError::VoteAlreadyRelinquished);
}

#[test]
fn second_vote_from_same_owner_is_refused() {
    let mut t = Ledger::new();
    let r = t.with_realm(100);
    let o = t.with_deposit(&r, 10, 30);
    t.set_supply(&r, 300);
    let p = t.with_signed_off_proposal(&r, &o);
    t.cast_vote(&r, &p, &o.record, &o, Vote::Yes).unwrap();
    let err = t.cast_vote(&r, &p, &o.record, &o, Vote::No).err().unwrap();
    assert_eq!(err, GovernanceError::VoteAlreadyExists);
    let proposal = t.proposal(&p);
    assert_eq!(30, proposal.yes_votes_count);
    assert_eq!(0, proposal.no_votes_count);
    assert_eq!(1, t.record(&o.record).total_votes_count);
}

#[test]
fn vote_tips_once_threshold_is_exceeded() {
    let mut t = Ledger::new();
    let r = t.with_realm(300);
    let o = t.with_deposit(&r, 10, 100);
    let o2 = t.with_deposit(&r, 20, 100);
    let p = t.with_signed_off_proposal(&r, &o);
    assert_eq!(Some(300), t.proposal(&p).max_vote_weight);
    assert_eq!(Some(60), t.proposal(&p).vote_threshold_percentage);
    t.cast_vote(&r, &p, &o.record, &o, Vote::Yes).unwrap();
    assert_eq!(ProposalState::Voting, t.proposal(&p).state);
    t.cast_vote(&r, &p, &o.record, &o2, Vote::Yes).unwrap();
    // 200 of 300 exceeds the 60% threshold of 180.
    let proposal = t.proposal(&p);
    assert_eq!(ProposalState::Succeeded, proposal.state);
    assert_eq!(Some(1000), proposal.voting_completed_at);
    assert_eq!(0, t.record(&o.record).outstanding_proposal_count);
}

#[test]
fn deposit_then_withdraw_restores_wallet() {
    let mut t = Ledger::new();
    let r = t.with_realm(1000);
    let o = t.with_deposit(&r, 10, 250);
    match &t.get(&o.wallet).data {
        AccountData::Token(w) => assert_eq!(0, w.amount),
        _ => panic!("wallet"),
    }
    assert_eq!(250, t.record(&o.record).governing_token_deposit_amount);
    t.run(
        &[(r.realm, false), (r.holding, false), (o.wallet, false), (o.owner, true), (o.record, false)],
        GovernanceInstruction::WithdrawGoverningTokens,
    )
    .unwrap();
    match &t.get(&o.wallet).data {
        AccountData::Token(w) => assert_eq!(250, w.amount),
        _ => panic!("wallet"),
    }
    match &t.get(&r.holding).data {
        AccountData::Token(h) => assert_eq!(0, h.amount),
        _ => panic!("holding"),
    }
    assert_eq!(0, t.record(&o.record).governing_token_deposit_amount);
}

#[test]
fn withdraw_with_unrelinquished_vote_is_refused() {
    let mut t = Ledger::new();
    let r = t.with_realm(300);
    let o = t.with_deposit(&r, 10, 100);
    let p = t.with_signed_off_proposal(&r, &o);
    t.cast_vote(&r, &p, &o.record, &o, Vote::Yes).unwrap();
    let err = t
        .run(
            &[(r.realm, false), (r.holding, false), (o.wallet, false), (o.owner, true), (o.record, false)],
            GovernanceInstruction::WithdrawGoverningTokens,
        )
        .err()
        .unwrap();
    assert_eq!(err, GovernanceError::AllVotesMustBeRelinquishedToWithdrawGoverningTokens);
    assert_eq!(100, t.record(&o.record).governing_token_deposit_amount);
}

#[test]
fn create_realm_twice_is_refused() {
    let mut t = Ledger::new();
    let r = t.with_realm(100);
    let args = RealmConfigArgs {
        use_council_mint: false,
        min_community_tokens_to_create_governance: 1,
        community_mint_max_vote_weight_source: MintMaxVoteWeightSource::Absolute(5),
    };
    let err = t
        .run(
            &[(r.realm, false), (Address::repeat(3), true), (r.mint, false), (r.holding, false)],
            GovernanceInstruction::CreateRealm { name: b"other".to_vec(), config_args: args },
        )
        .err()
        .unwrap();
    assert_eq!(err, GovernanceError::RealmAlreadyExists);
}

#[test]
fn finalize_decides_after_voting_time() {
    let mut t = Ledger::new();
    let r = t.with_realm(300);
    let o = t.with_deposit(&r, 10, 100);
    let p = t.with_signed_off_proposal(&r, &o);
    t.cast_vote(&r, &p, &o.record, &o, Vote::Yes).unwrap();
    let keys = [(r.realm, false), (r.governance, false), (p, false), (o.record, false), (r.mint, false)];
    let err = t.run(&keys, GovernanceInstruction::FinalizeVote).err().unwrap();
    assert_eq!(err, GovernanceError::CannotFinalizeVotingInProgress);
    t.now = 1099;
    let err = t.run(&keys, GovernanceInstruction::FinalizeVote).err().unwrap();
    assert_eq!(err, GovernanceError::CannotFinalizeVotingInProgress);
    // Voting ends at 1100: from that instant the vote may be finalized.
    t.now = 1100;
    t.run(&keys, GovernanceInstruction::FinalizeVote).unwrap();
    let proposal = t.proposal(&p);
    assert_eq!(ProposalState::Defeated, proposal.state);
    assert_eq!(Some(1100), proposal.voting_completed_at);
    assert_eq!(0, t.record(&o.record).outstanding_proposal_count);
    let vote = t.vote_record(&get_vote_record_address(&t.program_id, &p, &o.record).unwrap().0).unwrap();
    assert_eq!(VoteWeight::Yes(100), vote.vote_weight);
}

fn draft_proposal(t: &mut Ledger, r: &Realm, o: &Owner) -> Address {
    let proposal = get_proposal_address(&t.program_id, &r.governance, &r.mint, 0).unwrap().0;
    t.add(proposal, AccountData::Uninitialized);
    t.run(
        &[(r.realm, false), (proposal, false), (r.governance, false), (o.record, false), (o.owner, true)],
        GovernanceInstruction::CreateProposal {
            name: b"proposal".to_vec(),
            description_link: b"link".to_vec(),
            governing_token_mint: r.mint,
        },
    )
    .unwrap();
    proposal
}

fn insert(t: &mut Ledger, r: &Realm, o: &Owner, p: &Address, index: u16, hold_up_time: u32) -> Result<Address, GovernanceError> {
    let key = get_proposal_instruction_address(&t.program_id, p, index).unwrap().0;
    if !t.accounts.iter().any(|a| a.key == key) {
        t.add(key, AccountData::Uninitialized);
    }
    t.run(
        &[(r.governance, false), (*p, false), (o.record, false), (o.owner, true), (key, false)],
        GovernanceInstruction::InsertInstruction {
            index,
            hold_up_time,
            program_id: Address::repeat(77),
            accounts: vec![AccountMetaData { pubkey: Address::repeat(78), is_signer: false, is_writable: true }],
            data: vec![1, 2, 3],
        },
    )?;
    Ok(key)
}

#[test]
fn signatories_sign_off_in_turn() {
    let mut t = Ledger::new();
    let r = t.with_realm(300);
    let o = t.with_deposit(&r, 10, 100);
    let p = draft_proposal(&mut t, &r, &o);
    let mut records = Vec::new();
    for seed in [50u8, 51u8] {
        let signatory = Address::repeat(seed);
        let key = get_signatory_record_address(&t.program_id, &p, &signatory).unwrap().0;
        t.add(signatory, AccountData::Uninitialized);
        t.add(key, AccountData::Uninitialized);
        t.run(&[(p, false), (o.record, false), (o.owner, true), (key, false)], GovernanceInstruction::AddSignatory { signatory })
            .unwrap();
        records.push((signatory, key));
    }
    assert_eq!(2, t.proposal(&p).signatories_count);
    let sign = |t: &mut Ledger, who: Address, key: Address| {
        t.run(
            &[(r.realm, false), (r.governance, false), (p, false), (o.record, false), (who, true), (r.mint, false), (key, false)],
            GovernanceInstruction::SignOffProposal,
        )
    };
    // The owner cannot sign for a signatory.
    assert_eq!(Err(GovernanceError::SignatoryMustSign), sign(&mut t, o.owner, records[0].1));
    sign(&mut t, records[0].0, records[0].1).unwrap();
    assert_eq!(ProposalState::SigningOff, t.proposal(&p).state);
    assert_eq!(Err(GovernanceError::SignatoryAlreadySignedOff), sign(&mut t, records[0].0, records[0].1));
    sign(&mut t, records[1].0, records[1].1).unwrap();
    let proposal = t.proposal(&p);
    assert_eq!(ProposalState::Voting, proposal.state);
    assert_eq!(2, proposal.signatories_signed_off_count);
    assert_eq!(Some(1000), proposal.voting_at);
    assert_eq!(Some(300), proposal.max_vote_weight);
}

#[test]
fn instructions_run_after_their_hold_up_time() {
    let mut t = Ledger::new();
    let r = t.with_realm(100);
    let o = t.with_deposit(&r, 10, 100);
    let p = draft_proposal(&mut t, &r, &o);
    assert_eq!(Err(GovernanceError::InvalidInstructionIndex), insert(&mut t, &r, &o, &p, 1, 10).map(|_| ()));
    assert_eq!(Err(GovernanceError::InstructionHoldUpTimeBelowRequiredMin), insert(&mut t, &r, &o, &p, 0, 9).map(|_| ()));
    let first = insert(&mut t, &r, &o, &p, 0, 10).unwrap();
    let second = insert(&mut t, &r, &o, &p, 1, 50).unwrap();
    assert_eq!(2, t.proposal(&p).instructions_next_index);
    t.run(
        &[(r.realm, false), (r.governance, false), (p, false), (o.record, false), (o.owner, true), (r.mint, false)],
        GovernanceInstruction::SignOffProposal,
    )
    .unwrap();
    t.cast_vote(&r, &p, &o.record, &o, Vote::Yes).unwrap();
    assert_eq!(ProposalState::Succeeded, t.proposal(&p).state);
    let execute = |t: &mut Ledger, i: Address| t.run(&[(r.governance, false), (p, false), (i, false)], GovernanceInstruction::ExecuteInstruction);
    // Completed at 1000: the first may run from 1010, the second from 1050.
    t.now = 1009;
    assert_eq!(Err(GovernanceError::CannotExecuteInstructionWithinHoldUpTime), execute(&mut t, first));
    t.now = 1010;
    execute(&mut t, first).unwrap();
    assert_eq!(ProposalState::Executing, t.proposal(&p).state);
    assert_eq!(Err(GovernanceError::InstructionAlreadyExecuted), execute(&mut t, first));
    assert_eq!(Err(GovernanceError::CannotExecuteInstructionWithinHoldUpTime), execute(&mut t, second));
    t.now = 1050;
    execute(&mut t, second).unwrap();
    let proposal = t.proposal(&p);
    assert_eq!(ProposalState::Completed, proposal.state);
    assert_eq!(2, proposal.instructions_executed_count);
    assert_eq!(Some(1050), proposal.closed_at);
    match &t.get(&second).data {
        AccountData::ProposalInstruction(i) => {
            assert_eq!(Some(1050), i.executed_at);
            assert_eq!(1, i.accounts.len());
            assert_eq!(Address::repeat(78), i.accounts[0].pubkey);
            assert!(i.accounts[0].is_writable);
            assert!(!i.accounts[0].is_signer);
            assert_eq!(vec![1u8, 2, 3], i.data);
        }
        _ => panic!("instruction"),
    }
}

#[test]
fn removed_instruction_index_is_not_reused() {
    let mut t = Ledger::new();
    let r = t.with_realm(100);
    let o = t.with_deposit(&r, 10, 100);
    let p = draft_proposal(&mut t, &r, &o);
    let first = insert(&mut t, &r, &o, &p, 0, 10).unwrap();
    t.run(&[(p, false), (o.record, false), (o.owner, true), (first, false)], GovernanceInstruction::RemoveInstruction)
        .unwrap();
    let proposal = t.proposal(&p);
    assert_eq!(0, proposal.instructions_count);
    assert_eq!(1, proposal.instructions_next_index);
    assert_eq!(Err(GovernanceError::InvalidInstructionIndex), insert(&mut t, &r, &o, &p, 0, 10).map(|_| ()));
    insert(&mut t, &r, &o, &p, 1, 10).unwrap();
}

#[test]
fn flagged_instruction_error_marks_proposal() {
    let mut t = Ledger::new();
    let r = t.with_realm(100);
    let o = t.with_deposit(&r, 10, 100);
    let p = draft_proposal(&mut t, &r, &o);
    let first = insert(&mut t, &r, &o, &p, 0, 10).unwrap();
    t.run(
        &[(r.realm, false), (r.governance, false), (p, false), (o.record, false), (o.owner, true), (r.mint, false)],
        GovernanceInstruction::SignOffProposal,
    )
    .unwrap();
    t.cast_vote(&r, &p, &o.record, &o, Vote::Yes).unwrap();
    t.run(&[(p, false), (o.record, false), (o.owner, true), (first, false)], GovernanceInstruction::FlagInstructionError)
        .unwrap();
    assert_eq!(ProposalState::ExecutingWithErrors, t.proposal(&p).state);
}

#[test]
fn cancel_closes_proposal_and_frees_owner() {
    let mut t = Ledger::new();
    let r = t.with_realm(100);
    let o = t.with_deposit(&r, 10, 100);
    let p = draft_proposal(&mut t, &r, &o);
    assert_eq!(1, t.record(&o.record).outstanding_proposal_count);
    t.now = 1200;
    t.run(&[(p, false), (o.record, false), (o.owner, true)], GovernanceInstruction::CancelProposal).unwrap();
    let proposal = t.proposal(&p);
    assert_eq!(ProposalState::Cancelled, proposal.state);
    assert_eq!(Some(1200), proposal.closed_at);
    assert_eq!(0, t.record(&o.record).outstanding_proposal_count);
    assert_eq!(
        Err(GovernanceError::InvalidStateCannotCancelProposal),
        t.run(&[(p, false), (o.record, false), (o.owner, true)], GovernanceInstruction::CancelProposal)
    );
}

#[test]
fn second_outstanding_proposal_is_refused() {
    let mut t = Ledger::new();
    let r = t.with_realm(100);
    let o = t.with_deposit(&r, 10, 100);
    draft_proposal(&mut t, &r, &o);
    let next = get_proposal_address(&t.program_id, &r.governance, &r.mint, 1).unwrap().0;
    t.add(next, AccountData::Uninitialized);
    let err = t
        .run(
            &[(r.realm, false), (next, false), (r.governance, false), (o.record, false), (o.owner, true)],
            GovernanceInstruction::CreateProposal { name: b"n".to_vec(), description_link: b"l".to_vec(), governing_token_mint: r.mint },
        )
        .err()
        .unwrap();
    assert_eq!(GovernanceError::TooManyOutstandingProposals, err);
}

#[test]
fn proposal_at_wrong_address_is_refused() {
    let mut t = Ledger::new();
    let r = t.with_realm(100);
    let o = t.with_deposit(&r, 10, 100);
    let wrong = Address::repeat(123);
    t.add(wrong, AccountData::Uninitialized);
    let err = t
        .run(
            &[(r.realm, false), (wrong, false), (r.governance, false), (o.record, false), (o.owner, true)],
            GovernanceInstruction::CreateProposal { name: b"n".to_vec(), description_link: b"l".to_vec(), governing_token_mint: r.mint },
        )
        .err()
        .unwrap();
    assert_eq!(GovernanceError::InvalidAccountAddress, err);
}

#[test]
fn delegate_may_vote_for_owner() {
    let mut t = Ledger::new();
    let r = t.with_realm(300);
    let o = t.with_deposit(&r, 10, 100);
    let delegate = Address::repeat(60);
    t.add(delegate, AccountData::Uninitialized);
    t.run(
        &[(o.owner, true), (o.record, false)],
        GovernanceInstruction::SetGovernanceDelegate { new_governance_delegate: Some(delegate) },
    )
    .unwrap();
    assert_eq!(Some(delegate), t.record(&o.record).governance_delegate);
    let p = t.with_signed_off_proposal(&r, &o);
    let as_delegate = Owner { owner: delegate, wallet: o.wallet, record: o.record };
    t.cast_vote(&r, &p, &o.record, &as_delegate, Vote::No).unwrap();
    assert_eq!(100, t.proposal(&p).no_votes_count);
}

#[test]
fn cleared_realm_authority_is_final() {
    let mut t = Ledger::new();
    let r = t.with_realm(100);
    let authority = Address::repeat(3);
    t.run(&[(r.realm, false), (authority, true)], GovernanceInstruction::SetRealmAuthority { new_realm_authority: None })
        .unwrap();
    assert_eq!(
        Err(GovernanceError::RealmAuthorityMustSign),
        t.run(
            &[(r.realm, false), (authority, true)],
            GovernanceInstruction::SetRealmAuthority { new_realm_authority: Some(authority) }
        )
    );
}

#[test]
fn governance_config_needs_governance_signature() {
    let mut t = Ledger::new();
    let r = t.with_realm(100);
    let config = GovernanceConfig { vote_threshold_percentage: 70, vote_weight_source: VoteWeightSource::Deposit, min_instruction_hold_up_time: 0, max_voting_time: 5, proposal_cool_off_time: 0 };
    assert_eq!(
        Err(GovernanceError::GovernanceMustSign),
        t.run(&[(r.governance, false)], GovernanceInstruction::SetGovernanceConfig { config })
    );
    t.run(&[(r.governance, true)], GovernanceInstruction::SetGovernanceConfig { config }).unwrap();
    match &t.get(&r.governance).data {
        AccountData::Governance(g) => assert_eq!(70, g.config.vote_threshold_percentage),
        _ => panic!("governance"),
    }
}

#[test]
fn token_governance_takes_over_token_account() {
    let mut t = Ledger::new();
    let r = t.with_realm(100);
    let holder = Address::repeat(70);
    let treasury = Address::repeat(71);
    t.add(holder, AccountData::Uninitialized);
    t.add(treasury, AccountData::Token(TokenAccount { mint: r.mint, owner: holder, amount: 5 }));
    let governance = get_governance_address(&t.program_id, GovernedKind::Token, &r.realm, &treasury).unwrap().0;
    assert_ne!(governance, get_governance_address(&t.program_id, GovernedKind::Account, &r.realm, &treasury).unwrap().0);
    t.add(governance, AccountData::Uninitialized);
    let config = GovernanceConfig { vote_threshold_percentage: 60, vote_weight_source: VoteWeightSource::Deposit, min_instruction_hold_up_time: 0, max_voting_time: 5, proposal_cool_off_time: 0 };
    let keys = [(r.realm, false), (governance, false), (treasury, false), (holder, false)];
    assert_eq!(
        Err(GovernanceError::GovernedAuthorityMustSign),
        t.run(&keys, GovernanceInstruction::CreateTokenGovernance { config, transfer_token_owner: true })
    );
    let keys = [(r.realm, false), (governance, false), (treasury, false), (holder, true)];
    t.run(&keys, GovernanceInstruction::CreateTokenGovernance { config, transfer_token_owner: true }).unwrap();
    match &t.get(&treasury).data {
        AccountData::Token(a) => {
            assert_eq!(governance, a.owner);
            assert_eq!(5, a.amount);
        }
        _ => panic!("treasury"),
    }
    match &t.get(&governance).data {
        AccountData::Governance(g) => {
            assert_eq!(GovernedKind::Token, g.kind);
            assert_eq!(0, g.proposals_count);
        }
        _ => panic!("governance"),
    }
}

#[test]
fn refusals_for_malformed_accounts() {
    let mut t = Ledger::new();
    let r = t.with_realm(100);
    let o = t.with_deposit(&r, 10, 100);
    // Too few accounts.
    assert_eq!(Err(GovernanceError::NotEnoughAccountKeys), t.run(&[(r.realm, false)], GovernanceInstruction::FinalizeVote));
    // A realm-shaped account that this program does not own.
    let foreign = Address::repeat(130);
    t.accounts.push(AccountInfo {
        key: foreign,
        owner: Address::repeat(131),
        is_signer: false,
        data: AccountData::Governance(match &t.get(&r.governance).data {
            AccountData::Governance(g) => *g,
            _ => panic!("governance"),
        }),
    });
    assert_eq!(
        Err(GovernanceError::InvalidAccountOwner),
        t.run(&[(foreign, true)], GovernanceInstruction::SetGovernanceConfig {
            config: GovernanceConfig { vote_threshold_percentage: 50, vote_weight_source: VoteWeightSource::Deposit, min_instruction_hold_up_time: 0, max_voting_time: 1, proposal_cool_off_time: 0 },
        })
    );
    // A record of another kind where a proposal is expected.
    assert_eq!(
        Err(GovernanceError::InvalidAccountType),
        t.run(&[(o.record, false), (o.record, false), (o.owner, true)], GovernanceInstruction::CancelProposal)
    );
}

#[test]
fn refusals_for_deposits() {
    let mut t = Ledger::new();
    let r = t.with_realm(100);
    let o = t.with_deposit(&r, 10, 100);
    let keys = [(r.realm, false), (r.holding, false), (o.wallet, false), (o.owner, true), (o.record, false)];
    assert_eq!(Err(GovernanceError::InsufficientFunds), t.run(&keys, GovernanceInstruction::DepositGoverningTokens { amount: 1 }));
    let unsigned = [(r.realm, false), (r.holding, false), (o.wallet, false), (o.owner, false), (o.record, false)];
    assert_eq!(Err(GovernanceError::GoverningTokenOwnerMustSign), t.run(&unsigned, GovernanceInstruction::DepositGoverningTokens { amount: 0 }));
    // A wallet of another mint.
    let other = Address::repeat(140);
    t.add(other, AccountData::Token(TokenAccount { mint: Address::repeat(141), owner: o.owner, amount: 10 }));
    let keys_other = [(r.realm, false), (r.holding, false), (other, false), (o.owner, true), (o.record, false)];
    assert_eq!(Err(GovernanceError::InvalidGoverningTokenMint), t.run(&keys_other, GovernanceInstruction::DepositGoverningTokens { amount: 1 }));
    // A wallet that someone else owns.
    let theirs = Address::repeat(142);
    t.add(theirs, AccountData::Token(TokenAccount { mint: r.mint, owner: Address::repeat(143), amount: 10 }));
    let keys_theirs = [(r.realm, false), (r.holding, false), (theirs, false), (o.owner, true), (o.record, false)];
    assert_eq!(Err(GovernanceError::InvalidGoverningTokenSource), t.run(&keys_theirs, GovernanceInstruction::DepositGoverningTokens { amount: 1 }));
    // A holding balance that would overflow.
    let rich = Address::repeat(144);
    t.add(rich, AccountData::Token(TokenAccount { mint: r.mint, owner: o.owner, amount: u64::MAX }));
    let keys_rich = [(r.realm, false), (r.holding, false), (rich, false), (o.owner, true), (o.record, false)];
    assert_eq!(Err(GovernanceError::ArithmeticOverflow), t.run(&keys_rich, GovernanceInstruction::DepositGoverningTokens { amount: u64::MAX }));
    assert_eq!(100, t.record(&o.record).governing_token_deposit_amount);
}

#[test]
fn refusals_for_proposals() {
    let mut t = Ledger::new();
    let r = t.with_realm(300);
    let poor = t.with_deposit(&r, 30, 5);
    let next = get_proposal_address(&t.program_id, &r.governance, &r.mint, 0).unwrap().0;
    t.add(next, AccountData::Uninitialized);
    let create = |t: &mut Ledger, owner: &Owner| {
        t.run(
            &[(r.realm, false), (next, false), (r.governance, false), (owner.record, false), (owner.owner, true)],
            GovernanceInstruction::CreateProposal { name: b"n".to_vec(), description_link: b"l".to_vec(), governing_token_mint: r.mint },
        )
    };
    // The realm asks for 10 tokens to create a proposal.
    assert_eq!(Err(GovernanceError::NotEnoughTokensToCreateProposal), create(&mut t, &poor));
    let o = t.with_deposit(&r, 10, 100);
    create(&mut t, &o).unwrap();
    assert_eq!(Err(GovernanceError::ProposalAlreadyExists), create(&mut t, &o));
    // Votes need a voting proposal.
    assert_eq!(Err(GovernanceError::InvalidStateCannotVote), t.cast_vote(&r, &next, &o.record, &o, Vote::Yes).map(|_| ()));
    let finalize = [(r.realm, false), (r.governance, false), (next, false), (o.record, false), (r.mint, false)];
    assert_eq!(Err(GovernanceError::InvalidStateCannotFinalize), t.run(&finalize, GovernanceInstruction::FinalizeVote));
    // The owner of an outstanding proposal cannot withdraw.
    let keys = [(r.realm, false), (r.holding, false), (o.wallet, false), (o.owner, true), (o.record, false)];
    assert_eq!(
        Err(GovernanceError::AllProposalsMustBeFinalisedToWithdrawGoverningTokens),
        t.run(&keys, GovernanceInstruction::WithdrawGoverningTokens)
    );
    t.run(
        &[(r.realm, false), (r.governance, false), (next, false), (o.record, false), (o.owner, true), (r.mint, false)],
        GovernanceInstruction::SignOffProposal,
    )
    .unwrap();
    assert_eq!(
        Err(GovernanceError::InvalidStateCannotSignOff),
        t.run(
            &[(r.realm, false), (r.governance, false), (next, false), (o.record, false), (o.owner, true), (r.mint, false)],
            GovernanceInstruction::SignOffProposal,
        )
    );
    // Instructions are queued only before voting.
    assert_eq!(Err(GovernanceError::InvalidStateCannotInsertInstruction), insert(&mut t, &r, &o, &next, 0, 10).map(|_| ()));
    // Voting time is 100 from 1000.
    t.now = 1101;
    assert_eq!(Err(GovernanceError::ProposalVotingTimeExpired), t.cast_vote(&r, &next, &o.record, &o, Vote::Yes).map(|_| ()));
}

#[test]
fn refusals_for_signatories() {
    let mut t = Ledger::new();
    let r = t.with_realm(300);
    let o = t.with_deposit(&r, 10, 100);
    let p = draft_proposal(&mut t, &r, &o);
    let signatory = Address::repeat(150);
    let key = get_signatory_record_address(&t.program_id, &p, &signatory).unwrap().0;
    t.add(key, AccountData::Uninitialized);
    let add = |t: &mut Ledger| t.run(&[(p, false), (o.record, false), (o.owner, true), (key, false)], GovernanceInstruction::AddSignatory { signatory });
    add(&mut t).unwrap();
    assert_eq!(Err(GovernanceError::SignatoryAlreadyExists), add(&mut t));
    t.run(&[(p, false), (o.record, false), (o.owner, true), (key, false)], GovernanceInstruction::RemoveSignatory { signatory })
        .unwrap();
    assert_eq!(0, t.proposal(&p).signatories_count);
    t.run(&[(p, false), (o.record, false), (o.owner, true)], GovernanceInstruction::CancelProposal).unwrap();
    assert_eq!(Err(GovernanceError::InvalidStateCannotEditSignatories), add(&mut t));
}

#[test]
fn execute_needs_a_passed_proposal() {
    let mut t = Ledger::new();
    let r = t.with_realm(300);
    let o = t.with_deposit(&r, 10, 100);
    let p = draft_proposal(&mut t, &r, &o);
    let first = insert(&mut t, &r, &o, &p, 0, 10).unwrap();
    assert_eq!(
        Err(GovernanceError::InvalidStateCannotExecuteInstruction),
        t.run(&[(r.governance, false), (p, false), (first, false)], GovernanceInstruction::ExecuteInstruction)
    );
}

#[test]
fn vote_at_end_of_voting_time_is_refused() {
    let mut t = Ledger::new();
    let r = t.with_realm(300);
    let o = t.with_deposit(&r, 10, 100);
    let p = t.with_signed_off_proposal(&r, &o);
    // Voting started at 1000 and lasts 100.
    t.now = 1100;
    assert_eq!(Err(GovernanceError::ProposalVotingTimeExpired), t.cast_vote(&r, &p, &o.record, &o, Vote::Yes).map(|_| ()));
    t.now = 1099;
    t.cast_vote(&r, &p, &o.record, &o, Vote::Yes).unwrap();
    assert_eq!(100, t.proposal(&p).yes_votes_count);
}

#[test]
fn tipping_vote_cannot_resolve_another_owners_proposal() {
    let mut t = Ledger::new();
    let r = t.with_realm(300);
    let o = t.with_deposit(&r, 10, 100);
    let o2 = t.with_deposit(&r, 20, 200);
    let p = t.with_signed_off_proposal(&r, &o);
    // 200 of 300 tips the vote; the voter passes their own record as the owner's.
    let err = t.cast_vote(&r, &p, &o2.record, &o2, Vote::Yes).err().unwrap();
    assert_eq!(GovernanceError::InvalidTokenOwnerRecordForProposal, err);
    assert_eq!(ProposalState::Voting, t.proposal(&p).state);
    t.cast_vote(&r, &p, &o.record, &o2, Vote::Yes).unwrap();
    assert_eq!(ProposalState::Succeeded, t.proposal(&p).state);
    assert_eq!(0, t.record(&o.record).outstanding_proposal_count);
}
