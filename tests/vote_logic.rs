use spl_governance::address::{get_proposal_address, get_realm_address, u16_le_bytes, u32_le_bytes, Address};
use spl_governance::error::GovernanceError;
use spl_governance::proposal::{get_final_vote_state, get_max_vote_weight, get_tipped_vote_state};
use spl_governance::state::{MintMaxVoteWeightSource, ProposalState, Realm, RealmConfig, SUPPLY_FRACTION_BASE};
use spl_governance::token_owner_record::{assert_is_valid_governance_config, assert_valid_realm_config_args};
use spl_governance::state::RealmConfigArgs;
use spl_governance::state::{GovernanceConfig, VoteWeightSource};

fn realm(source: MintMaxVoteWeightSource, council: Option<Address>) -> Realm {
    Realm {
        community_mint: Address::repeat(1),
        authority: None,
        name: b"r".to_vec(),
        config: RealmConfig {
            council_mint: council,
            community_mint_max_vote_weight_source: source,
            min_community_tokens_to_create_governance: 0,
        },
    }
}

#[test]
fn tip_needs_yes_strictly_above_threshold() {
    // Supply 300, threshold 50%: 100 yes does not tip, 200 yes does.
    assert_eq!(None, get_tipped_vote_state(100, 0, 300, 50));
    assert_eq!(Some(ProposalState::Succeeded), get_tipped_vote_state(200, 0, 300, 50));
    // Exactly at the threshold is not above it.
    assert_eq!(None, get_tipped_vote_state(150, 0, 300, 50));
    assert_eq!(Some(ProposalState::Succeeded), get_tipped_vote_state(151, 0, 300, 50));
}

#[test]
fn tip_defeats_once_threshold_is_out_of_reach() {
    // With 150 against, at most 150 can still vote yes, which is not above 150.
    assert_eq!(Some(ProposalState::Defeated), get_tipped_vote_state(0, 150, 300, 50));
    assert_eq!(None, get_tipped_vote_state(0, 149, 300, 50));
    // 60% of 300 is 180: 120 against leaves 180, which is not above it.
    assert_eq!(Some(ProposalState::Defeated), get_tipped_vote_state(0, 120, 300, 60));
    assert_eq!(None, get_tipped_vote_state(0, 119, 300, 60));
}

#[test]
fn final_state_compares_with_threshold() {
    assert_eq!(ProposalState::Succeeded, get_final_vote_state(151, 300, 50));
    assert_eq!(ProposalState::Defeated, get_final_vote_state(150, 300, 50));
    assert_eq!(ProposalState::Defeated, get_final_vote_state(0, 0, 50));
    assert_eq!(ProposalState::Succeeded, get_final_vote_state(u64::MAX, u64::MAX, 99));
}

#[test]
fn max_vote_weight_from_source() {
    let mint = Address::repeat(1);
    let full = realm(MintMaxVoteWeightSource::SupplyFraction(SUPPLY_FRACTION_BASE), None);
    assert_eq!(Ok(300), get_max_vote_weight(&full, &mint, 300));
    let half = realm(MintMaxVoteWeightSource::SupplyFraction(SUPPLY_FRACTION_BASE / 2), None);
    assert_eq!(Ok(150), get_max_vote_weight(&half, &mint, 300));
    assert_eq!(Ok(u64::MAX / 2), get_max_vote_weight(&half, &mint, u64::MAX));
    let absolute = realm(MintMaxVoteWeightSource::Absolute(77), None);
    assert_eq!(Ok(77), get_max_vote_weight(&absolute, &mint, 300));
    let too_much = realm(MintMaxVoteWeightSource::SupplyFraction(SUPPLY_FRACTION_BASE + 1), None);
    assert_eq!(Err(GovernanceError::InvalidMaxVoteWeightSupplyFraction), get_max_vote_weight(&too_much, &mint, 300));
    let council = Address::repeat(2);
    let with_council = realm(MintMaxVoteWeightSource::SupplyFraction(1), Some(council));
    assert_eq!(Ok(40), get_max_vote_weight(&with_council, &council, 40));
}

#[test]
fn governance_threshold_bounds() {
    let mut config = GovernanceConfig {
        vote_threshold_percentage: 0,
        vote_weight_source: VoteWeightSource::Deposit,
        min_instruction_hold_up_time: 0,
        max_voting_time: 0,
        proposal_cool_off_time: 0,
    };
    assert_eq!(Err(GovernanceError::InvalidVoteThresholdPercentage), assert_is_valid_governance_config(&config));
    config.vote_threshold_percentage = 1;
    assert_eq!(Ok(()), assert_is_valid_governance_config(&config));
    config.vote_threshold_percentage = 100;
    assert_eq!(Ok(()), assert_is_valid_governance_config(&config));
    config.vote_threshold_percentage = 101;
    assert_eq!(Err(GovernanceError::InvalidVoteThresholdPercentage), assert_is_valid_governance_config(&config));
}

#[test]
fn little_endian_seeds() {
    assert_eq!(vec![4u8, 3, 2, 1], u32_le_bytes(0x0102_0304));
    assert_eq!(vec![0xffu8, 0xff, 0xff, 0xff], u32_le_bytes(u32::MAX));
    assert_eq!(vec![0x34u8, 0x12], u16_le_bytes(0x1234));
}

#[test]
fn proposal_address_is_deterministic() {
    let program_id = Address::repeat(200);
    let governance = Address::repeat(5);
    let mint = Address::repeat(6);
    let a = get_proposal_address(&program_id, &governance, &mint, 3).unwrap();
    let b = get_proposal_address(&program_id, &governance, &mint, 3).unwrap();
    assert_eq!(a.0, b.0);
    assert_eq!(a.1, b.1);
    let c = get_proposal_address(&program_id, &governance, &mint, 4).unwrap();
    assert_ne!(a.0, c.0);
    assert_ne!(a.0, program_id);
    assert_ne!(a.0, governance);
}

#[test]
fn realm_name_longer_than_a_seed_has_no_address() {
    let program_id = Address::repeat(200);
    assert!(get_realm_address(&program_id, &vec![b'a'; 33]).is_none());
    let name = vec![b'a'; 32];
    let r = get_realm_address(&program_id, &name).unwrap();
    assert_ne!(r.0, program_id);
}

#[test]
fn zero_supply_fraction_is_refused() {
    let args = |f: u64| RealmConfigArgs {
        use_council_mint: false,
        min_community_tokens_to_create_governance: 0,
        community_mint_max_vote_weight_source: MintMaxVoteWeightSource::SupplyFraction(f),
    };
    assert_eq!(Err(GovernanceError::InvalidMaxVoteWeightSupplyFraction), assert_valid_realm_config_args(&args(0)));
    assert_eq!(Ok(()), assert_valid_realm_config_args(&args(1)));
    assert_eq!(Ok(()), assert_valid_realm_config_args(&args(SUPPLY_FRACTION_BASE)));
    assert_eq!(Err(GovernanceError::InvalidMaxVoteWeightSupplyFraction), assert_valid_realm_config_args(&args(SUPPLY_FRACTION_BASE + 1)));
    let zero = realm(MintMaxVoteWeightSource::SupplyFraction(0), None);
    assert_eq!(Err(GovernanceError::InvalidMaxVoteWeightSupplyFraction), get_max_vote_weight(&zero, &Address::repeat(1), 300));
}
