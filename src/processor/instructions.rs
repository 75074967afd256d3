//! The queue of instructions attached to a proposal and their execution.

use vstd::prelude::*;
use crate::error::GovernanceError;
use crate::address::{
    Address, derived_address, get_proposal_instruction_address, is_derived, key_matches,
    proposal_instruction_seeds,
};
use crate::processor::{
    created, get_proposal_for_governance, get_proposal_owner_record, proposal_for_governance_check,
    proposal_owner_record_check, with_data,
};
use crate::state::{
    AccountMetaData,AccountData, AccountInfo, Proposal, ProposalInstruction, ProposalState};
use crate::validation::{
    get_governance_data, get_proposal_instruction_data_for_proposal, governance_check,
    proposal_instruction_check,
};

verus! {

/// The proposal after one more of its instructions ran at `now`: Executing,
/// or Completed once every queued instruction has run.
pub open spec fn instruction_executed(p: Proposal, now: i64) -> Proposal {
    let count = (p.instructions_executed_count + 1) as u16;
    let started = if p.state == ProposalState::Succeeded {
        Proposal { state: ProposalState::Executing, executing_at: Some(now), ..p }
    } else {
        p
    };
    if count == p.instructions_count {
        Proposal { instructions_executed_count: count, state: ProposalState::Completed, closed_at: Some(now), ..started }
    } else {
        Proposal { instructions_executed_count: count, ..started }
    }
}

/// What executing a queued instruction at `now` does, over the accounts
/// [governance, proposal, proposal instruction]: the instruction is stamped as
/// run and the proposal counts it. Running the stored instruction itself is the
/// caller's part, within the same transaction.
pub open spec fn execute_instruction_outcome(program_id: Address, accs: Seq<AccountInfo>, now: i64) -> Result<Seq<AccountInfo>, GovernanceError> {
    let pid = program_id@;
    if accs.len() < 3 {
        Err(GovernanceError::NotEnoughAccountKeys)
    } else {
        match governance_check(pid, accs[0]) {
            Err(e) => Err(e),
            Ok(_) => match proposal_for_governance_check(pid, accs[1], accs[0].key@) {
                Err(e) => Err(e),
                Ok(p) => match proposal_instruction_check(pid, accs[2], accs[1].key@) {
                    Err(e) => Err(e),
                    Ok(i) => if p.execute_check(i, now) is Err {
                        Err(p.execute_check(i, now)->Err_0)
                    } else if p.instructions_executed_count == u16::MAX {
                        Err(GovernanceError::ArithmeticOverflow)
                    } else {
                        Ok(accs.update(1, with_data(accs[1], AccountData::Proposal(instruction_executed(p, now))))
                            .update(2, with_data(accs[2], AccountData::ProposalInstruction(
                                ProposalInstruction { executed_at: Some(now), ..i }))))
                    },
                },
            },
        }
    }
}

/// Marks a queued instruction of a passed proposal as run at `now`, once its
/// hold-up time after the vote has elapsed; the caller then runs the stored
/// instruction in the same transaction. The accounts are [governance,
/// proposal, proposal instruction].
pub fn process_execute_instruction(program_id: &Address, accounts: &mut Vec<AccountInfo>, now: i64) -> (r: Result<(), GovernanceError>)
    ensures
        match r {
            Ok(()) => execute_instruction_outcome(*program_id, old(accounts)@, now) == Ok::<Seq<AccountInfo>, GovernanceError>(final(accounts)@),
            Err(e) => execute_instruction_outcome(*program_id, old(accounts)@, now) == Err::<Seq<AccountInfo>, GovernanceError>(e)
                && final(accounts)@ == old(accounts)@,
        },
{
    if accounts.len() < 3 {
        return Err(GovernanceError::NotEnoughAccountKeys);
    }
    let governance_key = accounts[0].key;
    let proposal_key = accounts[1].key;
    let _g = get_governance_data(program_id, &accounts[0])?;
    let p = get_proposal_for_governance(program_id, &accounts[1], &governance_key)?;
    let i = get_proposal_instruction_data_for_proposal(program_id, &accounts[2], &proposal_key)?;
    p.assert_can_execute_instruction(i, now)?;
    if p.instructions_executed_count == u16::MAX {
        return Err(GovernanceError::ArithmeticOverflow);
    }
    // All checks are done: the accounts are written from here on.
    match &mut accounts[1].data {
        AccountData::Proposal(pm) => {
            if pm.state == ProposalState::Succeeded {
                pm.state = ProposalState::Executing;
                pm.executing_at = Some(now);
            }
            pm.instructions_executed_count = pm.instructions_executed_count + 1;
            if pm.instructions_executed_count == pm.instructions_count {
                pm.state = ProposalState::Completed;
                pm.closed_at = Some(now);
            }
        },
        _ => {},
    }
    match &mut accounts[2].data {
        AccountData::ProposalInstruction(im) => {
            im.executed_at = Some(now);
        },
        _ => {},
    }
    Ok(())
}

/// Whether the accounts of an execution are [governance, proposal, proposal
/// instruction] and belong together: each passes its owner, kind,
/// back-reference and address checks.
pub open spec fn execute_accounts_valid(program_id: Address, accs: Seq<AccountInfo>) -> bool {
    let pid = program_id@;
    &&& accs.len() >= 3
    &&& governance_check(pid, accs[0]) is Ok
    &&& proposal_for_governance_check(pid, accs[1], accs[0].key@) is Ok
    &&& proposal_instruction_check(pid, accs[2], accs[1].key@) is Ok
}

/// The timing gate of an instruction of a passed proposal that has not run:
/// before its hold-up time after the vote has elapsed it is refused with
/// CannotExecuteInstructionWithinHoldUpTime; from then on it succeeds, stamps
/// the instruction as run at `now`, counts it, and leaves the proposal
/// Completed once every queued instruction has run, else Executing (or still
/// ExecutingWithErrors after a flagged failure).
pub proof fn lemma_execute_timing_gate(program_id: Address, accs: Seq<AccountInfo>, now: i64)
    requires
        execute_accounts_valid(program_id, accs),
        ({
            let p = accs[1].data->Proposal_0;
            let i = accs[2].data->ProposalInstruction_0;
            &&& p.state == ProposalState::Succeeded || p.state == ProposalState::Executing
                || p.state == ProposalState::ExecutingWithErrors
            &&& p.voting_completed_at is Some
            &&& i.executed_at is None
            &&& p.instructions_executed_count < u16::MAX
        }),
    ensures
        ({
            let p = accs[1].data->Proposal_0;
            let i = accs[2].data->ProposalInstruction_0;
            let t = p.voting_completed_at->Some_0;
            let r = execute_instruction_outcome(program_id, accs, now);
            let count = p.instructions_executed_count + 1;
            &&& now < t + i.hold_up_time ==> r == Err::<Seq<AccountInfo>, GovernanceError>(
                GovernanceError::CannotExecuteInstructionWithinHoldUpTime)
            &&& now >= t + i.hold_up_time ==> {
                &&& r is Ok
                &&& r->Ok_0.len() == accs.len()
                &&& r->Ok_0[2].data is ProposalInstruction
                &&& r->Ok_0[2].data->ProposalInstruction_0.executed_at == Some(now)
                &&& r->Ok_0[1].data is Proposal
                &&& r->Ok_0[1].data->Proposal_0.instructions_executed_count == count
                &&& r->Ok_0[1].data->Proposal_0.state == if count == p.instructions_count {
                    ProposalState::Completed
                } else if p.state == ProposalState::ExecutingWithErrors {
                    ProposalState::ExecutingWithErrors
                } else {
                    ProposalState::Executing
                }
            }
        }),
{
}

/// What queueing an instruction on a proposal does, over the accounts
/// [governance, proposal, proposal owner record, owner's authority,
/// proposal instruction]: the instruction is created at the next index, which
/// is never reused, with its own hold-up time.
pub open spec fn insert_instruction_outcome(
    program_id: Address,
    accs: Seq<AccountInfo>,
    index: u16,
    hold_up_time: u32,
    target: Address,
    instruction_accounts: Vec<AccountMetaData>,
    data: Vec<u8>,
) -> Result<Seq<AccountInfo>, GovernanceError> {
    let pid = program_id@;
    if accs.len() < 5 {
        Err(GovernanceError::NotEnoughAccountKeys)
    } else {
        match governance_check(pid, accs[0]) {
            Err(e) => Err(e),
            Ok(g) => match proposal_for_governance_check(pid, accs[1], accs[0].key@) {
                Err(e) => Err(e),
                Ok(p) => if !(p.state == ProposalState::Draft || p.state == ProposalState::SigningOff) {
                    Err(GovernanceError::InvalidStateCannotInsertInstruction)
                } else {
                    match proposal_owner_record_check(pid, accs[2], p) {
                        Err(e) => Err(e),
                        Ok(t) => if !t.owner_or_delegate_signed(accs[3]) {
                            Err(GovernanceError::GoverningTokenOwnerOrDelegateMustSign)
                        } else if index != p.instructions_next_index {
                            Err(GovernanceError::InvalidInstructionIndex)
                        } else if hold_up_time < g.config.min_instruction_hold_up_time {
                            Err(GovernanceError::InstructionHoldUpTimeBelowRequiredMin)
                        } else if !(accs[4].data is Uninitialized)
                            || !is_derived(accs[4].key@, derived_address(proposal_instruction_seeds(accs[1].key@, index), pid)) {
                            Err(GovernanceError::InvalidAccountAddress)
                        } else if p.instructions_next_index == u16::MAX || p.instructions_count == u16::MAX {
                            Err(GovernanceError::ArithmeticOverflow)
                        } else {
                            Ok(accs.update(1, with_data(accs[1], AccountData::Proposal(Proposal {
                                    instructions_count: (p.instructions_count + 1) as u16,
                                    instructions_next_index: (p.instructions_next_index + 1) as u16,
                                    ..p
                                })))
                                .update(4, created(accs[4], program_id, AccountData::ProposalInstruction(ProposalInstruction {
                                    proposal: accs[1].key,
                                    instruction_index: index,
                                    hold_up_time,
                                    program_id: target,
                                    accounts: instruction_accounts,
                                    data,
                                    executed_at: None,
                                }))))
                        },
                    }
                },
            },
        }
    }
}

/// Queues an instruction for `target` on a proposal in Draft or SigningOff, at
/// the proposal's next index. The accounts are [governance, proposal, proposal
/// owner record, owner's authority, proposal instruction].
pub fn process_insert_instruction(
    program_id: &Address,
    accounts: &mut Vec<AccountInfo>,
    index: u16,
    hold_up_time: u32,
    target: Address,
    instruction_accounts: Vec<AccountMetaData>,
    data: Vec<u8>,
) -> (r: Result<(), GovernanceError>)
    ensures
        match r {
            Ok(()) => insert_instruction_outcome(*program_id, old(accounts)@, index, hold_up_time, target, instruction_accounts, data)
                == Ok::<Seq<AccountInfo>, GovernanceError>(final(accounts)@),
            Err(e) => insert_instruction_outcome(*program_id, old(accounts)@, index, hold_up_time, target, instruction_accounts, data)
                == Err::<Seq<AccountInfo>, GovernanceError>(e) && final(accounts)@ == old(accounts)@,
        },
{
    if accounts.len() < 5 {
        return Err(GovernanceError::NotEnoughAccountKeys);
    }
    let governance_key = accounts[0].key;
    let proposal_key = accounts[1].key;
    let g = get_governance_data(program_id, &accounts[0])?;
    let min_hold = g.config.min_instruction_hold_up_time;
    let p = get_proposal_for_governance(program_id, &accounts[1], &governance_key)?;
    if !(p.state == ProposalState::Draft || p.state == ProposalState::SigningOff) {
        return Err(GovernanceError::InvalidStateCannotInsertInstruction);
    }
    let t = get_proposal_owner_record(program_id, &accounts[2], p)?;
    t.assert_token_owner_or_delegate_is_signer(&accounts[3])?;
    if index != p.instructions_next_index {
        return Err(GovernanceError::InvalidInstructionIndex);
    }
    if hold_up_time < min_hold {
        return Err(GovernanceError::InstructionHoldUpTimeBelowRequiredMin);
    }
    if !accounts[4].data_is_empty() {
        return Err(GovernanceError::InvalidAccountAddress);
    }
    let d = get_proposal_instruction_address(program_id, &proposal_key, index);
    if !key_matches(&accounts[4].key, &d) {
        return Err(GovernanceError::InvalidAccountAddress);
    }
    if p.instructions_next_index == u16::MAX || p.instructions_count == u16::MAX {
        return Err(GovernanceError::ArithmeticOverflow);
    }
    // All checks are done: the accounts are written from here on.
    match &mut accounts[1].data {
        AccountData::Proposal(pm) => {
            pm.instructions_count = pm.instructions_count + 1;
            pm.instructions_next_index = pm.instructions_next_index + 1;
        },
        _ => {},
    }
    let acc = &mut accounts[4];
    acc.owner = *program_id;
    acc.data = AccountData::ProposalInstruction(ProposalInstruction {
        proposal: proposal_key,
        instruction_index: index,
        hold_up_time,
        program_id: target,
        accounts: instruction_accounts,
        data,
        executed_at: None,
    });
    Ok(())
}

/// What flagging an instruction that failed to run does, over the accounts
/// [proposal, proposal owner record, owner's authority, proposal instruction]:
/// a proposal that is executing, or has passed, turns ExecutingWithErrors.
pub open spec fn flag_instruction_error_outcome(program_id: Address, accs: Seq<AccountInfo>) -> Result<Seq<AccountInfo>, GovernanceError> {
    let pid = program_id@;
    if accs.len() < 4 {
        Err(GovernanceError::NotEnoughAccountKeys)
    } else if accs[0].owner@ != pid {
        Err(GovernanceError::InvalidAccountOwner)
    } else if !(accs[0].data is Proposal) {
        Err(GovernanceError::InvalidAccountType)
    } else {
        let p = accs[0].data->Proposal_0;
        match proposal_owner_record_check(pid, accs[1], p) {
            Err(e) => Err(e),
            Ok(t) => if !t.owner_or_delegate_signed(accs[2]) {
                Err(GovernanceError::GoverningTokenOwnerOrDelegateMustSign)
            } else {
                match proposal_instruction_check(pid, accs[3], accs[0].key@) {
                    Err(e) => Err(e),
                    Ok(i) => if !(p.state == ProposalState::Succeeded || p.state == ProposalState::Executing
                        || p.state == ProposalState::ExecutingWithErrors) {
                        Err(GovernanceError::InvalidStateCannotExecuteInstruction)
                    } else if i.executed_at is Some {
                        Err(GovernanceError::InstructionAlreadyExecuted)
                    } else {
                        Ok(accs.update(0, with_data(accs[0], AccountData::Proposal(
                            Proposal { state: ProposalState::ExecutingWithErrors, ..p }))))
                    },
                }
            },
        }
    }
}

/// Marks a proposal as ExecutingWithErrors after one of its instructions failed
/// to run; nothing already done is undone. The accounts are [proposal,
/// proposal owner record, owner's authority, proposal instruction].
pub fn process_flag_instruction_error(program_id: &Address, accounts: &mut Vec<AccountInfo>) -> (r: Result<(), GovernanceError>)
    ensures
        match r {
            Ok(()) => flag_instruction_error_outcome(*program_id, old(accounts)@) == Ok::<Seq<AccountInfo>, GovernanceError>(final(accounts)@),
            Err(e) => flag_instruction_error_outcome(*program_id, old(accounts)@) == Err::<Seq<AccountInfo>, GovernanceError>(e)
                && final(accounts)@ == old(accounts)@,
        },
{
    if accounts.len() < 4 {
        return Err(GovernanceError::NotEnoughAccountKeys);
    }
    if !accounts[0].owner.same(program_id) {
        return Err(GovernanceError::InvalidAccountOwner);
    }
    let proposal_key = accounts[0].key;
    let p = match &accounts[0].data {
        AccountData::Proposal(p) => p,
        _ => {
            return Err(GovernanceError::InvalidAccountType);
        },
    };
    let t = get_proposal_owner_record(program_id, &accounts[1], p)?;
    t.assert_token_owner_or_delegate_is_signer(&accounts[2])?;
    let i = get_proposal_instruction_data_for_proposal(program_id, &accounts[3], &proposal_key)?;
    if !(p.state == ProposalState::Succeeded || p.state == ProposalState::Executing
        || p.state == ProposalState::ExecutingWithErrors) {
        return Err(GovernanceError::InvalidStateCannotExecuteInstruction);
    }
    if i.executed_at.is_some() {
        return Err(GovernanceError::InstructionAlreadyExecuted);
    }
    match &mut accounts[0].data {
        AccountData::Proposal(pm) => {
            pm.state = ProposalState::ExecutingWithErrors;
        },
        _ => {},
    }
    Ok(())
}

/// What removing a queued instruction does, over the accounts [proposal,
/// proposal owner record, owner's authority, proposal instruction]: the
/// instruction is deleted and the proposal counts one fewer; its index is not
/// given out again.
pub open spec fn remove_instruction_outcome(program_id: Address, accs: Seq<AccountInfo>) -> Result<Seq<AccountInfo>, GovernanceError> {
    let pid = program_id@;
    if accs.len() < 4 {
        Err(GovernanceError::NotEnoughAccountKeys)
    } else if accs[0].owner@ != pid {
        Err(GovernanceError::InvalidAccountOwner)
    } else if !(accs[0].data is Proposal) {
        Err(GovernanceError::InvalidAccountType)
    } else {
        let p = accs[0].data->Proposal_0;
        if !(p.state == ProposalState::Draft || p.state == ProposalState::SigningOff) {
            Err(GovernanceError::InvalidStateCannotRemoveInstruction)
        } else {
            match proposal_owner_record_check(pid, accs[1], p) {
                Err(e) => Err(e),
                Ok(t) => if !t.owner_or_delegate_signed(accs[2]) {
                    Err(GovernanceError::GoverningTokenOwnerOrDelegateMustSign)
                } else {
                    match proposal_instruction_check(pid, accs[3], accs[0].key@) {
                        Err(e) => Err(e),
                        Ok(_) => if p.instructions_count == 0 {
                            Err(GovernanceError::ArithmeticOverflow)
                        } else {
                            Ok(accs.update(0, with_data(accs[0], AccountData::Proposal(
                                    Proposal { instructions_count: (p.instructions_count - 1) as u16, ..p })))
                                .update(3, with_data(accs[3], AccountData::Uninitialized)))
                        },
                    }
                },
            }
        }
    }
}

/// Removes a queued instruction from a proposal in Draft or SigningOff. The
/// accounts are [proposal, proposal owner record, owner's authority, proposal
/// instruction].
pub fn process_remove_instruction(program_id: &Address, accounts: &mut Vec<AccountInfo>) -> (r: Result<(), GovernanceError>)
    ensures
        match r {
            Ok(()) => remove_instruction_outcome(*program_id, old(accounts)@) == Ok::<Seq<AccountInfo>, GovernanceError>(final(accounts)@),
            Err(e) => remove_instruction_outcome(*program_id, old(accounts)@) == Err::<Seq<AccountInfo>, GovernanceError>(e)
                && final(accounts)@ == old(accounts)@,
        },
{
    if accounts.len() < 4 {
        return Err(GovernanceError::NotEnoughAccountKeys);
    }
    if !accounts[0].owner.same(program_id) {
        return Err(GovernanceError::InvalidAccountOwner);
    }
    let proposal_key = accounts[0].key;
    let p = match &accounts[0].data {
        AccountData::Proposal(p) => p,
        _ => {
            return Err(GovernanceError::InvalidAccountType);
        },
    };
    if !(p.state == ProposalState::Draft || p.state == ProposalState::SigningOff) {
        return Err(GovernanceError::InvalidStateCannotRemoveInstruction);
    }
    let t = get_proposal_owner_record(program_id, &accounts[1], p)?;
    t.assert_token_owner_or_delegate_is_signer(&accounts[2])?;
    let _i = get_proposal_instruction_data_for_proposal(program_id, &accounts[3], &proposal_key)?;
    if p.instructions_count == 0 {
        return Err(GovernanceError::ArithmeticOverflow);
    }
    // All checks are done: the accounts are written from here on.
    match &mut accounts[0].data {
        AccountData::Proposal(pm) => {
            pm.instructions_count = pm.instructions_count - 1;
        },
        _ => {},
    }
    let acc = &mut accounts[3];
    acc.data = AccountData::Uninitialized;
    Ok(())
}

} // verus!
