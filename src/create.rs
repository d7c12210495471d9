use crate::accounts::AccountSnapshot;
use crate::address::{is_system_program, system_program_id, Address};
use crate::derivation::{forward_seeds, forward_signer_seeds, validate_forward_address, forward_address};
use crate::errors::{ForwardError, ProgramFailure};
use crate::instruction::CreateForwardInstruction;
use crate::state::{decode_record, encode_record, Forward, ForwardModel, RECORD_LEN};
use crate::token_account::{is_token_account, token_account_amount};
use vstd::prelude::*;

verus! {

/// How the forward account is to be allocated and what it is to hold.
#[derive(Debug, Clone)]
pub struct CreatePlan {
    /// Who funds the allocation.
    pub payer: Address,
    /// The forward account to allocate.
    pub forward: Address,
    /// The balance it is funded with: the reservation floor of its size.
    pub lamports: u64,
    /// Its storage size in bytes.
    pub space: u64,
    /// The program that is to own it.
    pub owner: Address,
    /// The seeds that let the program sign for the new address.
    pub signer_seeds: Vec<Vec<u8>>,
    /// The record to write into it.
    pub data: Vec<u8>,
}

/// The record that a creation writes.
pub open spec fn created_record(
    accounts: Seq<AccountSnapshot>,
    instr: CreateForwardInstruction,
) -> ForwardModel {
    ForwardModel {
        id: instr.id,
        destination: accounts[1].key@,
        quarantine: accounts[2].key@,
        authority: instr.authority@,
        bump: instr.bump,
    }
}

/// The first precondition of a creation that fails, in the order checked;
/// `None` when all hold. The accounts are: forward, destination, quarantine,
/// payer, system program.
pub open spec fn create_failure(
    program_id: Seq<u8>,
    accounts: Seq<AccountSnapshot>,
    instr: CreateForwardInstruction,
    require_initialised: bool,
) -> Option<ProgramFailure> {
    if accounts.len() < 5 {
        Some(ProgramFailure::NotEnoughAccountKeys)
    } else if accounts[4].key@ != system_program_id() {
        Some(ProgramFailure::IncorrectProgramId)
    } else if require_initialised && accounts[1].lamports == 0 {
        Some(ProgramFailure::Forward(ForwardError::DestinationNotInitialised))
    } else if require_initialised && accounts[2].lamports == 0 {
        Some(ProgramFailure::Forward(ForwardError::QuarantineNotInitialised))
    } else if !(accounts[0].lamports == 0 && decode_record(accounts[0].data@) is None) {
        Some(ProgramFailure::Forward(ForwardError::ForwardAlreadyExists))
    } else if token_account_amount(accounts[1].data@) is Ok {
        Some(ProgramFailure::Forward(ForwardError::DestinationIsAnAta))
    } else if token_account_amount(accounts[2].data@) is Ok {
        Some(ProgramFailure::Forward(ForwardError::QuarantineIsAnAta))
    } else if forward_address(program_id, accounts[1].key@, instr.id, instr.bump) != Some(
        accounts[0].key@,
    ) {
        Some(ProgramFailure::Forward(ForwardError::InvalidForwardAddress))
    } else {
        None
    }
}

/// Checks the preconditions of creating a forward account and, when all hold,
/// returns the allocation to perform: `floor` lamports, the record's size,
/// owned by `program_id`, signed for by the forward seeds, holding the record.
/// `require_initialised` also asks that destination and quarantine hold a
/// balance.
pub fn create(
    program_id: &Address,
    accounts: &[AccountSnapshot],
    instr: &CreateForwardInstruction,
    floor: u64,
    require_initialised: bool,
) -> (r: Result<CreatePlan, ProgramFailure>)
    ensures
        match create_failure(program_id@, accounts@, *instr, require_initialised) {
            Some(e) => r == Err::<CreatePlan, ProgramFailure>(e),
            None => r is Ok,
        },
        r is Ok ==> ({
            let p = r->Ok_0;
            &&& p.payer == accounts@[3].key
            &&& p.forward == accounts@[0].key
            &&& p.lamports == floor
            &&& p.space == RECORD_LEN
            &&& p.owner == *program_id
            &&& p.signer_seeds.deep_view() == forward_seeds(
                accounts@[1].key@,
                instr.id,
                instr.bump,
            )
            &&& p.data@ == encode_record(created_record(accounts@, *instr))
        }),
{
    if accounts.len() < 5 {
        return Err(ProgramFailure::NotEnoughAccountKeys);
    }
    let forward_account = &accounts[0];
    let destination_account = &accounts[1];
    let quarantine_account = &accounts[2];
    let payer = &accounts[3];
    let system_account = &accounts[4];

    if !is_system_program(&system_account.key) {
        return Err(ProgramFailure::IncorrectProgramId);
    }
    if require_initialised && destination_account.lamports == 0 {
        return Err(ProgramFailure::Forward(ForwardError::DestinationNotInitialised));
    }
    if require_initialised && quarantine_account.lamports == 0 {
        return Err(ProgramFailure::Forward(ForwardError::QuarantineNotInitialised));
    }
    let unrecorded = Forward::unpack(forward_account.data.as_slice()).is_err();
    if !(forward_account.lamports == 0 && unrecorded) {
        return Err(ProgramFailure::Forward(ForwardError::ForwardAlreadyExists));
    }
    if is_token_account(destination_account.data.as_slice()) {
        return Err(ProgramFailure::Forward(ForwardError::DestinationIsAnAta));
    }
    if is_token_account(quarantine_account.data.as_slice()) {
        return Err(ProgramFailure::Forward(ForwardError::QuarantineIsAnAta));
    }
    if !validate_forward_address(
        program_id,
        &destination_account.key,
        instr.id,
        instr.bump,
        &forward_account.key,
    ) {
        return Err(ProgramFailure::Forward(ForwardError::InvalidForwardAddress));
    }

    let record = Forward::new(
        instr.id,
        destination_account.key,
        quarantine_account.key,
        instr.authority,
        instr.bump,
    );
    let data = record.pack();
    let signer_seeds = forward_signer_seeds(&destination_account.key, instr.id, instr.bump);
    Ok(
        CreatePlan {
            payer: payer.key,
            forward: forward_account.key,
            lamports: floor,
            space: RECORD_LEN as u64,
            owner: *program_id,
            signer_seeds,
            data,
        },
    )
}

/// Creating a forward account where one was already created is refused with
/// `ForwardAlreadyExists`: once the record is written, the same call fails.
pub proof fn lemma_create_twice_rejected(
    program_id: Seq<u8>,
    accounts: Seq<AccountSnapshot>,
    instr: CreateForwardInstruction,
    require_initialised: bool,
    created: AccountSnapshot,
)
    requires
        create_failure(program_id, accounts, instr, require_initialised) is None,
        created.key == accounts[0].key,
        created.data@ == encode_record(created_record(accounts, instr)),
    ensures
        create_failure(program_id, accounts.update(0, created), instr, require_initialised)
            == Some(ProgramFailure::Forward(ForwardError::ForwardAlreadyExists)),
{
    crate::state::lemma_record_round_trip(created_record(accounts, instr));
    let again = accounts.update(0, created);
    assert(again[1] == accounts[1]);
    assert(again[2] == accounts[2]);
    assert(again[4] == accounts[4]);
}

} // verus!
