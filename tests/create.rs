use forwarder::accounts::AccountSnapshot;
use forwarder::address::Address;
use forwarder::create::create;
use forwarder::derivation::{derive_forward_address, forward_signer_seeds, validate_forward_address};
use forwarder::errors::{ForwardError, ProgramFailure};
use forwarder::instruction::CreateForwardInstruction;
use forwarder::state::{Forward, RECORD_LEN};
use solana_program::program_pack::Pack;
use solana_program::pubkey::Pubkey;

const FLOOR: u64 = 1_600_000;

fn addr(b: u8) -> Address {
    Address::new([b; 32])
}

fn program() -> Address {
    addr(42)
}

fn snapshot(key: Address, lamports: u64, data: Vec<u8>) -> AccountSnapshot {
    AccountSnapshot { key, owner: addr(0), lamports, is_signer: false, data }
}

fn find_forward(destination: &Address, id: u32) -> (Address, u8) {
    for bump in (0..=255u8).rev() {
        if let Some(a) = derive_forward_address(&program(), destination, id, bump) {
            return (a, bump);
        }
    }
    panic!("no bump gives an address");
}

fn token_account_data() -> Vec<u8> {
    let account = spl_token::state::Account {
        mint: Pubkey::new_from_array([1; 32]),
        owner: Pubkey::new_from_array([2; 32]),
        amount: 5,
        state: spl_token::state::AccountState::Initialized,
        ..Default::default()
    };
    let mut data = vec![0u8; spl_token::state::Account::LEN];
    spl_token::state::Account::pack(account, &mut data).unwrap();
    data
}

/// forward, destination, quarantine, payer, system program
fn accounts(id: u32) -> (Vec<AccountSnapshot>, CreateForwardInstruction) {
    let destination = addr(0xD0);
    let (forward, bump) = find_forward(&destination, id);
    let list = vec![
        snapshot(forward, 0, vec![]),
        snapshot(destination, 10, vec![]),
        snapshot(addr(0xA0), 10, vec![]),
        snapshot(addr(0xB0), 10_000_000, vec![]),
        snapshot(addr(0), 1, vec![]),
    ];
    (list, CreateForwardInstruction { id, bump, authority: addr(0xAA) })
}

#[test]
fn derivation_is_deterministic() {
    let (a, bump) = find_forward(&addr(1), 9);
    let b = derive_forward_address(&program(), &addr(1), 9, bump).unwrap();
    assert!(a == b);
    assert!(validate_forward_address(&program(), &addr(1), 9, bump, &a));
}

#[test]
fn derivation_changes_with_every_input() {
    let (a, bump) = find_forward(&addr(1), 9);
    let perturbed = [
        derive_forward_address(&addr(43), &addr(1), 9, bump),
        derive_forward_address(&program(), &addr(2), 9, bump),
        derive_forward_address(&program(), &addr(1), 10, bump),
        derive_forward_address(&program(), &addr(1), 9, bump.wrapping_sub(1)),
    ];
    for p in perturbed.iter() {
        if let Some(other) = p {
            assert!(!(other == &a));
        }
    }
    assert!(!validate_forward_address(&program(), &addr(1), 10, bump, &a));
}

#[test]
fn derivation_matches_the_runtime_derivation() {
    let (a, bump) = find_forward(&addr(1), 3);
    let seeds = forward_signer_seeds(&addr(1), 3, bump);
    let refs: Vec<&[u8]> = seeds.iter().map(|s| s.as_slice()).collect();
    let expected =
        Pubkey::create_program_address(&refs, &Pubkey::new_from_array(program().bytes)).unwrap();
    assert_eq!(a.to_bytes(), expected.to_bytes());
    assert_eq!(seeds[0], b"forward".to_vec());
    assert_eq!(seeds[2], 3u32.to_le_bytes().to_vec());
    assert_eq!(seeds[3], vec![bump]);
}

#[test]
fn create_returns_allocation_and_record() {
    let (list, instr) = accounts(1);
    let plan = create(&program(), &list, &instr, FLOOR, true).unwrap();
    assert!(plan.forward == list[0].key);
    assert!(plan.payer == list[3].key);
    assert!(plan.owner == program());
    assert_eq!(plan.lamports, FLOOR);
    assert_eq!(plan.space, RECORD_LEN as u64);
    assert_eq!(plan.signer_seeds, forward_signer_seeds(&list[1].key, 1, instr.bump));
    let record = Forward::unpack(&plan.data).unwrap();
    assert_eq!(record.id, 1);
    assert!(record.destination == list[1].key);
    assert!(record.quarantine == list[2].key);
    assert!(record.authority == addr(0xAA));
    assert_eq!(record.bump, instr.bump);
}

#[test]
fn create_twice_fails_with_forward_already_exists() {
    let (mut list, instr) = accounts(1);
    let plan = create(&program(), &list, &instr, FLOOR, true).unwrap();
    list[0].lamports = plan.lamports;
    list[0].owner = plan.owner;
    list[0].data = plan.data.clone();
    assert_eq!(
        create(&program(), &list, &instr, FLOOR, true).err(),
        Some(ProgramFailure::Forward(ForwardError::ForwardAlreadyExists))
    );
}

#[test]
fn create_refuses_funded_forward_address() {
    let (mut list, instr) = accounts(1);
    list[0].lamports = 1;
    assert_eq!(
        create(&program(), &list, &instr, FLOOR, true).err(),
        Some(ProgramFailure::Forward(ForwardError::ForwardAlreadyExists))
    );
}

#[test]
fn create_needs_five_accounts() {
    let (list, instr) = accounts(1);
    assert_eq!(
        create(&program(), &list[..4], &instr, FLOOR, true).err(),
        Some(ProgramFailure::NotEnoughAccountKeys)
    );
}

#[test]
fn create_needs_the_system_program() {
    let (mut list, instr) = accounts(1);
    list[4].key = addr(1);
    assert_eq!(
        create(&program(), &list, &instr, FLOOR, true).err(),
        Some(ProgramFailure::IncorrectProgramId)
    );
}

#[test]
fn create_checks_initialised_addresses_when_asked() {
    let (mut list, instr) = accounts(1);
    list[1].lamports = 0;
    assert_eq!(
        create(&program(), &list, &instr, FLOOR, true).err(),
        Some(ProgramFailure::Forward(ForwardError::DestinationNotInitialised))
    );
    assert!(create(&program(), &list, &instr, FLOOR, false).is_ok());
    list[1].lamports = 10;
    list[2].lamports = 0;
    assert_eq!(
        create(&program(), &list, &instr, FLOOR, true).err(),
        Some(ProgramFailure::Forward(ForwardError::QuarantineNotInitialised))
    );
}

#[test]
fn create_refuses_token_accounts_as_payout_addresses() {
    let (mut list, instr) = accounts(1);
    list[1].data = token_account_data();
    assert_eq!(
        create(&program(), &list, &instr, FLOOR, true).err(),
        Some(ProgramFailure::Forward(ForwardError::DestinationIsAnAta))
    );
    list[1].data = vec![];
    list[2].data = token_account_data();
    assert_eq!(
        create(&program(), &list, &instr, FLOOR, true).err(),
        Some(ProgramFailure::Forward(ForwardError::QuarantineIsAnAta))
    );
}

#[test]
fn create_refuses_wrong_forward_address() {
    let (mut list, mut instr) = accounts(1);
    instr.id = 2;
    assert_eq!(
        create(&program(), &list, &instr, FLOOR, true).err(),
        Some(ProgramFailure::Forward(ForwardError::InvalidForwardAddress))
    );
    instr.id = 1;
    list[0].key = addr(0x77);
    assert_eq!(
        create(&program(), &list, &instr, FLOOR, true).err(),
        Some(ProgramFailure::Forward(ForwardError::InvalidForwardAddress))
    );
}
