use forwarder::address::Address;
use forwarder::errors::{assert_that, ForwardError, ProgramFailure};
use forwarder::instruction::{CreateForwardInstruction, ForwardInstruction};
use forwarder::state::{Forward, RECORD_LEN, RECORD_VERSION};

fn addr(b: u8) -> Address {
    Address::new([b; 32])
}

#[test]
fn record_layout_is_version_then_fields_little_endian() {
    let f = Forward::new(0x0403_0201, addr(7), addr(8), addr(9), 254);
    let bytes = f.pack();
    assert_eq!(bytes.len(), RECORD_LEN);
    assert_eq!(bytes[0], RECORD_VERSION);
    assert_eq!(&bytes[1..5], &[1, 2, 3, 4]);
    assert!(bytes[5..37].iter().all(|b| *b == 7));
    assert!(bytes[37..69].iter().all(|b| *b == 8));
    assert!(bytes[69..101].iter().all(|b| *b == 9));
    assert_eq!(bytes[101], 254);
}

#[test]
fn record_fields_match_borsh_encoding() {
    let f = Forward::new(77, addr(1), addr(2), addr(3), 9);
    let expected = borsh::to_vec(&(77u32, [1u8; 32], [2u8; 32], [3u8; 32], 9u8)).unwrap();
    assert_eq!(&f.pack()[1..], &expected[..]);
}

#[test]
fn record_round_trip() {
    let f = Forward::new(u32::MAX, addr(10), addr(20), addr(30), 0);
    let g = Forward::unpack(&f.pack()).unwrap();
    assert_eq!(g.id, u32::MAX);
    assert!(g.destination == addr(10));
    assert!(g.quarantine == addr(20));
    assert!(g.authority == addr(30));
    assert_eq!(g.bump, 0);
}

#[test]
fn record_unpack_refuses_other_layouts() {
    let bytes = Forward::new(1, addr(1), addr(2), addr(3), 4).pack();
    assert_eq!(Forward::unpack(&bytes[..101]).err(), Some(ProgramFailure::InvalidAccountData));
    let mut longer = bytes.clone();
    longer.push(0);
    assert_eq!(Forward::unpack(&longer).err(), Some(ProgramFailure::InvalidAccountData));
    let mut wrong_version = bytes.clone();
    wrong_version[0] = 0;
    assert_eq!(Forward::unpack(&wrong_version).err(), Some(ProgramFailure::InvalidAccountData));
    assert_eq!(Forward::unpack(&[]).err(), Some(ProgramFailure::InvalidAccountData));
}

#[test]
fn instruction_round_trip() {
    let create = ForwardInstruction::CreateForward(CreateForwardInstruction {
        id: 258,
        bump: 250,
        authority: addr(5),
    });
    let data = create.pack();
    assert_eq!(data.len(), 38);
    assert_eq!(&data[..6], &[0, 2, 1, 0, 0, 250]);
    match ForwardInstruction::unpack(&data).unwrap() {
        ForwardInstruction::CreateForward(c) => {
            assert_eq!(c.id, 258);
            assert_eq!(c.bump, 250);
            assert!(c.authority == addr(5));
        }
        _ => panic!("wrong variant"),
    }
    assert_eq!(ForwardInstruction::Execute.pack(), vec![1]);
    assert_eq!(ForwardInstruction::Quarantine.pack(), vec![2]);
    assert!(matches!(ForwardInstruction::unpack(&[1]), Ok(ForwardInstruction::Execute)));
    assert!(matches!(ForwardInstruction::unpack(&[2]), Ok(ForwardInstruction::Quarantine)));
}

#[test]
fn instruction_unpack_refuses_bad_data() {
    for data in [vec![], vec![3], vec![1, 0], vec![0, 1, 2, 3]] {
        assert!(matches!(
            ForwardInstruction::unpack(&data),
            Err(ProgramFailure::InvalidInstructionData)
        ));
    }
}

#[test]
fn error_codes_follow_declaration_order() {
    assert_eq!(ForwardError::DestinationNotInitialised.code(), 0);
    assert_eq!(ForwardError::InvalidAuthority.code(), 9);
    assert_eq!(ForwardError::InvalidNumberOfAccounts.code(), 10);
    assert_eq!(ForwardError::UnderflowError.code(), 12);
    assert_eq!(ForwardError::InvalidDestination.message(), "Invalid destination");
}

#[test]
fn assert_that_passes_or_fails_with_given_error() {
    assert_eq!(assert_that(true, ProgramFailure::IncorrectProgramId), Ok(()));
    assert_eq!(
        assert_that(false, ProgramFailure::IncorrectProgramId),
        Err(ProgramFailure::IncorrectProgramId)
    );
}

#[test]
fn address_equality_is_bytewise() {
    let mut b = [3u8; 32];
    assert!(Address::new(b).same(&addr(3)));
    b[31] = 4;
    assert!(!Address::new(b).same(&addr(3)));
    assert!(Address::new(b) != addr(3));
    assert_eq!(addr(6).to_vec(), vec![6u8; 32]);
}
