use forwarder::errors::{ForwardError, ProgramFailure};
use forwarder::sweep::{forward_sol, SolSweep};

#[test]
fn sweep_moves_surplus_above_floor() {
    let s = forward_sol(1_000_000, 890_880, 5).unwrap();
    assert_eq!(s, SolSweep { forward_lamports: 890_880, target_lamports: 109_125, moved: 109_120 });
}

#[test]
fn sweep_twice_moves_nothing_the_second_time() {
    let first = forward_sol(1_000_000, 890_880, 0).unwrap();
    assert_eq!(first.moved, 109_120);
    let second = forward_sol(first.forward_lamports, 890_880, first.target_lamports).unwrap();
    assert_eq!(second.moved, 0);
    assert_eq!(second.forward_lamports, 890_880);
    assert_eq!(second.target_lamports, 109_120);
}

#[test]
fn sweep_conserves_total_balance() {
    for (f, floor, t) in [(10u64, 3u64, 7u64), (3, 3, 0), (u64::MAX, 0, 0), (500, 1, 499)] {
        let s = forward_sol(f, floor, t).unwrap();
        assert_eq!(f as u128 + t as u128, s.forward_lamports as u128 + s.target_lamports as u128);
        assert!(s.forward_lamports >= floor);
    }
}

#[test]
fn sweep_below_floor_is_underflow() {
    assert_eq!(
        forward_sol(890_879, 890_880, 0),
        Err(ProgramFailure::Forward(ForwardError::UnderflowError))
    );
}

#[test]
fn sweep_into_full_target_is_overflow() {
    assert_eq!(
        forward_sol(10, 5, u64::MAX - 4),
        Err(ProgramFailure::Forward(ForwardError::OverflowError))
    );
    let s = forward_sol(10, 5, u64::MAX - 5).unwrap();
    assert_eq!(s.target_lamports, u64::MAX);
}

#[test]
fn sweep_at_floor_into_full_target_succeeds() {
    let s = forward_sol(7, 7, u64::MAX).unwrap();
    assert_eq!(s, SolSweep { forward_lamports: 7, target_lamports: u64::MAX, moved: 0 });
}
