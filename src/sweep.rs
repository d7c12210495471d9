use crate::errors::{ForwardError, ProgramFailure};
use vstd::prelude::*;

verus! {

/// Native balances after a sweep, and the amount moved.
#[derive(Debug, Clone, Copy, PartialEq, Eq, Structural)]
pub struct SolSweep {
    pub forward_lamports: u64,
    pub target_lamports: u64,
    pub moved: u64,
}

/// Sweeping a forward account that holds `forward` with reservation floor
/// `floor` into a target that holds `target`: everything above the floor moves.
pub open spec fn sweep_spec(forward: u64, floor: u64, target: u64) -> Result<SolSweep, ProgramFailure> {
    if forward < floor {
        Err(ProgramFailure::Forward(ForwardError::UnderflowError))
    } else if target + (forward - floor) > u64::MAX {
        Err(ProgramFailure::Forward(ForwardError::OverflowError))
    } else {
        Ok(
            SolSweep {
                forward_lamports: floor,
                target_lamports: (target + (forward - floor)) as u64,
                moved: (forward - floor) as u64,
            },
        )
    }
}

/// Moves the forward account's native balance above `floor` to the target.
/// A balance below the floor is an accounting fault, not an empty sweep.
pub fn forward_sol(forward_lamports: u64, floor: u64, target_lamports: u64) -> (r: Result<
    SolSweep,
    ProgramFailure,
>)
    ensures
        r == sweep_spec(forward_lamports, floor, target_lamports),
{
    let available = match forward_lamports.checked_sub(floor) {
        Some(a) => a,
        None => {
            return Err(ProgramFailure::Forward(ForwardError::UnderflowError));
        },
    };
    if available == 0 {
        return Ok(
            SolSweep { forward_lamports: forward_lamports, target_lamports: target_lamports, moved: 0 },
        );
    }
    let target_after = match target_lamports.checked_add(available) {
        Some(t) => t,
        None => {
            return Err(ProgramFailure::Forward(ForwardError::OverflowError));
        },
    };
    Ok(SolSweep { forward_lamports: floor, target_lamports: target_after, moved: available })
}

/// A sweep neither creates nor destroys value: the two balances keep their sum.
pub proof fn lemma_sweep_conserves(forward: u64, floor: u64, target: u64)
    requires
        sweep_spec(forward, floor, target) is Ok,
    ensures
        forward + target == sweep_spec(forward, floor, target)->Ok_0.forward_lamports + sweep_spec(
            forward,
            floor,
            target,
        )->Ok_0.target_lamports,
{
}

/// After a sweep the forward account still holds its reservation floor.
pub proof fn lemma_sweep_keeps_floor(forward: u64, floor: u64, target: u64)
    requires
        sweep_spec(forward, floor, target) is Ok,
    ensures
        sweep_spec(forward, floor, target)->Ok_0.forward_lamports >= floor,
{
}

/// Sweeping again right after a sweep succeeds and moves nothing.
pub proof fn lemma_sweep_again_moves_nothing(forward: u64, floor: u64, target: u64)
    requires
        sweep_spec(forward, floor, target) is Ok,
    ensures
        ({
            let s = sweep_spec(forward, floor, target)->Ok_0;
            sweep_spec(s.forward_lamports, floor, s.target_lamports) == Ok::<
                SolSweep,
                ProgramFailure,
            >(SolSweep { forward_lamports: floor, target_lamports: s.target_lamports, moved: 0 })
        }),
{
}

} // verus!
