use vstd::prelude::*;
use crate::account::Lottery;

verus! {

/// Base units of the pool's token per unit of price or prize.
pub const TOKEN_BASE_UNITS: u64 = 1_000_000_000u64;

/// The three prize transfers, in base units: each winner's prize times
/// `TOKEN_BASE_UNITS`.
pub open spec fn prize_transfers(lottery: Lottery) -> Seq<u64> {
    seq![
        (lottery.winner_prize[0] * TOKEN_BASE_UNITS) as u64,
        (lottery.winner_prize[1] * TOKEN_BASE_UNITS) as u64,
        (lottery.winner_prize[2] * TOKEN_BASE_UNITS) as u64,
    ]
}

/// Whether the prize transfers fit in `u64`.
pub open spec fn prizes_fit(lottery: Lottery) -> bool {
    forall|k: int| 0 <= k < 3 ==> #[trigger] lottery.winner_prize[k] * TOKEN_BASE_UNITS <= u64::MAX
}

/// The amounts to transfer from the pool to the first, second and third
/// winner.
pub fn send_prize(lottery: &Lottery) -> (amounts: [u64; 3])
    requires
        prizes_fit(*lottery),
    ensures
        amounts@ == prize_transfers(*lottery),
{
    let p0 = lottery.winner_prize[0];
    let p1 = lottery.winner_prize[1];
    let p2 = lottery.winner_prize[2];
    assert(lottery.winner_prize[0] * TOKEN_BASE_UNITS <= u64::MAX);
    assert(lottery.winner_prize[1] * TOKEN_BASE_UNITS <= u64::MAX);
    assert(lottery.winner_prize[2] * TOKEN_BASE_UNITS <= u64::MAX);
    let winner1_prize = p0 * TOKEN_BASE_UNITS;
    let winner2_prize = p1 * TOKEN_BASE_UNITS;
    let winner3_prize = p2 * TOKEN_BASE_UNITS;
    let amounts = [winner1_prize, winner2_prize, winner3_prize];
    assert(amounts@ =~= prize_transfers(*lottery));
    amounts
}

} // verus!
