use vstd::prelude::*;
use crate::account::Lottery;
use crate::processor::lottery::lottery_state_set;
use crate::processor::prize::TOKEN_BASE_UNITS;

verus! {

/// The ticket price in base units of the pool's token.
pub open spec fn ticket_price_units(ticket_price: u8) -> u64 {
    (ticket_price * TOKEN_BASE_UNITS) as u64
}

/// Reopens a lottery after one ticket price is paid back; gives the amount
/// to transfer from the pool to the participant.
pub fn refund_ticket_price(lottery: &mut Lottery) -> (refund: u64)
    ensures
        refund == ticket_price_units(old(lottery).ticket_price),
        lottery_state_set(*old(lottery), *final(lottery), 0),
{
    let price = lottery.ticket_price as u64;
    assert(price * TOKEN_BASE_UNITS <= 255 * TOKEN_BASE_UNITS) by (nonlinear_arith)
        requires
            price <= 255,
    ;
    let ticket_price = price * TOKEN_BASE_UNITS;
    lottery.state = 0;
    ticket_price
}

} // verus!
