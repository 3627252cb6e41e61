use vstd::prelude::*;
use crate::account::{lemma_slot_in_range, slot_of, time_frame_slot, Lottery, User};
use crate::error::ContractError;
use crate::key::Pubkey;

verus! {

/// What `count` tickets at `ticket_price` cost.
pub open spec fn ticket_cost(ticket_price: u8, count: u8) -> u64 {
    (ticket_price * count) as u64
}

/// Whether buying stays clear of arithmetic faults.
pub open spec fn purchase_fits(lottery: Lottery, user: User, count: u8) -> bool {
    &&& lottery.real_pool_amount + ticket_cost(lottery.ticket_price, count) <= u64::MAX
    &&& (slot_of(lottery.time_frame) matches Some(i) ==> user.spot[i] + count <= u8::MAX)
}

/// `post` is `pre` owned by `buyer`, with `count` more tickets in the slot of
/// `time_frame` when it has one.
pub open spec fn tickets_added(pre: User, post: User, buyer: Pubkey, count: u8, time_frame: u64) -> bool {
    &&& post.id == buyer
    &&& match slot_of(time_frame) {
        Some(i) => post.spot@ == pre.spot@.update(i, (pre.spot[i] + count) as u8),
        None => post.spot == pre.spot,
    }
    &&& post.referral_link@ == pre.referral_link@
    &&& post.referrer == pre.referrer
    &&& post.referral_list@ == pre.referral_list@
}

/// `buyer` buys `count` tickets for the time frame of `lottery`: their price
/// goes into the pool and the tickets into the user's slot for that time
/// frame.  Gives the amount to transfer from the buyer to the pool.
pub fn getticket(lottery: &mut Lottery, user: &mut User, buyer: Pubkey, count: u8) -> (transfer_amount: u64)
    requires
        purchase_fits(*old(lottery), *old(user), count),
    ensures
        transfer_amount == ticket_cost(old(lottery).ticket_price, count),
        final(lottery).real_pool_amount == old(lottery).real_pool_amount + transfer_amount,
        crate::account::lottery_unchanged(
            *old(lottery),
            (Lottery { real_pool_amount: old(lottery).real_pool_amount, ..*final(lottery) }),
        ),
        tickets_added(*old(user), *final(user), buyer, count, old(lottery).time_frame),
{
    let price = lottery.ticket_price as u64;
    let tickets = count as u64;
    assert(price * tickets <= 255 * 255) by (nonlinear_arith)
        requires
            price <= 255,
            tickets <= 255,
    ;
    let transfer_amount = price * tickets;
    lottery.real_pool_amount = lottery.real_pool_amount + transfer_amount;
    user.id = buyer;
    let lottery_timeframe = lottery.time_frame;
    proof {
        lemma_slot_in_range(lottery_timeframe);
    }
    match time_frame_slot(lottery_timeframe) {
        Some(index) => {
            let held = user.spot[index];
            user.spot[index] = held + count;
        },
        None => {},
    }
    transfer_amount
}

/// Whether the user holds a ticket for the time frame of `lottery`; false
/// when that time frame has no slot.
pub open spec fn has_ticket(user: User, lottery: Lottery) -> bool {
    match slot_of(lottery.time_frame) {
        Some(i) => user.spot[i] > 0,
        None => false,
    }
}

/// Whether the user holds a ticket for the time frame of `lottery`.
pub fn get_user_ticket_num(user: &User, lottery: &Lottery) -> (r: Result<bool, ContractError>)
    ensures
        r == Ok::<bool, ContractError>(has_ticket(*user, *lottery)),
{
    let lottery_timeframe = lottery.time_frame;
    proof {
        lemma_slot_in_range(lottery_timeframe);
    }
    match time_frame_slot(lottery_timeframe) {
        Some(index) => {
            let spot = user.spot[index];
            Ok(spot > 0)
        },
        None => Ok(false),
    }
}

} // verus!
