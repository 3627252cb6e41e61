use vstd::prelude::*;
use crate::account::{Lottery, User};
use crate::error::ContractError;
use crate::key::{contains_key, Pubkey};
use crate::account::{lottery_unchanged, user_unchanged};
use crate::processor::refund::ticket_price_units;
use crate::processor::prize::TOKEN_BASE_UNITS;

verus! {

/// The refusal `setreferral` gives, if any: only the user may set the link,
/// and only to a new one.
pub open spec fn referral_refusal(user: User, signer: Pubkey, referral_link: Seq<char>) -> Option<ContractError> {
    if user.id != signer {
        Some(ContractError::InvalidUserAccount)
    } else if user.referral_link@ == referral_link {
        Some(ContractError::ReferralLinkAlreadyExist)
    } else {
        None
    }
}

/// The user, when it signed, sets its referral link to a new one.
pub fn setreferral(user: &mut User, signer: Pubkey, referral_link: String) -> (r: Result<(), ContractError>)
    ensures
        match referral_refusal(*old(user), signer, referral_link@) {
            Some(e) => r == Err::<(), ContractError>(e) && user_unchanged(*old(user), *final(user)),
            None => {
                &&& r is Ok
                &&& final(user).referral_link@ == referral_link@
                &&& final(user).id == old(user).id
                &&& final(user).spot == old(user).spot
                &&& final(user).referrer == old(user).referrer
                &&& final(user).referral_list@ == old(user).referral_list@
            },
        },
{
    if !user.id.same_as(&signer) {
        return Err(ContractError::InvalidUserAccount);
    }
    if user.referral_link == referral_link {
        Err(ContractError::ReferralLinkAlreadyExist)
    } else {
        user.referral_link = referral_link;
        Ok(())
    }
}

/// The refusal `add_referral_user` gives, if any: not after the lottery is
/// closed (state 2), no one twice, no one past `max_ticket`.
pub open spec fn referral_join_refusal(lottery: Lottery, buyer: Pubkey) -> Option<ContractError> {
    if lottery.state == 2 {
        Some(ContractError::LotteryEnded)
    } else if lottery.participants@.contains(buyer) {
        Some(ContractError::AlreadyParticipated)
    } else if lottery.participants.len() + 1 > lottery.max_ticket {
        Some(ContractError::LotteryAlreadyFulled)
    } else {
        None
    }
}

/// The refusal `add_referral_user` gives, if any.
pub fn check_referral_join(lottery: &Lottery, buyer: &Pubkey) -> (r: Option<ContractError>)
    ensures
        r == referral_join_refusal(*lottery, *buyer),
{
    if lottery.state == 2 {
        Some(ContractError::LotteryEnded)
    } else if contains_key(&lottery.participants, buyer) {
        Some(ContractError::AlreadyParticipated)
    } else if lottery.participants.len() as u64 >= lottery.max_ticket {
        Some(ContractError::LotteryAlreadyFulled)
    } else {
        None
    }
}

/// Whether a referred purchase stays clear of an index out of range and of
/// an arithmetic fault.
pub open spec fn referral_join_fits(lottery: Lottery) -> bool {
    &&& lottery.real_count < lottery.participants.len()
    &&& lottery.real_pool_amount + ticket_price_units(lottery.ticket_price) <= u64::MAX
}

/// `post` is `pre` with `buyer` written into the participant place
/// `real_count` and one ticket price, in base units, added to the pool.
pub open spec fn lottery_referral_joined(pre: Lottery, post: Lottery, buyer: Pubkey) -> bool {
    &&& post.participants@ == pre.participants@.update(pre.real_count as int, buyer)
    &&& post.real_pool_amount == pre.real_pool_amount + ticket_price_units(pre.ticket_price)
    &&& lottery_unchanged(
        pre,
        (Lottery { real_pool_amount: pre.real_pool_amount, participants: pre.participants, ..post }),
    )
}

/// `buyer` buys a ticket through `referrer`.  Refused as
/// `referral_join_refusal` says, changing nothing.  Otherwise the referrer
/// lists the buyer, the buyer takes the participant place `real_count`, the
/// ticket price in base units goes into the pool and the referred user's
/// account becomes the buyer's.  Gives the amount to transfer from the buyer
/// to the pool.
pub fn add_referral_user(
    lottery: &mut Lottery,
    referrer: &mut User,
    referral_user: &mut User,
    buyer: Pubkey,
) -> (r: Result<u64, ContractError>)
    requires
        referral_join_refusal(*old(lottery), buyer) is None ==> referral_join_fits(*old(lottery)),
    ensures
        match referral_join_refusal(*old(lottery), buyer) {
            Some(e) => {
                &&& r == Err::<u64, ContractError>(e)
                &&& lottery_unchanged(*old(lottery), *final(lottery))
                &&& user_unchanged(*old(referrer), *final(referrer))
                &&& user_unchanged(*old(referral_user), *final(referral_user))
            },
            None => {
                &&& r == Ok::<u64, ContractError>(ticket_price_units(old(lottery).ticket_price))
                &&& final(referrer).referral_list@ == old(referrer).referral_list@.push(buyer)
                &&& user_unchanged(
                    *old(referrer),
                    (User { referral_list: old(referrer).referral_list, ..*final(referrer) }),
                )
                &&& lottery_referral_joined(*old(lottery), *final(lottery), buyer)
                &&& final(referral_user).id == buyer
                &&& user_unchanged(*old(referral_user), (User { id: old(referral_user).id, ..*final(referral_user) }))
            },
        },
{
    if let Some(e) = check_referral_join(lottery, &buyer) {
        return Err(e);
    }
    referrer.referral_list.push(buyer);

    let price = lottery.ticket_price as u64;
    assert(price * TOKEN_BASE_UNITS <= 255 * TOKEN_BASE_UNITS) by (nonlinear_arith)
        requires
            price <= 255,
    ;
    let transfer_amount = price * TOKEN_BASE_UNITS;

    let real_count = lottery.real_count as usize;
    lottery.participants[real_count] = buyer;
    lottery.real_pool_amount = lottery.real_pool_amount + transfer_amount;

    referral_user.id = buyer;
    Ok(transfer_amount)
}

} // verus!
