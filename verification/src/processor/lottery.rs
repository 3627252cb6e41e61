use vstd::prelude::*;
use crate::account::{lottery_unchanged, user_unchanged, Lottery, LotteryPdaInfo, User, WinnerTicker};
use crate::error::ContractError;
use crate::key::{contains_key, Pubkey};
use crate::random::{draw_set, draw_winner_indices, lists_drawn, rand64_seeded, MAX_DRAWS};

verus! {

/// Length of a lottery in seconds, as the signed offset added to its start:
/// `time_frame` hours, wrapped into `i64`.
pub open spec fn lottery_length(time_frame: u64) -> i64 {
    ((time_frame * 3600) as u64) as i64
}

/// Whether `create` can run on these inputs without an arithmetic fault or
/// an index out of range.
pub open spec fn create_fits(
    lottery: Lottery,
    info: LotteryPdaInfo,
    time_frame_index: u8,
    time_frame: u64,
    start_time: i64,
) -> bool {
    &&& time_frame * 3600 <= u64::MAX
    &&& i64::MIN <= start_time + lottery_length(time_frame) <= i64::MAX
    &&& lottery.round < u32::MAX
    &&& info.count < u8::MAX
    &&& time_frame_index < 10
    &&& info.rounds[time_frame_index as int] < u8::MAX
}

/// `post` is `pre` opened as a new round with the given terms.
pub open spec fn lottery_created(
    pre: Lottery,
    post: Lottery,
    id: u8,
    time_frame: u64,
    ticket_price: u8,
    max_ticket: u64,
    dev_fee: u32,
    start_time: i64,
) -> bool {
    &&& post.id == id
    &&& post.time_frame == time_frame
    &&& post.ticket_price == ticket_price
    &&& post.max_ticket == max_ticket
    &&& post.dev_fee == dev_fee
    &&& post.start_time == start_time
    &&& post.end_time == start_time + lottery_length(time_frame)
    &&& post.state == 0
    &&& post.real_pool_amount == 0
    &&& post.round == pre.round + 1
    &&& post.real_count == 0
    &&& post.participants@ == pre.participants@
    &&& post.winner == pre.winner
    &&& post.prize_percent == pre.prize_percent
    &&& post.winner_prize == pre.winner_prize
}

/// `post` counts one more lottery than `pre`, in all and in slot
/// `time_frame_index`.
pub open spec fn lottery_counted(pre: LotteryPdaInfo, post: LotteryPdaInfo, time_frame_index: u8) -> bool {
    &&& post.count == pre.count + 1
    &&& post.rounds@ == pre.rounds@.update(
        time_frame_index as int,
        (pre.rounds[time_frame_index as int] + 1) as u8,
    )
}

/// Sets up a lottery round and counts it, in all and in its time frame's slot.
pub fn create(
    lottery: &mut Lottery,
    lottery_pdakey_info: &mut LotteryPdaInfo,
    id: u8,
    time_frame_index: u8,
    time_frame: u64,
    ticket_price: u8,
    max_ticket: u64,
    dev_fee: u32,
    start_time: i64,
) -> (r: Result<(), ContractError>)
    requires
        create_fits(*old(lottery), *old(lottery_pdakey_info), time_frame_index, time_frame, start_time),
    ensures
        r is Ok,
        lottery_created(*old(lottery), *final(lottery), id, time_frame, ticket_price, max_ticket, dev_fee, start_time),
        lottery_counted(*old(lottery_pdakey_info), *final(lottery_pdakey_info), time_frame_index),
{
    lottery.id = id;
    lottery.time_frame = time_frame;
    lottery.ticket_price = ticket_price;
    lottery.max_ticket = max_ticket;
    lottery.dev_fee = dev_fee;
    lottery.start_time = start_time;
    let length: u64 = time_frame * 3600;
    lottery.end_time = start_time + length as i64;
    lottery.state = 0;
    lottery.real_pool_amount = 0;
    lottery.round = lottery.round + 1;
    lottery.real_count = 0;

    lottery_pdakey_info.count = lottery_pdakey_info.count + 1;
    let slot = time_frame_index as usize;
    let rounds_here = lottery_pdakey_info.rounds[slot];
    lottery_pdakey_info.rounds[slot] = rounds_here + 1;
    Ok(())
}

/// The refusal `endlottery` gives, if any: a lottery is drawn once, and only
/// with more than three participants.
pub open spec fn end_refusal(lottery: Lottery) -> Option<ContractError> {
    if lottery.state != 0 {
        Some(ContractError::LotteryAlreadyEnded)
    } else if lottery.participants.len() <= 3 {
        Some(ContractError::NotEnoughParticipants)
    } else {
        None
    }
}

/// The refusal `endlottery` gives, if any.
pub fn check_end(lottery: &Lottery) -> (r: Option<ContractError>)
    ensures
        r == end_refusal(*lottery),
{
    if lottery.state != 0 {
        Some(ContractError::LotteryAlreadyEnded)
    } else if lottery.participants.len() <= 3 {
        Some(ContractError::NotEnoughParticipants)
    } else {
        None
    }
}

/// The developers' fee: `dev_fee` percent of the pool, rounded down.
pub open spec fn tax_fee(pool: u64, dev_fee: u32) -> int {
    pool * dev_fee / 100
}

/// The three prizes: 50, 30 and 20 percent of the pool, each rounded down.
pub open spec fn prize_split(pool: u64) -> Seq<u64> {
    seq![(pool * 50 / 100) as u64, (pool * 30 / 100) as u64, (pool * 20 / 100) as u64]
}

/// The participant a drawn index designates: the index is cut to its low
/// byte before the lookup.
pub open spec fn winner_at(participants: Seq<Pubkey>, pick: usize) -> Pubkey {
    participants[(pick as u8) as int]
}

/// Whether settling `lottery` stays clear of arithmetic faults.
pub open spec fn settle_fits(lottery: Lottery) -> bool {
    &&& lottery.real_pool_amount * lottery.dev_fee <= u64::MAX
    &&& tax_fee(lottery.real_pool_amount, lottery.dev_fee) <= lottery.real_pool_amount
    &&& lottery.real_pool_amount * 50 <= u64::MAX
}

/// `post` is `pre` drawn with the indices `picks`: winners set, fee taken
/// from the pool, prizes computed from the pool before the fee, state ended.
pub open spec fn lottery_settled(pre: Lottery, post: Lottery, picks: Seq<usize>) -> bool {
    &&& post.winner@ == seq![
        winner_at(pre.participants@, picks[0]),
        winner_at(pre.participants@, picks[1]),
        winner_at(pre.participants@, picks[2]),
    ]
    &&& post.real_pool_amount == pre.real_pool_amount - tax_fee(pre.real_pool_amount, pre.dev_fee)
    &&& post.winner_prize@ == prize_split(pre.real_pool_amount)
    &&& post.state == 1
    &&& post.id == pre.id
    &&& post.time_frame == pre.time_frame
    &&& post.ticket_price == pre.ticket_price
    &&& post.max_ticket == pre.max_ticket
    &&& post.dev_fee == pre.dev_fee
    &&& post.start_time == pre.start_time
    &&& post.end_time == pre.end_time
    &&& post.participants@ == pre.participants@
    &&& post.prize_percent == pre.prize_percent
    &&& post.real_count == pre.real_count
    &&& post.round == pre.round
}

/// The ticker shows the first winner of `lottery`, fifty times its pool and
/// its time frame.
pub open spec fn ticker_shows(ticker: WinnerTicker, lottery: Lottery) -> bool {
    &&& ticker.winner == lottery.winner[0]
    &&& ticker.prize == lottery.real_pool_amount * 50
    &&& ticker.time_frame == lottery.time_frame
}

/// Records the drawn winners of an open lottery and computes fee and prizes;
/// gives the fee to transfer from the pool.
pub fn settle_lottery(lottery: &mut Lottery, winner_ticker: &mut WinnerTicker, picks: [usize; 3]) -> (tax: u64)
    requires
        forall|k: int| 0 <= k < 3 ==> picks[k] < old(lottery).participants.len(),
        settle_fits(*old(lottery)),
    ensures
        tax == tax_fee(old(lottery).real_pool_amount, old(lottery).dev_fee),
        lottery_settled(*old(lottery), *final(lottery), picks@),
        ticker_shows(*final(winner_ticker), *final(lottery)),
{
    let ghost pre_participants = lottery.participants@;
    let x0 = picks[0];
    let x1 = picks[1];
    let x2 = picks[2];
    assert((x0 as u8) as usize <= x0) by (bit_vector);
    assert((x1 as u8) as usize <= x1) by (bit_vector);
    assert((x2 as u8) as usize <= x2) by (bit_vector);
    let i0 = (x0 as u8) as usize;
    let i1 = (x1 as u8) as usize;
    let i2 = (x2 as u8) as usize;
    let winner1 = lottery.participants[i0];
    let winner2 = lottery.participants[i1];
    let winner3 = lottery.participants[i2];
    lottery.winner = [winner1, winner2, winner3];

    let pool = lottery.real_pool_amount;
    let dev_fee = lottery.dev_fee;
    let tax_fee: u64 = pool * (dev_fee as u64) / 100;
    lottery.real_pool_amount = pool - tax_fee;

    assert(pool * 30 <= pool * 50 && pool * 20 <= pool * 50) by (nonlinear_arith);
    let winner1_prize = pool * 50 / 100;
    let winner2_prize = pool * 30 / 100;
    let winner3_prize = pool * 20 / 100;
    lottery.winner_prize = [winner1_prize, winner2_prize, winner3_prize];
    lottery.state = 1;

    assert((pool - tax_fee) * 50 <= pool * 50) by (nonlinear_arith)
        requires
            tax_fee <= pool,
    ;
    winner_ticker.winner = winner1;
    winner_ticker.prize = lottery.real_pool_amount * 50;
    winner_ticker.time_frame = lottery.time_frame;
    assert(lottery.winner@ =~= seq![
        winner_at(pre_participants, picks[0]),
        winner_at(pre_participants, picks[1]),
        winner_at(pre_participants, picks[2]),
    ]);
    assert(lottery.winner_prize@ =~= prize_split(pool));
    tax_fee
}

/// What `endlottery` does with `lottery` (`pre` to `post`) and the ticker
/// (`pre_ticker` to `post_ticker`) at clock time `unix_timestamp`, giving `r`:
/// refused with `end_refusal`, changing nothing; otherwise the generator
/// seeded with the time draws indices below the number of participants until
/// three distinct ones are held, and the lottery is settled with them, in
/// the order the set of them is listed, giving the fee; `Ok(None)`, changing
/// nothing, when `MAX_DRAWS` draws did not yield three.
pub open spec fn end_outcome(
    pre: Lottery,
    post: Lottery,
    pre_ticker: WinnerTicker,
    post_ticker: WinnerTicker,
    unix_timestamp: i64,
    r: Result<Option<u64>, ContractError>,
) -> bool {
    match end_refusal(pre) {
        Some(e) => {
            &&& r == Err::<Option<u64>, ContractError>(e)
            &&& lottery_unchanged(pre, post)
            &&& post_ticker == pre_ticker
        },
        None => match draw_set(
            rand64_seeded(unix_timestamp as u128),
            pre.participants.len() as u64,
            Set::empty(),
            MAX_DRAWS as nat,
        ) {
            Some(drawn) => {
                &&& r == Ok::<Option<u64>, ContractError>(
                    Some(tax_fee(pre.real_pool_amount, pre.dev_fee) as u64),
                )
                &&& exists|picks: Seq<usize>|
                    #[trigger] lottery_settled(pre, post, picks)
                        && lists_drawn(picks, drawn, pre.participants.len() as int)
                &&& ticker_shows(post_ticker, post)
            },
            None => {
                &&& r == Ok::<Option<u64>, ContractError>(None)
                &&& lottery_unchanged(pre, post)
                &&& post_ticker == pre_ticker
            },
        },
    }
}

/// Draws a lottery.  Refused when it was drawn already or has three
/// participants or fewer.  Otherwise seeds oorandom's `Rand64` with the
/// clock's `unix_timestamp`, draws three distinct participant indices,
/// settles the lottery with them and gives `Some` fee to transfer; gives
/// `None`, changing nothing, when `MAX_DRAWS` draws did not yield three
/// distinct indices.
pub fn endlottery(lottery: &mut Lottery, winner_ticker: &mut WinnerTicker, unix_timestamp: i64) -> (r: Result<Option<u64>, ContractError>)
    requires
        end_refusal(*old(lottery)) is None ==> settle_fits(*old(lottery)),
    ensures
        end_outcome(*old(lottery), *final(lottery), *old(winner_ticker), *final(winner_ticker), unix_timestamp, r),
{
    let participants = lottery.participants.len();
    if let Some(e) = check_end(lottery) {
        return Err(e);
    }
    let seed = unix_timestamp as u128;
    match draw_winner_indices(seed, participants as u64) {
        None => Ok(None),
        Some(picks) => {
            let ghost pre = *lottery;
            let tax = settle_lottery(lottery, winner_ticker, picks);
            assert(lottery_settled(pre, *lottery, picks@));
            Ok(Some(tax))
        },
    }
}

/// The refusal `join_to_lottery` gives, if any: no joining once drawn, no
/// one twice, no one past `max_ticket`.
pub open spec fn join_refusal(lottery: Lottery, user_id: Pubkey) -> Option<ContractError> {
    if lottery.state == 1 {
        Some(ContractError::LotteryEnded)
    } else if lottery.participants@.contains(user_id) {
        Some(ContractError::AlreadyParticipated)
    } else if lottery.participants.len() + 1 > lottery.max_ticket {
        Some(ContractError::LotteryAlreadyFulled)
    } else {
        None
    }
}

/// The refusal `join_to_lottery` gives, if any.
pub fn check_join(lottery: &Lottery, user_id: &Pubkey) -> (r: Option<ContractError>)
    ensures
        r == join_refusal(*lottery, *user_id),
{
    if lottery.state == 1 {
        Some(ContractError::LotteryEnded)
    } else if contains_key(&lottery.participants, user_id) {
        Some(ContractError::AlreadyParticipated)
    } else if lottery.participants.len() as u64 >= lottery.max_ticket {
        Some(ContractError::LotteryAlreadyFulled)
    } else {
        None
    }
}

/// Whether joining stays clear of arithmetic faults and of a slot index out
/// of range, and the user holds a ticket in the slot.
pub open spec fn join_fits(lottery: Lottery, user: User, user_spot_index: u8) -> bool {
    &&& lottery.real_count < u32::MAX
    &&& lottery.real_pool_amount + lottery.ticket_price <= u64::MAX
    &&& user_spot_index < 10
    &&& user.spot[user_spot_index as int] >= 1
}

/// `post` is `pre` with `user_id` joined: appended to the participants,
/// counted, and the ticket price added to the pool.
pub open spec fn lottery_joined(pre: Lottery, post: Lottery, user_id: Pubkey) -> bool {
    &&& post.participants@ == pre.participants@.push(user_id)
    &&& post.real_count == pre.real_count + 1
    &&& post.real_pool_amount == pre.real_pool_amount + pre.ticket_price
    &&& post.id == pre.id
    &&& post.time_frame == pre.time_frame
    &&& post.ticket_price == pre.ticket_price
    &&& post.max_ticket == pre.max_ticket
    &&& post.dev_fee == pre.dev_fee
    &&& post.start_time == pre.start_time
    &&& post.end_time == pre.end_time
    &&& post.state == pre.state
    &&& post.winner == pre.winner
    &&& post.prize_percent == pre.prize_percent
    &&& post.winner_prize == pre.winner_prize
    &&& post.round == pre.round
}

/// `post` is `pre` with one ticket taken from slot `slot`.
pub open spec fn ticket_used(pre: User, post: User, slot: int) -> bool {
    &&& post.spot@ == pre.spot@.update(slot, (pre.spot[slot] - 1) as u8)
    &&& post.id == pre.id
    &&& post.referral_link@ == pre.referral_link@
    &&& post.referrer == pre.referrer
    &&& post.referral_list@ == pre.referral_list@
}

/// What `join_to_lottery` does with `lottery` (`pre` to `post`) and the user
/// (`pre_user` to `post_user`), giving `r`: refused with `join_refusal`,
/// changing nothing; otherwise the user is joined and one ticket of slot
/// `user_spot_index` is used.
pub open spec fn join_outcome(
    pre: Lottery,
    post: Lottery,
    pre_user: User,
    post_user: User,
    user_spot_index: u8,
    r: Result<(), ContractError>,
) -> bool {
    match join_refusal(pre, pre_user.id) {
        Some(e) => {
            &&& r == Err::<(), ContractError>(e)
            &&& lottery_unchanged(pre, post)
            &&& user_unchanged(pre_user, post_user)
        },
        None => {
            &&& r is Ok
            &&& lottery_joined(pre, post, pre_user.id)
            &&& ticket_used(pre_user, post_user, user_spot_index as int)
        },
    }
}

/// Enters a user into an open lottery with one of the tickets the user holds
/// in slot `user_spot_index`; the ticket price goes into the pool.
pub fn join_to_lottery(lottery: &mut Lottery, user: &mut User, user_spot_index: u8) -> (r: Result<(), ContractError>)
    requires
        join_refusal(*old(lottery), old(user).id) is None ==> join_fits(*old(lottery), *old(user), user_spot_index),
    ensures
        join_outcome(*old(lottery), *final(lottery), *old(user), *final(user), user_spot_index, r),
{
    if let Some(e) = check_join(lottery, &user.id) {
        return Err(e);
    }
    lottery.real_count = lottery.real_count + 1;
    let transfer_amount = lottery.ticket_price as u64;
    lottery.participants.push(user.id);
    lottery.real_pool_amount = lottery.real_pool_amount + transfer_amount;
    let slot = user_spot_index as usize;
    let held = user.spot[slot];
    user.spot[slot] = held - 1;
    Ok(())
}

/// `post` is `pre` with its state set to `state` and nothing else changed.
pub open spec fn lottery_state_set(pre: Lottery, post: Lottery, state: u8) -> bool {
    &&& post.state == state
    &&& lottery_unchanged(pre, (Lottery { state: pre.state, ..post }))
}

/// Marks a lottery as drawn.
pub fn set_state(lottery: &mut Lottery) -> (r: Result<(), ContractError>)
    ensures
        r is Ok,
        lottery_state_set(*old(lottery), *final(lottery), 1),
{
    lottery.state = 1;
    Ok(())
}

} // verus!
