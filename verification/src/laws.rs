//! Properties that span the instructions of the lottery.

use vstd::prelude::*;
use crate::account::{lemma_slot_in_range, slot_of, Lottery, LotteryPdaInfo, User, WinnerTicker};
use crate::error::ContractError;
use crate::key::Pubkey;
use crate::processor::lottery::{
    end_outcome, end_refusal, join_fits, join_outcome, join_refusal, lottery_counted,
    lottery_created, lottery_joined, lottery_length, lottery_settled, lottery_state_set,
    prize_split, settle_fits, tax_fee, ticker_shows, winner_at,
};
use crate::processor::referral::{lottery_referral_joined, referral_join_fits, referral_join_refusal, referral_refusal};
use crate::processor::prize::{prize_transfers, prizes_fit};
use crate::processor::refund::ticket_price_units;
use crate::processor::user::{has_ticket, ticket_cost, tickets_added};
use crate::random::{distinct_below, draw_set, lists_drawn, rand64_seeded, MAX_DRAWS};

verus! {

/// The three prizes together never exceed the pool they are computed from.
pub proof fn lemma_prizes_within_pool(pool: u64)
    ensures
        prize_split(pool)[0] + prize_split(pool)[1] + prize_split(pool)[2] <= pool,
{
    assert(pool * 50 / 100 + pool * 30 / 100 + pool * 20 / 100 <= pool) by (nonlinear_arith);
}

/// A drawn lottery is closed: drawing it again is refused as already ended,
/// and joining it is refused as ended.
pub proof fn lemma_drawn_lottery_is_closed(pre: Lottery, post: Lottery, picks: Seq<usize>, newcomer: Pubkey)
    requires
        lottery_settled(pre, post, picks),
    ensures
        end_refusal(post) == Some(ContractError::LotteryAlreadyEnded),
        join_refusal(post, newcomer) == Some(ContractError::LotteryEnded),
{
}

/// A lottery just created is open: it can be joined by anyone not in it yet
/// while it has room, and it can be drawn once it has more than three
/// participants.
pub proof fn lemma_created_lottery_is_open(
    pre: Lottery,
    post: Lottery,
    id: u8,
    time_frame: u64,
    ticket_price: u8,
    max_ticket: u64,
    dev_fee: u32,
    start_time: i64,
    newcomer: Pubkey,
)
    requires
        lottery_created(pre, post, id, time_frame, ticket_price, max_ticket, dev_fee, start_time),
    ensures
        !post.participants@.contains(newcomer) && post.participants.len() + 1 <= max_ticket
            ==> join_refusal(post, newcomer) is None,
        post.participants.len() > 3 ==> end_refusal(post) is None,
{
}

/// The winners of a drawn lottery are among its participants.
pub proof fn lemma_winners_are_participants(pre: Lottery, post: Lottery, picks: Seq<usize>)
    requires
        lottery_settled(pre, post, picks),
        distinct_below(picks, pre.participants.len() as int),
    ensures
        forall|k: int| 0 <= k < 3 ==> #[trigger] post.participants@.contains(post.winner[k]),
{
    assert forall|k: int| 0 <= k < 3 implies #[trigger] post.participants@.contains(post.winner[k]) by {
        let x = picks[k];
        assert((x as u8) as usize <= x) by (bit_vector);
        assert(post.winner@[k] == winner_at(pre.participants@, picks[k]));
        assert(post.participants@[(x as u8) as int] == post.winner[k]);
    }
}

/// With at most 256 participants, none of them twice, the three winners of
/// a drawn lottery are three different participants.
pub proof fn lemma_winners_distinct(pre: Lottery, post: Lottery, picks: Seq<usize>)
    requires
        lottery_settled(pre, post, picks),
        distinct_below(picks, pre.participants.len() as int),
        pre.participants@.no_duplicates(),
        pre.participants.len() <= 256,
    ensures
        forall|j: int, k: int| 0 <= j < k < 3 ==> post.winner[j] != post.winner[k],
{
    assert forall|j: int, k: int| 0 <= j < k < 3 implies post.winner[j] != post.winner[k] by {
        let x = picks[j];
        let y = picks[k];
        assert(x < 256 && y < 256 && x != y ==> (x as u8) != (y as u8)) by (bit_vector);
        assert(post.winner@[j] == winner_at(pre.participants@, picks[j]));
        assert(post.winner@[k] == winner_at(pre.participants@, picks[k]));
    }
}

/// Joining never enters anyone twice: a lottery without repeated
/// participants keeps none.
pub proof fn lemma_join_keeps_participants_distinct(pre: Lottery, post: Lottery, user_id: Pubkey)
    requires
        pre.participants@.no_duplicates(),
        join_refusal(pre, user_id) is None,
        lottery_joined(pre, post, user_id),
    ensures
        post.participants@.no_duplicates(),
{
    assert forall|i: int, j: int|
        0 <= i < post.participants@.len() && 0 <= j < post.participants@.len() && i != j
        implies post.participants@[i] != post.participants@[j] by {
        if i == pre.participants@.len() as int {
            assert(pre.participants@[j] != user_id);
        } else if j == pre.participants@.len() as int {
            assert(pre.participants@[i] != user_id);
        }
    }
}

/// Joining never passes the ticket limit: a lottery within `max_ticket`
/// participants stays within it.
pub proof fn lemma_join_respects_max_ticket(pre: Lottery, post: Lottery, user_id: Pubkey)
    requires
        pre.participants.len() <= pre.max_ticket,
        join_refusal(pre, user_id) is None,
        lottery_joined(pre, post, user_id),
    ensures
        post.participants.len() <= post.max_ticket,
{
}

/// A purchase through a referrer never enters anyone twice either.
pub proof fn lemma_referral_join_keeps_participants_distinct(pre: Lottery, post: Lottery, buyer: Pubkey)
    requires
        pre.participants@.no_duplicates(),
        referral_join_refusal(pre, buyer) is None,
        referral_join_fits(pre),
        lottery_referral_joined(pre, post, buyer),
    ensures
        post.participants@.no_duplicates(),
{
    let at = pre.real_count as int;
    assert forall|i: int, j: int|
        0 <= i < post.participants@.len() && 0 <= j < post.participants@.len() && i != j
        implies post.participants@[i] != post.participants@[j] by {
        if i == at {
            assert(pre.participants@[j] != buyer);
        } else if j == at {
            assert(pre.participants@[i] != buyer);
        } else {
            assert(post.participants@[i] == pre.participants@[i]);
            assert(post.participants@[j] == pre.participants@[j]);
        }
    }
}

/// After buying at least one ticket for the time frame of a lottery that
/// has a ticket slot, the user holds a ticket for it.
pub proof fn lemma_bought_ticket_is_held(pre: User, post: User, buyer: Pubkey, count: u8, lottery: Lottery)
    requires
        tickets_added(pre, post, buyer, count, lottery.time_frame),
        count > 0,
        pre.spot[slot_of(lottery.time_frame)->0] + count <= u8::MAX,
        slot_of(lottery.time_frame) is Some,
    ensures
        has_ticket(post, lottery),
{
    lemma_slot_in_range(lottery.time_frame);
}

/// Setting the same referral link twice: the second time is refused.
pub proof fn lemma_referral_link_set_once(pre: User, post: User, signer: Pubkey, link: Seq<char>)
    requires
        referral_refusal(pre, signer, link) is None,
        post.id == pre.id,
        post.referral_link@ == link,
    ensures
        referral_refusal(post, signer, link) == Some(ContractError::ReferralLinkAlreadyExist),
{
}

/// A lottery marked as drawn is closed to drawing and joining.
pub proof fn lemma_marked_lottery_is_closed(pre: Lottery, post: Lottery, newcomer: Pubkey)
    requires
        lottery_state_set(pre, post, 1),
    ensures
        end_refusal(post) == Some(ContractError::LotteryAlreadyEnded),
        join_refusal(post, newcomer) == Some(ContractError::LotteryEnded),
{
}

/// A refunded lottery is open again: it can be drawn once it has more than
/// three participants, whatever its state was.
pub proof fn lemma_refunded_lottery_can_be_drawn(pre: Lottery, post: Lottery)
    requires
        lottery_state_set(pre, post, 0),
    ensures
        end_refusal(post) is None <==> pre.participants.len() > 3,
{
}

/// Which participants win depends only on the clock time and the
/// participants: two draws that both complete, at the same time, over the
/// same participants, give the same set of winners.
pub proof fn lemma_winners_depend_on_time_and_participants(
    pre1: Lottery,
    post1: Lottery,
    pre_ticker1: WinnerTicker,
    post_ticker1: WinnerTicker,
    r1: Result<Option<u64>, ContractError>,
    pre2: Lottery,
    post2: Lottery,
    pre_ticker2: WinnerTicker,
    post_ticker2: WinnerTicker,
    r2: Result<Option<u64>, ContractError>,
    unix_timestamp: i64,
)
    requires
        end_outcome(pre1, post1, pre_ticker1, post_ticker1, unix_timestamp, r1),
        end_outcome(pre2, post2, pre_ticker2, post_ticker2, unix_timestamp, r2),
        pre1.participants@ == pre2.participants@,
        r1 matches Ok(Some(_)),
        r2 matches Ok(Some(_)),
    ensures
        post1.winner@.to_set() == post2.winner@.to_set(),
{
    let n = pre1.participants.len() as u64;
    let drawn = draw_set(rand64_seeded(unix_timestamp as u128), n, Set::empty(), MAX_DRAWS as nat)->0;
    let participants = pre1.participants@;
    let picks1 = choose|picks: Seq<usize>|
        #[trigger] lottery_settled(pre1, post1, picks) && lists_drawn(picks, drawn, n as int);
    let picks2 = choose|picks: Seq<usize>|
        #[trigger] lottery_settled(pre2, post2, picks) && lists_drawn(picks, drawn, n as int);
    assert forall|w: Pubkey| post1.winner@.to_set().contains(w) implies post2.winner@.to_set().contains(w) by {
        let k = choose|k: int| 0 <= k < 3 && post1.winner@[k] == w;
        assert(picks1.to_set().contains(picks1[k]));
        let j = choose|j: int| 0 <= j < 3 && picks2[j] == picks1[k];
        assert(post2.winner@[j] == winner_at(participants, picks2[j]));
        assert(post2.winner@.contains(w));
    }
    assert forall|w: Pubkey| post2.winner@.to_set().contains(w) implies post1.winner@.to_set().contains(w) by {
        let k = choose|k: int| 0 <= k < 3 && post2.winner@[k] == w;
        assert(picks2.to_set().contains(picks2[k]));
        let j = choose|j: int| 0 <= j < 3 && picks1[j] == picks2[k];
        assert(post1.winner@[j] == winner_at(participants, picks1[j]));
        assert(post1.winner@.contains(w));
    }
    assert(post1.winner@.to_set() =~= post2.winner@.to_set());
}

/// Joining, whether it succeeds or is refused, keeps the participants
/// without repeats and within `max_ticket`, and keeps the participant count
/// and the participant list in step.
pub proof fn lemma_join_keeps_roster(
    pre: Lottery,
    post: Lottery,
    pre_user: User,
    post_user: User,
    user_spot_index: u8,
    r: Result<(), ContractError>,
)
    requires
        join_outcome(pre, post, pre_user, post_user, user_spot_index, r),
        pre.participants@.no_duplicates(),
        pre.participants.len() <= pre.max_ticket,
    ensures
        post.participants@.no_duplicates(),
        post.participants.len() <= post.max_ticket,
        post.real_count - post.participants.len() == pre.real_count - pre.participants.len(),
{
    if join_refusal(pre, pre_user.id) is None {
        lemma_join_keeps_participants_distinct(pre, post, pre_user.id);
        lemma_join_respects_max_ticket(pre, post, pre_user.id);
    }
}

/// The fee taken at a draw is `dev_fee` percent of the pool, rounded down
/// over the integers; with a fee of at most 100 percent it never exceeds the
/// pool.
pub proof fn lemma_fee_is_percent_of_pool(pool: u64, dev_fee: u32)
    ensures
        tax_fee(pool, dev_fee) * 100 <= pool * dev_fee,
        pool * dev_fee < (tax_fee(pool, dev_fee) + 1) * 100,
        dev_fee <= 100 ==> 0 <= tax_fee(pool, dev_fee) <= pool,
{
    let f = tax_fee(pool, dev_fee);
    assert(f * 100 <= pool * dev_fee < (f + 1) * 100) by (nonlinear_arith)
        requires
            f == pool * dev_fee / 100,
            pool >= 0,
            dev_fee >= 0,
    ;
    assert(dev_fee <= 100 ==> 0 <= f <= pool) by (nonlinear_arith)
        requires
            f * 100 <= pool * dev_fee < (f + 1) * 100,
            pool >= 0,
            dev_fee >= 0,
    ;
}

/// The three prizes are 50, 30 and 20 percent of the pool, each rounded down
/// over the integers.
pub proof fn lemma_prizes_are_percentages_of_pool(pool: u64)
    ensures
        prize_split(pool).len() == 3,
        prize_split(pool)[0] * 100 <= pool * 50 < (prize_split(pool)[0] + 1) * 100,
        prize_split(pool)[1] * 100 <= pool * 30 < (prize_split(pool)[1] + 1) * 100,
        prize_split(pool)[2] * 100 <= pool * 20 < (prize_split(pool)[2] + 1) * 100,
{
    let p = pool as int;
    assert(p * 50 / 100 * 100 <= p * 50 < (p * 50 / 100 + 1) * 100) by (nonlinear_arith)
        requires
            p >= 0,
    ;
    assert(p * 30 / 100 * 100 <= p * 30 < (p * 30 / 100 + 1) * 100) by (nonlinear_arith)
        requires
            p >= 0,
    ;
    assert(p * 20 / 100 * 100 <= p * 20 < (p * 20 / 100 + 1) * 100) by (nonlinear_arith)
        requires
            p >= 0,
    ;
    assert(p * 50 / 100 <= p && p * 30 / 100 <= p && p * 20 / 100 <= p) by (nonlinear_arith)
        requires
            p >= 0,
    ;
}

/// `count` tickets cost the price times the count, over the integers.
pub proof fn lemma_ticket_cost_is_product(ticket_price: u8, count: u8)
    ensures
        ticket_cost(ticket_price, count) as int == ticket_price as int * count as int,
{
    assert(ticket_price as int * count as int <= 255 * 255) by (nonlinear_arith)
        requires
            0 <= ticket_price <= 255,
            0 <= count <= 255,
    ;
}

/// One ticket price in base units is the price times one billion, over the
/// integers.
pub proof fn lemma_ticket_price_in_base_units(ticket_price: u8)
    ensures
        ticket_price_units(ticket_price) as int == ticket_price as int * 1_000_000_000,
{
    assert(ticket_price as int * 1_000_000_000 <= 255 * 1_000_000_000) by (nonlinear_arith)
        requires
            0 <= ticket_price <= 255,
    ;
}

/// Each prize transfer is the prize times one billion, over the integers.
pub proof fn lemma_prize_transfers_in_base_units(lottery: Lottery)
    requires
        prizes_fit(lottery),
    ensures
        prize_transfers(lottery).len() == 3,
        forall|k: int|
            0 <= k < 3 ==> #[trigger] prize_transfers(lottery)[k] as int == lottery.winner_prize[k] as int
                * 1_000_000_000,
{
    assert(lottery.winner_prize[0] * 1_000_000_000 <= u64::MAX);
    assert(lottery.winner_prize[1] * 1_000_000_000 <= u64::MAX);
    assert(lottery.winner_prize[2] * 1_000_000_000 <= u64::MAX);
}

/// A drawn index designates the participant at the index modulo 256.
pub proof fn lemma_winner_is_index_mod_256(participants: Seq<Pubkey>, pick: usize)
    ensures
        winner_at(participants, pick) == participants[pick as int % 256],
{
    assert((pick as u8) as usize == pick % 256) by (bit_vector);
}

/// A lottery lasts `time_frame` hours of seconds, read as a signed number:
/// that many seconds when they fit in `i64`, else that many less `2^64`.
pub proof fn lemma_lottery_length_in_seconds(time_frame: u64)
    requires
        time_frame * 3600 <= u64::MAX,
    ensures
        time_frame * 3600 <= i64::MAX ==> lottery_length(time_frame) == time_frame * 3600,
        time_frame * 3600 > i64::MAX ==> lottery_length(time_frame) == time_frame * 3600
            - 0x1_0000_0000_0000_0000,
{
    let x: u64 = (time_frame * 3600) as u64;
    assert(x <= 0x7fff_ffff_ffff_ffff ==> (x as i64) as int == x as int) by (bit_vector);
    assert(x > 0x7fff_ffff_ffff_ffff ==> (x as i64) as int == x as int - 0x1_0000_0000_0000_0000)
        by (bit_vector);
}

/// The refusals of a referred purchase: ended when the lottery is closed
/// (state 2), else already participating when the buyer is in it, else full
/// when one more participant would pass `max_ticket`; none otherwise.
pub proof fn lemma_referral_join_refusals(lottery: Lottery, buyer: Pubkey)
    ensures
        lottery.state == 2 ==> referral_join_refusal(lottery, buyer) == Some(ContractError::LotteryEnded),
        lottery.state != 2 && lottery.participants@.contains(buyer) ==> referral_join_refusal(lottery, buyer)
            == Some(ContractError::AlreadyParticipated),
        lottery.state != 2 && !lottery.participants@.contains(buyer) && lottery.participants.len() + 1
            > lottery.max_ticket ==> referral_join_refusal(lottery, buyer) == Some(
            ContractError::LotteryAlreadyFulled,
        ),
        lottery.state != 2 && !lottery.participants@.contains(buyer) && lottery.participants.len() + 1
            <= lottery.max_ticket ==> referral_join_refusal(lottery, buyer) is None,
{
}

/// The refusals of joining: ended once drawn (state 1), else already
/// participating when the user is in it, else full when one more
/// participant would pass `max_ticket`; none otherwise.
pub proof fn lemma_join_refusals(lottery: Lottery, user_id: Pubkey)
    ensures
        lottery.state == 1 ==> join_refusal(lottery, user_id) == Some(ContractError::LotteryEnded),
        lottery.state != 1 && lottery.participants@.contains(user_id) ==> join_refusal(lottery, user_id)
            == Some(ContractError::AlreadyParticipated),
        lottery.state != 1 && !lottery.participants@.contains(user_id) && lottery.participants.len() + 1
            > lottery.max_ticket ==> join_refusal(lottery, user_id) == Some(
            ContractError::LotteryAlreadyFulled,
        ),
        lottery.state != 1 && !lottery.participants@.contains(user_id) && lottery.participants.len() + 1
            <= lottery.max_ticket ==> join_refusal(lottery, user_id) is None,
{
}

/// The refusals of a draw: already ended unless open (state 0), else not
/// enough participants with three or fewer; none otherwise.
pub proof fn lemma_end_refusals(lottery: Lottery)
    ensures
        lottery.state != 0 ==> end_refusal(lottery) == Some(ContractError::LotteryAlreadyEnded),
        lottery.state == 0 && lottery.participants.len() <= 3 ==> end_refusal(lottery) == Some(
            ContractError::NotEnoughParticipants,
        ),
        lottery.state == 0 && lottery.participants.len() > 3 ==> end_refusal(lottery) is None,
{
}

/// The refusals of setting a referral link: only the user itself may, and
/// only to a link it does not have yet.
pub proof fn lemma_referral_link_refusals(user: User, signer: Pubkey, link: Seq<char>)
    ensures
        user.id != signer ==> referral_refusal(user, signer, link) == Some(ContractError::InvalidUserAccount),
        user.id == signer && user.referral_link@ == link ==> referral_refusal(user, signer, link) == Some(
            ContractError::ReferralLinkAlreadyExist,
        ),
        user.id == signer && user.referral_link@ != link ==> referral_refusal(user, signer, link) is None,
{
}

/// The ticket slots: the time frames 1, 3, 6, 12, 24, 168, 720, 2160, 4320
/// and 8640 hours have the slots 0 to 9 in that order, and no other time
/// frame has one.
pub proof fn lemma_time_frame_slots(time_frame: u64)
    ensures
        slot_of(time_frame) == (if time_frame == 1 {
            Some(0int)
        } else if time_frame == 3 {
            Some(1int)
        } else if time_frame == 6 {
            Some(2int)
        } else if time_frame == 12 {
            Some(3int)
        } else if time_frame == 24 {
            Some(4int)
        } else if time_frame == 168 {
            Some(5int)
        } else if time_frame == 720 {
            Some(6int)
        } else if time_frame == 2160 {
            Some(7int)
        } else if time_frame == 4320 {
            Some(8int)
        } else if time_frame == 8640 {
            Some(9int)
        } else {
            None
        }),
{
    reveal_with_fuel(crate::account::first_index, 11);
}

/// A successful join adds exactly the ticket price to the pool and one to
/// the participant count, appends the user to the participants, and takes
/// exactly one ticket from the user's slot, leaving the other slots alone.
pub proof fn lemma_join_accounting(
    pre: Lottery,
    post: Lottery,
    pre_user: User,
    post_user: User,
    user_spot_index: u8,
    r: Result<(), ContractError>,
)
    requires
        join_outcome(pre, post, pre_user, post_user, user_spot_index, r),
        join_fits(pre, pre_user, user_spot_index),
        r is Ok,
    ensures
        post.real_pool_amount as int == pre.real_pool_amount as int + pre.ticket_price as int,
        post.real_count as int == pre.real_count as int + 1,
        post.participants.len() == pre.participants.len() + 1,
        post.participants@.last() == pre_user.id,
        forall|i: int| 0 <= i < pre.participants.len() ==> post.participants@[i] == pre.participants@[i],
        post_user.spot[user_spot_index as int] as int == pre_user.spot[user_spot_index as int] as int - 1,
        forall|j: int| 0 <= j < 10 && j != user_spot_index ==> post_user.spot[j] == pre_user.spot[j],
{
}

/// A purchase credits exactly `count` tickets to the slot of the time frame,
/// when it has one, and leaves every other slot alone; the buyer owns the
/// account afterwards.
pub proof fn lemma_purchase_credits_slot(pre: User, post: User, buyer: Pubkey, count: u8, time_frame: u64)
    requires
        tickets_added(pre, post, buyer, count, time_frame),
        slot_of(time_frame) matches Some(i) ==> pre.spot[i] + count <= u8::MAX,
    ensures
        post.id == buyer,
        forall|j: int|
            0 <= j < 10 ==> #[trigger] post.spot[j] as int == pre.spot[j] as int + (if slot_of(time_frame)
                == Some(j) {
                count as int
            } else {
                0
            }),
{
    lemma_slot_in_range(time_frame);
}

/// Settling takes exactly the fee from the pool, sets the prizes from the
/// pool before the fee, closes the lottery, and shows fifty times the
/// remaining pool on the ticker.
pub proof fn lemma_settle_accounting(pre: Lottery, post: Lottery, picks: Seq<usize>, ticker: WinnerTicker)
    requires
        lottery_settled(pre, post, picks),
        ticker_shows(ticker, post),
        settle_fits(pre),
    ensures
        post.real_pool_amount as int + tax_fee(pre.real_pool_amount, pre.dev_fee) == pre.real_pool_amount as int,
        forall|k: int| 0 <= k < 3 ==> #[trigger] post.winner_prize[k] == prize_split(pre.real_pool_amount)[k],
        post.state == 1,
        ticker.prize as int == post.real_pool_amount as int * 50,
        ticker.winner == post.winner[0],
        ticker.time_frame == pre.time_frame,
{
    assert(post.real_pool_amount * 50 <= pre.real_pool_amount * 50) by (nonlinear_arith)
        requires
            post.real_pool_amount <= pre.real_pool_amount,
    ;
}

/// A referred purchase writes the buyer into participant place
/// `real_count`, leaves the other places and their number alone, and adds
/// exactly one ticket price in base units to the pool.
pub proof fn lemma_referral_join_accounting(pre: Lottery, post: Lottery, buyer: Pubkey)
    requires
        lottery_referral_joined(pre, post, buyer),
        referral_join_fits(pre),
    ensures
        post.participants.len() == pre.participants.len(),
        post.participants@[pre.real_count as int] == buyer,
        forall|i: int|
            0 <= i < pre.participants.len() && i != pre.real_count ==> post.participants@[i] == pre.participants@[i],
        post.real_pool_amount as int == pre.real_pool_amount as int + pre.ticket_price as int * 1_000_000_000,
        post.real_count == pre.real_count,
{
    lemma_ticket_price_in_base_units(pre.ticket_price);
}

/// Creating a lottery counts exactly one more lottery, in all and in the
/// slot of its time frame, and leaves the other slots alone.
pub proof fn lemma_create_counts(pre: LotteryPdaInfo, post: LotteryPdaInfo, time_frame_index: u8)
    requires
        lottery_counted(pre, post, time_frame_index),
        time_frame_index < 10,
        pre.rounds[time_frame_index as int] < u8::MAX,
    ensures
        post.count as int == pre.count as int + 1,
        post.rounds[time_frame_index as int] as int == pre.rounds[time_frame_index as int] as int + 1,
        forall|j: int| 0 <= j < 10 && j != time_frame_index ==> post.rounds[j] == pre.rounds[j],
{
}

/// A created lottery holds the terms it was created with, starts open with
/// an empty pool and count, is one round further, and ends `time_frame`
/// hours after its start.
pub proof fn lemma_create_terms(
    pre: Lottery,
    post: Lottery,
    id: u8,
    time_frame: u64,
    ticket_price: u8,
    max_ticket: u64,
    dev_fee: u32,
    start_time: i64,
)
    requires
        lottery_created(pre, post, id, time_frame, ticket_price, max_ticket, dev_fee, start_time),
        time_frame * 3600 <= i64::MAX,
    ensures
        post.id == id && post.time_frame == time_frame && post.ticket_price == ticket_price,
        post.max_ticket == max_ticket && post.dev_fee == dev_fee && post.start_time == start_time,
        post.end_time as int == start_time as int + time_frame as int * 3600,
        post.state == 0 && post.real_pool_amount == 0 && post.real_count == 0,
        post.round as int == pre.round as int + 1,
        post.participants@ == pre.participants@,
{
    lemma_lottery_length_in_seconds(time_frame);
}

/// A user holds a ticket for a lottery exactly when the time frame of the
/// lottery has a slot and the user has at least one ticket in it.
pub proof fn lemma_has_ticket_reads_slot(user: User, lottery: Lottery)
    ensures
        has_ticket(user, lottery) <==> exists|i: int|
            slot_of(lottery.time_frame) == Some(i) && 0 <= i < 10 && #[trigger] user.spot[i] >= 1,
{
    lemma_slot_in_range(lottery.time_frame);
    if let Some(i) = slot_of(lottery.time_frame) {
        if user.spot[i] >= 1 {
            assert(user.spot[i] >= 1);
        }
    }
}

} // verus!
