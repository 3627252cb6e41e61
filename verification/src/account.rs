use vstd::prelude::*;
use crate::key::Pubkey;

verus! {

/// The program's settings, written once by `init`.
#[derive(Clone, Copy, Debug)]
pub struct GlobalAccount {
    pub initializer: Pubkey,
    pub is_initialized: u8,
    pub pool_toke_account: Pubkey,
    pub withdraw_token_account: Pubkey,
}

impl Default for GlobalAccount {
    /// Settings not written yet: all addresses zero, not initialized.
    fn default() -> (g: GlobalAccount)
        ensures
            g.initializer.0@ == Seq::new(32, |i: int| 0u8),
            g.is_initialized == 0,
            g.pool_toke_account.0@ == Seq::new(32, |i: int| 0u8),
            g.withdraw_token_account.0@ == Seq::new(32, |i: int| 0u8),
    {
        GlobalAccount {
            initializer: Pubkey::default(),
            is_initialized: 0,
            pool_toke_account: Pubkey::default(),
            withdraw_token_account: Pubkey::default(),
        }
    }
}

/// A ticket buyer: per time frame the number of unused tickets (`spot`),
/// and the referral data.
#[derive(Debug)]
pub struct User {
    pub id: Pubkey,
    pub spot: [u8; 10],
    pub referral_link: String,
    pub referrer: Pubkey,
    pub referral_list: Vec<Pubkey>,
}

/// One lottery round.  `state` is 0 while it is open and 1 once it has been
/// drawn.
#[derive(Debug)]
pub struct Lottery {
    pub id: u8,
    pub time_frame: u64,
    pub ticket_price: u8,
    pub max_ticket: u64,
    pub dev_fee: u32,
    pub start_time: i64,
    pub end_time: i64,
    pub state: u8,
    pub participants: Vec<Pubkey>,
    pub winner: [Pubkey; 3],
    pub prize_percent: [u8; 3],
    pub winner_prize: [u64; 3],
    pub real_pool_amount: u64,
    pub real_count: u32,
    pub round: u32,
}

/// How many lotteries were created, in all and per time frame.
#[derive(Clone, Copy, Debug)]
pub struct LotteryPdaInfo {
    pub count: u8,
    pub rounds: [u8; 10],
}

/// The last drawn first prize: who won it, how much, in which time frame.
#[derive(Clone, Copy, Debug)]
pub struct WinnerTicker {
    pub winner: Pubkey,
    pub prize: u64,
    pub time_frame: u64,
}

/// Every field of `post` equals that of `pre`.
pub open spec fn lottery_unchanged(pre: Lottery, post: Lottery) -> bool {
    &&& post.id == pre.id
    &&& post.time_frame == pre.time_frame
    &&& post.ticket_price == pre.ticket_price
    &&& post.max_ticket == pre.max_ticket
    &&& post.dev_fee == pre.dev_fee
    &&& post.start_time == pre.start_time
    &&& post.end_time == pre.end_time
    &&& post.state == pre.state
    &&& post.participants@ == pre.participants@
    &&& post.winner == pre.winner
    &&& post.prize_percent == pre.prize_percent
    &&& post.winner_prize == pre.winner_prize
    &&& post.real_pool_amount == pre.real_pool_amount
    &&& post.real_count == pre.real_count
    &&& post.round == pre.round
}

/// Every field of `post` equals that of `pre`.
pub open spec fn user_unchanged(pre: User, post: User) -> bool {
    &&& post.id == pre.id
    &&& post.spot == pre.spot
    &&& post.referral_link@ == pre.referral_link@
    &&& post.referrer == pre.referrer
    &&& post.referral_list@ == pre.referral_list@
}

/// The lottery durations in hours, one per ticket slot of a user.
pub open spec fn time_frames() -> Seq<u64> {
    seq![1u64, 3, 6, 12, 24, 168, 720, 2160, 4320, 8640]
}

/// The first position at or after `from` where `x` stands in `s`.
pub open spec fn first_index(s: Seq<u64>, x: u64, from: int) -> Option<int>
    decreases s.len() - from,
{
    if from < 0 || from >= s.len() {
        None
    } else if s[from] == x {
        Some(from)
    } else {
        first_index(s, x, from + 1)
    }
}

/// The ticket slot of a time frame: its first position in `time_frames()`.
pub open spec fn slot_of(time_frame: u64) -> Option<int> {
    first_index(time_frames(), time_frame, 0)
}

/// A position found by `first_index` lies in the sequence and holds `x`.
pub proof fn lemma_first_index_in_range(s: Seq<u64>, x: u64, from: int)
    requires
        0 <= from,
    ensures
        first_index(s, x, from) matches Some(i) ==> from <= i < s.len() && s[i] == x,
    decreases s.len() - from,
{
    if from < s.len() && s[from] != x {
        lemma_first_index_in_range(s, x, from + 1);
    }
}

/// A slot found for a time frame is one of the ten and lists that time frame.
pub proof fn lemma_slot_in_range(time_frame: u64)
    ensures
        slot_of(time_frame) matches Some(i) ==> 0 <= i < 10 && time_frames()[i] == time_frame,
{
    lemma_first_index_in_range(time_frames(), time_frame, 0);
}

/// The ticket slot of a time frame, as `slot_of` gives it.
pub fn time_frame_slot(time_frame: u64) -> (slot: Option<usize>)
    ensures
        match slot {
            Some(i) => slot_of(time_frame) == Some(i as int),
            None => slot_of(time_frame) is None,
        },
{
    let frames: [u64; 10] = [1, 3, 6, 12, 24, 168, 720, 2160, 4320, 8640];
    assert(frames@ =~= time_frames());
    let mut i: usize = 0;
    while i < 10
        invariant
            0 <= i <= 10,
            frames@ == time_frames(),
            first_index(time_frames(), time_frame, 0) == first_index(time_frames(), time_frame, i as int),
        decreases 10 - i,
    {
        if frames[i] == time_frame {
            return Some(i);
        }
        i = i + 1;
    }
    None
}

} // verus!
