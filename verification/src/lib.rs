//! Account model and instruction logic of an on-chain ticket lottery:
//! lotteries are created, users buy tickets and join, three winners are
//! drawn, prizes and fees are computed.  Token transfers, the clock and the
//! account storage are left to the caller: each instruction here takes the
//! accounts' data and gives back the amounts to transfer.

pub mod key;
pub mod error;
pub mod account;
pub mod random;
pub mod processor;
pub mod laws;

pub use account::{time_frame_slot, GlobalAccount, Lottery, LotteryPdaInfo, User, WinnerTicker};
pub use error::ContractError;
pub use key::{contains_key, Pubkey};
pub use processor::initialize::init;
pub use processor::lottery::{
    check_end, check_join, create, endlottery, join_to_lottery, set_state, settle_lottery,
};
pub use processor::prize::{send_prize, TOKEN_BASE_UNITS};
pub use processor::referral::{add_referral_user, check_referral_join, setreferral};
pub use processor::refund::refund_ticket_price;
pub use processor::user::{get_user_ticket_num, getticket};
pub use random::{draw_winner_indices, MAX_DRAWS};
