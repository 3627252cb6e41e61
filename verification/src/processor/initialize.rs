use vstd::prelude::*;
use crate::account::{GlobalAccount, LotteryPdaInfo};
use crate::error::ContractError;
use crate::key::Pubkey;

verus! {

/// Records who set the program up and its two token accounts, and clears the
/// lottery counters.
pub fn init(
    global_account: &mut GlobalAccount,
    lottery_pdakey_info: &mut LotteryPdaInfo,
    initializer: Pubkey,
    pool_token_account: Pubkey,
    withdraw_token_account: Pubkey,
) -> (r: Result<(), ContractError>)
    ensures
        r is Ok,
        final(global_account).initializer == initializer,
        final(global_account).is_initialized == 1,
        final(global_account).pool_toke_account == pool_token_account,
        final(global_account).withdraw_token_account == withdraw_token_account,
        final(lottery_pdakey_info).count == 0,
        final(lottery_pdakey_info).rounds@ == Seq::new(10, |i: int| 0u8),
{
    global_account.initializer = initializer;
    global_account.is_initialized = 1;
    global_account.pool_toke_account = pool_token_account;
    global_account.withdraw_token_account = withdraw_token_account;
    lottery_pdakey_info.count = 0;
    lottery_pdakey_info.rounds = [0u8; 10];
    assert(lottery_pdakey_info.rounds@ =~= Seq::new(10, |i: int| 0u8));
    Ok(())
}

} // verus!
