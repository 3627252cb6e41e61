use lottery::{
    add_referral_user, check_end, check_join, check_referral_join, contains_key, create,
    draw_winner_indices, endlottery, get_user_ticket_num, getticket, init, join_to_lottery,
    refund_ticket_price, send_prize, set_state, setreferral, settle_lottery,
    time_frame_slot, ContractError, GlobalAccount, Lottery, LotteryPdaInfo, Pubkey, User,
    WinnerTicker, TOKEN_BASE_UNITS,
};

fn key(n: u8) -> Pubkey {
    Pubkey::new_from_array([n; 32])
}

fn keys(from: u8, count: usize) -> Vec<Pubkey> {
    (0..count).map(|i| key(from.wrapping_add(i as u8))).collect()
}

fn lottery_with(participants: Vec<Pubkey>, pool: u64, dev_fee: u32, time_frame: u64) -> Lottery {
    let len = participants.len() as u32;
    Lottery {
        id: 7,
        time_frame,
        ticket_price: 5,
        max_ticket: 10,
        dev_fee,
        start_time: 1_000,
        end_time: 1_000 + (time_frame as i64) * 3600,
        state: 0,
        participants,
        winner: [key(0); 3],
        prize_percent: [50, 30, 20],
        winner_prize: [0; 3],
        real_pool_amount: pool,
        real_count: len,
        round: 1,
    }
}

fn user_with(id: Pubkey, spot: [u8; 10]) -> User {
    User { id, spot, referral_link: String::new(), referrer: key(0), referral_list: Vec::new() }
}

fn ticker() -> WinnerTicker {
    WinnerTicker { winner: key(0), prize: 0, time_frame: 0 }
}

/// The indices the lottery draws for a seed: values from `0..n` until
/// three distinct ones have come, in increasing order.
fn expected_picks(seed: u128, n: u64) -> [usize; 3] {
    let mut rng = oorandom::Rand64::new(seed);
    let mut picked: Vec<usize> = Vec::new();
    while picked.len() < 3 {
        let x = rng.rand_range(0..n) as usize;
        if !picked.contains(&x) {
            picked.push(x);
        }
    }
    picked.sort();
    [picked[0], picked[1], picked[2]]
}

fn sorted(mut w: [usize; 3]) -> [usize; 3] {
    w.sort();
    w
}

/// The winners as participant positions, in increasing order.
fn winner_positions(l: &Lottery, participants: &[Pubkey]) -> [usize; 3] {
    let mut w = [0usize; 3];
    for k in 0..3 {
        w[k] = participants.iter().position(|p| p.same_as(&l.winner[k])).unwrap();
    }
    sorted(w)
}

#[test]
fn init_records_accounts_and_clears_counters() {
    let mut global = GlobalAccount::default();
    let mut info = LotteryPdaInfo { count: 9, rounds: [3; 10] };
    let r = init(&mut global, &mut info, key(1), key(2), key(3));
    assert_eq!(r, Ok(()));
    assert!(global.initializer.same_as(&key(1)));
    assert_eq!(global.is_initialized, 1);
    assert!(global.pool_toke_account.same_as(&key(2)));
    assert!(global.withdraw_token_account.same_as(&key(3)));
    assert_eq!(info.count, 0);
    assert_eq!(info.rounds, [0; 10]);
}

#[test]
fn global_account_default_is_zero() {
    let g = GlobalAccount::default();
    assert_eq!(g.initializer.to_bytes(), [0u8; 32]);
    assert_eq!(g.is_initialized, 0);
    assert_eq!(g.withdraw_token_account.to_bytes(), [0u8; 32]);
}

#[test]
fn create_sets_terms_and_counts_round() {
    let mut l = lottery_with(Vec::new(), 77, 0, 0);
    l.state = 1;
    l.real_count = 4;
    let mut info = LotteryPdaInfo { count: 2, rounds: [0, 1, 0, 0, 0, 0, 0, 0, 0, 0] };
    let r = create(&mut l, &mut info, 3, 1, 3, 20, 100, 5, 10_000);
    assert_eq!(r, Ok(()));
    assert_eq!(l.id, 3);
    assert_eq!(l.time_frame, 3);
    assert_eq!(l.ticket_price, 20);
    assert_eq!(l.max_ticket, 100);
    assert_eq!(l.dev_fee, 5);
    assert_eq!(l.start_time, 10_000);
    assert_eq!(l.end_time, 10_000 + 3 * 3600);
    assert_eq!(l.state, 0);
    assert_eq!(l.real_pool_amount, 0);
    assert_eq!(l.round, 2);
    assert_eq!(l.real_count, 0);
    assert_eq!(info.count, 3);
    assert_eq!(info.rounds, [0, 2, 0, 0, 0, 0, 0, 0, 0, 0]);
}

#[test]
fn create_wraps_a_long_time_frame_into_i64() {
    let mut l = lottery_with(Vec::new(), 0, 0, 0);
    let mut info = LotteryPdaInfo { count: 0, rounds: [0; 10] };
    let time_frame: u64 = 4_000_000_000_000_000;
    create(&mut l, &mut info, 1, 0, time_frame, 1, 1, 0, 0).unwrap();
    assert_eq!(l.end_time, (time_frame * 3600) as i64);
    assert!(l.end_time < 0);
}

#[test]
fn endlottery_refuses_a_drawn_lottery() {
    let mut l = lottery_with(keys(1, 5), 1000, 10, 24);
    l.state = 1;
    let mut t = ticker();
    assert_eq!(endlottery(&mut l, &mut t, 42), Err(ContractError::LotteryAlreadyEnded));
    assert_eq!(l.real_pool_amount, 1000);
}

#[test]
fn endlottery_needs_more_than_three_participants() {
    let mut l = lottery_with(keys(1, 3), 1000, 10, 24);
    let mut t = ticker();
    assert_eq!(endlottery(&mut l, &mut t, 42), Err(ContractError::NotEnoughParticipants));
    assert_eq!(l.state, 0);
}

#[test]
fn endlottery_draws_three_participants_and_takes_the_fee() {
    let participants = keys(1, 8);
    let mut l = lottery_with(participants.clone(), 1000, 10, 24);
    let mut t = ticker();
    let seed_time: i64 = 1_725_029_869;
    let picks = expected_picks(seed_time as u128, 8);
    let r = endlottery(&mut l, &mut t, seed_time);
    assert_eq!(r, Ok(Some(100)));
    assert_eq!(winner_positions(&l, &participants), picks);
    assert_eq!(l.real_pool_amount, 900);
    assert_eq!(l.winner_prize, [500, 300, 200]);
    assert_eq!(l.state, 1);
    assert!(t.winner.same_as(&l.winner[0]));
    assert_eq!(t.prize, 45_000);
    assert_eq!(t.time_frame, 24);
    // Drawn once: the second draw is refused.
    assert_eq!(endlottery(&mut l, &mut t, seed_time), Err(ContractError::LotteryAlreadyEnded));
}

#[test]
fn endlottery_seeds_with_the_timestamp_as_u128() {
    let participants = keys(10, 6);
    let mut l = lottery_with(participants.clone(), 0, 0, 1);
    let mut t = ticker();
    let seed_time: i64 = -5;
    let picks = expected_picks(seed_time as u128, 6);
    assert_eq!(endlottery(&mut l, &mut t, seed_time), Ok(Some(0)));
    assert_eq!(winner_positions(&l, &participants), picks);
}

#[test]
fn draw_winner_indices_follows_the_generator() {
    for seed in [0u128, 1, 99, 1_725_029_869, u128::MAX] {
        for n in [4u64, 5, 17, 300] {
            let w = draw_winner_indices(seed, n).unwrap();
            assert_eq!(sorted(w), expected_picks(seed, n));
            assert!(w.iter().all(|&x| (x as u64) < n));
            assert!(w[0] != w[1] && w[1] != w[2] && w[0] != w[2]);
        }
    }
}

#[test]
fn draw_winner_indices_is_deterministic() {
    let a = draw_winner_indices(12345, 50).unwrap();
    let b = draw_winner_indices(12345, 50).unwrap();
    assert_eq!(sorted(a), sorted(b));
}

#[test]
fn draw_from_three_gives_all_three() {
    let mut w = draw_winner_indices(7, 3).unwrap();
    w.sort();
    assert_eq!(w, [0, 1, 2]);
}

#[test]
fn settle_cuts_the_index_to_its_low_byte() {
    let participants = keys(0, 300);
    let mut l = lottery_with(participants.clone(), 10, 0, 24);
    let mut t = ticker();
    let tax = settle_lottery(&mut l, &mut t, [257, 2, 299]);
    assert_eq!(tax, 0);
    assert!(l.winner[0].same_as(&participants[1]));
    assert!(l.winner[1].same_as(&participants[2]));
    assert!(l.winner[2].same_as(&participants[43]));
}

#[test]
fn settle_rounds_fee_and_prizes_down() {
    let mut l = lottery_with(keys(1, 4), 99, 15, 24);
    let mut t = ticker();
    let tax = settle_lottery(&mut l, &mut t, [0, 1, 2]);
    assert_eq!(tax, 14);
    assert_eq!(l.real_pool_amount, 85);
    assert_eq!(l.winner_prize, [49, 29, 19]);
    let total: u64 = l.winner_prize.iter().sum();
    assert!(total <= 99);
    assert_eq!(t.prize, 85 * 50);
}

#[test]
fn drawn_lottery_cannot_be_joined() {
    let mut l = lottery_with(keys(1, 4), 100, 0, 24);
    let mut t = ticker();
    settle_lottery(&mut l, &mut t, [0, 1, 3]);
    let mut u = user_with(key(50), [1; 10]);
    assert_eq!(join_to_lottery(&mut l, &mut u, 0), Err(ContractError::LotteryEnded));
    assert_eq!(u.spot, [1; 10]);
}

#[test]
fn join_adds_participant_and_uses_a_ticket() {
    let mut l = lottery_with(keys(1, 2), 10, 0, 24);
    let mut u = user_with(key(9), [0, 0, 0, 0, 2, 0, 0, 0, 0, 0]);
    assert_eq!(join_to_lottery(&mut l, &mut u, 4), Ok(()));
    assert_eq!(l.participants.len(), 3);
    assert!(l.participants[2].same_as(&key(9)));
    assert_eq!(l.real_count, 3);
    assert_eq!(l.real_pool_amount, 15);
    assert_eq!(u.spot[4], 1);
}

#[test]
fn join_refuses_a_second_entry() {
    let mut l = lottery_with(keys(1, 2), 10, 0, 24);
    let mut u = user_with(key(2), [1; 10]);
    assert_eq!(join_to_lottery(&mut l, &mut u, 0), Err(ContractError::AlreadyParticipated));
    assert_eq!(l.participants.len(), 2);
    assert_eq!(l.real_pool_amount, 10);
}

#[test]
fn join_refuses_past_max_ticket() {
    let mut l = lottery_with(keys(1, 3), 10, 0, 24);
    l.max_ticket = 3;
    let mut u = user_with(key(40), [1; 10]);
    assert_eq!(join_to_lottery(&mut l, &mut u, 0), Err(ContractError::LotteryAlreadyFulled));
    l.max_ticket = 4;
    assert_eq!(join_to_lottery(&mut l, &mut u, 0), Ok(()));
    assert_eq!(l.participants.len() as u64, l.max_ticket);
}

#[test]
fn joins_keep_participants_distinct_and_within_limit() {
    let mut l = lottery_with(Vec::new(), 0, 0, 24);
    l.max_ticket = 4;
    for n in [1u8, 2, 1, 3, 2, 4, 5, 6] {
        let mut u = user_with(key(n), [1; 10]);
        let _ = join_to_lottery(&mut l, &mut u, 0);
    }
    assert_eq!(l.participants.len(), 4);
    for i in 0..4 {
        for j in 0..4 {
            if i != j {
                assert!(!l.participants[i].same_as(&l.participants[j]));
            }
        }
    }
}

#[test]
fn set_state_marks_drawn() {
    let mut l = lottery_with(keys(1, 4), 10, 0, 24);
    assert_eq!(set_state(&mut l), Ok(()));
    assert_eq!(l.state, 1);
    let mut t = ticker();
    assert_eq!(endlottery(&mut l, &mut t, 1), Err(ContractError::LotteryAlreadyEnded));
}

#[test]
fn refund_reopens_and_pays_one_ticket() {
    let mut l = lottery_with(keys(1, 4), 10, 0, 24);
    l.ticket_price = 3;
    l.state = 1;
    assert_eq!(refund_ticket_price(&mut l), 3 * TOKEN_BASE_UNITS);
    assert_eq!(l.state, 0);
    let mut t = ticker();
    assert!(endlottery(&mut l, &mut t, 1).is_ok());
}

#[test]
fn send_prize_scales_to_base_units() {
    let mut l = lottery_with(keys(1, 4), 10, 0, 24);
    l.winner_prize = [5, 3, 2];
    assert_eq!(send_prize(&l), [5 * TOKEN_BASE_UNITS, 3 * TOKEN_BASE_UNITS, 2 * TOKEN_BASE_UNITS]);
}

#[test]
fn setreferral_requires_the_user_as_signer() {
    let mut u = user_with(key(1), [0; 10]);
    assert_eq!(setreferral(&mut u, key(2), "abc".to_string()), Err(ContractError::InvalidUserAccount));
    assert_eq!(u.referral_link, "");
}

#[test]
fn setreferral_sets_a_new_link_once() {
    let mut u = user_with(key(1), [0; 10]);
    assert_eq!(setreferral(&mut u, key(1), "abc".to_string()), Ok(()));
    assert_eq!(u.referral_link, "abc");
    assert_eq!(setreferral(&mut u, key(1), "abc".to_string()), Err(ContractError::ReferralLinkAlreadyExist));
    assert_eq!(setreferral(&mut u, key(1), "xyz".to_string()), Ok(()));
    assert_eq!(u.referral_link, "xyz");
}

#[test]
fn setreferral_refuses_the_empty_link_on_a_new_user() {
    let mut u = user_with(key(1), [0; 10]);
    assert_eq!(setreferral(&mut u, key(1), String::new()), Err(ContractError::ReferralLinkAlreadyExist));
}

#[test]
fn add_referral_user_takes_the_place_real_count() {
    let mut l = lottery_with(keys(1, 4), 10, 0, 24);
    l.real_count = 1;
    l.ticket_price = 2;
    let mut referrer = user_with(key(100), [0; 10]);
    let mut referred = user_with(key(0), [0; 10]);
    let r = add_referral_user(&mut l, &mut referrer, &mut referred, key(77));
    assert_eq!(r, Ok(2 * TOKEN_BASE_UNITS));
    assert_eq!(l.participants.len(), 4);
    assert!(l.participants[1].same_as(&key(77)));
    assert!(l.participants[0].same_as(&key(1)));
    assert_eq!(l.real_pool_amount, 10 + 2 * TOKEN_BASE_UNITS);
    assert_eq!(referrer.referral_list.len(), 1);
    assert!(referrer.referral_list[0].same_as(&key(77)));
    assert!(referred.id.same_as(&key(77)));
}

#[test]
fn add_referral_user_refusals() {
    let mut l = lottery_with(keys(1, 4), 10, 0, 24);
    l.state = 2;
    let mut referrer = user_with(key(100), [0; 10]);
    let mut referred = user_with(key(0), [0; 10]);
    assert_eq!(add_referral_user(&mut l, &mut referrer, &mut referred, key(77)), Err(ContractError::LotteryEnded));
    assert_eq!(referrer.referral_list.len(), 0);
    assert!(referred.id.same_as(&key(0)));

    l.state = 1;
    assert_eq!(add_referral_user(&mut l, &mut referrer, &mut referred, key(2)), Err(ContractError::AlreadyParticipated));
    l.max_ticket = 4;
    assert_eq!(add_referral_user(&mut l, &mut referrer, &mut referred, key(90)), Err(ContractError::LotteryAlreadyFulled));
    assert_eq!(referrer.referral_list.len(), 0);
    assert_eq!(l.real_pool_amount, 10);
}

#[test]
fn getticket_charges_and_credits_the_time_frame_slot() {
    let mut l = lottery_with(Vec::new(), 100, 0, 168);
    l.ticket_price = 7;
    let mut u = user_with(key(0), [0, 0, 0, 0, 0, 1, 0, 0, 0, 0]);
    let amount = getticket(&mut l, &mut u, key(8), 3);
    assert_eq!(amount, 21);
    assert_eq!(l.real_pool_amount, 121);
    assert!(u.id.same_as(&key(8)));
    assert_eq!(u.spot, [0, 0, 0, 0, 0, 4, 0, 0, 0, 0]);
    assert_eq!(get_user_ticket_num(&u, &l), Ok(true));
}

#[test]
fn getticket_for_an_unlisted_time_frame_credits_nothing() {
    let mut l = lottery_with(Vec::new(), 0, 0, 2);
    let mut u = user_with(key(0), [0; 10]);
    assert_eq!(getticket(&mut l, &mut u, key(8), 4), 20);
    assert_eq!(u.spot, [0; 10]);
    assert_eq!(l.real_pool_amount, 20);
    assert_eq!(get_user_ticket_num(&u, &l), Ok(false));
}

#[test]
fn get_user_ticket_num_reads_the_slot() {
    let l = lottery_with(Vec::new(), 0, 0, 8640);
    let u = user_with(key(0), [5, 5, 5, 5, 5, 5, 5, 5, 5, 0]);
    assert_eq!(get_user_ticket_num(&u, &l), Ok(false));
    let u = user_with(key(0), [0, 0, 0, 0, 0, 0, 0, 0, 0, 1]);
    assert_eq!(get_user_ticket_num(&u, &l), Ok(true));
}

#[test]
fn time_frame_slots() {
    let frames = [1u64, 3, 6, 12, 24, 168, 720, 2160, 4320, 8640];
    for (i, tf) in frames.iter().enumerate() {
        assert_eq!(time_frame_slot(*tf), Some(i));
    }
    assert_eq!(time_frame_slot(0), None);
    assert_eq!(time_frame_slot(2), None);
    assert_eq!(time_frame_slot(u64::MAX), None);
}

#[test]
fn keys_compare_by_bytes() {
    let mut b = [4u8; 32];
    assert!(key(4).same_as(&Pubkey::new_from_array(b)));
    b[31] = 5;
    assert!(!key(4).same_as(&Pubkey::new_from_array(b)));
    assert_eq!(Pubkey::default().to_bytes(), [0u8; 32]);
    let v = keys(1, 3);
    assert!(contains_key(&v, &key(2)));
    assert!(!contains_key(&v, &key(9)));
}

#[test]
fn error_messages() {
    assert_eq!(ContractError::NotOwner.message(), "Invalid Owner");
    assert_eq!(ContractError::LotteryAlreadyFulled.message(), "There is no spot");
    assert_eq!(ContractError::LotteryNotFound.message(), "Lottery not founded");
    assert_eq!(ContractError::StillInProgress.message(), "Lottery is in progress");
}

#[test]
fn refusal_checks_match_the_instructions() {
    let mut l = lottery_with(keys(1, 3), 0, 0, 24);
    assert_eq!(check_end(&l), Some(ContractError::NotEnoughParticipants));
    assert_eq!(check_join(&l, &key(2)), Some(ContractError::AlreadyParticipated));
    assert_eq!(check_join(&l, &key(20)), None);
    assert_eq!(check_referral_join(&l, &key(20)), None);
    l.participants.push(key(4));
    assert_eq!(check_end(&l), None);
    l.max_ticket = 4;
    assert_eq!(check_join(&l, &key(20)), Some(ContractError::LotteryAlreadyFulled));
    assert_eq!(check_referral_join(&l, &key(20)), Some(ContractError::LotteryAlreadyFulled));
    l.state = 1;
    assert_eq!(check_end(&l), Some(ContractError::LotteryAlreadyEnded));
    assert_eq!(check_join(&l, &key(20)), Some(ContractError::LotteryEnded));
    assert_eq!(check_referral_join(&l, &key(2)), Some(ContractError::AlreadyParticipated));
    l.state = 2;
    assert_eq!(check_referral_join(&l, &key(20)), Some(ContractError::LotteryEnded));
    assert_eq!(check_join(&l, &key(20)), Some(ContractError::LotteryAlreadyFulled));
}

#[test]
fn winners_can_repeat_past_256_participants() {
    let participants = keys(0, 300);
    let mut l = lottery_with(participants, 10, 0, 24);
    let mut t = ticker();
    settle_lottery(&mut l, &mut t, [1, 257, 2]);
    assert!(l.winner[0].same_as(&l.winner[1]));
}

#[test]
fn winners_are_distinct_participants_up_to_256() {
    let participants = keys(0, 200);
    for seed in [3i64, 77, 1_700_000_000] {
        let mut l = lottery_with(participants.clone(), 1_000, 5, 24);
        l.max_ticket = 200;
        let mut t = ticker();
        assert!(endlottery(&mut l, &mut t, seed).unwrap().is_some());
        for k in 0..3 {
            assert!(contains_key(&participants, &l.winner[k]));
        }
        assert!(!l.winner[0].same_as(&l.winner[1]));
        assert!(!l.winner[1].same_as(&l.winner[2]));
        assert!(!l.winner[0].same_as(&l.winner[2]));
    }
}

#[test]
fn fee_and_remaining_pool_add_up() {
    let mut l = lottery_with(keys(1, 5), 12_345, 37, 24);
    let mut t = ticker();
    let fee = endlottery(&mut l, &mut t, 9).unwrap().unwrap();
    assert_eq!(fee, 12_345 * 37 / 100);
    assert_eq!(fee + l.real_pool_amount, 12_345);
    assert_eq!(l.winner_prize, [12_345 * 50 / 100, 12_345 * 30 / 100, 12_345 * 20 / 100]);
}

#[test]
fn create_opens_a_drawn_lottery_again() {
    let mut l = lottery_with(keys(1, 5), 0, 0, 24);
    l.state = 1;
    let mut info = LotteryPdaInfo { count: 0, rounds: [0; 10] };
    create(&mut l, &mut info, 1, 4, 24, 1, 10, 0, 0).unwrap();
    assert_eq!(check_end(&l), None);
    assert_eq!(check_join(&l, &key(99)), None);
}

#[test]
fn add_referral_user_refused_leaves_referrer_alone() {
    let mut l = lottery_with(vec![key(1)], 10, 0, 24);
    l.max_ticket = 5;
    let mut referrer = user_with(key(100), [0; 10]);
    let mut referred = user_with(key(0), [0; 10]);
    assert_eq!(
        add_referral_user(&mut l, &mut referrer, &mut referred, key(1)),
        Err(ContractError::AlreadyParticipated)
    );
    assert!(referrer.referral_list.is_empty());
    assert_eq!(l.participants.len(), 1);
}

#[test]
fn same_time_same_participants_same_winners() {
    let participants = keys(30, 12);
    let mut a = lottery_with(participants.clone(), 500, 3, 24);
    let mut b = lottery_with(participants.clone(), 9_000, 40, 720);
    let (mut ta, mut tb) = (ticker(), ticker());
    assert!(endlottery(&mut a, &mut ta, 1_234).unwrap().is_some());
    assert!(endlottery(&mut b, &mut tb, 1_234).unwrap().is_some());
    assert_eq!(winner_positions(&a, &participants), winner_positions(&b, &participants));
}

#[test]
fn join_keeps_count_and_list_in_step() {
    let mut l = lottery_with(keys(1, 2), 0, 0, 24);
    l.max_ticket = 3;
    let gap = l.real_count as i64 - l.participants.len() as i64;
    for n in [5u8, 1, 6, 7] {
        let mut u = user_with(key(n), [1; 10]);
        let _ = join_to_lottery(&mut l, &mut u, 2);
        assert_eq!(l.real_count as i64 - l.participants.len() as i64, gap);
        assert!(l.participants.len() as u64 <= l.max_ticket);
    }
}
