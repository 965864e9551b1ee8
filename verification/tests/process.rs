use membrane::constants::{SEC_IN_DAY, START};
use membrane::{
    calculate_reward, ErrorCode, Identity, Player, PlayersStats, QualityMultiplier, Reward, Stats,
};

fn key(byte: u8) -> Identity {
    Identity { bytes: [byte; 32] }
}

fn player_rated(rating: Option<i64>) -> Player {
    Player { identity: key(7), rating, claimable: 0, nft_counter: 1 }
}

fn schedule_today() -> Reward {
    Reward { victory: 1000, top_five: 500, top_ten: 200, kill: 100, days: 0 }
}

fn quality() -> QualityMultiplier {
    QualityMultiplier { common: 16800000000 }
}

fn play(player: &mut Player, placement: u64, kills: u64) -> Result<(), ErrorCode> {
    let mut schedule = schedule_today();
    let mut buffer = PlayersStats::new();
    calculate_reward(&mut schedule, player, &mut buffer, &quality(), placement, kills, START, 1)
}

#[test]
fn undefined_rating_is_refused() {
    let mut schedule = schedule_today();
    let mut player = player_rated(None);
    let mut buffer = PlayersStats::new();
    let result =
        calculate_reward(&mut schedule, &mut player, &mut buffer, &quality(), 1, 3, START, 1);
    assert_eq!(result, Err(ErrorCode::RatingUndefined));
    assert_eq!(schedule, schedule_today());
    assert_eq!(player, player_rated(None));
    assert_eq!(buffer, PlayersStats::new());
}

#[test]
fn undefined_rating_is_refused_whatever_else_holds() {
    let mut schedule = schedule_today();
    let mut player = Player { identity: key(1), rating: None, claimable: u64::MAX, nft_counter: 0 };
    let mut buffer = PlayersStats::new();
    for _ in 0..32 {
        assert_eq!(buffer.append(Stats::default()), Ok(()));
    }
    let zero = QualityMultiplier { common: 0 };
    let result = calculate_reward(
        &mut schedule,
        &mut player,
        &mut buffer,
        &zero,
        0,
        u64::MAX,
        START + 5 * SEC_IN_DAY,
        u64::MAX,
    );
    assert_eq!(result, Err(ErrorCode::RatingUndefined));
    assert_eq!(schedule, schedule_today());
    assert_eq!(player.claimable, u64::MAX);
    assert_eq!(buffer.counter, 32);
}

#[test]
fn negative_rating_is_refused() {
    let mut player = player_rated(Some(-1));
    assert_eq!(play(&mut player, 1, 0), Err(ErrorCode::RatingOverflow));
    assert_eq!(player, player_rated(Some(-1)));
    let mut lowest = player_rated(Some(i64::MIN));
    assert_eq!(play(&mut lowest, 11, 0), Err(ErrorCode::RatingOverflow));
    assert_eq!(lowest, player_rated(Some(i64::MIN)));
}

#[test]
fn victory_raises_rating_by_ten_and_pays_the_victory_amount() {
    let mut player = player_rated(Some(0));
    assert_eq!(play(&mut player, 1, 0), Ok(()));
    assert_eq!(player.rating, Some(10));
    assert_eq!(player.claimable, 800);
    let mut strong = player_rated(Some(500));
    assert_eq!(play(&mut strong, 1, 0), Ok(()));
    assert_eq!(strong.rating, Some(510));
    assert_eq!(strong.claimable, 1000);
}

#[test]
fn top_five_raises_rating_by_five() {
    for placement in [2u64, 3, 4, 5] {
        let mut player = player_rated(Some(300));
        assert_eq!(play(&mut player, placement, 0), Ok(()));
        assert_eq!(player.rating, Some(305));
        assert_eq!(player.claimable, 500);
    }
}

#[test]
fn top_ten_raises_rating_by_two() {
    for placement in [6u64, 7, 8, 9, 10] {
        let mut player = player_rated(Some(300));
        assert_eq!(play(&mut player, placement, 0), Ok(()));
        assert_eq!(player.rating, Some(302));
        assert_eq!(player.claimable, 200);
    }
}

#[test]
fn other_places_lower_rating_by_two_and_pay_no_placement_reward() {
    for placement in [11u64, 12, 50, 255, 256, 257, u64::MAX, 0] {
        let mut player = player_rated(Some(300));
        assert_eq!(play(&mut player, placement, 0), Ok(()));
        assert_eq!(player.rating, Some(298));
        assert_eq!(player.claimable, 0);
    }
}

#[test]
fn rating_never_falls_below_zero() {
    let mut player = player_rated(Some(1));
    assert_eq!(play(&mut player, 50, 0), Ok(()));
    assert_eq!(player.rating, Some(0));
    let mut at_zero = player_rated(Some(0));
    assert_eq!(play(&mut at_zero, 11, 0), Ok(()));
    assert_eq!(at_zero.rating, Some(0));
    let mut at_two = player_rated(Some(2));
    assert_eq!(play(&mut at_two, 11, 0), Ok(()));
    assert_eq!(at_two.rating, Some(0));
    let mut at_three = player_rated(Some(3));
    assert_eq!(play(&mut at_three, 11, 0), Ok(()));
    assert_eq!(at_three.rating, Some(1));
}

#[test]
fn reward_is_credited_to_the_balance() {
    let mut schedule = Reward { victory: 1000, top_five: 0, top_ten: 0, kill: 100, days: 0 };
    let mut player = Player { identity: key(9), rating: Some(50), claimable: 7, nft_counter: 4 };
    let mut buffer = PlayersStats::new();
    let result =
        calculate_reward(&mut schedule, &mut player, &mut buffer, &quality(), 1, 3, START, 1);
    assert_eq!(result, Ok(()));
    assert_eq!(player.claimable, 7 + 1040);
    assert_eq!(player.rating, Some(60));
    assert_eq!(player.identity, key(9));
    assert_eq!(player.nft_counter, 4);
    assert_eq!(buffer.counter, 1);
    assert_eq!(buffer.players[0], Stats { reward: 1040, id: key(9), placement: 1, kills: 3 });
}

#[test]
fn reward_follows_the_rating_tier() {
    let expected: [(i64, u64); 7] =
        [(0, 1040), (50, 1040), (100, 1040), (101, 1170), (200, 1170), (201, 1300), (9000, 1300)];
    for (rating, reward) in expected {
        let mut player = player_rated(Some(rating));
        assert_eq!(play(&mut player, 1, 3), Ok(()));
        assert_eq!(player.claimable, reward);
    }
}

#[test]
fn reward_rounds_down() {
    let mut schedule = Reward { victory: 0, top_five: 250, top_ten: 100, kill: 7, days: 0 };
    let mut buffer = PlayersStats::new();
    let mut second_tier = player_rated(Some(150));
    let result =
        calculate_reward(&mut schedule, &mut second_tier, &mut buffer, &quality(), 3, 2, START, 1);
    assert_eq!(result, Ok(()));
    assert_eq!(second_tier.claimable, 237);
    let mut first_tier = player_rated(Some(10));
    schedule.kill = 9;
    let result =
        calculate_reward(&mut schedule, &mut first_tier, &mut buffer, &quality(), 40, 5, START, 1);
    assert_eq!(result, Ok(()));
    assert_eq!(first_tier.claimable, 36);
}

#[test]
fn tier_is_taken_from_the_rating_before_the_match() {
    let mut player = player_rated(Some(100));
    assert_eq!(play(&mut player, 1, 0), Ok(()));
    assert_eq!(player.rating, Some(110));
    assert_eq!(player.claimable, 800);
}

#[test]
fn rating_too_large_to_raise_is_refused() {
    let mut player = player_rated(Some(i64::MAX));
    assert_eq!(play(&mut player, 1, 0), Err(ErrorCode::RatingOverflow));
    assert_eq!(player, player_rated(Some(i64::MAX)));
    let mut edge = player_rated(Some(i64::MAX - 9));
    assert_eq!(play(&mut edge, 1, 0), Err(ErrorCode::RatingOverflow));
    let mut fits = player_rated(Some(i64::MAX - 10));
    assert_eq!(play(&mut fits, 1, 0), Ok(()));
    assert_eq!(fits.rating, Some(i64::MAX));
    let mut five = player_rated(Some(i64::MAX - 4));
    assert_eq!(play(&mut five, 2, 0), Err(ErrorCode::RatingOverflow));
    let mut two = player_rated(Some(i64::MAX - 1));
    assert_eq!(play(&mut two, 6, 0), Err(ErrorCode::RatingOverflow));
    let mut lowered = player_rated(Some(i64::MAX));
    assert_eq!(play(&mut lowered, 11, 0), Ok(()));
    assert_eq!(lowered.rating, Some(i64::MAX - 2));
}

#[test]
fn balance_too_large_is_refused() {
    let mut schedule = schedule_today();
    let mut player =
        Player { identity: key(7), rating: Some(300), claimable: u64::MAX - 999, nft_counter: 1 };
    let before = player;
    let mut buffer = PlayersStats::new();
    let result =
        calculate_reward(&mut schedule, &mut player, &mut buffer, &quality(), 1, 0, START, 1);
    assert_eq!(result, Err(ErrorCode::ArithmeticOverflow));
    assert_eq!(player, before);
    assert_eq!(buffer, PlayersStats::new());
    player.claimable = u64::MAX - 1000;
    let result =
        calculate_reward(&mut schedule, &mut player, &mut buffer, &quality(), 1, 0, START, 1);
    assert_eq!(result, Ok(()));
    assert_eq!(player.claimable, u64::MAX);
}

#[test]
fn reward_too_large_is_refused() {
    let mut schedule =
        Reward { victory: u64::MAX, top_five: 0, top_ten: 0, kill: u64::MAX, days: 0 };
    let mut player = player_rated(Some(300));
    let mut buffer = PlayersStats::new();
    let result = calculate_reward(
        &mut schedule,
        &mut player,
        &mut buffer,
        &quality(),
        1,
        u64::MAX,
        START,
        1,
    );
    assert_eq!(result, Err(ErrorCode::ArithmeticOverflow));
    assert_eq!(player, player_rated(Some(300)));
    assert_eq!(buffer.counter, 0);
}

#[test]
fn reward_is_exact_where_a_product_exceeds_64_bits() {
    let mut schedule =
        Reward { victory: u64::MAX, top_five: 0, top_ten: 0, kill: 0, days: 0 };
    let mut player = player_rated(Some(0));
    let mut buffer = PlayersStats::new();
    let result =
        calculate_reward(&mut schedule, &mut player, &mut buffer, &quality(), 1, 0, START, 1);
    assert_eq!(result, Ok(()));
    assert_eq!(player.claimable, 14757395258967641292);
}

#[test]
fn full_buffer_is_refused_and_nothing_changes() {
    let mut schedule = schedule_today();
    schedule.days = 3;
    let stale = schedule;
    let mut player = player_rated(Some(50));
    let mut buffer = PlayersStats::new();
    for slot in 0..32u8 {
        let stat = Stats { reward: slot as u64, id: key(slot), placement: slot, kills: 1 };
        assert_eq!(buffer.append(stat), Ok(()));
    }
    let full = buffer;
    let result =
        calculate_reward(&mut schedule, &mut player, &mut buffer, &quality(), 1, 3, START, 1);
    assert_eq!(result, Err(ErrorCode::StatsOverflow));
    assert_eq!(schedule, stale);
    assert_eq!(player, player_rated(Some(50)));
    assert_eq!(buffer, full);
}

#[test]
fn refusals_come_in_a_fixed_order() {
    let mut schedule = schedule_today();
    let mut buffer = PlayersStats::new();
    for _ in 0..32 {
        assert_eq!(buffer.append(Stats::default()), Ok(()));
    }
    let mut player =
        Player { identity: key(7), rating: Some(i64::MAX), claimable: u64::MAX, nft_counter: 1 };
    let result =
        calculate_reward(&mut schedule, &mut player, &mut buffer, &quality(), 1, 3, START, 1);
    assert_eq!(result, Err(ErrorCode::RatingOverflow));
    player.rating = Some(5);
    let result =
        calculate_reward(&mut schedule, &mut player, &mut buffer, &quality(), 1, 3, START, 1);
    assert_eq!(result, Err(ErrorCode::ArithmeticOverflow));
    player.claimable = 0;
    let result =
        calculate_reward(&mut schedule, &mut player, &mut buffer, &quality(), 1, 3, START, 1);
    assert_eq!(result, Err(ErrorCode::StatsOverflow));
}

#[test]
fn schedule_is_derived_anew_on_another_day() {
    let mut schedule = schedule_today();
    let mut player = player_rated(Some(300));
    let mut buffer = PlayersStats::new();
    let result = calculate_reward(
        &mut schedule,
        &mut player,
        &mut buffer,
        &quality(),
        1,
        2,
        START + 3 * SEC_IN_DAY + 17,
        999954602,
    );
    assert_eq!(result, Ok(()));
    assert_eq!(
        schedule,
        Reward {
            victory: 8928166089,
            top_five: 2232041522,
            top_ten: 892816608,
            kill: 416647750,
            days: 3,
        }
    );
    assert_eq!(player.claimable, 8928166089 + 2 * 416647750);
    assert_eq!(buffer.players[0].reward, 8928166089 + 2 * 416647750);
}

#[test]
fn schedule_is_kept_on_the_same_day() {
    let mut schedule = schedule_today();
    schedule.days = 3;
    let mut player = player_rated(Some(300));
    let mut buffer = PlayersStats::new();
    let zero = QualityMultiplier { common: 0 };
    let result = calculate_reward(
        &mut schedule,
        &mut player,
        &mut buffer,
        &zero,
        1,
        0,
        START + 4 * SEC_IN_DAY - 1,
        999954602,
    );
    assert_eq!(result, Ok(()));
    assert_eq!(schedule, Reward { victory: 1000, top_five: 500, top_ten: 200, kill: 100, days: 3 });
    assert_eq!(player.claimable, 1000);
}

#[test]
fn schedule_is_derived_once_per_day() {
    let mut schedule = schedule_today();
    let mut player = player_rated(Some(300));
    let mut buffer = PlayersStats::new();
    let now = START + SEC_IN_DAY;
    let first =
        calculate_reward(&mut schedule, &mut player, &mut buffer, &quality(), 11, 0, now, 500);
    assert_eq!(first, Ok(()));
    let derived = schedule;
    assert_eq!(derived.days, 1);
    let other = QualityMultiplier { common: 3 };
    let second =
        calculate_reward(&mut schedule, &mut player, &mut buffer, &other, 11, 0, now + 60, 900);
    assert_eq!(second, Ok(()));
    assert_eq!(schedule, derived);
}

#[test]
fn refused_match_does_not_persist_a_new_schedule() {
    let mut schedule = schedule_today();
    let mut player =
        Player { identity: key(7), rating: Some(300), claimable: u64::MAX, nft_counter: 1 };
    let mut buffer = PlayersStats::new();
    let result = calculate_reward(
        &mut schedule,
        &mut player,
        &mut buffer,
        &quality(),
        1,
        0,
        START + 2 * SEC_IN_DAY,
        999954602,
    );
    assert_eq!(result, Err(ErrorCode::ArithmeticOverflow));
    assert_eq!(schedule, schedule_today());
}

#[test]
fn stat_keeps_the_low_bits_of_placement_and_kills() {
    let mut schedule = schedule_today();
    let mut player = player_rated(Some(300));
    let mut buffer = PlayersStats::new();
    let result =
        calculate_reward(&mut schedule, &mut player, &mut buffer, &quality(), 300, 513, START, 1);
    assert_eq!(result, Ok(()));
    assert_eq!(buffer.players[0], Stats { reward: 51300, id: key(7), placement: 44, kills: 1 });
}

#[test]
fn matches_are_recorded_in_order() {
    let mut schedule = schedule_today();
    let mut buffer = PlayersStats::new();
    let mut first = Player { identity: key(1), rating: Some(0), claimable: 0, nft_counter: 1 };
    let mut second = Player { identity: key(2), rating: Some(150), claimable: 0, nft_counter: 1 };
    assert_eq!(
        calculate_reward(&mut schedule, &mut first, &mut buffer, &quality(), 1, 0, START, 1),
        Ok(())
    );
    assert_eq!(
        calculate_reward(&mut schedule, &mut second, &mut buffer, &quality(), 2, 1, START, 1),
        Ok(())
    );
    assert_eq!(buffer.counter, 2);
    assert_eq!(buffer.get(0), Some(Stats { reward: 800, id: key(1), placement: 1, kills: 0 }));
    assert_eq!(buffer.get(1), Some(Stats { reward: 540, id: key(2), placement: 2, kills: 1 }));
    assert_eq!(buffer.get(2), None);
}

#[test]
fn matches_of_two_players_commute() {
    let now = START + 9 * SEC_IN_DAY + 100;
    let anna = Player { identity: key(1), rating: Some(95), claimable: 10, nft_counter: 1 };
    let bert = Player { identity: key(2), rating: Some(205), claimable: 20, nft_counter: 3 };

    let mut schedule_ab = schedule_today();
    let mut buffer_ab = PlayersStats::new();
    let (mut anna_ab, mut bert_ab) = (anna, bert);
    assert_eq!(
        calculate_reward(&mut schedule_ab, &mut anna_ab, &mut buffer_ab, &quality(), 1, 2, now, 777),
        Ok(())
    );
    assert_eq!(
        calculate_reward(&mut schedule_ab, &mut bert_ab, &mut buffer_ab, &quality(), 7, 0, now, 777),
        Ok(())
    );

    let mut schedule_ba = schedule_today();
    let mut buffer_ba = PlayersStats::new();
    let (mut anna_ba, mut bert_ba) = (anna, bert);
    assert_eq!(
        calculate_reward(&mut schedule_ba, &mut bert_ba, &mut buffer_ba, &quality(), 7, 0, now, 777),
        Ok(())
    );
    assert_eq!(
        calculate_reward(&mut schedule_ba, &mut anna_ba, &mut buffer_ba, &quality(), 1, 2, now, 777),
        Ok(())
    );

    assert_eq!(schedule_ab, schedule_ba);
    assert_eq!(schedule_ab.days, 9);
    assert_eq!(anna_ab, anna_ba);
    assert_eq!(bert_ab, bert_ba);
    assert_eq!(buffer_ab.get(0), buffer_ba.get(1));
    assert_eq!(buffer_ab.get(1), buffer_ba.get(0));
}
