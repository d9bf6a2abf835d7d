use moonbets::admin::{
    add_admin, initialize_platform, initialize_player, remove_admin, update_platform_limit,
    AddAdmin, InitializePlatform, InitializePlayer, RemoveAdmin, UpdatePlatformLimit,
};
use moonbets::betting::{callback_roll_dice, play, settle_roll, CallbackRollDiceCtx, Play};
use moonbets::dice::roll_die;
use moonbets::state::{Admin, ErrorCode, PlatformStats, Player, Pubkey, Vault};
use moonbets::treasury::{admin_deposit, admin_withdraw, withdraw, AdminDeposit, AdminWithdraw, Withdraw};

const T0: i64 = 1_700_000_000;

fn key(b: u8) -> Pubkey {
    Pubkey::new([b; 32])
}

fn oracle() -> Pubkey {
    key(0xAA)
}

fn platform(admin: Pubkey) -> PlatformStats {
    let mut ctx = InitializePlatform {
        admin,
        platform_stats: None,
        platform_vault: None,
        admin_account: None,
    };
    initialize_platform(&mut ctx, T0).unwrap();
    ctx.platform_stats.unwrap()
}

fn new_player(stats: PlatformStats) -> (Player, PlatformStats) {
    let mut ctx = InitializePlayer { payer: key(2), player: None, platform_stats: stats };
    initialize_player(&mut ctx).unwrap();
    (ctx.player.unwrap(), ctx.platform_stats)
}

fn play_ctx(player: Player, stats: PlatformStats, vault: u64) -> Play {
    Play {
        payer: key(2),
        payer_lamports: 10_000_000_000,
        player_key: key(3),
        player,
        platform_vault: Vault { lamports: vault },
        platform_stats: stats,
    }
}

fn randomness_for(last: u8) -> [u8; 32] {
    let mut r = [0u8; 32];
    r[31] = last;
    r
}

fn resolve(player: Player, stats: PlatformStats, last: u8) -> CallbackRollDiceCtx {
    let mut ctx = CallbackRollDiceCtx {
        vrf_program_identity: oracle(),
        oracle_identity: oracle(),
        player_key: key(3),
        player,
        platform_stats: stats,
    };
    callback_roll_dice(&mut ctx, randomness_for(last)).unwrap();
    ctx
}

#[test]
fn scenario_win_then_withdraw() {
    let stats = platform(key(1));
    assert_eq!(stats.max_bet_lamports, 5_000_000_000);
    assert_eq!(stats.daily_withdraw_limit, 15_000_000_000);
    let (player, stats) = new_player(stats);
    let mut p = play_ctx(player, stats, 0);
    let req = play(&mut p, 3, 1_000_000, 7).unwrap();
    assert_eq!(req.caller_seed, 7);
    assert!(req.player.same_as(&key(3)));
    assert_eq!(p.platform_vault.lamports, 1_000_000);
    let mut cb = CallbackRollDiceCtx {
        vrf_program_identity: oracle(),
        oracle_identity: oracle(),
        player_key: key(3),
        player: p.player,
        platform_stats: p.platform_stats,
    };
    let ev = callback_roll_dice(&mut cb, randomness_for(2)).unwrap();
    assert_eq!(ev.result, 3);
    assert!(ev.won);
    assert_eq!(ev.payout, 2_000_000);
    assert_eq!(cb.player.pending_withdrawal, 2_000_000);
    assert_eq!(cb.platform_stats.total_owed, 2_000_000);
    let mut w = Withdraw {
        payer: key(2),
        payer_lamports: 0,
        player: cb.player,
        platform_vault: Vault { lamports: 2_000_000 },
        platform_stats: cb.platform_stats,
    };
    withdraw(&mut w, T0 + 10).unwrap();
    assert_eq!(w.platform_vault.lamports, 0);
    assert_eq!(w.payer_lamports, 2_000_000);
    assert_eq!(w.player.pending_withdrawal, 0);
    assert_eq!(w.platform_stats.total_volume, 1_000_000);
    assert_eq!(w.platform_stats.total_owed, 0);
    assert_eq!(w.platform_stats.total_profit, 1_000_000);
}

#[test]
fn scenario_loss() {
    let (player, stats) = new_player(platform(key(1)));
    let mut p = play_ctx(player, stats, 0);
    play(&mut p, 3, 1_000_000, 7).unwrap();
    let mut cb = CallbackRollDiceCtx {
        vrf_program_identity: oracle(),
        oracle_identity: oracle(),
        player_key: key(3),
        player: p.player,
        platform_stats: p.platform_stats,
    };
    let ev = settle_roll(&mut cb, 5).unwrap();
    assert!(!ev.won);
    assert_eq!(ev.payout, 0);
    assert_eq!(cb.player.pending_withdrawal, 0);
    assert_eq!(cb.player.losses, 1);
    assert_eq!(cb.player.wins, 0);
    assert_eq!(cb.platform_stats.total_owed, 0);
    assert_eq!(cb.platform_stats.total_volume, 1_000_000);
}

#[test]
fn roll_die_reduces_last_qualifying_byte() {
    assert_eq!(roll_die(&[0u8; 32]), 1);
    assert_eq!(roll_die(&randomness_for(2)), 3);
    assert_eq!(roll_die(&randomness_for(4)), 5);
    assert_eq!(roll_die(&randomness_for(11)), 6);
    // 255 lies above the largest multiple of six under 256, so the byte
    // before it is taken.
    let mut r = [0u8; 32];
    r[31] = 255;
    r[30] = 1;
    assert_eq!(roll_die(&r), 2);
}

#[test]
fn roll_die_always_in_range() {
    for b in 0..=255u8 {
        let v = roll_die(&[b; 32]);
        assert!((1..=6).contains(&v));
    }
}

#[test]
fn valid_wager_moves_exact_stake() {
    let (player, stats) = new_player(platform(key(1)));
    for choice in 1..=6u8 {
        let mut p = play_ctx(player, stats, 500);
        play(&mut p, choice, 5_000_000_000, 0).unwrap();
        assert_eq!(p.player.current_bet, choice);
        assert_eq!(p.player.last_bet_amount, 5_000_000_000);
        assert_eq!(p.platform_vault.lamports, 5_000_000_500);
        assert_eq!(p.payer_lamports, 5_000_000_000);
    }
}

#[test]
fn invalid_choice_changes_nothing() {
    let (player, stats) = new_player(platform(key(1)));
    for choice in [0u8, 7, 255] {
        let mut p = play_ctx(player, stats, 500);
        assert_eq!(play(&mut p, choice, 10, 0).unwrap_err(), ErrorCode::InvalidChoice);
        assert_eq!(p.platform_vault.lamports, 500);
        assert_eq!(p.payer_lamports, 10_000_000_000);
        assert_eq!(p.player.current_bet, 0);
        assert_eq!(p.player.last_bet_amount, 0);
    }
}

#[test]
fn stake_above_limit_refused() {
    let (player, stats) = new_player(platform(key(1)));
    let mut p = play_ctx(player, stats, 0);
    assert_eq!(play(&mut p, 2, 5_000_000_001, 0).unwrap_err(), ErrorCode::ExceedsMaxBet);
    assert_eq!(p.platform_vault.lamports, 0);
}

#[test]
fn second_wager_in_flight_refused() {
    let (player, stats) = new_player(platform(key(1)));
    let mut p = play_ctx(player, stats, 0);
    play(&mut p, 2, 100, 0).unwrap();
    assert_eq!(play(&mut p, 4, 100, 0).unwrap_err(), ErrorCode::BetInFlight);
    assert_eq!(p.player.current_bet, 2);
    assert_eq!(p.platform_vault.lamports, 100);
}

#[test]
fn wager_without_funds_refused() {
    let (player, stats) = new_player(platform(key(1)));
    let mut p = play_ctx(player, stats, 0);
    p.payer_lamports = 99;
    assert_eq!(play(&mut p, 2, 100, 0).unwrap_err(), ErrorCode::InsufficientFunds);
}

#[test]
fn resolution_clears_wager_either_way() {
    let (player, stats) = new_player(platform(key(1)));
    for last in [2u8, 4] {
        let mut p = play_ctx(player, stats, 0);
        play(&mut p, 3, 1_000, 0).unwrap();
        let cb = resolve(p.player, p.platform_stats, last);
        assert_eq!(cb.player.current_bet, 0);
        assert_eq!(cb.player.last_bet_amount, 0);
        assert_eq!(cb.player.total_games, 1);
        assert_eq!(cb.platform_stats.total_bets, 1);
    }
}

#[test]
fn resolution_is_deterministic() {
    let (player, stats) = new_player(platform(key(1)));
    let mut p = play_ctx(player, stats, 0);
    play(&mut p, 6, 250, 0).unwrap();
    let a = resolve(p.player, p.platform_stats, 5);
    let b = resolve(p.player, p.platform_stats, 5);
    assert_eq!(a.player.last_result, 6);
    assert_eq!(a.player.last_result, b.player.last_result);
    assert_eq!(a.player.pending_withdrawal, 500);
    assert_eq!(b.player.pending_withdrawal, 500);
}

#[test]
fn callback_from_stranger_refused() {
    let (player, stats) = new_player(platform(key(1)));
    let mut p = play_ctx(player, stats, 0);
    play(&mut p, 3, 1_000, 0).unwrap();
    let mut cb = CallbackRollDiceCtx {
        vrf_program_identity: key(9),
        oracle_identity: oracle(),
        player_key: key(3),
        player: p.player,
        platform_stats: p.platform_stats,
    };
    assert_eq!(callback_roll_dice(&mut cb, randomness_for(2)).unwrap_err(), ErrorCode::Unauthorized);
    assert_eq!(cb.player.current_bet, 3);
}

#[test]
fn callback_without_wager_refused() {
    let (player, stats) = new_player(platform(key(1)));
    let mut cb = CallbackRollDiceCtx {
        vrf_program_identity: oracle(),
        oracle_identity: oracle(),
        player_key: key(3),
        player,
        platform_stats: stats,
    };
    assert_eq!(settle_roll(&mut cb, 3).unwrap_err(), ErrorCode::NoBetPlaced);
    assert_eq!(cb.player.total_games, 0);
}

#[test]
fn payout_overflow_fails_closed() {
    let (player, mut stats) = new_player(platform(key(1)));
    stats.max_bet_lamports = u64::MAX;
    let mut p = play_ctx(player, stats, 0);
    p.payer_lamports = u64::MAX;
    play(&mut p, 3, u64::MAX / 2 + 1, 0).unwrap();
    let mut cb = CallbackRollDiceCtx {
        vrf_program_identity: oracle(),
        oracle_identity: oracle(),
        player_key: key(3),
        player: p.player,
        platform_stats: p.platform_stats,
    };
    assert_eq!(settle_roll(&mut cb, 3).unwrap_err(), ErrorCode::ArithmeticOverflow);
    assert_eq!(cb.player.current_bet, 3);
    assert_eq!(cb.platform_stats.total_bets, 0);
}

#[test]
fn payout_overflow_fails_closed_on_loss() {
    let (player, mut stats) = new_player(platform(key(1)));
    stats.max_bet_lamports = u64::MAX;
    let mut p = play_ctx(player, stats, 0);
    p.payer_lamports = u64::MAX;
    play(&mut p, 3, u64::MAX / 2 + 1, 0).unwrap();
    let mut cb = CallbackRollDiceCtx {
        vrf_program_identity: oracle(),
        oracle_identity: oracle(),
        player_key: key(3),
        player: p.player,
        platform_stats: p.platform_stats,
    };
    assert_eq!(callback_roll_dice(&mut cb, randomness_for(4)).unwrap_err(), ErrorCode::ArithmeticOverflow);
    assert_eq!(cb.player.current_bet, 3);
    assert_eq!(cb.player.losses, 0);
    assert_eq!(cb.platform_stats.total_bets, 0);
}

fn winner(stake: u64) -> (Player, PlatformStats) {
    let (player, stats) = new_player(platform(key(1)));
    let mut p = play_ctx(player, stats, 0);
    play(&mut p, 3, stake, 0).unwrap();
    let cb = resolve(p.player, p.platform_stats, 2);
    (cb.player, cb.platform_stats)
}

#[test]
fn second_withdrawal_finds_nothing() {
    let (player, stats) = winner(1_000);
    let mut w = Withdraw {
        payer: key(2),
        payer_lamports: 0,
        player,
        platform_vault: Vault { lamports: 10_000 },
        platform_stats: stats,
    };
    withdraw(&mut w, T0 + 5).unwrap();
    assert_eq!(w.payer_lamports, 2_000);
    assert_eq!(withdraw(&mut w, T0 + 6).unwrap_err(), ErrorCode::NothingToWithdraw);
    assert_eq!(w.payer_lamports, 2_000);
    assert_eq!(w.platform_vault.lamports, 8_000);
}

#[test]
fn rolling_cap_rejects_excess() {
    let (player, mut stats) = winner(1_000);
    stats.daily_withdraw_limit = 3_000;
    let mut w = Withdraw {
        payer: key(2),
        payer_lamports: 0,
        player,
        platform_vault: Vault { lamports: 10_000 },
        platform_stats: stats,
    };
    withdraw(&mut w, T0 + 100).unwrap();
    assert_eq!(w.platform_stats.withdrawn_today, 2_000);
    // A second win of the same size, inside the same window, would take the
    // window to 4_000.
    w.player.pending_withdrawal = 2_000;
    w.platform_stats.total_owed = 2_000;
    w.platform_stats.total_volume = 2_000;
    assert_eq!(withdraw(&mut w, T0 + 86_400).unwrap_err(), ErrorCode::DailyLimitReached);
    assert_eq!(w.platform_stats.withdrawn_today, 2_000);
    // Once more than a day has passed since the last reset the window restarts.
    withdraw(&mut w, T0 + 86_401).unwrap();
    assert_eq!(w.platform_stats.withdrawn_today, 2_000);
    assert_eq!(w.platform_stats.last_reset, T0 + 86_401);
}

#[test]
fn calendar_bucket_tracks_days() {
    let (player, stats) = winner(1_000);
    let mut w = Withdraw {
        payer: key(2),
        payer_lamports: 0,
        player,
        platform_vault: Vault { lamports: 10_000 },
        platform_stats: stats,
    };
    withdraw(&mut w, 86_400 * 19_675 + 30).unwrap();
    assert_eq!(w.platform_stats.daily_withdrawal.date, 86_400 * 19_675);
    assert_eq!(w.platform_stats.daily_withdrawal.amount, 2_000);
    w.player.pending_withdrawal = 500;
    w.platform_stats.total_owed = 500;
    withdraw(&mut w, 86_400 * 19_675 + 40).unwrap();
    assert_eq!(w.platform_stats.daily_withdrawal.date, 86_400 * 19_675);
    assert_eq!(w.platform_stats.daily_withdrawal.amount, 2_500);
    assert_eq!(w.platform_stats.total_profit, 1_000);
}

#[test]
fn calendar_bucket_before_epoch_rounds_down() {
    let (player, mut stats) = winner(1_000);
    stats.last_reset = -100_000;
    let mut w = Withdraw {
        payer: key(2),
        payer_lamports: 0,
        player,
        platform_vault: Vault { lamports: 10_000 },
        platform_stats: stats,
    };
    withdraw(&mut w, -1).unwrap();
    assert_eq!(w.platform_stats.daily_withdrawal.date, -86_400);
}

#[test]
fn withdrawal_from_empty_vault_refused() {
    let (player, stats) = winner(1_000);
    let mut w = Withdraw {
        payer: key(2),
        payer_lamports: 0,
        player,
        platform_vault: Vault { lamports: 1_999 },
        platform_stats: stats,
    };
    assert_eq!(withdraw(&mut w, T0 + 5).unwrap_err(), ErrorCode::InsufficientFunds);
    assert_eq!(w.player.pending_withdrawal, 2_000);
}

#[test]
fn withdrawal_at_earliest_time_overflows() {
    let (player, stats) = winner(1_000);
    let mut w = Withdraw {
        payer: key(2),
        payer_lamports: 0,
        player,
        platform_vault: Vault { lamports: 10_000 },
        platform_stats: stats,
    };
    w.platform_stats.last_reset = i64::MIN;
    assert_eq!(withdraw(&mut w, i64::MIN).unwrap_err(), ErrorCode::ArithmeticOverflow);
}

fn add(stats: PlatformStats, who: u8) -> Result<PlatformStats, ErrorCode> {
    let mut ctx = AddAdmin { primary_admin: key(1), platform_stats: stats, admin: None, new_admin: key(who) };
    let ev = add_admin(&mut ctx)?;
    assert!(ev.admin.same_as(&key(who)));
    assert!(ev.added_by.same_as(&key(1)));
    Ok(ctx.platform_stats)
}

#[test]
fn eleventh_admin_refused() {
    let mut stats = platform(key(1));
    for who in 10..19u8 {
        stats = add(stats, who).unwrap();
    }
    assert_eq!(stats.admin_records, 10);
    // A deactivated record still counts against the cap.
    let mut rm = RemoveAdmin {
        primary_admin: key(1),
        platform_stats: stats,
        admin: Admin { pubkey: key(10), is_active: true },
    };
    remove_admin(&mut rm).unwrap();
    assert!(!rm.admin.is_active);
    assert_eq!(rm.platform_stats.admin_count, 9);
    assert_eq!(add(rm.platform_stats, 40).unwrap_err(), ErrorCode::MaxAdminsReached);
}

#[test]
fn add_admin_by_other_refused() {
    let stats = platform(key(1));
    let mut ctx = AddAdmin { primary_admin: key(5), platform_stats: stats, admin: None, new_admin: key(6) };
    assert_eq!(add_admin(&mut ctx).unwrap_err(), ErrorCode::Unauthorized);
    let mut ctx = AddAdmin {
        primary_admin: key(1),
        platform_stats: stats,
        admin: Some(Admin { pubkey: key(6), is_active: false }),
        new_admin: key(6),
    };
    assert_eq!(add_admin(&mut ctx).unwrap_err(), ErrorCode::AlreadyInitialized);
    assert_eq!(ctx.platform_stats.admin_count, 1);
}

#[test]
fn primary_admin_cannot_be_removed() {
    let stats = platform(key(1));
    for caller in [1u8, 5] {
        let mut rm = RemoveAdmin {
            primary_admin: key(caller),
            platform_stats: stats,
            admin: Admin { pubkey: key(1), is_active: true },
        };
        assert_eq!(remove_admin(&mut rm).unwrap_err(), ErrorCode::CannotRemovePrimaryAdmin);
        assert!(rm.admin.is_active);
    }
}

#[test]
fn remove_admin_checks() {
    let stats = add(platform(key(1)), 7).unwrap();
    let mut rm = RemoveAdmin {
        primary_admin: key(7),
        platform_stats: stats,
        admin: Admin { pubkey: key(7), is_active: true },
    };
    assert_eq!(remove_admin(&mut rm).unwrap_err(), ErrorCode::Unauthorized);
    let mut rm = RemoveAdmin {
        primary_admin: key(1),
        platform_stats: stats,
        admin: Admin { pubkey: key(7), is_active: true },
    };
    let ev = remove_admin(&mut rm).unwrap();
    assert!(ev.admin.same_as(&key(7)));
    assert!(ev.removed_by.same_as(&key(1)));
    assert!(!rm.admin.is_active);
    assert_eq!(rm.platform_stats.admin_count, 1);
    assert_eq!(rm.platform_stats.admin_records, 2);
}

#[test]
fn removing_inactive_admin_succeeds() {
    let stats = add(platform(key(1)), 7).unwrap();
    let mut rm = RemoveAdmin {
        primary_admin: key(1),
        platform_stats: stats,
        admin: Admin { pubkey: key(7), is_active: false },
    };
    let ev = remove_admin(&mut rm).unwrap();
    assert!(ev.admin.same_as(&key(7)));
    assert!(ev.removed_by.same_as(&key(1)));
    assert!(!rm.admin.is_active);
    assert!(rm.admin.pubkey.same_as(&key(7)));
    assert_eq!(rm.platform_stats.admin_count, 2);
    assert!(rm.platform_stats.primary_admin.same_as(&key(1)));
}

#[test]
fn platform_initialized_once() {
    let mut ctx = InitializePlatform {
        admin: key(1),
        platform_stats: None,
        platform_vault: None,
        admin_account: None,
    };
    initialize_platform(&mut ctx, T0).unwrap();
    let stats = ctx.platform_stats.unwrap();
    assert_eq!(stats.admin_count, 1);
    assert_eq!(stats.last_reset, T0);
    assert_eq!(stats.daily_withdrawal.date, T0 - T0 % 86_400);
    assert_eq!(stats.daily_withdrawal.amount, 0);
    assert!(stats.primary_admin.same_as(&key(1)));
    assert!(ctx.admin_account.unwrap().is_active);
    assert_eq!(initialize_platform(&mut ctx, T0 + 1).unwrap_err(), ErrorCode::AlreadyInitialized);
    assert_eq!(ctx.platform_stats.unwrap().last_reset, T0);
}

#[test]
fn platform_at_earliest_time_overflows() {
    let mut ctx = InitializePlatform {
        admin: key(1),
        platform_stats: None,
        platform_vault: None,
        admin_account: None,
    };
    assert_eq!(initialize_platform(&mut ctx, i64::MIN).unwrap_err(), ErrorCode::ArithmeticOverflow);
    assert!(ctx.platform_stats.is_none());
    assert!(ctx.admin_account.is_none());
}

#[test]
fn player_initialized_once() {
    let stats = platform(key(1));
    let (mut player, stats) = new_player(stats);
    assert_eq!(stats.total_users, 1);
    assert_eq!(stats.admin_count, 1);
    player.pending_withdrawal = 42;
    let mut ctx = InitializePlayer { payer: key(2), player: Some(player), platform_stats: stats };
    initialize_player(&mut ctx).unwrap();
    assert_eq!(ctx.player.unwrap().pending_withdrawal, 42);
    assert_eq!(ctx.platform_stats.total_users, 1);
}

fn limit_ctx(caller: u8, record: Option<Admin>) -> UpdatePlatformLimit {
    UpdatePlatformLimit { admin: key(caller), platform_stats: platform(key(1)), admin_account: record }
}

#[test]
fn limits_updated_by_field_name() {
    let mut ctx = limit_ctx(1, None);
    update_platform_limit(&mut ctx, "max_bet".to_string(), 7).unwrap();
    assert_eq!(ctx.platform_stats.max_bet_lamports, 7);
    update_platform_limit(&mut ctx, "daily_withdraw".to_string(), 9).unwrap();
    assert_eq!(ctx.platform_stats.daily_withdraw_limit, 9);
    assert_eq!(update_platform_limit(&mut ctx, "fee".to_string(), 1).unwrap_err(), ErrorCode::InvalidField);
    assert_eq!(ctx.platform_stats.max_bet_lamports, 7);
}

#[test]
fn secondary_admin_needs_own_active_record() {
    let mut ctx = limit_ctx(4, Some(Admin { pubkey: key(4), is_active: true }));
    update_platform_limit(&mut ctx, "max_bet".to_string(), 3).unwrap();
    let mut ctx = limit_ctx(4, Some(Admin { pubkey: key(4), is_active: false }));
    assert_eq!(update_platform_limit(&mut ctx, "max_bet".to_string(), 3).unwrap_err(), ErrorCode::Unauthorized);
    let mut ctx = limit_ctx(4, Some(Admin { pubkey: key(5), is_active: true }));
    assert_eq!(update_platform_limit(&mut ctx, "max_bet".to_string(), 3).unwrap_err(), ErrorCode::Unauthorized);
    let mut ctx = limit_ctx(4, None);
    assert_eq!(update_platform_limit(&mut ctx, "max_bet".to_string(), 3).unwrap_err(), ErrorCode::Unauthorized);
    assert_eq!(ctx.platform_stats.max_bet_lamports, 5_000_000_000);
}

#[test]
fn admin_treasury_moves() {
    let stats = platform(key(1));
    let mut d = AdminDeposit {
        admin: key(1),
        admin_lamports: 1_000,
        platform_vault: Vault { lamports: 0 },
        platform_stats: stats,
        admin_account: None,
    };
    let ev = admin_deposit(&mut d, 600).map(|e| e.amount);
    assert_eq!(ev, Ok(600));
    assert_eq!(d.admin_lamports, 400);
    assert_eq!(d.platform_vault.lamports, 600);
    assert_eq!(admin_deposit(&mut d, 401).unwrap_err(), ErrorCode::InsufficientFunds);
    let mut w = AdminWithdraw {
        admin: key(1),
        admin_lamports: 400,
        platform_vault: d.platform_vault,
        platform_stats: stats,
        admin_account: None,
    };
    let ev = admin_withdraw(&mut w, 600).unwrap();
    assert_eq!(ev.amount, 600);
    assert_eq!(w.platform_vault.lamports, 0);
    assert_eq!(w.admin_lamports, 1_000);
    assert_eq!(admin_withdraw(&mut w, 1).unwrap_err(), ErrorCode::InsufficientFunds);
    w.admin = key(8);
    assert_eq!(admin_withdraw(&mut w, 0).unwrap_err(), ErrorCode::Unauthorized);
}

#[test]
fn error_messages() {
    assert_eq!(ErrorCode::InvalidChoice.message(), "Choice must be between 1 and 6");
    assert_eq!(ErrorCode::DailyLimitReached.message(), "Platform daily payout limit reached");
    assert_eq!(ErrorCode::CannotRemovePrimaryAdmin.message(), "Cannot remove primary admin");
    assert_eq!(ErrorCode::ArithmeticOverflow.message(), "Arithmetic overflow");
}
