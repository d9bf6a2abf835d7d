use vstd::prelude::*;

use crate::admin::{add_admin_error, admin_removed, remove_admin_error, AddAdmin, RemoveAdmin, MAX_ADMINS};
use crate::betting::{
    play_error, resolved_player, roll_error, roll_event, staged, CallbackRollDiceCtx, Play,
};
use crate::dice::die_face;
use crate::state::{ErrorCode, Player};
use crate::treasury::{paid_out, stats_after_payout, withdraw_error, Withdraw, SECONDS_PER_DAY};

verus! {

/// A wager on a face from 1 to 6 whose stake is within the platform's limit
/// is accepted on an idle player account that can pay the stake; it stages
/// the choice and the stake and moves exactly the stake into the vault.
pub proof fn lemma_valid_wager_accepted(ctx: Play, user_choice: u8, bet_amount: u64)
    requires
        1 <= user_choice <= 6,
        bet_amount <= ctx.platform_stats.max_bet_lamports,
        ctx.player.current_bet == 0,
        ctx.payer_lamports >= bet_amount,
        ctx.platform_vault.lamports + bet_amount <= u64::MAX,
    ensures
        play_error(ctx, user_choice, bet_amount).is_none(),
        staged(ctx, user_choice, bet_amount).player.current_bet == user_choice,
        staged(ctx, user_choice, bet_amount).player.last_bet_amount == bet_amount,
        staged(ctx, user_choice, bet_amount).platform_vault.lamports
            == ctx.platform_vault.lamports + bet_amount,
        staged(ctx, user_choice, bet_amount).payer_lamports == ctx.payer_lamports - bet_amount,
{
}

/// A wager on anything but a face from 1 to 6 is refused with
/// `InvalidChoice`, whatever the accounts hold; a refused wager changes nothing.
pub proof fn lemma_invalid_choice_refused(ctx: Play, user_choice: u8, bet_amount: u64)
    requires
        !(1 <= user_choice <= 6),
    ensures
        play_error(ctx, user_choice, bet_amount) == Some(ErrorCode::InvalidChoice),
{
}

/// Resolution depends on the random value and the staged choice alone: the
/// wager wins exactly when the rolled face equals the choice, and the reported
/// payout is twice the stake on a win and nothing on a loss.
pub proof fn lemma_resolution_deterministic(
    a: CallbackRollDiceCtx,
    b: CallbackRollDiceCtx,
    randomness: Seq<u8>,
)
    requires
        a.player == b.player,
        a.player_key == b.player_key,
        roll_error(a, die_face(randomness)).is_none(),
    ensures
        roll_event(a, die_face(randomness)) == roll_event(b, die_face(randomness)),
        roll_event(a, die_face(randomness)).won <==> die_face(randomness) == a.player.current_bet,
        roll_event(a, die_face(randomness)).won ==> roll_event(a, die_face(randomness)).payout == 2
            * a.player.last_bet_amount,
        !roll_event(a, die_face(randomness)).won ==> roll_event(a, die_face(randomness)).payout == 0,
{
}

/// The player account stays well formed through a wager: an accepted wager
/// stages a face of the die, and resolution returns the account to idle.
pub proof fn lemma_player_stays_well_formed(ctx: Play, user_choice: u8, bet_amount: u64, outcome: u8)
    requires
        ctx.player.wf(),
        play_error(ctx, user_choice, bet_amount).is_none(),
    ensures
        staged(ctx, user_choice, bet_amount).player.wf(),
        !staged(ctx, user_choice, bet_amount).player.idle(),
        resolved_player(staged(ctx, user_choice, bet_amount).player, outcome).wf(),
{
}

/// Resolution always ends the in-flight window, on a win and on a loss.
pub proof fn lemma_resolution_clears_wager(p: Player, outcome: u8)
    ensures
        resolved_player(p, outcome).current_bet == 0,
        resolved_player(p, outcome).last_bet_amount == 0,
        resolved_player(p, outcome).idle(),
{
}

/// A payout empties the pending balance, so a second withdrawal with no win in
/// between is refused with `NothingToWithdraw`.
pub proof fn lemma_no_double_withdrawal(ctx: Withdraw, now: i64, later: i64)
    requires
        withdraw_error(ctx, now).is_none(),
    ensures
        withdraw_error(paid_out(ctx, now), later) == Some(ErrorCode::NothingToWithdraw),
{
}

/// Within one rolling window, a payout that would take the window's total
/// above the daily limit is refused with `DailyLimitReached`.
pub proof fn lemma_window_cap_enforced(ctx: Withdraw, now: i64)
    requires
        ctx.player.pending_withdrawal > 0,
        now - ctx.platform_stats.last_reset <= SECONDS_PER_DAY,
        ctx.platform_stats.withdrawn_today + ctx.player.pending_withdrawal
            > ctx.platform_stats.daily_withdraw_limit,
    ensures
        withdraw_error(ctx, now) == Some(ErrorCode::DailyLimitReached),
{
}

/// A payout that succeeds never takes the rolling window's total above the
/// daily limit; inside an unexpired window it adds exactly the amount paid and
/// keeps the window's start. Applied to each payout in turn, this bounds what
/// any sequence of payouts within one window can pay out in total.
pub proof fn lemma_window_total_within_limit(ctx: Withdraw, now: i64)
    requires
        withdraw_error(ctx, now).is_none(),
    ensures
        paid_out(ctx, now).platform_stats.withdrawn_today
            <= ctx.platform_stats.daily_withdraw_limit,
        paid_out(ctx, now).platform_stats.daily_withdraw_limit
            == ctx.platform_stats.daily_withdraw_limit,
        now - ctx.platform_stats.last_reset <= SECONDS_PER_DAY ==> {
            &&& paid_out(ctx, now).platform_stats.withdrawn_today
                == ctx.platform_stats.withdrawn_today + ctx.player.pending_withdrawal
            &&& paid_out(ctx, now).platform_stats.last_reset == ctx.platform_stats.last_reset
        },
{
}

/// Two payouts in one rolling window whose sum, with what the window had paid
/// before, exceeds the daily limit: the second is refused with
/// `DailyLimitReached`.
pub proof fn lemma_window_cap_over_two_payouts(first: Withdraw, now: i64, second: Withdraw, later: i64)
    requires
        withdraw_error(first, now).is_none(),
        second.platform_stats == stats_after_payout(
            first.platform_stats,
            now,
            first.player.pending_withdrawal,
        ),
        second.player.pending_withdrawal > 0,
        later - second.platform_stats.last_reset <= SECONDS_PER_DAY,
        second.platform_stats.withdrawn_today + second.player.pending_withdrawal
            > first.platform_stats.daily_withdraw_limit,
    ensures
        withdraw_error(second, later) == Some(ErrorCode::DailyLimitReached),
{
}

/// Once the cap of admin records has been created, deactivated ones included,
/// adding another admin is refused with `MaxAdminsReached`.
pub proof fn lemma_admin_cap(ctx: AddAdmin)
    requires
        ctx.primary_admin@ == ctx.platform_stats.primary_admin@,
        ctx.platform_stats.admin_records >= MAX_ADMINS,
    ensures
        add_admin_error(ctx) == Some(ErrorCode::MaxAdminsReached),
{
}

/// Removing an admin never lowers the count of records ever created, so it
/// frees no slot under the cap; it leaves the record inactive and counts an
/// active admin less only where the record was active.
pub proof fn lemma_removal_keeps_record_count(ctx: RemoveAdmin)
    requires
        remove_admin_error(ctx).is_none(),
    ensures
        admin_removed(ctx).platform_stats.admin_records == ctx.platform_stats.admin_records,
        admin_removed(ctx).admin.is_active == false,
        ctx.admin.is_active ==> admin_removed(ctx).platform_stats.admin_count
            == ctx.platform_stats.admin_count - 1,
        !ctx.admin.is_active ==> admin_removed(ctx).platform_stats.admin_count
            == ctx.platform_stats.admin_count,
{
}

/// Removing the primary admin's record is refused with
/// `CannotRemovePrimaryAdmin`, whoever the caller is.
pub proof fn lemma_primary_admin_irremovable(ctx: RemoveAdmin)
    requires
        ctx.admin.pubkey@ == ctx.platform_stats.primary_admin@,
    ensures
        remove_admin_error(ctx) == Some(ErrorCode::CannotRemovePrimaryAdmin),
{
}

} // verus!
