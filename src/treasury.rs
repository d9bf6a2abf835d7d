use vstd::prelude::*;

use vstd::arithmetic::div_mod::lemma_fundamental_div_mod_converse;

use crate::admin::authorized;
use crate::admin::is_authorized;
use crate::state::{Admin, AdminDeposited, AdminWithdrawal, DailyWithdrawal, ErrorCode, PlatformStats, Player, Pubkey, Vault};

verus! {

/// The length of the rolling payout window and of a calendar day.
pub const SECONDS_PER_DAY: u64 = 86400;

/// The accounts that a player's payout touches.
#[derive(Clone, Copy, Debug)]
pub struct Withdraw {
    /// The player, who signs and receives the payout.
    pub payer: Pubkey,
    /// The player's spendable balance.
    pub payer_lamports: u64,
    pub player: Player,
    pub platform_vault: Vault,
    pub platform_stats: PlatformStats,
}

/// The accounts that an admin's withdrawal from the vault touches.
#[derive(Clone, Copy, Debug)]
pub struct AdminWithdraw {
    pub admin: Pubkey,
    /// The admin's spendable balance.
    pub admin_lamports: u64,
    pub platform_vault: Vault,
    pub platform_stats: PlatformStats,
    /// The caller's own admin record; the primary admin needs none.
    pub admin_account: Option<Admin>,
}

/// The accounts that an admin's deposit into the vault touches.
#[derive(Clone, Copy, Debug)]
pub struct AdminDeposit {
    pub admin: Pubkey,
    /// The admin's spendable balance.
    pub admin_lamports: u64,
    pub platform_vault: Vault,
    pub platform_stats: PlatformStats,
    /// The caller's own admin record; the primary admin needs none.
    pub admin_account: Option<Admin>,
}

/// The start of the calendar day that holds `now`: `now` rounded down to a
/// multiple of a day.
pub open spec fn day_start(now: int) -> int {
    (now / SECONDS_PER_DAY as int) * SECONDS_PER_DAY as int
}

/// The start of the day that holds `now`, or `None` where it lies below the
/// range of `i64`.
pub fn day_start_of(now: i64) -> (r: Option<i64>)
    ensures
        r is Some <==> day_start(now as int) >= i64::MIN,
        r matches Some(d) ==> d == day_start(now as int),
{
    let d: u64 = SECONDS_PER_DAY;
    if now >= 0 {
        let q: u64 = (now as u64) / d;
        proof {
            lemma_fundamental_div_mod_converse(now as int, d as int, q as int, (now as u64 % d) as int);
        }
        Some((q * d) as i64)
    } else {
        let m: u64 = (-(now as i128)) as u64;
        let q: u64 = (m + (d - 1)) / d;
        proof {
            let mi = m as int;
            let qi = q as int;
            let di = d as int;
            let ri = qi * di - mi;
            vstd::arithmetic::div_mod::lemma_fundamental_div_mod(mi + (di - 1), di);
            vstd::arithmetic::div_mod::lemma_mod_bound(mi + (di - 1), di);
            assert(qi == (mi + (di - 1)) / di);
            assert(0 <= ri < di) by (nonlinear_arith)
                requires
                    di * qi + (mi + (di - 1)) % di == mi + (di - 1),
                    0 <= (mi + (di - 1)) % di < di,
                    ri == qi * di - mi,
            {
            }
            lemma_fundamental_div_mod_converse(now as int, di, -qi, ri);
        }
        let start: i128 = -((q as i128) * (d as i128));
        if start < i64::MIN as i128 {
            None
        } else {
            Some(start as i64)
        }
    }
}

/// Whether the rolling window has run out at `now`.
pub open spec fn window_expired(s: PlatformStats, now: i64) -> bool {
    now - s.last_reset > SECONDS_PER_DAY
}

/// What the rolling window has paid out before this payout, after any reset.
pub open spec fn paid_in_window(s: PlatformStats, now: i64) -> int {
    if window_expired(s, now) {
        0
    } else {
        s.withdrawn_today as int
    }
}

/// The calendar-day bucket once `amount` more is paid out at `now`.
pub open spec fn bucket_after(b: DailyWithdrawal, now: i64, amount: u64) -> DailyWithdrawal {
    if b.date == day_start(now as int) {
        DailyWithdrawal { date: b.date, amount: (b.amount + amount) as u64 }
    } else {
        DailyWithdrawal { date: day_start(now as int) as i64, amount }
    }
}

/// The error that a player's payout at `now` meets, if any, in the order of
/// the checks.
pub open spec fn withdraw_error(ctx: Withdraw, now: i64) -> Option<ErrorCode> {
    let amount = ctx.player.pending_withdrawal;
    let s = ctx.platform_stats;
    if amount == 0 {
        Some(ErrorCode::NothingToWithdraw)
    } else if paid_in_window(s, now) + amount > s.daily_withdraw_limit {
        Some(ErrorCode::DailyLimitReached)
    } else if ctx.platform_vault.lamports < amount {
        Some(ErrorCode::InsufficientFunds)
    } else if ctx.payer_lamports + amount > u64::MAX
        || day_start(now as int) < i64::MIN
        || (s.daily_withdrawal.date == day_start(now as int) && s.daily_withdrawal.amount + amount > u64::MAX)
        || s.total_owed < amount
        || s.total_volume < s.total_owed - amount {
        Some(ErrorCode::ArithmeticOverflow)
    } else {
        None
    }
}

/// The aggregates once a payout of `amount` at `now` is booked.
pub open spec fn stats_after_payout(s: PlatformStats, now: i64, amount: u64) -> PlatformStats {
    PlatformStats {
        withdrawn_today: (paid_in_window(s, now) + amount) as u64,
        last_reset: if window_expired(s, now) {
            now
        } else {
            s.last_reset
        },
        daily_withdrawal: bucket_after(s.daily_withdrawal, now, amount),
        total_owed: (s.total_owed - amount) as u64,
        total_profit: (s.total_volume - (s.total_owed - amount)) as u64,
        ..s
    }
}

/// The accounts once the player's whole pending payout is paid at `now`.
pub open spec fn paid_out(ctx: Withdraw, now: i64) -> Withdraw {
    let amount = ctx.player.pending_withdrawal;
    Withdraw {
        payer_lamports: (ctx.payer_lamports + amount) as u64,
        player: Player { pending_withdrawal: 0, ..ctx.player },
        platform_vault: Vault { lamports: (ctx.platform_vault.lamports - amount) as u64 },
        platform_stats: stats_after_payout(ctx.platform_stats, now, amount),
        ..ctx
    }
}

/// Pays the player's whole pending payout from the vault at time `now`, within
/// the platform-wide cap on what one rolling window may pay out.
pub fn withdraw(ctx: &mut Withdraw, now: i64) -> (r: Result<(), ErrorCode>)
    ensures
        match r {
            Ok(()) => {
                &&& withdraw_error(*old(ctx), now).is_none()
                &&& *final(ctx) == paid_out(*old(ctx), now)
            },
            Err(e) => {
                &&& withdraw_error(*old(ctx), now) == Some(e)
                &&& *final(ctx) == *old(ctx)
            },
        },
{
    let amount = ctx.player.pending_withdrawal;
    if amount == 0 {
        return Err(ErrorCode::NothingToWithdraw);
    }
    let expired = (now as i128) - (ctx.platform_stats.last_reset as i128) > SECONDS_PER_DAY as i128;
    let paid: u64 = if expired {
        0
    } else {
        ctx.platform_stats.withdrawn_today
    };
    if paid > ctx.platform_stats.daily_withdraw_limit || amount > ctx.platform_stats.daily_withdraw_limit
        - paid {
        return Err(ErrorCode::DailyLimitReached);
    }
    if ctx.platform_vault.lamports < amount {
        return Err(ErrorCode::InsufficientFunds);
    }
    if ctx.payer_lamports > u64::MAX - amount {
        return Err(ErrorCode::ArithmeticOverflow);
    }
    let day = match day_start_of(now) {
        Some(d) => d,
        None => {
            return Err(ErrorCode::ArithmeticOverflow);
        },
    };
    let same_day = ctx.platform_stats.daily_withdrawal.date == day;
    if same_day && ctx.platform_stats.daily_withdrawal.amount > u64::MAX - amount {
        return Err(ErrorCode::ArithmeticOverflow);
    }
    if ctx.platform_stats.total_owed < amount {
        return Err(ErrorCode::ArithmeticOverflow);
    }
    let owed = ctx.platform_stats.total_owed - amount;
    if ctx.platform_stats.total_volume < owed {
        return Err(ErrorCode::ArithmeticOverflow);
    }
    ctx.platform_vault.lamports = ctx.platform_vault.lamports - amount;
    ctx.payer_lamports = ctx.payer_lamports + amount;
    if expired {
        ctx.platform_stats.last_reset = now;
    }
    ctx.platform_stats.withdrawn_today = paid + amount;
    if same_day {
        ctx.platform_stats.daily_withdrawal.amount = ctx.platform_stats.daily_withdrawal.amount + amount;
    } else {
        ctx.platform_stats.daily_withdrawal = DailyWithdrawal { date: day, amount };
    }
    ctx.platform_stats.total_owed = owed;
    ctx.platform_stats.total_profit = ctx.platform_stats.total_volume - owed;
    ctx.player.pending_withdrawal = 0;
    Ok(())
}

/// The error that an admin's withdrawal of `amount` meets, if any.
pub open spec fn admin_withdraw_error(ctx: AdminWithdraw, amount: u64) -> Option<ErrorCode> {
    if !authorized(ctx.admin, ctx.platform_stats, ctx.admin_account) {
        Some(ErrorCode::Unauthorized)
    } else if ctx.platform_vault.lamports < amount {
        Some(ErrorCode::InsufficientFunds)
    } else if ctx.admin_lamports + amount > u64::MAX {
        Some(ErrorCode::ArithmeticOverflow)
    } else {
        None
    }
}

/// Moves `amount` from the vault to a privileged caller. The rolling payout
/// cap does not apply to it.
pub fn admin_withdraw(ctx: &mut AdminWithdraw, amount: u64) -> (r: Result<AdminWithdrawal, ErrorCode>)
    ensures
        match r {
            Ok(ev) => {
                &&& admin_withdraw_error(*old(ctx), amount).is_none()
                &&& *final(ctx) == (AdminWithdraw {
                    admin_lamports: (old(ctx).admin_lamports + amount) as u64,
                    platform_vault: Vault { lamports: (old(ctx).platform_vault.lamports - amount) as u64 },
                    ..*old(ctx)
                })
                &&& ev == (AdminWithdrawal { admin: old(ctx).admin, amount })
            },
            Err(e) => {
                &&& admin_withdraw_error(*old(ctx), amount) == Some(e)
                &&& *final(ctx) == *old(ctx)
            },
        },
{
    if !is_authorized(&ctx.admin, &ctx.platform_stats, &ctx.admin_account) {
        return Err(ErrorCode::Unauthorized);
    }
    if ctx.platform_vault.lamports < amount {
        return Err(ErrorCode::InsufficientFunds);
    }
    if ctx.admin_lamports > u64::MAX - amount {
        return Err(ErrorCode::ArithmeticOverflow);
    }
    ctx.platform_vault.lamports = ctx.platform_vault.lamports - amount;
    ctx.admin_lamports = ctx.admin_lamports + amount;
    Ok(AdminWithdrawal { admin: ctx.admin, amount })
}

/// The error that an admin's deposit of `amount` meets, if any.
pub open spec fn admin_deposit_error(ctx: AdminDeposit, amount: u64) -> Option<ErrorCode> {
    if !authorized(ctx.admin, ctx.platform_stats, ctx.admin_account) {
        Some(ErrorCode::Unauthorized)
    } else if ctx.admin_lamports < amount {
        Some(ErrorCode::InsufficientFunds)
    } else if ctx.platform_vault.lamports + amount > u64::MAX {
        Some(ErrorCode::ArithmeticOverflow)
    } else {
        None
    }
}

/// Moves `amount` from a privileged caller into the vault.
pub fn admin_deposit(ctx: &mut AdminDeposit, amount: u64) -> (r: Result<AdminDeposited, ErrorCode>)
    ensures
        match r {
            Ok(ev) => {
                &&& admin_deposit_error(*old(ctx), amount).is_none()
                &&& *final(ctx) == (AdminDeposit {
                    admin_lamports: (old(ctx).admin_lamports - amount) as u64,
                    platform_vault: Vault { lamports: (old(ctx).platform_vault.lamports + amount) as u64 },
                    ..*old(ctx)
                })
                &&& ev == (AdminDeposited { admin: old(ctx).admin, amount })
            },
            Err(e) => {
                &&& admin_deposit_error(*old(ctx), amount) == Some(e)
                &&& *final(ctx) == *old(ctx)
            },
        },
{
    if !is_authorized(&ctx.admin, &ctx.platform_stats, &ctx.admin_account) {
        return Err(ErrorCode::Unauthorized);
    }
    if ctx.admin_lamports < amount {
        return Err(ErrorCode::InsufficientFunds);
    }
    if ctx.platform_vault.lamports > u64::MAX - amount {
        return Err(ErrorCode::ArithmeticOverflow);
    }
    ctx.admin_lamports = ctx.admin_lamports - amount;
    ctx.platform_vault.lamports = ctx.platform_vault.lamports + amount;
    Ok(AdminDeposited { admin: ctx.admin, amount })
}

} // verus!
