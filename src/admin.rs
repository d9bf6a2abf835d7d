use vstd::prelude::*;

use crate::treasury::{day_start, day_start_of};
use crate::state::{
    Admin, AdminAdded, AdminRemoved, DailyWithdrawal, ErrorCode, PlatformStats, Player, Pubkey,
    Vault,
};

verus! {

/// The hard cap on admin records ever created.
pub const MAX_ADMINS: u8 = 10;

/// The largest stake a fresh platform accepts.
pub const DEFAULT_MAX_BET_LAMPORTS: u64 = 5_000_000_000;

/// The payout cap per rolling window of a fresh platform.
pub const DEFAULT_DAILY_WITHDRAW_LIMIT: u64 = 15_000_000_000;

/// A caller holds privilege when it is the primary admin, or when it presents
/// its own admin record and that record is active.
pub open spec fn authorized(caller: Pubkey, stats: PlatformStats, admin_account: Option<Admin>) -> bool {
    ||| caller@ == stats.primary_admin@
    ||| (admin_account matches Some(a) && a.is_active && a.pubkey@ == caller@)
}

/// Checks the privilege of `caller`, re-reading the identity stored in the
/// record it presents rather than trusting the record's mere presence.
pub fn is_authorized(caller: &Pubkey, stats: &PlatformStats, admin_account: &Option<Admin>) -> (r:
    bool)
    ensures
        r == authorized(*caller, *stats, *admin_account),
{
    if caller.same_as(&stats.primary_admin) {
        return true;
    }
    match admin_account {
        Some(a) => a.is_active && a.pubkey.same_as(caller),
        None => false,
    }
}

/// The accounts that creating the platform touches; `None` stands for an
/// account that does not exist yet.
#[derive(Clone, Copy, Debug)]
pub struct InitializePlatform {
    pub admin: Pubkey,
    pub platform_stats: Option<PlatformStats>,
    pub platform_vault: Option<Vault>,
    pub admin_account: Option<Admin>,
}

/// The accounts that creating a player account touches.
#[derive(Clone, Copy, Debug)]
pub struct InitializePlayer {
    pub payer: Pubkey,
    pub player: Option<Player>,
    pub platform_stats: PlatformStats,
}

/// The accounts that adding an admin touches; `admin` is the record to create.
#[derive(Clone, Copy, Debug)]
pub struct AddAdmin {
    pub primary_admin: Pubkey,
    pub platform_stats: PlatformStats,
    pub admin: Option<Admin>,
    pub new_admin: Pubkey,
}

/// The accounts that removing an admin touches; `admin` is the record to
/// deactivate.
#[derive(Clone, Copy, Debug)]
pub struct RemoveAdmin {
    pub primary_admin: Pubkey,
    pub platform_stats: PlatformStats,
    pub admin: Admin,
}

/// The accounts that changing a policy limit touches.
#[derive(Clone, Copy, Debug)]
pub struct UpdatePlatformLimit {
    pub admin: Pubkey,
    pub platform_stats: PlatformStats,
    pub admin_account: Option<Admin>,
}

/// The aggregates of a platform created by `admin` at time `now`.
pub open spec fn initial_stats(admin: Pubkey, now: i64) -> PlatformStats {
    PlatformStats {
        is_initialized: true,
        last_reset: now,
        withdrawn_today: 0,
        primary_admin: admin,
        admin_count: 1,
        admin_records: 1,
        total_bets: 0,
        total_volume: 0,
        total_users: 0,
        daily_withdrawal: DailyWithdrawal { date: day_start(now as int) as i64, amount: 0 },
        total_profit: 0,
        total_owed: 0,
        current_active_users: 0,
        max_bet_lamports: DEFAULT_MAX_BET_LAMPORTS,
        daily_withdraw_limit: DEFAULT_DAILY_WITHDRAW_LIMIT,
    }
}

/// Creates the platform aggregates, the empty vault and the primary admin's
/// record. Fails when any of them exists already, or when the start of the
/// current day lies below the range of `i64`.
pub fn initialize_platform(ctx: &mut InitializePlatform, now: i64) -> (r: Result<(), ErrorCode>)
    ensures
        r is Ok <==> (old(ctx).platform_stats is None && old(ctx).platform_vault is None
            && old(ctx).admin_account is None && day_start(now as int) >= i64::MIN),
        r is Ok ==> *final(ctx) == (InitializePlatform {
            admin: old(ctx).admin,
            platform_stats: Some(initial_stats(old(ctx).admin, now)),
            platform_vault: Some(Vault { lamports: 0 }),
            admin_account: Some(Admin { pubkey: old(ctx).admin, is_active: true }),
        }),
        !(old(ctx).platform_stats is None && old(ctx).platform_vault is None
            && old(ctx).admin_account is None) ==> r == Err::<(), ErrorCode>(
            ErrorCode::AlreadyInitialized,
        ),
        (old(ctx).platform_stats is None && old(ctx).platform_vault is None
            && old(ctx).admin_account is None && day_start(now as int) < i64::MIN) ==> r == Err::<
            (),
            ErrorCode,
        >(ErrorCode::ArithmeticOverflow),
        r is Err ==> *final(ctx) == *old(ctx),
{
    if ctx.platform_stats.is_some() || ctx.platform_vault.is_some() || ctx.admin_account.is_some() {
        return Err(ErrorCode::AlreadyInitialized);
    }
    let today = match day_start_of(now) {
        Some(d) => d,
        None => {
            return Err(ErrorCode::ArithmeticOverflow);
        },
    };
    ctx.platform_stats = Some(
        PlatformStats {
            is_initialized: true,
            last_reset: now,
            withdrawn_today: 0,
            primary_admin: ctx.admin,
            admin_count: 1,
            admin_records: 1,
            total_bets: 0,
            total_volume: 0,
            total_users: 0,
            daily_withdrawal: DailyWithdrawal { date: today, amount: 0 },
            total_profit: 0,
            total_owed: 0,
            current_active_users: 0,
            max_bet_lamports: DEFAULT_MAX_BET_LAMPORTS,
            daily_withdraw_limit: DEFAULT_DAILY_WITHDRAW_LIMIT,
        },
    );
    ctx.platform_vault = Some(Vault { lamports: 0 });
    ctx.admin_account = Some(Admin { pubkey: ctx.admin, is_active: true });
    Ok(())
}

/// A player account with no history.
pub open spec fn fresh_player() -> Player {
    Player {
        last_result: 0,
        current_bet: 0,
        last_bet_amount: 0,
        pending_withdrawal: 0,
        wins: 0,
        losses: 0,
        total_games: 0,
    }
}

/// Creates the caller's player account and counts a new user. On an account
/// that exists already it changes nothing and succeeds.
pub fn initialize_player(ctx: &mut InitializePlayer) -> (r: Result<(), ErrorCode>)
    ensures
        old(ctx).player is Some ==> r is Ok && *final(ctx) == *old(ctx),
        old(ctx).player is None && old(ctx).platform_stats.total_users == u64::MAX ==> r == Err::<
            (),
            ErrorCode,
        >(ErrorCode::ArithmeticOverflow) && *final(ctx) == *old(ctx),
        old(ctx).player is None && old(ctx).platform_stats.total_users < u64::MAX ==> r is Ok
            && *final(ctx) == (InitializePlayer {
            player: Some(fresh_player()),
            platform_stats: PlatformStats {
                total_users: (old(ctx).platform_stats.total_users + 1) as u64,
                ..old(ctx).platform_stats
            },
            ..*old(ctx)
        }),
{
    if ctx.player.is_some() {
        return Ok(());
    }
    if ctx.platform_stats.total_users == u64::MAX {
        return Err(ErrorCode::ArithmeticOverflow);
    }
    ctx.player = Some(
        Player {
            last_result: 0,
            current_bet: 0,
            last_bet_amount: 0,
            pending_withdrawal: 0,
            wins: 0,
            losses: 0,
            total_games: 0,
        },
    );
    ctx.platform_stats.total_users = ctx.platform_stats.total_users + 1;
    Ok(())
}

/// The error that adding an admin meets, if any, in the order of the checks.
pub open spec fn add_admin_error(ctx: AddAdmin) -> Option<ErrorCode> {
    if ctx.primary_admin@ != ctx.platform_stats.primary_admin@ {
        Some(ErrorCode::Unauthorized)
    } else if ctx.platform_stats.admin_records >= MAX_ADMINS {
        Some(ErrorCode::MaxAdminsReached)
    } else if ctx.admin is Some {
        Some(ErrorCode::AlreadyInitialized)
    } else if ctx.platform_stats.admin_count == u8::MAX {
        Some(ErrorCode::ArithmeticOverflow)
    } else {
        None
    }
}

/// The accounts once the new admin's record is created.
pub open spec fn admin_added(ctx: AddAdmin) -> AddAdmin {
    AddAdmin {
        platform_stats: PlatformStats {
            admin_count: (ctx.platform_stats.admin_count + 1) as u8,
            admin_records: (ctx.platform_stats.admin_records + 1) as u8,
            ..ctx.platform_stats
        },
        admin: Some(Admin { pubkey: ctx.new_admin, is_active: true }),
        ..ctx
    }
}

/// Creates an active admin record for `new_admin`. Only the primary admin may
/// do so, and only while fewer than the cap of records were ever created.
pub fn add_admin(ctx: &mut AddAdmin) -> (r: Result<AdminAdded, ErrorCode>)
    ensures
        match r {
            Ok(ev) => {
                &&& add_admin_error(*old(ctx)).is_none()
                &&& *final(ctx) == admin_added(*old(ctx))
                &&& ev == (AdminAdded { admin: old(ctx).new_admin, added_by: old(ctx).primary_admin })
            },
            Err(e) => {
                &&& add_admin_error(*old(ctx)) == Some(e)
                &&& *final(ctx) == *old(ctx)
            },
        },
{
    if !ctx.primary_admin.same_as(&ctx.platform_stats.primary_admin) {
        return Err(ErrorCode::Unauthorized);
    }
    if ctx.platform_stats.admin_records >= MAX_ADMINS {
        return Err(ErrorCode::MaxAdminsReached);
    }
    if ctx.admin.is_some() {
        return Err(ErrorCode::AlreadyInitialized);
    }
    if ctx.platform_stats.admin_count == u8::MAX {
        return Err(ErrorCode::ArithmeticOverflow);
    }
    ctx.admin = Some(Admin { pubkey: ctx.new_admin, is_active: true });
    ctx.platform_stats.admin_count = ctx.platform_stats.admin_count + 1;
    ctx.platform_stats.admin_records = ctx.platform_stats.admin_records + 1;
    Ok(AdminAdded { admin: ctx.new_admin, added_by: ctx.primary_admin })
}

/// The error that removing an admin meets, if any, in the order of the checks.
pub open spec fn remove_admin_error(ctx: RemoveAdmin) -> Option<ErrorCode> {
    if ctx.admin.pubkey@ == ctx.platform_stats.primary_admin@ {
        Some(ErrorCode::CannotRemovePrimaryAdmin)
    } else if ctx.primary_admin@ != ctx.platform_stats.primary_admin@ {
        Some(ErrorCode::Unauthorized)
    } else if ctx.admin.is_active && ctx.platform_stats.admin_count == 0 {
        Some(ErrorCode::ArithmeticOverflow)
    } else {
        None
    }
}

/// The accounts once the admin's record is deactivated. The count of active
/// admins drops by one when the record was active and stays otherwise; the
/// count of records ever created stays as it was.
pub open spec fn admin_removed(ctx: RemoveAdmin) -> RemoveAdmin {
    RemoveAdmin {
        platform_stats: PlatformStats {
            admin_count: if ctx.admin.is_active {
                (ctx.platform_stats.admin_count - 1) as u8
            } else {
                ctx.platform_stats.admin_count
            },
            ..ctx.platform_stats
        },
        admin: Admin { is_active: false, ..ctx.admin },
        ..ctx
    }
}

/// Deactivates an admin record. The primary admin's own record can never be
/// removed, whoever asks; otherwise only the primary admin may remove one.
/// Removing a record that is inactive already succeeds and leaves it inactive.
pub fn remove_admin(ctx: &mut RemoveAdmin) -> (r: Result<AdminRemoved, ErrorCode>)
    ensures
        match r {
            Ok(ev) => {
                &&& remove_admin_error(*old(ctx)).is_none()
                &&& *final(ctx) == admin_removed(*old(ctx))
                &&& ev == (AdminRemoved {
                    admin: old(ctx).admin.pubkey,
                    removed_by: old(ctx).primary_admin,
                })
            },
            Err(e) => {
                &&& remove_admin_error(*old(ctx)) == Some(e)
                &&& *final(ctx) == *old(ctx)
            },
        },
{
    if ctx.admin.pubkey.same_as(&ctx.platform_stats.primary_admin) {
        return Err(ErrorCode::CannotRemovePrimaryAdmin);
    }
    if !ctx.primary_admin.same_as(&ctx.platform_stats.primary_admin) {
        return Err(ErrorCode::Unauthorized);
    }
    if ctx.admin.is_active {
        if ctx.platform_stats.admin_count == 0 {
            return Err(ErrorCode::ArithmeticOverflow);
        }
        ctx.admin.is_active = false;
        ctx.platform_stats.admin_count = ctx.platform_stats.admin_count - 1;
    }
    Ok(AdminRemoved { admin: ctx.admin.pubkey, removed_by: ctx.primary_admin })
}

/// The aggregates once the policy knob named `field` is set to `value`, or
/// `None` when `field` names no knob.
pub open spec fn with_limit(s: PlatformStats, field: Seq<char>, value: u64) -> Option<PlatformStats> {
    if field == "max_bet"@ {
        Some(PlatformStats { max_bet_lamports: value, ..s })
    } else if field == "daily_withdraw"@ {
        Some(PlatformStats { daily_withdraw_limit: value, ..s })
    } else {
        None
    }
}

/// Sets the policy knob named `field`, `max_bet` or `daily_withdraw`, to
/// `value`. Privileged callers only.
pub fn update_platform_limit(ctx: &mut UpdatePlatformLimit, field: String, value: u64) -> (r: Result<
    (),
    ErrorCode,
>)
    ensures
        !authorized(old(ctx).admin, old(ctx).platform_stats, old(ctx).admin_account) ==> r == Err::<
            (),
            ErrorCode,
        >(ErrorCode::Unauthorized),
        authorized(old(ctx).admin, old(ctx).platform_stats, old(ctx).admin_account)
            && with_limit(old(ctx).platform_stats, field@, value) is None ==> r == Err::<
            (),
            ErrorCode,
        >(ErrorCode::InvalidField),
        r is Ok <==> authorized(old(ctx).admin, old(ctx).platform_stats, old(ctx).admin_account)
            && with_limit(old(ctx).platform_stats, field@, value) is Some,
        r is Ok ==> *final(ctx) == (UpdatePlatformLimit {
            platform_stats: with_limit(old(ctx).platform_stats, field@, value).unwrap(),
            ..*old(ctx)
        }),
        r is Err ==> *final(ctx) == *old(ctx),
{
    if !is_authorized(&ctx.admin, &ctx.platform_stats, &ctx.admin_account) {
        return Err(ErrorCode::Unauthorized);
    }
    let max_bet = "max_bet".to_owned();
    let daily_withdraw = "daily_withdraw".to_owned();
    proof {
        reveal_strlit("max_bet");
        reveal_strlit("daily_withdraw");
    }
    if field == max_bet {
        ctx.platform_stats.max_bet_lamports = value;
        Ok(())
    } else if field == daily_withdraw {
        ctx.platform_stats.daily_withdraw_limit = value;
        Ok(())
    } else {
        Err(ErrorCode::InvalidField)
    }
}

} // verus!
