use vstd::prelude::*;

use crate::dice::{die_face, roll_die};
use crate::state::{DiceRolled, ErrorCode, PlatformStats, Player, Pubkey, RandomnessRequest, Vault};

verus! {

/// The accounts that placing a wager touches.
#[derive(Clone, Copy, Debug)]
pub struct Play {
    /// The player, who signs and pays the stake.
    pub payer: Pubkey,
    /// The player's spendable balance.
    pub payer_lamports: u64,
    /// The address of the player account.
    pub player_key: Pubkey,
    pub player: Player,
    pub platform_vault: Vault,
    pub platform_stats: PlatformStats,
}

/// The accounts that resolving a wager touches.
#[derive(Clone, Copy, Debug)]
pub struct CallbackRollDiceCtx {
    /// The identity that signed the callback.
    pub vrf_program_identity: Pubkey,
    /// The oracle's fixed identity, the only one allowed to resolve wagers.
    pub oracle_identity: Pubkey,
    /// The address of the player account.
    pub player_key: Pubkey,
    pub player: Player,
    pub platform_stats: PlatformStats,
}

/// The error that placing a wager meets, if any, in the order of the checks.
pub open spec fn play_error(ctx: Play, user_choice: u8, bet_amount: u64) -> Option<ErrorCode> {
    if !(1 <= user_choice <= 6) {
        Some(ErrorCode::InvalidChoice)
    } else if bet_amount > ctx.platform_stats.max_bet_lamports {
        Some(ErrorCode::ExceedsMaxBet)
    } else if ctx.player.current_bet != 0 {
        Some(ErrorCode::BetInFlight)
    } else if ctx.payer_lamports < bet_amount {
        Some(ErrorCode::InsufficientFunds)
    } else if ctx.platform_vault.lamports + bet_amount > u64::MAX {
        Some(ErrorCode::ArithmeticOverflow)
    } else {
        None
    }
}

/// The accounts once a wager is staged and its stake moved into the vault.
pub open spec fn staged(ctx: Play, user_choice: u8, bet_amount: u64) -> Play {
    Play {
        payer_lamports: (ctx.payer_lamports - bet_amount) as u64,
        player: Player { current_bet: user_choice, last_bet_amount: bet_amount, ..ctx.player },
        platform_vault: Vault { lamports: (ctx.platform_vault.lamports + bet_amount) as u64 },
        ..ctx
    }
}

/// Places a wager of `bet_amount` on the face `user_choice`: stages it on the
/// player account, moves the stake from the player into the vault, and returns
/// the randomness request that names the player account as the callback's
/// only target.
pub fn play(ctx: &mut Play, user_choice: u8, bet_amount: u64, client_seed: u8) -> (r: Result<
    RandomnessRequest,
    ErrorCode,
>)
    ensures
        match r {
            Ok(req) => {
                &&& play_error(*old(ctx), user_choice, bet_amount).is_none()
                &&& *final(ctx) == staged(*old(ctx), user_choice, bet_amount)
                &&& req.player == old(ctx).player_key
                &&& req.caller_seed == client_seed
            },
            Err(e) => {
                &&& play_error(*old(ctx), user_choice, bet_amount) == Some(e)
                &&& *final(ctx) == *old(ctx)
            },
        },
{
    if user_choice < 1 || user_choice > 6 {
        return Err(ErrorCode::InvalidChoice);
    }
    if bet_amount > ctx.platform_stats.max_bet_lamports {
        return Err(ErrorCode::ExceedsMaxBet);
    }
    if ctx.player.current_bet != 0 {
        return Err(ErrorCode::BetInFlight);
    }
    if ctx.payer_lamports < bet_amount {
        return Err(ErrorCode::InsufficientFunds);
    }
    if ctx.platform_vault.lamports > u64::MAX - bet_amount {
        return Err(ErrorCode::ArithmeticOverflow);
    }
    ctx.player.current_bet = user_choice;
    ctx.player.last_bet_amount = bet_amount;
    ctx.payer_lamports = ctx.payer_lamports - bet_amount;
    ctx.platform_vault.lamports = ctx.platform_vault.lamports + bet_amount;
    Ok(RandomnessRequest { player: ctx.player_key, caller_seed: client_seed })
}

/// Whether the wager staged on `p` wins against the rolled face.
pub open spec fn wins_with(p: Player, outcome: u8) -> bool {
    outcome == p.current_bet
}

/// What a winning wager pays: twice the stake.
pub open spec fn payout_of(p: Player) -> int {
    2 * p.last_bet_amount
}

/// Whether every counter and balance that resolution updates stays in range.
pub open spec fn roll_fits(p: Player, s: PlatformStats, outcome: u8) -> bool {
    &&& p.total_games + 1 <= u16::MAX
    &&& s.total_bets + 1 <= u64::MAX
    &&& s.total_volume + p.last_bet_amount <= u64::MAX
    &&& payout_of(p) <= u64::MAX
    &&& wins_with(p, outcome) ==> {
        &&& p.wins + 1 <= u16::MAX
        &&& p.pending_withdrawal + payout_of(p) <= u64::MAX
        &&& s.total_owed + payout_of(p) <= u64::MAX
    }
    &&& !wins_with(p, outcome) ==> p.losses + 1 <= u16::MAX
}

/// The error that resolving a wager with the rolled face meets, if any.
pub open spec fn roll_error(ctx: CallbackRollDiceCtx, outcome: u8) -> Option<ErrorCode> {
    if ctx.vrf_program_identity@ != ctx.oracle_identity@ {
        Some(ErrorCode::Unauthorized)
    } else if ctx.player.current_bet == 0 {
        Some(ErrorCode::NoBetPlaced)
    } else if !roll_fits(ctx.player, ctx.platform_stats, outcome) {
        Some(ErrorCode::ArithmeticOverflow)
    } else {
        None
    }
}

/// The player account once its wager is resolved with the rolled face.
pub open spec fn resolved_player(p: Player, outcome: u8) -> Player {
    let won = wins_with(p, outcome);
    Player {
        last_result: outcome,
        current_bet: 0,
        last_bet_amount: 0,
        pending_withdrawal: if won {
            (p.pending_withdrawal + payout_of(p)) as u64
        } else {
            p.pending_withdrawal
        },
        wins: if won {
            (p.wins + 1) as u16
        } else {
            p.wins
        },
        losses: if won {
            p.losses
        } else {
            (p.losses + 1) as u16
        },
        total_games: (p.total_games + 1) as u16,
    }
}

/// The platform aggregates once the wager staged on `p` is resolved.
pub open spec fn resolved_stats(s: PlatformStats, p: Player, outcome: u8) -> PlatformStats {
    PlatformStats {
        total_bets: (s.total_bets + 1) as u64,
        total_volume: (s.total_volume + p.last_bet_amount) as u64,
        total_owed: if wins_with(p, outcome) {
            (s.total_owed + payout_of(p)) as u64
        } else {
            s.total_owed
        },
        ..s
    }
}

/// The event that resolution reports.
pub open spec fn roll_event(ctx: CallbackRollDiceCtx, outcome: u8) -> DiceRolled {
    let won = wins_with(ctx.player, outcome);
    DiceRolled {
        player: ctx.player_key,
        result: outcome,
        won,
        payout: if won {
            payout_of(ctx.player) as u64
        } else {
            0
        },
    }
}

/// Resolves the wager in flight with the rolled face `outcome`: books twice
/// the stake as owed to the player on a win, counts the game either way, and
/// ends the in-flight window. A stake whose double does not fit in `u64` fails
/// closed, on a win and on a loss alike.
pub fn settle_roll(ctx: &mut CallbackRollDiceCtx, outcome: u8) -> (r: Result<DiceRolled, ErrorCode>)
    ensures
        match r {
            Ok(ev) => {
                &&& roll_error(*old(ctx), outcome).is_none()
                &&& *final(ctx) == (CallbackRollDiceCtx {
                    player: resolved_player(old(ctx).player, outcome),
                    platform_stats: resolved_stats(old(ctx).platform_stats, old(ctx).player, outcome),
                    ..*old(ctx)
                })
                &&& ev == roll_event(*old(ctx), outcome)
            },
            Err(e) => {
                &&& roll_error(*old(ctx), outcome) == Some(e)
                &&& *final(ctx) == *old(ctx)
            },
        },
{
    if !ctx.vrf_program_identity.same_as(&ctx.oracle_identity) {
        return Err(ErrorCode::Unauthorized);
    }
    if ctx.player.current_bet == 0 {
        return Err(ErrorCode::NoBetPlaced);
    }
    let won = outcome == ctx.player.current_bet;
    let stake = ctx.player.last_bet_amount;
    if ctx.player.total_games == u16::MAX || ctx.platform_stats.total_bets == u64::MAX
        || ctx.platform_stats.total_volume > u64::MAX - stake || stake > u64::MAX / 2 {
        return Err(ErrorCode::ArithmeticOverflow);
    }
    let mut payout: u64 = 0;
    if won {
        if ctx.player.wins == u16::MAX {
            return Err(ErrorCode::ArithmeticOverflow);
        }
        payout = stake * 2;
        if ctx.player.pending_withdrawal > u64::MAX - payout || ctx.platform_stats.total_owed
            > u64::MAX - payout {
            return Err(ErrorCode::ArithmeticOverflow);
        }
    } else if ctx.player.losses == u16::MAX {
        return Err(ErrorCode::ArithmeticOverflow);
    }
    ctx.player.last_result = outcome;
    ctx.player.total_games = ctx.player.total_games + 1;
    ctx.platform_stats.total_bets = ctx.platform_stats.total_bets + 1;
    ctx.platform_stats.total_volume = ctx.platform_stats.total_volume + stake;
    if won {
        ctx.player.wins = ctx.player.wins + 1;
        ctx.player.pending_withdrawal = ctx.player.pending_withdrawal + payout;
        ctx.platform_stats.total_owed = ctx.platform_stats.total_owed + payout;
    } else {
        ctx.player.losses = ctx.player.losses + 1;
    }
    ctx.player.current_bet = 0;
    ctx.player.last_bet_amount = 0;
    Ok(DiceRolled { player: ctx.player_key, result: outcome, won, payout })
}

/// The oracle's callback: reduces the 32-byte random value to a face of the
/// die and resolves the wager in flight with it.
pub fn callback_roll_dice(ctx: &mut CallbackRollDiceCtx, randomness: [u8; 32]) -> (r: Result<
    DiceRolled,
    ErrorCode,
>)
    ensures
        1 <= die_face(randomness@) <= 6,
        match r {
            Ok(ev) => {
                &&& roll_error(*old(ctx), die_face(randomness@)).is_none()
                &&& *final(ctx) == (CallbackRollDiceCtx {
                    player: resolved_player(old(ctx).player, die_face(randomness@)),
                    platform_stats: resolved_stats(
                        old(ctx).platform_stats,
                        old(ctx).player,
                        die_face(randomness@),
                    ),
                    ..*old(ctx)
                })
                &&& ev == roll_event(*old(ctx), die_face(randomness@))
            },
            Err(e) => {
                &&& roll_error(*old(ctx), die_face(randomness@)) == Some(e)
                &&& *final(ctx) == *old(ctx)
            },
        },
{
    let outcome = roll_die(&randomness);
    settle_roll(ctx, outcome)
}

} // verus!
