use vstd::prelude::*;

verus! {

/// A 32-byte account address.
#[derive(Clone, Copy, Debug)]
pub struct Pubkey {
    pub bytes: [u8; 32],
}

impl View for Pubkey {
    type V = Seq<u8>;

    open spec fn view(&self) -> Seq<u8> {
        self.bytes@
    }
}

impl Pubkey {
    pub fn new(bytes: [u8; 32]) -> (r: Pubkey)
        ensures
            r@ == bytes@,
    {
        Pubkey { bytes }
    }

    /// Byte-wise comparison of two addresses.
    pub fn same_as(&self, other: &Pubkey) -> (r: bool)
        ensures
            r == (self@ == other@),
    {
        let mut i: usize = 0;
        while i < 32
            invariant
                0 <= i <= 32,
                self@.len() == 32,
                other@.len() == 32,
                forall|j: int| 0 <= j < i ==> self@[j] == other@[j],
            decreases 32 - i,
        {
            if self.bytes[i] != other.bytes[i] {
                return false;
            }
            i = i + 1;
        }
        assert(self@ =~= other@);
        true
    }
}

/// Per-player wagering state. `current_bet == 0` means that no wager is in
/// flight; otherwise it holds the staged choice and `last_bet_amount` the stake.
#[derive(Clone, Copy, Debug)]
pub struct Player {
    pub last_result: u8,
    pub current_bet: u8,
    pub last_bet_amount: u64,
    pub pending_withdrawal: u64,
    pub wins: u16,
    pub losses: u16,
    pub total_games: u16,
}

impl Player {
    /// The idle state: nothing staged, nothing in flight.
    pub open spec fn idle(&self) -> bool {
        self.current_bet == 0 && self.last_bet_amount == 0
    }

    /// A staged wager always names a face of the die.
    pub open spec fn wf(&self) -> bool {
        self.current_bet <= 6 && (self.current_bet == 0 ==> self.last_bet_amount == 0)
    }
}

/// The calendar-day payout bucket: `date` is the start of the day,
/// `amount` what was paid out on it.
#[derive(Clone, Copy, Debug)]
pub struct DailyWithdrawal {
    pub date: i64,
    pub amount: u64,
}

/// Platform-wide configuration and aggregate counters.
#[derive(Clone, Copy, Debug)]
pub struct PlatformStats {
    pub is_initialized: bool,
    pub last_reset: i64,
    pub withdrawn_today: u64,
    pub primary_admin: Pubkey,
    /// Admin records that are currently active, the primary one included.
    pub admin_count: u8,
    /// Admin records ever created, deactivated ones included. This is the
    /// count that the hard cap on admins is checked against, so that removing
    /// an admin never frees a slot for another identity.
    pub admin_records: u8,
    pub total_bets: u64,
    pub total_volume: u64,
    pub total_users: u64,
    pub daily_withdrawal: DailyWithdrawal,
    pub total_profit: u64,
    pub total_owed: u64,
    pub current_active_users: u64,
    pub max_bet_lamports: u64,
    pub daily_withdraw_limit: u64,
}

/// A record of the admin registry.
#[derive(Clone, Copy, Debug)]
pub struct Admin {
    pub pubkey: Pubkey,
    pub is_active: bool,
}

/// The treasury vault: an account that holds only its balance.
#[derive(Clone, Copy, Debug)]
pub struct Vault {
    pub lamports: u64,
}

/// The outcome of a resolved wager.
#[derive(Clone, Copy, Debug)]
pub struct DiceRolled {
    pub player: Pubkey,
    pub result: u8,
    pub won: bool,
    pub payout: u64,
}

#[derive(Clone, Copy, Debug)]
pub struct AdminAdded {
    pub admin: Pubkey,
    pub added_by: Pubkey,
}

#[derive(Clone, Copy, Debug)]
pub struct AdminRemoved {
    pub admin: Pubkey,
    pub removed_by: Pubkey,
}

#[derive(Clone, Copy, Debug)]
pub struct AdminWithdrawal {
    pub admin: Pubkey,
    pub amount: u64,
}

#[derive(Clone, Copy, Debug)]
pub struct AdminDeposited {
    pub admin: Pubkey,
    pub amount: u64,
}

/// What a wager asks of the randomness oracle: the seed byte that fills the
/// 32-byte caller seed, and the one player account the callback may mutate.
#[derive(Clone, Copy, Debug)]
pub struct RandomnessRequest {
    pub player: Pubkey,
    pub caller_seed: u8,
}

#[derive(Clone, Copy, Debug, PartialEq, Eq, Structural)]
pub enum ErrorCode {
    InvalidChoice,
    NoBetPlaced,
    ExceedsMaxBet,
    NothingToWithdraw,
    DailyLimitReached,
    Unauthorized,
    MaxAdminsReached,
    CannotRemovePrimaryAdmin,
    InvalidField,
    /// A wager is already in flight on this player account.
    BetInFlight,
    /// The account to create exists already.
    AlreadyInitialized,
    /// The paying account holds less than the amount to move.
    InsufficientFunds,
    /// A counter or a balance would leave its range.
    ArithmeticOverflow,
}

/// The text of each error's message.
pub open spec fn message_of(e: ErrorCode) -> Seq<char> {
    match e {
        ErrorCode::InvalidChoice => "Choice must be between 1 and 6"@,
        ErrorCode::NoBetPlaced => "No bet placed yet"@,
        ErrorCode::ExceedsMaxBet => "Bet exceeds max allowed"@,
        ErrorCode::NothingToWithdraw => "Nothing to withdraw"@,
        ErrorCode::DailyLimitReached => "Platform daily payout limit reached"@,
        ErrorCode::Unauthorized => "Unauthorized"@,
        ErrorCode::MaxAdminsReached => "Maximum number of admins reached"@,
        ErrorCode::CannotRemovePrimaryAdmin => "Cannot remove primary admin"@,
        ErrorCode::InvalidField => "Invalid field name provided."@,
        ErrorCode::BetInFlight => "A bet is already in flight"@,
        ErrorCode::AlreadyInitialized => "Account already initialized"@,
        ErrorCode::InsufficientFunds => "Insufficient funds"@,
        ErrorCode::ArithmeticOverflow => "Arithmetic overflow"@,
    }
}

impl ErrorCode {
    /// The message that goes with the error.
    pub fn message(&self) -> (r: &'static str)
        ensures
            r@ == message_of(*self),
    {
        match self {
            ErrorCode::InvalidChoice => "Choice must be between 1 and 6",
            ErrorCode::NoBetPlaced => "No bet placed yet",
            ErrorCode::ExceedsMaxBet => "Bet exceeds max allowed",
            ErrorCode::NothingToWithdraw => "Nothing to withdraw",
            ErrorCode::DailyLimitReached => "Platform daily payout limit reached",
            ErrorCode::Unauthorized => "Unauthorized",
            ErrorCode::MaxAdminsReached => "Maximum number of admins reached",
            ErrorCode::CannotRemovePrimaryAdmin => "Cannot remove primary admin",
            ErrorCode::InvalidField => "Invalid field name provided.",
            ErrorCode::BetInFlight => "A bet is already in flight",
            ErrorCode::AlreadyInitialized => "Account already initialized",
            ErrorCode::InsufficientFunds => "Insufficient funds",
            ErrorCode::ArithmeticOverflow => "Arithmetic overflow",
        }
    }
}

} // verus!
