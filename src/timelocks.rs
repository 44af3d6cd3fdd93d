use vstd::prelude::*;
use vstd::string::*;

use crate::error::EscrowError;
use crate::text::{decimal, push_decimal};

verus! {

/// Shortest allowed distance, in seconds, between creation and the withdrawal timelock.
pub const MIN_WITHDRAWAL_DELAY: u64 = 1800;

/// Longest allowed distance, in seconds, between creation and the cancellation timelock.
pub const MAX_TIMELOCK_PERIOD: u64 = 86400 * 7;

/// Seconds after the cancellation timelock at which the emergency refund opens.
pub const EMERGENCY_DELAY: u64 = 86400;

/// The stages of an escrow's life, in the order in which they open.
#[derive(Clone, Copy, PartialEq, Eq, Structural, Debug)]
pub enum TimelockStage {
    /// Private withdrawal: the maker may withdraw with the secret.
    Withdrawal,
    /// Public withdrawal: anyone holding the secret may withdraw.
    PublicWithdrawal,
    /// Cancellation: the escrow may be cancelled and refunded.
    Cancellation,
    /// Emergency: the depositor may recover the deposit.
    Emergency,
}

/// The stage thresholds of one escrow, in seconds since the epoch.
#[derive(Clone, Copy, PartialEq, Eq, Structural, Debug)]
pub struct Timelocks {
    pub withdrawal_timelock: u64,
    pub public_withdrawal_timelock: u64,
    pub cancellation_timelock: u64,
    pub created_at: u64,
}

/// The outcome of validating a timelock sequence created at `now`: the first
/// rule broken, in the order in which they are checked.
pub open spec fn sequence_check(now: u64, withdrawal: u64, public_withdrawal: u64, cancellation: u64)
    -> Result<(), EscrowError>
{
    if withdrawal <= now {
        Err(EscrowError::WithdrawalNotInFuture)
    } else if public_withdrawal <= withdrawal {
        Err(EscrowError::PublicWithdrawalNotAfterWithdrawal)
    } else if cancellation <= public_withdrawal {
        Err(EscrowError::CancellationNotAfterPublicWithdrawal)
    } else if withdrawal < now + MIN_WITHDRAWAL_DELAY {
        Err(EscrowError::WithdrawalTooSoon)
    } else if cancellation > now + MAX_TIMELOCK_PERIOD {
        Err(EscrowError::CancellationTooFar)
    } else if cancellation + EMERGENCY_DELAY > u64::MAX {
        Err(EscrowError::TimestampOverflow)
    } else {
        Ok(())
    }
}

impl Timelocks {
    /// Time at which the emergency refund opens.
    pub open spec fn emergency_timelock(&self) -> int {
        self.cancellation_timelock + EMERGENCY_DELAY
    }

    /// Time at which `stage` opens.
    pub open spec fn threshold(&self, stage: TimelockStage) -> int {
        match stage {
            TimelockStage::Withdrawal => self.withdrawal_timelock as int,
            TimelockStage::PublicWithdrawal => self.public_withdrawal_timelock as int,
            TimelockStage::Cancellation => self.cancellation_timelock as int,
            TimelockStage::Emergency => self.emergency_timelock(),
        }
    }

    /// Whether `stage` is open at time `now`.
    pub open spec fn reached(&self, stage: TimelockStage, now: u64) -> bool {
        now >= self.threshold(stage)
    }

    /// The timelocks passed every rule of construction at `created_at`.
    pub open spec fn wf(&self) -> bool {
        sequence_check(
            self.created_at,
            self.withdrawal_timelock,
            self.public_withdrawal_timelock,
            self.cancellation_timelock,
        ) is Ok
    }

    /// What `new` returns for these arguments.
    pub open spec fn spec_new(withdrawal: u64, public_withdrawal: u64, cancellation: u64, now: u64)
        -> Result<Timelocks, EscrowError>
    {
        match sequence_check(now, withdrawal, public_withdrawal, cancellation) {
            Ok(_) => Ok(
                Timelocks {
                    withdrawal_timelock: withdrawal,
                    public_withdrawal_timelock: public_withdrawal,
                    cancellation_timelock: cancellation,
                    created_at: now,
                },
            ),
            Err(e) => Err(e),
        }
    }

    /// Validates a timelock sequence created at `now` and builds it.
    pub fn new(withdrawal_timelock: u64, public_withdrawal_timelock: u64, cancellation_timelock: u64, now: u64)
        -> (r: Result<Timelocks, EscrowError>)
        ensures
            r == Self::spec_new(withdrawal_timelock, public_withdrawal_timelock, cancellation_timelock, now),
            r matches Ok(t) ==> t.wf(),
    {
        match Self::validate_timelock_sequence(
            now,
            withdrawal_timelock,
            public_withdrawal_timelock,
            cancellation_timelock,
        ) {
            Ok(()) => Ok(
                Timelocks {
                    withdrawal_timelock,
                    public_withdrawal_timelock,
                    cancellation_timelock,
                    created_at: now,
                },
            ),
            Err(e) => Err(e),
        }
    }

    fn validate_timelock_sequence(now: u64, withdrawal: u64, public_withdrawal: u64, cancellation: u64)
        -> (r: Result<(), EscrowError>)
        ensures
            r == sequence_check(now, withdrawal, public_withdrawal, cancellation),
    {
        if withdrawal <= now {
            return Err(EscrowError::WithdrawalNotInFuture);
        }
        if public_withdrawal <= withdrawal {
            return Err(EscrowError::PublicWithdrawalNotAfterWithdrawal);
        }
        if cancellation <= public_withdrawal {
            return Err(EscrowError::CancellationNotAfterPublicWithdrawal);
        }
        if (withdrawal as u128) < now as u128 + MIN_WITHDRAWAL_DELAY as u128 {
            return Err(EscrowError::WithdrawalTooSoon);
        }
        if cancellation as u128 > now as u128 + MAX_TIMELOCK_PERIOD as u128 {
            return Err(EscrowError::CancellationTooFar);
        }
        if cancellation > u64::MAX - EMERGENCY_DELAY {
            return Err(EscrowError::TimestampOverflow);
        }
        Ok(())
    }

    /// Whether private withdrawal is open at `now`.
    pub fn can_withdraw(&self, now: u64) -> (r: bool)
        ensures
            r == self.reached(TimelockStage::Withdrawal, now),
    {
        now >= self.withdrawal_timelock
    }

    /// Whether public withdrawal is open at `now`.
    pub fn can_public_withdraw(&self, now: u64) -> (r: bool)
        ensures
            r == self.reached(TimelockStage::PublicWithdrawal, now),
    {
        now >= self.public_withdrawal_timelock
    }

    /// Whether cancellation is open at `now`.
    pub fn can_cancel(&self, now: u64) -> (r: bool)
        ensures
            r == self.reached(TimelockStage::Cancellation, now),
    {
        now >= self.cancellation_timelock
    }

    /// Whether the emergency refund is open at `now`.
    pub fn can_emergency_refund(&self, now: u64) -> (r: bool)
        ensures
            r == self.reached(TimelockStage::Emergency, now),
    {
        now as u128 >= self.cancellation_timelock as u128 + EMERGENCY_DELAY as u128
    }

    /// Seconds left at `now` before `stage` opens, or `None` once it is open.
    pub open spec fn spec_time_until(&self, stage: TimelockStage, now: u64) -> Option<u64> {
        if self.reached(stage, now) {
            None
        } else {
            Some((self.threshold(stage) - now) as u64)
        }
    }

    /// Seconds left before private withdrawal opens.
    pub fn time_until_withdrawal(&self, now: u64) -> (r: Option<u64>)
        ensures
            r == self.spec_time_until(TimelockStage::Withdrawal, now),
    {
        if now >= self.withdrawal_timelock {
            None
        } else {
            Some(self.withdrawal_timelock - now)
        }
    }

    /// Seconds left before public withdrawal opens.
    pub fn time_until_public_withdrawal(&self, now: u64) -> (r: Option<u64>)
        ensures
            r == self.spec_time_until(TimelockStage::PublicWithdrawal, now),
    {
        if now >= self.public_withdrawal_timelock {
            None
        } else {
            Some(self.public_withdrawal_timelock - now)
        }
    }

    /// Seconds left before cancellation opens.
    pub fn time_until_cancellation(&self, now: u64) -> (r: Option<u64>)
        ensures
            r == self.spec_time_until(TimelockStage::Cancellation, now),
    {
        if now >= self.cancellation_timelock {
            None
        } else {
            Some(self.cancellation_timelock - now)
        }
    }

    /// Seconds left before the emergency refund opens.
    pub fn time_until_emergency(&self, now: u64) -> (r: Option<u64>)
        requires
            self.emergency_timelock() <= u64::MAX,
        ensures
            r == self.spec_time_until(TimelockStage::Emergency, now),
    {
        let emergency_timelock = self.cancellation_timelock + EMERGENCY_DELAY;
        if now >= emergency_timelock {
            None
        } else {
            Some(emergency_timelock - now)
        }
    }

    /// Succeeds when `stage` is open at `now`, else fails with `TimelockNotMet(stage)`.
    pub fn check_timelock(&self, stage: TimelockStage, now: u64) -> (r: Result<(), EscrowError>)
        ensures
            r is Ok <==> self.reached(stage, now),
            r matches Err(e) ==> e == EscrowError::TimelockNotMet(stage),
    {
        let open = match stage {
            TimelockStage::Withdrawal => self.can_withdraw(now),
            TimelockStage::PublicWithdrawal => self.can_public_withdraw(now),
            TimelockStage::Cancellation => self.can_cancel(now),
            TimelockStage::Emergency => self.can_emergency_refund(now),
        };
        if open {
            Ok(())
        } else {
            Err(EscrowError::TimelockNotMet(stage))
        }
    }

    /// The description that `get_status` gives at `now`.
    pub open spec fn status_text(&self, now: u64) -> Seq<char> {
        if now < self.withdrawal_timelock {
            "Waiting for withdrawal timelock ("@ + decimal((self.withdrawal_timelock - now) as nat)
                + "s remaining)"@
        } else if now < self.public_withdrawal_timelock {
            "Private withdrawal period active"@
        } else if now < self.cancellation_timelock {
            "Public withdrawal period active"@
        } else {
            "Cancellation period active"@
        }
    }

    /// A human-readable description of the stage open at `now`, for diagnostics.
    pub fn get_status(&self, now: u64) -> (r: String)
        ensures
            r@ == self.status_text(now),
    {
        if now < self.withdrawal_timelock {
            let mut text = String::from_str("Waiting for withdrawal timelock (");
            push_decimal(&mut text, (self.withdrawal_timelock - now) as u128);
            text.append("s remaining)");
            text
        } else if now < self.public_withdrawal_timelock {
            String::from_str("Private withdrawal period active")
        } else if now < self.cancellation_timelock {
            String::from_str("Public withdrawal period active")
        } else {
            String::from_str("Cancellation period active")
        }
    }

    /// Builds timelocks at `now` plus the given delays, validated as by `new`.
    pub fn create_with_delays(
        withdrawal_delay_seconds: u64,
        public_withdrawal_delay_seconds: u64,
        cancellation_delay_seconds: u64,
        now: u64,
    ) -> (r: Result<Timelocks, EscrowError>)
        requires
            now + withdrawal_delay_seconds <= u64::MAX,
            now + public_withdrawal_delay_seconds <= u64::MAX,
            now + cancellation_delay_seconds <= u64::MAX,
        ensures
            r == Self::spec_new(
                (now + withdrawal_delay_seconds) as u64,
                (now + public_withdrawal_delay_seconds) as u64,
                (now + cancellation_delay_seconds) as u64,
                now,
            ),
    {
        Self::new(
            now + withdrawal_delay_seconds,
            now + public_withdrawal_delay_seconds,
            now + cancellation_delay_seconds,
            now,
        )
    }

    /// The preset for this chain as the destination of a swap.
    pub fn create_destination_chain(now: u64) -> (r: Result<Timelocks, EscrowError>)
        requires
            now + 144 <= u64::MAX,
        ensures
            r == Self::spec_new((now + 18) as u64, (now + 54) as u64, (now + 144) as u64, now),
    {
        Self::create_with_delays(18, 54, 144, now)
    }

    /// The standard preset.
    pub fn create_standard(now: u64) -> (r: Result<Timelocks, EscrowError>)
        requires
            now + 864 <= u64::MAX,
        ensures
            r == Self::spec_new((now + 36) as u64, (now + 72) as u64, (now + 864) as u64, now),
    {
        Self::create_with_delays(36, 72, 864, now)
    }
}

/// Once a stage is open it stays open: time only moves forward.
pub proof fn lemma_stage_stays_open(t: Timelocks, stage: TimelockStage, earlier: u64, later: u64)
    requires
        earlier <= later,
        t.reached(stage, earlier),
    ensures
        t.reached(stage, later),
{
}

/// In well-formed timelocks the stages open in their order: when a later stage
/// is open, every earlier one is open too.
pub proof fn lemma_stages_open_in_order(t: Timelocks, now: u64)
    requires
        t.wf(),
    ensures
        t.reached(TimelockStage::PublicWithdrawal, now) ==> t.reached(TimelockStage::Withdrawal, now),
        t.reached(TimelockStage::Cancellation, now) ==> t.reached(TimelockStage::PublicWithdrawal, now),
        t.reached(TimelockStage::Emergency, now) ==> t.reached(TimelockStage::Cancellation, now),
        t.threshold(TimelockStage::Withdrawal) < t.threshold(TimelockStage::PublicWithdrawal),
        t.threshold(TimelockStage::PublicWithdrawal) < t.threshold(TimelockStage::Cancellation),
        t.threshold(TimelockStage::Cancellation) < t.threshold(TimelockStage::Emergency),
{
}

/// The construction rules, stated directly: timelocks are accepted exactly when
/// the stages are strictly increasing after creation, the withdrawal timelock is
/// at least the minimum delay after creation, the cancellation timelock is within
/// the maximum horizon, and the emergency threshold fits in 64 bits.
pub proof fn lemma_construction_rules(withdrawal: u64, public_withdrawal: u64, cancellation: u64, now: u64)
    ensures
        Timelocks::spec_new(withdrawal, public_withdrawal, cancellation, now) is Ok <==> {
            &&& now < withdrawal
            &&& withdrawal < public_withdrawal
            &&& public_withdrawal < cancellation
            &&& withdrawal >= now + MIN_WITHDRAWAL_DELAY
            &&& cancellation <= now + MAX_TIMELOCK_PERIOD
            &&& cancellation + EMERGENCY_DELAY <= u64::MAX
        },
        withdrawal <= now ==> Timelocks::spec_new(withdrawal, public_withdrawal, cancellation, now)
            == Err::<Timelocks, EscrowError>(EscrowError::WithdrawalNotInFuture),
        cancellation > now + MAX_TIMELOCK_PERIOD ==> Timelocks::spec_new(
            withdrawal,
            public_withdrawal,
            cancellation,
            now,
        ) is Err,
{
}

} // verus!
