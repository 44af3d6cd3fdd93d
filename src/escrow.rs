use vstd::prelude::*;
use vstd::string::*;

use crate::account::{is_valid_account_id, valid_account_id};
use crate::error::EscrowError;
use crate::immutables::{immutables_check, secret_matches, EscrowImmutables};
use crate::timelocks::{sequence_check, TimelockStage, Timelocks};

verus! {

/// A movement of funds that an operation asks the host to carry out. The
/// escrow's state is committed before the transfer is dispatched, and the
/// transfer's outcome is not reported back to the escrow.
#[derive(Debug, PartialEq, Eq)]
pub struct Transfer {
    /// Account that receives the funds.
    pub recipient: String,
    /// Amount, in the smallest unit of the native token.
    pub amount: u128,
}

/// One swap's escrow: its fixed parameters, its timelocks and its settlement state.
#[derive(Debug)]
pub struct HTLCEscrow {
    pub immutables: EscrowImmutables,
    pub timelocks: Timelocks,
    /// Value attached when the escrow was created.
    pub deposited_amount: u128,
    /// Account that funded the escrow, and that refunds go to.
    pub depositor: String,
    pub is_withdrawn: bool,
    pub is_cancelled: bool,
    /// The secret, once a withdrawal has revealed it.
    pub revealed_secret: Option<String>,
}

/// The outcome of validating an escrow's creation: the first rule broken.
pub open spec fn creation_check(
    order_hash: Seq<char>,
    hashlock: Seq<char>,
    maker: Seq<char>,
    taker_evm_address: Seq<char>,
    amount: u128,
    safety_deposit: u128,
    withdrawal_timelock: u64,
    public_withdrawal_timelock: u64,
    cancellation_timelock: u64,
    attached_deposit: u128,
    depositor: Seq<char>,
    now: u64,
) -> Result<(), EscrowError> {
    match immutables_check(order_hash, hashlock, maker, taker_evm_address, amount, safety_deposit) {
        Err(e) => Err(e),
        Ok(_) => if !valid_account_id(depositor) {
            Err(EscrowError::InvalidAccountId)
        } else if attached_deposit < amount + safety_deposit {
            Err(EscrowError::InsufficientDeposit)
        } else {
            sequence_check(now, withdrawal_timelock, public_withdrawal_timelock, cancellation_timelock)
        },
    }
}

impl HTLCEscrow {
    /// The escrow's invariant: valid parameters and timelocks, a sufficient
    /// deposit, at most one of the two terminal flags, and a revealed secret
    /// exactly when it was withdrawn.
    pub open spec fn wf(&self) -> bool {
        &&& self.immutables.wf()
        &&& self.timelocks.wf()
        &&& self.deposited_amount >= self.immutables.total_required()
        &&& !(self.is_withdrawn && self.is_cancelled)
        &&& (self.revealed_secret is Some <==> self.is_withdrawn)
    }

    /// Neither withdrawn nor cancelled.
    pub open spec fn active(&self) -> bool {
        !self.is_withdrawn && !self.is_cancelled
    }

    /// The escrow after a successful withdrawal with `secret`.
    pub open spec fn after_withdraw(self, secret: String) -> HTLCEscrow {
        HTLCEscrow { is_withdrawn: true, revealed_secret: Some(secret), ..self }
    }

    /// The escrow after a successful cancellation.
    pub open spec fn after_cancel(self) -> HTLCEscrow {
        HTLCEscrow { is_cancelled: true, ..self }
    }

    /// The outcome of a withdrawal with `secret` at `now`, before any change.
    pub open spec fn withdraw_check(&self, secret: Seq<char>, now: u64) -> Result<(), EscrowError> {
        if !self.active() {
            Err(EscrowError::AlreadyFinalized)
        } else if !secret_matches(secret, self.immutables.hashlock@) {
            Err(EscrowError::InvalidSecret)
        } else if !self.timelocks.reached(TimelockStage::Withdrawal, now) {
            Err(EscrowError::TimelockNotMet(TimelockStage::Withdrawal))
        } else {
            Ok(())
        }
    }

    /// The outcome of a cancellation at `now`, before any change.
    pub open spec fn cancel_check(&self, now: u64) -> Result<(), EscrowError> {
        if !self.active() {
            Err(EscrowError::AlreadyFinalized)
        } else if !self.timelocks.reached(TimelockStage::Cancellation, now) {
            Err(EscrowError::TimelockNotMet(TimelockStage::Cancellation))
        } else {
            Ok(())
        }
    }

    /// The outcome of an emergency refund asked by `caller` at `now`.
    pub open spec fn emergency_check(&self, caller: Seq<char>, now: u64) -> Result<(), EscrowError> {
        if caller != self.depositor@ {
            Err(EscrowError::Unauthorized)
        } else if !self.timelocks.reached(TimelockStage::Emergency, now) {
            Err(EscrowError::TimelockNotMet(TimelockStage::Emergency))
        } else {
            Ok(())
        }
    }

    /// Creates an escrow funded by `depositor` with `attached_deposit` at time
    /// `now`, after validating the parameters, the deposit and the timelocks.
    pub fn new(
        order_hash: String,
        hashlock: String,
        maker: String,
        taker_evm_address: String,
        amount: u128,
        safety_deposit: u128,
        withdrawal_timelock: u64,
        public_withdrawal_timelock: u64,
        cancellation_timelock: u64,
        attached_deposit: u128,
        depositor: String,
        now: u64,
    ) -> (r: Result<HTLCEscrow, EscrowError>)
        ensures
            r is Ok <==> creation_check(
                order_hash@,
                hashlock@,
                maker@,
                taker_evm_address@,
                amount,
                safety_deposit,
                withdrawal_timelock,
                public_withdrawal_timelock,
                cancellation_timelock,
                attached_deposit,
                depositor@,
                now,
            ) is Ok,
            r matches Err(e) ==> Err::<(), EscrowError>(e) == creation_check(
                order_hash@,
                hashlock@,
                maker@,
                taker_evm_address@,
                amount,
                safety_deposit,
                withdrawal_timelock,
                public_withdrawal_timelock,
                cancellation_timelock,
                attached_deposit,
                depositor@,
                now,
            ),
            r matches Ok(esc) ==> {
                &&& esc.wf()
                &&& esc.immutables.order_hash@ == order_hash@
                &&& esc.immutables.hashlock@ == hashlock@
                &&& esc.immutables.maker@ == maker@
                &&& esc.immutables.taker_evm_address@ == taker_evm_address@
                &&& esc.immutables.amount == amount
                &&& esc.immutables.safety_deposit == safety_deposit
                &&& esc.timelocks == (Timelocks {
                    withdrawal_timelock,
                    public_withdrawal_timelock,
                    cancellation_timelock,
                    created_at: now,
                })
                &&& esc.deposited_amount == attached_deposit
                &&& esc.depositor@ == depositor@
                &&& !esc.is_withdrawn
                &&& !esc.is_cancelled
                &&& esc.revealed_secret is None
            },
    {
        let immutables = match EscrowImmutables::new(
            order_hash,
            hashlock,
            maker,
            taker_evm_address,
            amount,
            safety_deposit,
        ) {
            Ok(im) => im,
            Err(e) => return Err(e),
        };
        if !is_valid_account_id(depositor.as_str()) {
            return Err(EscrowError::InvalidAccountId);
        }
        let required_amount = immutables.get_total_required();
        if attached_deposit < required_amount {
            return Err(EscrowError::InsufficientDeposit);
        }
        let timelocks = match Timelocks::new(
            withdrawal_timelock,
            public_withdrawal_timelock,
            cancellation_timelock,
            now,
        ) {
            Ok(t) => t,
            Err(e) => return Err(e),
        };
        Ok(
            HTLCEscrow {
                immutables,
                timelocks,
                deposited_amount: attached_deposit,
                depositor,
                is_withdrawn: false,
                is_cancelled: false,
                revealed_secret: None,
            },
        )
    }

    /// Withdraws by revealing `secret` at `now`: on success the escrow becomes
    /// withdrawn, keeps the secret, and asks for the principal to go to the maker.
    pub fn withdraw(&mut self, secret: String, now: u64) -> (r: Result<Transfer, EscrowError>)
        ensures
            r is Ok <==> old(self).withdraw_check(secret@, now) is Ok,
            r matches Err(e) ==> {
                &&& Err::<(), EscrowError>(e) == old(self).withdraw_check(secret@, now)
                &&& *final(self) == *old(self)
            },
            r matches Ok(t) ==> {
                &&& t.recipient@ == old(self).immutables.maker@
                &&& t.amount == old(self).immutables.amount
                &&& *final(self) == old(self).after_withdraw(secret)
            },
            old(self).wf() ==> final(self).wf(),
    {
        if self.is_withdrawn || self.is_cancelled {
            return Err(EscrowError::AlreadyFinalized);
        }
        if !self.immutables.verify_secret(secret.as_str()) {
            return Err(EscrowError::InvalidSecret);
        }
        match self.timelocks.check_timelock(TimelockStage::Withdrawal, now) {
            Ok(()) => {},
            Err(e) => return Err(e),
        }
        self.is_withdrawn = true;
        self.revealed_secret = Some(secret);
        Ok(Transfer { recipient: self.immutables.maker.clone(), amount: self.immutables.amount })
    }

    /// Cancels at `now`: on success the escrow becomes cancelled and asks for
    /// the whole deposit to go back to the depositor.
    pub fn cancel(&mut self, now: u64) -> (r: Result<Transfer, EscrowError>)
        ensures
            r is Ok <==> old(self).cancel_check(now) is Ok,
            r matches Err(e) ==> {
                &&& Err::<(), EscrowError>(e) == old(self).cancel_check(now)
                &&& *final(self) == *old(self)
            },
            r matches Ok(t) ==> {
                &&& t.recipient@ == old(self).depositor@
                &&& t.amount == old(self).deposited_amount
                &&& *final(self) == old(self).after_cancel()
            },
            old(self).wf() ==> final(self).wf(),
    {
        if self.is_withdrawn || self.is_cancelled {
            return Err(EscrowError::AlreadyFinalized);
        }
        match self.timelocks.check_timelock(TimelockStage::Cancellation, now) {
            Ok(()) => {},
            Err(e) => return Err(e),
        }
        self.is_cancelled = true;
        Ok(Transfer { recipient: self.depositor.clone(), amount: self.deposited_amount })
    }

    /// Lets the depositor recover the deposit once the emergency stage is open.
    /// It does not look at, nor change, the withdrawn and cancelled flags.
    pub fn emergency_refund(&mut self, caller: &str, now: u64) -> (r: Result<Transfer, EscrowError>)
        ensures
            r is Ok <==> old(self).emergency_check(caller@, now) is Ok,
            r matches Err(e) ==> Err::<(), EscrowError>(e) == old(self).emergency_check(caller@, now),
            r matches Ok(t) ==> t.recipient@ == old(self).depositor@ && t.amount
                == old(self).deposited_amount,
            *final(self) == *old(self),
    {
        let caller = caller.to_owned();
        if caller != self.depositor {
            return Err(EscrowError::Unauthorized);
        }
        match self.timelocks.check_timelock(TimelockStage::Emergency, now) {
            Ok(()) => {},
            Err(e) => return Err(e),
        }
        Ok(Transfer { recipient: self.depositor.clone(), amount: self.deposited_amount })
    }
}

impl HTLCEscrow {
    pub fn get_order_hash(&self) -> (r: String)
        ensures
            r@ == self.immutables.order_hash@,
    {
        self.immutables.order_hash.clone()
    }

    pub fn get_hashlock(&self) -> (r: String)
        ensures
            r@ == self.immutables.hashlock@,
    {
        self.immutables.hashlock.clone()
    }

    pub fn get_maker(&self) -> (r: String)
        ensures
            r@ == self.immutables.maker@,
    {
        self.immutables.maker.clone()
    }

    pub fn get_taker_evm_address(&self) -> (r: String)
        ensures
            r@ == self.immutables.taker_evm_address@,
    {
        self.immutables.taker_evm_address.clone()
    }

    pub fn get_amount(&self) -> (r: u128)
        ensures
            r == self.immutables.amount,
    {
        self.immutables.amount
    }

    pub fn get_safety_deposit(&self) -> (r: u128)
        ensures
            r == self.immutables.safety_deposit,
    {
        self.immutables.safety_deposit
    }

    pub fn get_withdrawal_timelock(&self) -> (r: u64)
        ensures
            r == self.timelocks.withdrawal_timelock,
    {
        self.timelocks.withdrawal_timelock
    }

    pub fn get_cancellation_timelock(&self) -> (r: u64)
        ensures
            r == self.timelocks.cancellation_timelock,
    {
        self.timelocks.cancellation_timelock
    }

    pub fn get_deposited_amount(&self) -> (r: u128)
        ensures
            r == self.deposited_amount,
    {
        self.deposited_amount
    }

    pub fn get_depositor(&self) -> (r: String)
        ensures
            r@ == self.depositor@,
    {
        self.depositor.clone()
    }

    pub fn is_withdrawn(&self) -> (r: bool)
        ensures
            r == self.is_withdrawn,
    {
        self.is_withdrawn
    }

    pub fn is_cancelled(&self) -> (r: bool)
        ensures
            r == self.is_cancelled,
    {
        self.is_cancelled
    }

    pub fn get_revealed_secret(&self) -> (r: Option<String>)
        ensures
            r == self.revealed_secret,
    {
        match &self.revealed_secret {
            Some(secret) => Some(secret.clone()),
            None => None,
        }
    }

    pub fn get_created_at(&self) -> (r: u64)
        ensures
            r == self.timelocks.created_at,
    {
        self.timelocks.created_at
    }

    /// Neither withdrawn nor cancelled.
    pub fn is_active(&self) -> (r: bool)
        ensures
            r == self.active(),
    {
        !self.is_withdrawn && !self.is_cancelled
    }

    /// `withdrawn`, `cancelled` or `active`.
    pub open spec fn status_label(&self) -> Seq<char> {
        if self.is_withdrawn {
            "withdrawn"@
        } else if self.is_cancelled {
            "cancelled"@
        } else {
            "active"@
        }
    }

    /// The settlement status as a word.
    pub fn get_status(&self) -> (r: String)
        ensures
            r@ == self.status_label(),
    {
        if self.is_withdrawn {
            String::from_str("withdrawn")
        } else if self.is_cancelled {
            String::from_str("cancelled")
        } else {
            String::from_str("active")
        }
    }

    /// The timelock stage open at `now`, described.
    pub fn get_timelock_status(&self, now: u64) -> (r: String)
        ensures
            r@ == self.timelocks.status_text(now),
    {
        self.timelocks.get_status(now)
    }

    pub fn can_withdraw_now(&self, now: u64) -> (r: bool)
        ensures
            r == self.timelocks.reached(TimelockStage::Withdrawal, now),
    {
        self.timelocks.can_withdraw(now)
    }

    pub fn can_cancel_now(&self, now: u64) -> (r: bool)
        ensures
            r == self.timelocks.reached(TimelockStage::Cancellation, now),
    {
        self.timelocks.can_cancel(now)
    }

    pub fn time_until_withdrawal(&self, now: u64) -> (r: Option<u64>)
        ensures
            r == self.timelocks.spec_time_until(TimelockStage::Withdrawal, now),
    {
        self.timelocks.time_until_withdrawal(now)
    }

    pub fn time_until_cancellation(&self, now: u64) -> (r: Option<u64>)
        ensures
            r == self.timelocks.spec_time_until(TimelockStage::Cancellation, now),
    {
        self.timelocks.time_until_cancellation(now)
    }
}

/// A withdrawal is terminal: once one has succeeded, every later withdrawal or
/// cancellation fails with `AlreadyFinalized`.
pub proof fn lemma_withdraw_is_terminal(
    e: HTLCEscrow,
    secret: String,
    now: u64,
    later_secret: Seq<char>,
    later: u64,
)
    requires
        e.withdraw_check(secret@, now) is Ok,
    ensures
        e.after_withdraw(secret).withdraw_check(later_secret, later) == Err::<(), EscrowError>(
            EscrowError::AlreadyFinalized,
        ),
        e.after_withdraw(secret).cancel_check(later) == Err::<(), EscrowError>(
            EscrowError::AlreadyFinalized,
        ),
{
}

/// A cancellation is terminal: once one has succeeded, every later withdrawal or
/// cancellation fails with `AlreadyFinalized`.
pub proof fn lemma_cancel_is_terminal(e: HTLCEscrow, now: u64, later_secret: Seq<char>, later: u64)
    requires
        e.cancel_check(now) is Ok,
    ensures
        e.after_cancel().withdraw_check(later_secret, later) == Err::<(), EscrowError>(
            EscrowError::AlreadyFinalized,
        ),
        e.after_cancel().cancel_check(later) == Err::<(), EscrowError>(
            EscrowError::AlreadyFinalized,
        ),
{
}

/// On an active escrow, cancelling before the cancellation timelock fails with
/// `TimelockNotMet`; at or after it, cancelling succeeds, and only once.
pub proof fn lemma_cancel_gate(e: HTLCEscrow, now: u64, later: u64)
    requires
        e.active(),
    ensures
        now < e.timelocks.cancellation_timelock ==> e.cancel_check(now) == Err::<(), EscrowError>(
            EscrowError::TimelockNotMet(TimelockStage::Cancellation),
        ),
        now >= e.timelocks.cancellation_timelock ==> {
            &&& e.cancel_check(now) is Ok
            &&& e.after_cancel().cancel_check(later) == Err::<(), EscrowError>(
                EscrowError::AlreadyFinalized,
            )
        },
{
}

/// The invariant survives every successful state change: withdrawn and
/// cancelled never hold together, and a terminal flag is never cleared.
pub proof fn lemma_transitions_keep_invariant(e: HTLCEscrow, secret: String, now: u64)
    requires
        e.wf(),
    ensures
        e.withdraw_check(secret@, now) is Ok ==> e.after_withdraw(secret).wf(),
        e.cancel_check(now) is Ok ==> e.after_cancel().wf(),
        e.is_withdrawn ==> e.after_cancel().is_withdrawn && e.after_withdraw(secret).is_withdrawn,
        e.is_cancelled ==> e.after_cancel().is_cancelled && e.after_withdraw(secret).is_cancelled,
{
}

} // verus!
