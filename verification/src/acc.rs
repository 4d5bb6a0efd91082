//! The transfer capability: the only way money moves.
use vstd::prelude::*;
use crate::money::CashValue;

verus! {

/// How a transfer ended. A failed transfer has moved nothing.
#[derive(Clone, Copy, Debug, PartialEq, Eq, Structural)]
pub enum TransferResult {
    Success,
    Failure,
}

/// What holds money that can be paid in, taken out, or taken out by force.
///
/// Each implementation says when each operation succeeds. An operation
/// changes the balance by exactly the amount when it succeeds and leaves it
/// as it was when it fails.
pub trait CanTransfer {
    /// What the holder's bookkeeping keeps true.
    spec fn inv(&self) -> bool;

    /// The money held, in hundredths.
    spec fn balance(&self) -> int;

    /// Whether a deposit of the amount succeeds.
    spec fn can_deposit(&self, amount: int) -> bool;

    /// Whether a withdrawal of the amount succeeds.
    spec fn can_withdraw(&self, amount: int) -> bool;

    /// Whether a forced withdrawal of the amount succeeds.
    spec fn can_liquidate(&self, amount: int) -> bool;

    fn deposit(&mut self, amount: CashValue) -> (result: TransferResult)
        requires
            old(self).inv(),
        ensures
            final(self).inv(),
            (result == TransferResult::Success) == old(self).can_deposit(amount@),
            final(self).balance() == old(self).balance() + if result == TransferResult::Success {
                amount@
            } else {
                0
            },
    ;

    fn withdraw(&mut self, amount: CashValue) -> (result: TransferResult)
        requires
            old(self).inv(),
        ensures
            final(self).inv(),
            (result == TransferResult::Success) == old(self).can_withdraw(amount@),
            final(self).balance() == old(self).balance() - if result == TransferResult::Success {
                amount@
            } else {
                0
            },
    ;

    fn liquidate(&mut self, amount: CashValue) -> (result: TransferResult)
        requires
            old(self).inv(),
        ensures
            final(self).inv(),
            (result == TransferResult::Success) == old(self).can_liquidate(amount@),
            final(self).balance() == old(self).balance() - if result == TransferResult::Success {
                amount@
            } else {
                0
            },
    ;
}

/// Moving money between two holders.
pub struct Transfer;

impl Transfer {
    /// Moves an amount from a source, by force if need be, to a destination.
    /// Succeeds exactly when the source gives the amount up. Only then is the
    /// destination credited, as far as it accepts the deposit.
    pub fn force<A: CanTransfer, B: CanTransfer>(
        source: &mut A,
        dest: &mut B,
        amount: CashValue,
    ) -> (result: TransferResult)
        requires
            old(source).inv(),
            old(dest).inv(),
        ensures
            final(source).inv(),
            final(dest).inv(),
            (result == TransferResult::Success) == old(source).can_liquidate(amount@),
            final(source).balance() == old(source).balance() - if result
                == TransferResult::Success {
                amount@
            } else {
                0
            },
            final(dest).balance() == old(dest).balance() + if result == TransferResult::Success
                && old(dest).can_deposit(amount@) {
                amount@
            } else {
                0
            },
    {
        let res = source.liquidate(amount);
        match res {
            TransferResult::Success => {
                dest.deposit(amount);
                TransferResult::Success
            },
            TransferResult::Failure => TransferResult::Failure,
        }
    }

    /// Moves an amount from a source to a destination. Succeeds exactly when
    /// the source gives the amount up. Only then is the destination credited,
    /// as far as it accepts the deposit.
    pub fn from<A: CanTransfer, B: CanTransfer>(
        source: &mut A,
        dest: &mut B,
        amount: CashValue,
    ) -> (result: TransferResult)
        requires
            old(source).inv(),
            old(dest).inv(),
        ensures
            final(source).inv(),
            final(dest).inv(),
            (result == TransferResult::Success) == old(source).can_withdraw(amount@),
            final(source).balance() == old(source).balance() - if result
                == TransferResult::Success {
                amount@
            } else {
                0
            },
            final(dest).balance() == old(dest).balance() + if result == TransferResult::Success
                && old(dest).can_deposit(amount@) {
                amount@
            } else {
                0
            },
    {
        let res = source.withdraw(amount);
        match res {
            TransferResult::Success => {
                dest.deposit(amount);
                TransferResult::Success
            },
            TransferResult::Failure => TransferResult::Failure,
        }
    }

    /// Pays an amount into a destination out of nowhere. Always reports
    /// success; the destination is credited as far as it accepts the deposit.
    pub fn to<B: CanTransfer>(dest: &mut B, amount: CashValue) -> (result: TransferResult)
        requires
            old(dest).inv(),
        ensures
            final(dest).inv(),
            result == TransferResult::Success,
            final(dest).balance() == old(dest).balance() + if old(dest).can_deposit(amount@) {
                amount@
            } else {
                0
            },
    {
        dest.deposit(amount);
        TransferResult::Success
    }
}

} // verus!
