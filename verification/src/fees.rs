//! Taking the fees of transactions.

use crate::amount::{currency_sum, monus, to_currency, Amount};
use crate::config::SystemConfig;
use crate::dispatch::ExistenceRequirement;
use crate::mapping::AddressMapping;
use crate::primitives::{H160, U256};
use crate::types::Error;
use std::marker::PhantomData;
use vstd::prelude::*;

verus! {

/// A sum that was taken from an account and has not gone anywhere yet.
#[derive(Debug, PartialEq, Eq)]
pub struct NegativeImbalance<Balance> {
    pub amount: Balance,
}

/// A sum that was put on an account and has not come from anywhere yet.
#[derive(Debug, PartialEq, Eq)]
pub struct PositiveImbalance<Balance> {
    pub amount: Balance,
}

impl<Balance: Amount> NegativeImbalance<Balance> {
    /// What is left of the sum once `other` has come from it, or nothing where `other` is larger.
    pub open spec fn less(self, other: PositiveImbalance<Balance>) -> Option<Self> {
        if self.amount.value() >= other.amount.value() {
            Some(
                NegativeImbalance {
                    amount: Balance::of((self.amount.value() - other.amount.value()) as nat),
                },
            )
        } else {
            None
        }
    }

    /// Lets `other` come from the sum.
    pub fn offset(self, other: PositiveImbalance<Balance>) -> (r: Option<Self>)
        ensures
            r == self.less(other),
    {
        if self.amount.at_least(other.amount) {
            let amount = self.amount.saturating_sub(other.amount);
            proof {
                amount.representation();
            }
            Some(NegativeImbalance { amount })
        } else {
            None
        }
    }
}

/// What a sum is taken from an account for.
#[derive(Clone, Copy, Debug, PartialEq, Eq, Structural)]
pub enum WithdrawReason {
    TransactionPayment,
    Transfer,
    Reserve,
    Fee,
    Tip,
}

/// A sum that the runtime is to take from an account.
#[derive(Debug, PartialEq, Eq)]
pub struct FeeWithdrawal<AccountId, Balance> {
    pub who: AccountId,
    pub value: Balance,
    pub reason: WithdrawReason,
    pub existence: ExistenceRequirement,
}

/// A part of a fee that the runtime is to put back on the account that paid, if the account still
/// exists.
#[derive(Debug, PartialEq, Eq)]
pub struct Refund<AccountId, Balance> {
    pub who: AccountId,
    pub amount: Balance,
    /// What was paid.
    pub paid: NegativeImbalance<Balance>,
}

/// What is left of a fee once it is corrected, and where the runtime is to let it go.
#[derive(Debug, PartialEq, Eq)]
pub enum FeeRest<Balance> {
    /// To the handler that the fee rule names.
    HandedOn(NegativeImbalance<Balance>),
    /// Nowhere: no account is credited with the sum, and the currency's total issuance falls by it.
    Dropped(NegativeImbalance<Balance>),
}

/// A currency in which fees are paid.
pub trait FeeCurrency {
    /// A sum of the currency.
    type Balance: Amount;
}

/// The currency of the runtime `T` itself.
pub struct OwnCurrency<T>(PhantomData<T>);

impl<T: SystemConfig> FeeCurrency for OwnCurrency<T> {
    type Balance = T::Balance;
}

/// A handler of what is left of a fee.
pub trait OnUnbalanced<Balance> {
    /// Whether the handler lets every sum go nowhere.
    spec fn drops() -> bool;

    /// Where the handler lets a sum go.
    fn on_unbalanced(rest: NegativeImbalance<Balance>) -> (r: FeeRest<Balance>)
        ensures
            r == disposed(rest, Self::drops()),
    ;
}

/// What is left of a fee, on its way to nowhere or to a handler.
pub open spec fn disposed<Balance>(
    rest: NegativeImbalance<Balance>,
    drops: bool,
) -> FeeRest<Balance> {
    if drops {
        FeeRest::Dropped(rest)
    } else {
        FeeRest::HandedOn(rest)
    }
}

impl<Balance> OnUnbalanced<Balance> for () {
    open spec fn drops() -> bool {
        true
    }

    fn on_unbalanced(rest: NegativeImbalance<Balance>) -> (r: FeeRest<Balance>) {
        FeeRest::Dropped(rest)
    }
}

/// Takes, refunds and deposits the fees of transactions. What may come of a step is anything
/// unless the type says more.
pub trait OnChargeEVMTransaction<T: SystemConfig> {
    /// A sum of the currency in which fees are paid.
    type Balance: Amount;

    /// What is kept of a fee between its withdrawal and its correction.
    type LiquidityInfo: Default;

    /// What may be taken for a fee.
    open spec fn may_withdraw(
        who: H160,
        fee: U256,
        withdrawal: FeeWithdrawal<T::AccountId, Self::Balance>,
    ) -> bool {
        true
    }

    /// What may be kept of a fee, given what the runtime took.
    open spec fn may_keep(
        reply: Result<NegativeImbalance<Self::Balance>, T::HostError>,
        kept: Result<Self::LiquidityInfo, Error>,
    ) -> bool {
        true
    }

    /// What may be put back of a fee.
    open spec fn may_refund(
        who: H160,
        corrected_fee: U256,
        already_withdrawn: Self::LiquidityInfo,
        refund: Option<Refund<T::AccountId, Self::Balance>>,
    ) -> bool {
        true
    }

    /// What may be left of a fee, given what the runtime put back, and where it may go.
    open spec fn may_settle(
        paid: NegativeImbalance<Self::Balance>,
        reply: Result<PositiveImbalance<Self::Balance>, T::HostError>,
        rest: Result<FeeRest<Self::Balance>, Error>,
    ) -> bool {
        true
    }

    /// Before a transaction is executed, secures its fee: says what the runtime is to take.
    fn withdraw_fee(who: &H160, fee: U256) -> (r: FeeWithdrawal<T::AccountId, Self::Balance>)
        ensures
            Self::may_withdraw(*who, fee, r),
    ;

    /// What is kept of a fee, given what the runtime took.
    fn fee_withdrawn(reply: Result<NegativeImbalance<Self::Balance>, T::HostError>) -> (r: Result<
        Self::LiquidityInfo,
        Error,
    >)
        ensures
            Self::may_keep(reply, r),
    ;

    /// After a transaction is executed and its fee is known, says what the runtime is to put back.
    fn correct_and_deposit_fee(
        who: &H160,
        corrected_fee: U256,
        already_withdrawn: Self::LiquidityInfo,
    ) -> (r: Option<Refund<T::AccountId, Self::Balance>>)
        ensures
            Self::may_refund(*who, corrected_fee, already_withdrawn, r),
    ;

    /// What is left of a fee, given what the runtime put back, and where it is to go.
    fn fee_corrected(
        paid: NegativeImbalance<Self::Balance>,
        reply: Result<PositiveImbalance<Self::Balance>, T::HostError>,
    ) -> (r: Result<FeeRest<Self::Balance>, Error>)
        ensures
            Self::may_settle(paid, reply, r),
    ;
}

/// What a fee takes: its sum from the account of the address, even if that empties the account.
pub open spec fn fee_withdrawal<T: SystemConfig, Balance: Amount>(
    who: H160,
    fee: U256,
) -> FeeWithdrawal<T::AccountId, Balance> {
    FeeWithdrawal {
        who: T::AddressMapping::account_of(who),
        value: Balance::of(currency_sum::<Balance>(fee)),
        reason: WithdrawReason::Fee,
        existence: ExistenceRequirement::AllowDeath,
    }
}

/// What is kept of a fee that the runtime did or did not take.
pub open spec fn fee_kept<Balance, E>(reply: Result<NegativeImbalance<Balance>, E>) -> Result<
    Option<NegativeImbalance<Balance>>,
    Error,
> {
    match reply {
        Ok(imbalance) => Ok(Some(imbalance)),
        Err(_) => Err(Error::BalanceLow),
    }
}

/// What is put back of a fee: all that was paid beyond the corrected fee.
pub open spec fn fee_refund<T: SystemConfig, Balance: Amount>(
    who: H160,
    corrected_fee: U256,
    already_withdrawn: Option<NegativeImbalance<Balance>>,
) -> Option<Refund<T::AccountId, Balance>> {
    match already_withdrawn {
        Some(paid) => Some(
            Refund {
                who: T::AddressMapping::account_of(who),
                amount: Balance::of(
                    monus(paid.amount.value(), currency_sum::<Balance>(corrected_fee)),
                ),
                paid,
            },
        ),
        None => None,
    }
}

/// What is left of a fee: what was paid less what was put back, and all that was paid where nothing
/// could be put back.
pub open spec fn fee_left<Balance: Amount, E>(
    paid: NegativeImbalance<Balance>,
    reply: Result<PositiveImbalance<Balance>, E>,
) -> Result<NegativeImbalance<Balance>, Error> {
    match reply {
        Ok(refunded) => match paid.less(refunded) {
            Some(rest) => Ok(rest),
            None => Err(Error::BalanceLow),
        },
        Err(_) => Ok(paid),
    }
}

/// What is left of a fee, on its way to nowhere or to a handler.
pub open spec fn fee_settled<Balance: Amount, E>(
    paid: NegativeImbalance<Balance>,
    reply: Result<PositiveImbalance<Balance>, E>,
    drops: bool,
) -> Result<FeeRest<Balance>, Error> {
    match fee_left(paid, reply) {
        Ok(left) => Ok(disposed(left, drops)),
        Err(e) => Err(e),
    }
}

/// Takes fees in the currency `C` and lets them go to the handler `OU`.
pub struct EVMCurrencyAdapter<C, OU>(PhantomData<(C, OU)>);

impl<T: SystemConfig, C: FeeCurrency, OU: OnUnbalanced<C::Balance>> OnChargeEVMTransaction<
    T,
> for EVMCurrencyAdapter<C, OU> {
    type Balance = C::Balance;

    type LiquidityInfo = Option<NegativeImbalance<C::Balance>>;

    open spec fn may_withdraw(
        who: H160,
        fee: U256,
        withdrawal: FeeWithdrawal<T::AccountId, C::Balance>,
    ) -> bool {
        withdrawal == fee_withdrawal::<T, C::Balance>(who, fee)
    }

    open spec fn may_keep(
        reply: Result<NegativeImbalance<C::Balance>, T::HostError>,
        kept: Result<Option<NegativeImbalance<C::Balance>>, Error>,
    ) -> bool {
        kept == fee_kept(reply)
    }

    open spec fn may_refund(
        who: H160,
        corrected_fee: U256,
        already_withdrawn: Option<NegativeImbalance<C::Balance>>,
        refund: Option<Refund<T::AccountId, C::Balance>>,
    ) -> bool {
        refund == fee_refund::<T, C::Balance>(who, corrected_fee, already_withdrawn)
    }

    open spec fn may_settle(
        paid: NegativeImbalance<C::Balance>,
        reply: Result<PositiveImbalance<C::Balance>, T::HostError>,
        rest: Result<FeeRest<C::Balance>, Error>,
    ) -> bool {
        rest == fee_settled(paid, reply, OU::drops())
    }

    fn withdraw_fee(who: &H160, fee: U256) -> (r: FeeWithdrawal<T::AccountId, C::Balance>) {
        FeeWithdrawal {
            who: T::AddressMapping::into_account_id(*who),
            value: to_currency::<C::Balance>(fee),
            reason: WithdrawReason::Fee,
            existence: ExistenceRequirement::AllowDeath,
        }
    }

    fn fee_withdrawn(reply: Result<NegativeImbalance<C::Balance>, T::HostError>) -> (r: Result<
        Option<NegativeImbalance<C::Balance>>,
        Error,
    >) {
        match reply {
            Ok(imbalance) => Ok(Some(imbalance)),
            Err(_) => Err(Error::BalanceLow),
        }
    }

    fn correct_and_deposit_fee(
        who: &H160,
        corrected_fee: U256,
        already_withdrawn: Option<NegativeImbalance<C::Balance>>,
    ) -> (r: Option<Refund<T::AccountId, C::Balance>>) {
        match already_withdrawn {
            Some(paid) => {
                let account_id = T::AddressMapping::into_account_id(*who);
                let amount = paid.amount.saturating_sub(to_currency::<C::Balance>(corrected_fee));
                proof {
                    amount.representation();
                }
                Some(Refund { who: account_id, amount, paid })
            },
            None => None,
        }
    }

    fn fee_corrected(
        paid: NegativeImbalance<C::Balance>,
        reply: Result<PositiveImbalance<C::Balance>, T::HostError>,
    ) -> (r: Result<FeeRest<C::Balance>, Error>) {
        let refunded = match reply {
            Ok(refunded) => refunded,
            Err(_) => PositiveImbalance { amount: C::Balance::zero() },
        };
        proof {
            paid.amount.representation();
        }
        match paid.offset(refunded) {
            Some(rest) => Ok(OU::on_unbalanced(rest)),
            None => Err(Error::BalanceLow),
        }
    }
}

/// Takes fees in the runtime's own currency and drops them.
impl<T: SystemConfig> OnChargeEVMTransaction<T> for () {
    type Balance = T::Balance;

    type LiquidityInfo = Option<NegativeImbalance<T::Balance>>;

    open spec fn may_withdraw(
        who: H160,
        fee: U256,
        withdrawal: FeeWithdrawal<T::AccountId, T::Balance>,
    ) -> bool {
        withdrawal == fee_withdrawal::<T, T::Balance>(who, fee)
    }

    open spec fn may_keep(
        reply: Result<NegativeImbalance<T::Balance>, T::HostError>,
        kept: Result<Option<NegativeImbalance<T::Balance>>, Error>,
    ) -> bool {
        kept == fee_kept(reply)
    }

    open spec fn may_refund(
        who: H160,
        corrected_fee: U256,
        already_withdrawn: Option<NegativeImbalance<T::Balance>>,
        refund: Option<Refund<T::AccountId, T::Balance>>,
    ) -> bool {
        refund == fee_refund::<T, T::Balance>(who, corrected_fee, already_withdrawn)
    }

    open spec fn may_settle(
        paid: NegativeImbalance<T::Balance>,
        reply: Result<PositiveImbalance<T::Balance>, T::HostError>,
        rest: Result<FeeRest<T::Balance>, Error>,
    ) -> bool {
        rest == fee_settled(paid, reply, true)
    }

    fn withdraw_fee(who: &H160, fee: U256) -> (r: FeeWithdrawal<T::AccountId, T::Balance>) {
        <EVMCurrencyAdapter<OwnCurrency<T>, ()> as OnChargeEVMTransaction<T>>::withdraw_fee(
            who,
            fee,
        )
    }

    fn fee_withdrawn(reply: Result<NegativeImbalance<T::Balance>, T::HostError>) -> (r: Result<
        Option<NegativeImbalance<T::Balance>>,
        Error,
    >) {
        <EVMCurrencyAdapter<OwnCurrency<T>, ()> as OnChargeEVMTransaction<T>>::fee_withdrawn(reply)
    }

    fn correct_and_deposit_fee(
        who: &H160,
        corrected_fee: U256,
        already_withdrawn: Option<NegativeImbalance<T::Balance>>,
    ) -> (r: Option<Refund<T::AccountId, T::Balance>>) {
        <EVMCurrencyAdapter<OwnCurrency<T>, ()> as OnChargeEVMTransaction<
            T,
        >>::correct_and_deposit_fee(who, corrected_fee, already_withdrawn)
    }

    fn fee_corrected(
        paid: NegativeImbalance<T::Balance>,
        reply: Result<PositiveImbalance<T::Balance>, T::HostError>,
    ) -> (r: Result<FeeRest<T::Balance>, Error>) {
        <EVMCurrencyAdapter<OwnCurrency<T>, ()> as OnChargeEVMTransaction<T>>::fee_corrected(
            paid,
            reply,
        )
    }
}

} // verus!
