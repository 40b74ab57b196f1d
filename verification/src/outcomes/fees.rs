//! Fees, from their withdrawal to where they go.

use crate::amount::Amount;
use crate::config::SystemConfig;
use crate::dispatch::ExistenceRequirement;
use crate::fees::{
    EVMCurrencyAdapter, FeeCurrency, FeeRest, FeeWithdrawal, NegativeImbalance,
    OnChargeEVMTransaction, OnUnbalanced, OwnCurrency, PositiveImbalance, Refund, WithdrawReason,
};
use crate::mapping::AddressMapping;
use crate::outcomes::values::law_words_are_digits;
use crate::primitives::{H160, U256};
use crate::types::Error;
use vstd::prelude::*;

verus! {

/// `sum` is what the first two words of `number` make up, or the largest sum of the currency where
/// that is too much.
pub open spec fn is_sum_of<B: Amount>(sum: nat, number: U256) -> bool {
    let low = number.0[0] + 0x1_0000_0000_0000_0000int * number.0[1];
    &&& low <= B::max_value() ==> sum == low
    &&& low > B::max_value() ==> sum == B::max_value()
}

/// What was taken for a fee and is not put back is left of it. More than was taken cannot be put
/// back.
pub proof fn law_offset<B: Amount>(
    taken: NegativeImbalance<B>,
    back: PositiveImbalance<B>,
    left: Option<NegativeImbalance<B>>,
)
    requires
        call_ensures(NegativeImbalance::<B>::offset, (taken, back), left),
    ensures
        left is Some <==> back.amount.value() <= taken.amount.value(),
        left matches Some(rest) ==> rest.amount.value() + back.amount.value()
            == taken.amount.value(),
{
    taken.amount.representation();
    if back.amount.value() <= taken.amount.value() {
        B::representable((taken.amount.value() - back.amount.value()) as nat);
    }
}

/// A handler drops what it is given where it drops every sum, and keeps all of it where it does
/// not. The unit handler drops every sum.
pub proof fn law_handlers<B, H: OnUnbalanced<B>>(sum: NegativeImbalance<B>, rest: FeeRest<B>)
    requires
        call_ensures(H::on_unbalanced, (sum,), rest),
    ensures
        H::drops() ==> rest == FeeRest::Dropped(sum),
        !H::drops() ==> rest == FeeRest::HandedOn(sum),
        <() as OnUnbalanced<B>>::drops(),
{
}

/// What a fee rule does is what it says that it may do.
pub proof fn law_fee_rules_keep_their_word<T: SystemConfig, R: OnChargeEVMTransaction<T>>(
    who: H160,
    fee: U256,
    withdrawal: FeeWithdrawal<T::AccountId, R::Balance>,
    taken: Result<NegativeImbalance<R::Balance>, T::HostError>,
    kept: Result<R::LiquidityInfo, Error>,
    already_withdrawn: R::LiquidityInfo,
    refund: Option<Refund<T::AccountId, R::Balance>>,
    paid: NegativeImbalance<R::Balance>,
    back: Result<PositiveImbalance<R::Balance>, T::HostError>,
    rest: Result<FeeRest<R::Balance>, Error>,
)
    requires
        call_ensures(R::withdraw_fee, (&who, fee), withdrawal),
        call_ensures(R::fee_withdrawn, (taken,), kept),
        call_ensures(R::correct_and_deposit_fee, (&who, fee, already_withdrawn), refund),
        call_ensures(R::fee_corrected, (paid, back), rest),
    ensures
        R::may_withdraw(who, fee, withdrawal),
        R::may_keep(taken, kept),
        R::may_refund(who, fee, already_withdrawn, refund),
        R::may_settle(paid, back, rest),
{
}

/// The adapter takes for a fee the sum of its lower words, as a fee, from the account of the
/// address, even if that empties the account.
pub proof fn law_adapter_withdraws<
    T: SystemConfig,
    C: FeeCurrency,
    OU: OnUnbalanced<C::Balance>,
>(who: H160, fee: U256, withdrawal: FeeWithdrawal<T::AccountId, C::Balance>)
    requires
        <EVMCurrencyAdapter<C, OU> as OnChargeEVMTransaction<T>>::may_withdraw(
            who,
            fee,
            withdrawal,
        ),
    ensures
        withdrawal.who == T::AddressMapping::account_of(who),
        is_sum_of::<C::Balance>(withdrawal.value.value(), fee),
        withdrawal.reason == WithdrawReason::Fee,
        withdrawal.existence == ExistenceRequirement::AllowDeath,
{
    law_words_are_digits(fee);
    C::Balance::representable(crate::amount::currency_sum::<C::Balance>(fee));
}

/// The unit rule takes for a fee the sum of its lower words, as a fee, from the account of the
/// address, even if that empties the account.
pub proof fn law_unit_rule_withdraws<T: SystemConfig>(
    who: H160,
    fee: U256,
    withdrawal: FeeWithdrawal<T::AccountId, T::Balance>,
)
    requires
        <() as OnChargeEVMTransaction<T>>::may_withdraw(who, fee, withdrawal),
    ensures
        withdrawal.who == T::AddressMapping::account_of(who),
        is_sum_of::<T::Balance>(withdrawal.value.value(), fee),
        withdrawal.reason == WithdrawReason::Fee,
        withdrawal.existence == ExistenceRequirement::AllowDeath,
{
    law_words_are_digits(fee);
    T::Balance::representable(crate::amount::currency_sum::<T::Balance>(fee));
}

/// Under the adapter, a fee that the runtime took is not forgotten: whatever is kept of it, what
/// was taken beyond the corrected fee is put back on the account that paid, and what is left of it
/// once that is done goes to the handler, or nowhere where the handler drops every sum. A fee that
/// the runtime refused to take is an error, and where nothing was kept nothing is put back.
pub proof fn law_adapter_from_withdrawal_to_correction<
    T: SystemConfig,
    C: FeeCurrency,
    OU: OnUnbalanced<C::Balance>,
>(
    who: H160,
    corrected_fee: U256,
    taken: Result<NegativeImbalance<C::Balance>, T::HostError>,
    kept: Result<Option<NegativeImbalance<C::Balance>>, Error>,
    refund: Option<Refund<T::AccountId, C::Balance>>,
    untaken: Option<Refund<T::AccountId, C::Balance>>,
    back: Result<PositiveImbalance<C::Balance>, T::HostError>,
    rest: Result<FeeRest<C::Balance>, Error>,
    cost: nat,
)
    requires
        is_sum_of::<C::Balance>(cost, corrected_fee),
        <EVMCurrencyAdapter<C, OU> as OnChargeEVMTransaction<T>>::may_keep(taken, kept),
        kept matches Ok(info) ==> <EVMCurrencyAdapter<C, OU> as OnChargeEVMTransaction<
            T,
        >>::may_refund(who, corrected_fee, info, refund),
        <EVMCurrencyAdapter<C, OU> as OnChargeEVMTransaction<T>>::may_refund(
            who,
            corrected_fee,
            None,
            untaken,
        ),
        refund matches Some(asked) ==> <EVMCurrencyAdapter<C, OU> as OnChargeEVMTransaction<
            T,
        >>::may_settle(asked.paid, back, rest),
    ensures
        taken is Err ==> kept == Err::<Option<NegativeImbalance<C::Balance>>, _>(
            Error::BalanceLow,
        ),
        untaken is None,
        taken matches Ok(paid) ==> {
            &&& kept == Ok::<Option<NegativeImbalance<C::Balance>>, Error>(Some(paid))
            &&& refund matches Some(asked) && {
                &&& asked.who == T::AddressMapping::account_of(who)
                &&& asked.paid == paid
                &&& paid.amount.value() >= cost ==> asked.amount.value() == paid.amount.value()
                    - cost
                &&& paid.amount.value() < cost ==> asked.amount.value() == 0
            }
            &&& match back {
                Ok(returned) => if returned.amount.value() <= paid.amount.value() {
                    match rest {
                        Ok(FeeRest::HandedOn(left)) => !OU::drops() && left.amount.value()
                            == paid.amount.value() - returned.amount.value(),
                        Ok(FeeRest::Dropped(left)) => OU::drops() && left.amount.value()
                            == paid.amount.value() - returned.amount.value(),
                        Err(_) => false,
                    }
                } else {
                    rest == Err::<FeeRest<C::Balance>, _>(Error::BalanceLow)
                },
                Err(_) => match rest {
                    Ok(FeeRest::HandedOn(left)) => !OU::drops() && left == paid,
                    Ok(FeeRest::Dropped(left)) => OU::drops() && left == paid,
                    Err(_) => false,
                },
            }
        },
{
    law_words_are_digits(corrected_fee);
    if let Ok(paid) = taken {
        paid.amount.representation();
        if paid.amount.value() >= cost {
            C::Balance::representable((paid.amount.value() - cost) as nat);
        } else {
            C::Balance::representable(0);
        }
        if let Ok(returned) = back {
            if returned.amount.value() <= paid.amount.value() {
                C::Balance::representable(
                    (paid.amount.value() - returned.amount.value()) as nat,
                );
            }
        }
    }
}

/// Under the unit rule, a fee that the runtime took is not forgotten: whatever is kept of it, what
/// was taken beyond the corrected fee is put back on the account that paid, and what is left of it
/// once that is done goes nowhere. A fee that the runtime refused to take is an error, and where
/// nothing was kept nothing is put back.
pub proof fn law_unit_rule_from_withdrawal_to_correction<T: SystemConfig>(
    who: H160,
    corrected_fee: U256,
    taken: Result<NegativeImbalance<T::Balance>, T::HostError>,
    kept: Result<Option<NegativeImbalance<T::Balance>>, Error>,
    refund: Option<Refund<T::AccountId, T::Balance>>,
    untaken: Option<Refund<T::AccountId, T::Balance>>,
    back: Result<PositiveImbalance<T::Balance>, T::HostError>,
    rest: Result<FeeRest<T::Balance>, Error>,
    cost: nat,
)
    requires
        is_sum_of::<T::Balance>(cost, corrected_fee),
        <() as OnChargeEVMTransaction<T>>::may_keep(taken, kept),
        kept matches Ok(info) ==> <() as OnChargeEVMTransaction<T>>::may_refund(
            who,
            corrected_fee,
            info,
            refund,
        ),
        <() as OnChargeEVMTransaction<T>>::may_refund(who, corrected_fee, None, untaken),
        refund matches Some(asked) ==> <() as OnChargeEVMTransaction<T>>::may_settle(
            asked.paid,
            back,
            rest,
        ),
    ensures
        taken is Err ==> kept == Err::<Option<NegativeImbalance<T::Balance>>, _>(
            Error::BalanceLow,
        ),
        untaken is None,
        taken matches Ok(paid) ==> {
            &&& kept == Ok::<Option<NegativeImbalance<T::Balance>>, Error>(Some(paid))
            &&& refund matches Some(asked) && {
                &&& asked.who == T::AddressMapping::account_of(who)
                &&& asked.paid == paid
                &&& paid.amount.value() >= cost ==> asked.amount.value() == paid.amount.value()
                    - cost
                &&& paid.amount.value() < cost ==> asked.amount.value() == 0
            }
            &&& match back {
                Ok(returned) => if returned.amount.value() <= paid.amount.value() {
                    rest matches Ok(FeeRest::Dropped(left)) && left.amount.value()
                        == paid.amount.value() - returned.amount.value()
                } else {
                    rest == Err::<FeeRest<T::Balance>, _>(Error::BalanceLow)
                },
                Err(_) => rest == Ok::<FeeRest<T::Balance>, Error>(FeeRest::Dropped(paid)),
            }
        },
{
    law_adapter_from_withdrawal_to_correction::<T, OwnCurrency<T>, ()>(
        who,
        corrected_fee,
        taken,
        kept,
        refund,
        untaken,
        back,
        rest,
        cost,
    );
}

} // verus!
