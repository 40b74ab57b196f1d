//! Gas prices and the weight of gas.

use crate::primitives::U256;
use vstd::prelude::*;

verus! {

/// The runtime's measure of computation.
pub type Weight = u64;

/// Gives the current price of gas.
pub trait FeeCalculator {
    /// The lowest price that a transaction has to offer.
    fn min_gas_price() -> U256;
}

impl FeeCalculator for () {
    fn min_gas_price() -> (price: U256)
        ensures
            price@ == 0,
    {
        U256::zero()
    }
}

/// A function from gas to weight, and one from weight to gas.
pub trait GasWeightMapping {
    spec fn weight_of(gas: u64) -> Weight;

    spec fn gas_of(weight: Weight) -> u64;

    fn gas_to_weight(gas: u64) -> (weight: Weight)
        ensures
            weight == Self::weight_of(gas),
    ;

    fn weight_to_gas(weight: Weight) -> (gas: u64)
        ensures
            gas == Self::gas_of(weight),
    ;
}

impl GasWeightMapping for () {
    open spec fn weight_of(gas: u64) -> Weight {
        gas
    }

    open spec fn gas_of(weight: Weight) -> u64 {
        weight
    }

    fn gas_to_weight(gas: u64) -> (weight: Weight) {
        gas
    }

    fn weight_to_gas(weight: Weight) -> (gas: u64) {
        weight
    }
}

/// With one weight for one gas, turning gas into weight and back loses nothing.
pub proof fn law_unit_mapping_round_trip(gas: u64, weight: Weight)
    ensures
        <() as GasWeightMapping>::gas_of(<() as GasWeightMapping>::weight_of(gas)) == gas,
        <() as GasWeightMapping>::weight_of(<() as GasWeightMapping>::gas_of(weight)) == weight,
{
}

} // verus!
