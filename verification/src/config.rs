//! What a runtime chooses.

use crate::amount::Amount;
use crate::fees::OnChargeEVMTransaction;
use crate::gas::{FeeCalculator, GasWeightMapping};
use crate::mapping::AddressMapping;
use crate::order::Key;
use crate::origin::{EnsureAddressOrigin, OuterOrigin};
use crate::primitives::U256;
use crate::runner::Runner;
use crate::types::EvmConfig;
use vstd::prelude::*;

verus! {

/// The runtime around the pallet.
pub trait SystemConfig: Sized {
    /// Names an account of the runtime.
    type AccountId: Key;

    /// Counts the transactions of an account.
    type Nonce: Amount;

    /// A sum of the runtime's currency.
    type Balance: Amount;

    /// Where calls come from.
    type Origin: OuterOrigin<Self::AccountId>;

    /// Why the runtime refuses a request.
    type HostError;

    /// The account of an address.
    type AddressMapping: AddressMapping<Self::AccountId>;
}

/// The pallet's parameters.
pub trait Config: SystemConfig {
    /// Gives the current price of gas.
    type FeeCalculator: FeeCalculator;

    /// Turns gas into weight.
    type GasWeightMapping: GasWeightMapping;

    /// Who may call on behalf of an address.
    type CallOrigin: EnsureAddressOrigin<Self::Origin>;

    /// Who may withdraw on behalf of an address.
    type WithdrawOrigin: EnsureAddressOrigin<Self::Origin, Success = Self::AccountId>;

    /// The execution engine.
    type Runner: Runner<Self>;

    /// Takes the fees of transactions.
    type OnChargeTransaction: OnChargeEVMTransaction<Self>;

    /// Whether the pallet was built for debugging.
    spec fn is_debug_build() -> bool;

    /// The gas schedule of the engine, which is that of the Istanbul hard fork unless the runtime
    /// chooses another.
    fn config() -> (r: EvmConfig)
        default_ensures
            r == EvmConfig::Istanbul,
    {
        EvmConfig::Istanbul
    }

    fn debug_build() -> (r: bool)
        ensures
            r == Self::is_debug_build(),
    ;

    /// The chain's number.
    fn chain_id() -> u64;

    /// The most gas that a block may use.
    fn block_gas_limit() -> U256;
}

/// `config` is a gas schedule that the runtime chooses.
pub open spec fn configures<T: Config>(config: EvmConfig) -> bool {
    call_ensures(T::config, (), config)
}

} // verus!
