//! Accounts, contracts and dispatchable calls of a virtual machine hosted by a runtime.
//!
//! The library holds the pallet's own storage and decides what every call does. What the
//! runtime around it owns (balances, nonces, reference counters) is asked for by value: a
//! function says what is to be done, and another takes the reply. The execution engine is a
//! trait that the runtime implements.

pub mod amount;
pub mod config;
pub mod dispatch;
pub mod fees;
pub mod gas;
pub mod genesis;
pub mod laws;
pub mod map;
pub mod mapping;
pub mod order;
pub mod origin;
pub mod outcomes;
pub mod pallet;
pub mod primitives;
pub mod rewards;
pub mod runner;
pub mod types;

pub use amount::Amount;
pub use config::{Config, SystemConfig};
pub use dispatch::{CallKind, ExistenceRequirement, Transfer};
pub use fees::{
    EVMCurrencyAdapter, FeeCurrency, FeeRest, FeeWithdrawal, NegativeImbalance,
    OnChargeEVMTransaction, OnUnbalanced, OwnCurrency, PositiveImbalance, Refund, WithdrawReason,
};
pub use gas::{FeeCalculator, GasWeightMapping, Weight};
pub use genesis::{GenesisAccount, GenesisAction, GenesisBuild, GenesisConfig};
pub use map::{DoubleMap, OrderedMap};
pub use mapping::{
    AddressMapping, BlakeTwo256, HashedAddressMapping, Hasher, IdentityAddressMapping,
};
pub use order::{Key, Order};
pub use origin::{
    ensure_signed, BadOrigin, EnsureAddressNever, EnsureAddressOrigin, EnsureAddressRoot,
    EnsureAddressSame, EnsureAddressTruncated, OuterOrigin, RawOrigin,
};
pub use pallet::{AccountRecord, Pallet, ReferenceChange, SystemAccounts};
pub use primitives::{AccountId32, H160, H256, U256};
pub use rewards::BLOCK_REWARD;
pub use runner::Runner;
pub use types::{
    Account, CallInfo, CallRequest, Create2Request, CreateInfo, CreateRequest, DispatchError,
    EVMCStatusCode, Error, Event, EvmConfig, ExecutionInfo, ExitReason, ExitSucceed,
    ExtendExitReason, Log, Pays, PostDispatchInfo,
};
