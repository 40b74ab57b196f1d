//! What calls carry, report and return.

use crate::gas::Weight;
use crate::primitives::{H160, H256, U256};
use vstd::prelude::*;

verus! {

/// An entry that a contract wrote to the log.
#[derive(Debug, PartialEq, Eq)]
pub struct Log {
    /// The contract.
    pub address: H160,
    /// What the entry can be searched by.
    pub topics: Vec<H256>,
    /// What the entry says.
    pub data: Vec<u8>,
}

/// The nonce and the balance of an address.
#[derive(Clone, Copy, Debug, PartialEq, Eq)]
pub struct Account {
    pub nonce: U256,
    pub balance: U256,
}

/// What the pallet reports to the runtime.
#[derive(Debug, PartialEq, Eq)]
pub enum Event<AccountId> {
    /// An account has named the address to which its block rewards go.
    EthAddrSet((AccountId, H160)),
    /// A block reward could not be paid to the address.
    EthRewardFailed(H160),
    /// A contract wrote to the log.
    Log(Log),
    /// A contract has been created at the address.
    Created(H160),
    /// A contract was to be created at the address, and the execution failed.
    CreatedFailed(H160),
    /// The contract at the address has been executed, and its changes apply.
    Executed(H160),
    /// The contract at the address has been executed with errors. Only gas fees apply.
    ExecutedFailed(H160),
    /// A deposit has been made: sender, address, value.
    BalanceDeposit(AccountId, H160, U256),
    /// A withdrawal has been made: sender, address, value.
    BalanceWithdraw(AccountId, H160, U256),
}

/// Why the pallet refuses a request.
#[derive(Clone, Copy, Debug, PartialEq, Eq, Structural)]
pub enum Error {
    /// The balance is too low for the request.
    BalanceLow,
    /// The total fee is too large a number.
    FeeOverflow,
    /// The total payment is too large a number.
    PaymentOverflow,
    /// The fee could not be withdrawn.
    WithdrawFailed,
    /// The gas price is too low.
    GasPriceTooLow,
    /// The nonce is not the one expected.
    InvalidNonce,
    /// The virtual machine takes calls from Ethereum clients only, not from this pallet.
    Forbidden,
    /// The block reward could not be paid.
    RewardFailed,
}

/// Why a call failed.
#[derive(Debug, PartialEq, Eq)]
pub enum DispatchError<E> {
    /// The call does not accept its origin.
    BadOrigin,
    /// The pallet refused the call.
    Module(Error),
    /// The runtime refused what the call asked of it.
    Runtime(E),
}

/// Whether the sender of a call pays its fee.
#[derive(Clone, Copy, Debug, PartialEq, Eq, Structural)]
pub enum Pays {
    Yes,
    No,
}

/// What is known of a call once it is done.
#[derive(Clone, Copy, Debug, PartialEq, Eq)]
pub struct PostDispatchInfo {
    /// The weight that the call took, where it differs from the announced one.
    pub actual_weight: Option<Weight>,
    pub pays_fee: Pays,
}

/// How an execution that succeeded came to its end.
#[derive(Clone, Copy, Debug, PartialEq, Eq, Structural)]
pub enum ExitSucceed {
    Stopped,
    Returned,
    Suicided,
}

/// How an execution of the EVM engine ended.
#[derive(Clone, Copy, Debug, PartialEq, Eq, Structural)]
pub enum ExitReason {
    Succeed(ExitSucceed),
    /// A fault of the contract.
    Error,
    /// The contract asked that its changes be undone.
    Revert,
    /// A fault that no contract can handle.
    Fatal,
}

/// How an execution behind the EVMC interface ended.
#[derive(Clone, Copy, Debug, PartialEq, Eq, Structural)]
pub enum EVMCStatusCode {
    EvmcSuccess,
    /// Any other status, by its number.
    EvmcOther(i32),
}

/// How an execution ended, whichever engine ran it.
#[derive(Clone, Copy, Debug, PartialEq, Eq, Structural)]
pub enum ExtendExitReason {
    ExitReason(ExitReason),
    EVMCStatusCode(EVMCStatusCode),
}

impl ExtendExitReason {
    /// Whether the execution succeeded.
    pub open spec fn succeeded(self) -> bool {
        match self {
            ExtendExitReason::ExitReason(ExitReason::Succeed(_)) => true,
            ExtendExitReason::EVMCStatusCode(EVMCStatusCode::EvmcSuccess) => true,
            _ => false,
        }
    }

    /// Whether the execution succeeded.
    pub fn is_succeed(&self) -> (r: bool)
        ensures
            r == self.succeeded(),
    {
        match self {
            ExtendExitReason::ExitReason(ExitReason::Succeed(_)) => true,
            ExtendExitReason::EVMCStatusCode(EVMCStatusCode::EvmcSuccess) => true,
            _ => false,
        }
    }
}

/// What an execution left behind.
#[derive(Debug, PartialEq, Eq)]
pub struct ExecutionInfo<R> {
    pub exit_reason: ExtendExitReason,
    /// What the execution returned.
    pub value: R,
    pub used_gas: U256,
    pub logs: Vec<Log>,
}

/// What a message call left behind.
pub type CallInfo = ExecutionInfo<Vec<u8>>;

/// What a contract creation left behind. It returns the contract's address.
pub type CreateInfo = ExecutionInfo<H160>;

/// The gas schedule of the engine, by the hard fork that set it or as the runtime's own.
#[derive(Clone, Copy, Debug, PartialEq, Eq, Structural)]
pub enum EvmConfig {
    Frontier,
    Istanbul,
    Berlin,
    London,
    /// A schedule of the runtime's own, by the number that the runtime gives it.
    Custom(u32),
}

/// A message call for the engine.
#[derive(Debug, PartialEq, Eq)]
pub struct CallRequest {
    pub source: H160,
    pub target: H160,
    pub input: Vec<u8>,
    pub value: U256,
    pub gas_limit: u64,
    pub gas_price: Option<U256>,
    pub nonce: Option<U256>,
}

/// A contract creation for the engine.
#[derive(Debug, PartialEq, Eq)]
pub struct CreateRequest {
    pub source: H160,
    pub init: Vec<u8>,
    pub value: U256,
    pub gas_limit: u64,
    pub gas_price: Option<U256>,
    pub nonce: Option<U256>,
}

/// A contract creation for the engine, at an address that depends on a salt.
#[derive(Debug, PartialEq, Eq)]
pub struct Create2Request {
    pub source: H160,
    pub init: Vec<u8>,
    pub salt: H256,
    pub value: U256,
    pub gas_limit: u64,
    pub gas_price: Option<U256>,
    pub nonce: Option<U256>,
}

} // verus!
