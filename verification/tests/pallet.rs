//! The pallet in two runtimes: one built for debugging, and one not.

use pallet_vm::{
    AddressMapping, CallInfo, CallKind, CallRequest, Config, Create2Request, CreateInfo,
    CreateRequest, DispatchError, EVMCStatusCode, EVMCurrencyAdapter, EnsureAddressNever,
    EnsureAddressRoot, EnsureAddressSame, Error, Event, EvmConfig, ExecutionInfo,
    ExistenceRequirement, ExitReason, ExitSucceed, ExtendExitReason, FeeCalculator, FeeCurrency,
    FeeRest, FeeWithdrawal, GasWeightMapping, GenesisAccount, GenesisAction, GenesisConfig,
    IdentityAddressMapping, Log, NegativeImbalance, OnChargeEVMTransaction, OnUnbalanced,
    OrderedMap, OwnCurrency, Pallet, Pays, PositiveImbalance, PostDispatchInfo, RawOrigin,
    ReferenceChange, Refund, Runner, SystemAccounts, SystemConfig, Transfer, WithdrawReason,
    BLOCK_REWARD, H160, H256, U256,
};

fn address(n: u8) -> H160 {
    H160([n; 20])
}

fn word(n: u8) -> H256 {
    H256([n; 32])
}

fn number(n: u64) -> U256 {
    U256([n, 0, 0, 0])
}

/// A runtime whose accounts are addresses and whose balances are 64 bits wide.
struct Release;

/// The same runtime with a pallet built for debugging.
struct Debug;

impl SystemConfig for Release {
    type AccountId = H160;
    type Nonce = u32;
    type Balance = u64;
    type Origin = RawOrigin<H160>;
    type HostError = u8;
    type AddressMapping = IdentityAddressMapping;
}

impl SystemConfig for Debug {
    type AccountId = H160;
    type Nonce = u32;
    type Balance = u128;
    type Origin = RawOrigin<H160>;
    type HostError = u8;
    type AddressMapping = IdentityAddressMapping;
}

/// An engine that logs what it is handed and ends as its input says.
struct Echo;

fn ending(first: Option<&u8>) -> Result<ExtendExitReason, u8> {
    match first {
        None => Err(9),
        Some(0) => Ok(ExtendExitReason::ExitReason(ExitReason::Succeed(ExitSucceed::Returned))),
        Some(1) => Ok(ExtendExitReason::EVMCStatusCode(EVMCStatusCode::EvmcSuccess)),
        Some(2) => Ok(ExtendExitReason::ExitReason(ExitReason::Revert)),
        Some(3) => Ok(ExtendExitReason::ExitReason(ExitReason::Error)),
        Some(4) => Ok(ExtendExitReason::ExitReason(ExitReason::Fatal)),
        Some(n) => Ok(ExtendExitReason::EVMCStatusCode(EVMCStatusCode::EvmcOther(*n as i32))),
    }
}

fn log<T: SystemConfig>(pallet: &mut Pallet<T>, text: String) {
    pallet.deposit_event(Event::Log(Log {
        address: address(0xee),
        topics: Vec::new(),
        data: text.into_bytes(),
    }));
}

impl<T: SystemConfig<HostError = u8>> Runner<T> for Echo {
    fn call(
        pallet: &mut Pallet<T>,
        request: CallRequest,
        config: EvmConfig,
    ) -> Result<CallInfo, u8> {
        let exit_reason = ending(request.input.first())?;
        let used_gas = request.value;
        log(pallet, format!("{:?} {:?}", request, config));
        Ok(ExecutionInfo { exit_reason, value: Vec::new(), used_gas, logs: Vec::new() })
    }

    fn create(
        pallet: &mut Pallet<T>,
        request: CreateRequest,
        config: EvmConfig,
    ) -> Result<CreateInfo, u8> {
        let exit_reason = ending(request.init.first())?;
        let used_gas = request.value;
        log(pallet, format!("{:?} {:?}", request, config));
        Ok(ExecutionInfo { exit_reason, value: address(0xc1), used_gas, logs: Vec::new() })
    }

    fn create2(
        pallet: &mut Pallet<T>,
        request: Create2Request,
        config: EvmConfig,
    ) -> Result<CreateInfo, u8> {
        let exit_reason = ending(request.init.first())?;
        let used_gas = request.value;
        log(pallet, format!("{:?} {:?}", request, config));
        Ok(ExecutionInfo { exit_reason, value: address(0xc2), used_gas, logs: Vec::new() })
    }

    fn mint(
        pallet: &mut Pallet<T>,
        to: H160,
        value: U256,
        config: EvmConfig,
    ) -> Result<(), u8> {
        log(pallet, format!("{:?} {:?} {:?}", to, value, config));
        if to == address(0xbb) {
            Err(4)
        } else {
            Ok(())
        }
    }
}

impl Config for Release {
    type FeeCalculator = ();
    type GasWeightMapping = ();
    type CallOrigin = EnsureAddressRoot<H160>;
    type WithdrawOrigin = EnsureAddressNever<H160>;
    type Runner = Echo;
    type OnChargeTransaction = ();

    fn is_debug_build() -> bool {
        false
    }

    fn debug_build() -> bool {
        false
    }

    fn chain_id() -> u64 {
        42
    }

    fn block_gas_limit() -> U256 {
        number(1000)
    }
}

/// Two of weight for one of gas.
struct Double;

impl GasWeightMapping for Double {
    fn weight_of(gas: u64) -> u64 {
        gas.saturating_mul(2)
    }

    fn gas_of(weight: u64) -> u64 {
        weight / 2
    }

    fn gas_to_weight(gas: u64) -> u64 {
        gas.saturating_mul(2)
    }

    fn weight_to_gas(weight: u64) -> u64 {
        weight / 2
    }
}

impl Config for Debug {
    type FeeCalculator = ();
    type GasWeightMapping = Double;
    type CallOrigin = EnsureAddressSame;
    type WithdrawOrigin = EnsureAddressSame;
    type Runner = Echo;
    type OnChargeTransaction = Adapter;

    fn config() -> EvmConfig {
        EvmConfig::London
    }

    fn is_debug_build() -> bool {
        true
    }

    fn debug_build() -> bool {
        true
    }

    fn chain_id() -> u64 {
        42
    }

    fn block_gas_limit() -> U256 {
        number(1000)
    }
}

fn post(weight: u64) -> PostDispatchInfo {
    PostDispatchInfo { actual_weight: Some(weight), pays_fee: Pays::No }
}

fn try_call(pallet: &mut Pallet<Debug>, input: Vec<u8>, value: U256) -> Result<
    PostDispatchInfo,
    DispatchError<u8>,
> {
    pallet.call(
        RawOrigin::Signed(address(1)),
        address(1),
        address(2),
        input,
        value,
        7,
        number(3),
        Some(number(5)),
    )
}

// Addresses of block rewards.

#[test]
fn set_eth_addr_records_and_reports() {
    let mut pallet = Pallet::<Release>::new();
    assert_eq!(pallet.eth_addr(&address(1)), None);
    let r = pallet.set_eth_addr(RawOrigin::Signed(address(1)), address(7));
    assert_eq!(r, Ok(PostDispatchInfo { actual_weight: None, pays_fee: Pays::Yes }));
    assert_eq!(pallet.eth_addr(&address(1)), Some(address(7)));
    assert_eq!(pallet.eth_addr(&address(2)), None);
    assert_eq!(pallet.events(), &vec![Event::EthAddrSet((address(1), address(7)))]);
}

#[test]
fn set_eth_addr_again_replaces() {
    let mut pallet = Pallet::<Release>::new();
    pallet.set_eth_addr(RawOrigin::Signed(address(1)), address(7)).unwrap();
    pallet.set_eth_addr(RawOrigin::Signed(address(2)), address(9)).unwrap();
    pallet.set_eth_addr(RawOrigin::Signed(address(1)), address(8)).unwrap();
    assert_eq!(pallet.eth_addr(&address(1)), Some(address(8)));
    assert_eq!(pallet.eth_addr(&address(2)), Some(address(9)));
    assert_eq!(pallet.events().len(), 3);
}

#[test]
fn set_eth_addr_needs_a_signature() {
    let mut pallet = Pallet::<Release>::new();
    for origin in [RawOrigin::Root, RawOrigin::Nobody] {
        assert_eq!(pallet.set_eth_addr(origin, address(7)), Err(DispatchError::BadOrigin));
    }
    assert_eq!(pallet.events().len(), 0);
}

#[test]
fn author_reward_is_minted_to_the_named_address() {
    let mut pallet = Pallet::<Release>::new();
    pallet.note_author(address(1));
    assert_eq!(pallet.events().len(), 0);
    pallet.set_eth_addr(RawOrigin::Signed(address(1)), address(7)).unwrap();
    pallet.note_author(address(1));
    let one_ether = U256([1_000_000_000_000_000_000, 0, 0, 0]);
    let handed = format!("{:?} {:?} {:?}", address(7), one_ether, EvmConfig::Istanbul);
    match &pallet.events()[1] {
        Event::Log(log) => assert_eq!(log.data, handed.into_bytes()),
        other => panic!("{:?}", other),
    }
    assert_eq!(pallet.events().len(), 2);
    assert_eq!(pallet.eth_addr(&address(1)), Some(address(7)));
    assert_eq!(pallet.eth_addr(&address(2)), None);
    assert_eq!(BLOCK_REWARD, 1_000_000_000_000_000_000);
}

#[test]
fn failed_reward_is_reported() {
    let mut pallet = Pallet::<Release>::new();
    pallet.reward(address(0xbb));
    assert_eq!(pallet.events().len(), 2);
    assert_eq!(pallet.events()[1], Event::EthRewardFailed(address(0xbb)));
    pallet.note_uncle(address(1), 3u32);
    assert_eq!(pallet.events().len(), 2);
}

#[test]
fn reward_outcome_is_reported_only_on_failure() {
    let mut pallet = Pallet::<Release>::new();
    pallet.reward_executed(address(3), Ok(()));
    assert_eq!(pallet.events().len(), 0);
    pallet.reward_executed(address(3), Err(1));
    assert_eq!(pallet.take_events(), vec![Event::EthRewardFailed(address(3))]);
    assert_eq!(pallet.events().len(), 0);
}

// Withdrawals.

#[test]
fn withdraw_asks_for_a_transfer() {
    let r = Pallet::<Debug>::withdraw(RawOrigin::Signed(address(1)), address(1), 500);
    assert_eq!(
        r,
        Ok(Transfer {
            source: address(1),
            dest: address(1),
            value: 500,
            existence: ExistenceRequirement::AllowDeath,
        })
    );
}

#[test]
fn withdraw_from_the_account_of_the_address() {
    let r = Pallet::<Debug>::withdraw_checked(Ok(address(4)), address(1), 500);
    let transfer = r.unwrap();
    assert_eq!(transfer.source, address(1));
    assert_eq!(transfer.dest, address(4));
}

#[test]
fn withdraw_for_another_address_is_refused() {
    let r = Pallet::<Debug>::withdraw(RawOrigin::Signed(address(2)), address(1), 500);
    assert_eq!(r, Err(DispatchError::BadOrigin));
    let r = Pallet::<Release>::withdraw(RawOrigin::Signed(address(1)), address(1), 500);
    assert_eq!(r, Err(DispatchError::BadOrigin));
}

#[test]
fn withdraw_passes_the_transfer_error_on() {
    assert_eq!(Pallet::<Debug>::withdraw_settled(Ok(())), Ok(()));
    assert_eq!(Pallet::<Debug>::withdraw_settled(Err(6)), Err(DispatchError::Runtime(6)));
}

// Executions.

#[test]
fn executions_are_forbidden_without_debugging() {
    let mut pallet = Pallet::<Release>::new();
    let forbidden = Err(DispatchError::Module(Error::Forbidden));
    let r = pallet.call(
        RawOrigin::Root,
        address(1),
        address(2),
        vec![0],
        number(0),
        7,
        number(3),
        None,
    );
    assert_eq!(r, forbidden);
    let r = pallet.create(RawOrigin::Root, address(1), vec![0], number(0), 7, number(3), None);
    assert_eq!(r, forbidden);
    let r = pallet.create2(
        RawOrigin::Root,
        address(1),
        vec![0],
        word(1),
        number(0),
        7,
        number(3),
        None,
    );
    assert_eq!(r, forbidden);
    assert_eq!(pallet.events().len(), 0);
}

#[test]
fn executions_check_the_origin_first() {
    let mut pallet = Pallet::<Release>::new();
    let r = pallet.call(
        RawOrigin::Signed(address(1)),
        address(1),
        address(2),
        vec![0],
        number(0),
        7,
        number(3),
        None,
    );
    assert_eq!(r, Err(DispatchError::BadOrigin));
    let mut pallet = Pallet::<Debug>::new();
    let r = pallet.create(
        RawOrigin::Signed(address(2)),
        address(1),
        vec![0],
        number(0),
        7,
        number(3),
        None,
    );
    assert_eq!(r, Err(DispatchError::BadOrigin));
    let r = pallet.create2(
        RawOrigin::Nobody,
        address(1),
        vec![0],
        word(1),
        number(0),
        7,
        number(3),
        None,
    );
    assert_eq!(r, Err(DispatchError::BadOrigin));
    assert_eq!(pallet.events().len(), 0);
}

#[test]
fn call_hands_the_request_to_the_engine() {
    let mut pallet = Pallet::<Debug>::new();
    assert_eq!(try_call(&mut pallet, vec![0, 8], number(11)), Ok(post(22)));
    let request = CallRequest {
        source: address(1),
        target: address(2),
        input: vec![0, 8],
        value: number(11),
        gas_limit: 7,
        gas_price: Some(number(3)),
        nonce: Some(number(5)),
    };
    match &pallet.events()[0] {
        Event::Log(log) => {
            let handed = format!("{:?} {:?}", request, EvmConfig::London);
            assert_eq!(log.data, handed.into_bytes());
        },
        other => panic!("{:?}", other),
    }
    assert_eq!(pallet.events()[1], Event::Executed(address(2)));
    assert_eq!(pallet.events().len(), 2);
}

#[test]
fn call_reports_success_of_both_engines() {
    for first in [0u8, 1] {
        let mut pallet = Pallet::<Debug>::new();
        assert_eq!(try_call(&mut pallet, vec![first], number(1)), Ok(post(2)));
        assert_eq!(pallet.events()[1], Event::Executed(address(2)));
    }
}

#[test]
fn call_reports_failure_and_still_returns() {
    for first in [2u8, 3, 4, 5, 200] {
        let mut pallet = Pallet::<Debug>::new();
        assert_eq!(try_call(&mut pallet, vec![first], number(1)), Ok(post(2)));
        assert_eq!(pallet.events()[1], Event::ExecutedFailed(address(2)));
    }
}

#[test]
fn engine_error_is_passed_on_without_report() {
    let mut pallet = Pallet::<Debug>::new();
    assert_eq!(try_call(&mut pallet, Vec::new(), number(1)), Err(DispatchError::Runtime(9)));
    assert_eq!(pallet.events().len(), 0);
}

#[test]
fn used_gas_saturates_at_64_bits() {
    let mut pallet = Pallet::<Release>::new();
    let info = |used_gas: U256| {
        Ok(ExecutionInfo {
            exit_reason: ExtendExitReason::ExitReason(ExitReason::Succeed(ExitSucceed::Stopped)),
            value: Vec::new(),
            used_gas,
            logs: Vec::new(),
        })
    };
    let cases = [
        (U256([0, 0, 0, 0]), 0),
        (U256([21_000, 0, 0, 0]), 21_000),
        (U256([u64::MAX, 0, 0, 0]), u64::MAX),
        (U256([5, 1, 0, 0]), u64::MAX),
        (U256([5, 0, 1, 0]), u64::MAX),
        (U256([5, 0, 0, 1]), u64::MAX),
    ];
    for (used_gas, weight) in cases {
        assert_eq!(pallet.call_executed(address(2), info(used_gas)), Ok(post(weight)));
    }
}

#[test]
fn create_reports_the_address() {
    let mut pallet = Pallet::<Debug>::new();
    let r = pallet.create(
        RawOrigin::Signed(address(1)),
        address(1),
        vec![0],
        number(4),
        7,
        number(3),
        None,
    );
    assert_eq!(r, Ok(post(8)));
    let request = CreateRequest {
        source: address(1),
        init: vec![0],
        value: number(4),
        gas_limit: 7,
        gas_price: Some(number(3)),
        nonce: None,
    };
    match &pallet.events()[0] {
        Event::Log(log) => {
            let handed = format!("{:?} {:?}", request, EvmConfig::London);
            assert_eq!(log.data, handed.into_bytes());
        },
        other => panic!("{:?}", other),
    }
    assert_eq!(pallet.events()[1], Event::Created(address(0xc1)));
}

#[test]
fn create2_hands_the_salt_on() {
    let mut pallet = Pallet::<Debug>::new();
    let r = pallet.create2(
        RawOrigin::Signed(address(1)),
        address(1),
        vec![2],
        word(6),
        number(4),
        7,
        number(3),
        None,
    );
    assert_eq!(r, Ok(post(8)));
    let request = Create2Request {
        source: address(1),
        init: vec![2],
        salt: word(6),
        value: number(4),
        gas_limit: 7,
        gas_price: Some(number(3)),
        nonce: None,
    };
    match &pallet.events()[0] {
        Event::Log(log) => {
            let handed = format!("{:?} {:?}", request, EvmConfig::London);
            assert_eq!(log.data, handed.into_bytes());
        },
        other => panic!("{:?}", other),
    }
    assert_eq!(pallet.events()[1], Event::CreatedFailed(address(0xc2)));
}

fn create_both_ways<T: Config<Origin = RawOrigin<H160>, HostError = u8, AccountId = H160>>(
    origin: fn() -> RawOrigin<H160>,
    init: Vec<u8>,
) -> (Result<PostDispatchInfo, DispatchError<u8>>, usize) {
    let mut plain = Pallet::<T>::new();
    let mut salted = Pallet::<T>::new();
    let r = plain.create(
        origin(),
        address(1),
        init.clone(),
        number(4),
        7,
        number(3),
        None,
    );
    let s = salted.create2(
        origin(),
        address(1),
        init,
        word(6),
        number(4),
        7,
        number(3),
        None,
    );
    assert_eq!(r, s);
    assert_eq!(plain.events().len(), salted.events().len());
    (r, plain.events().len())
}

#[test]
fn salt_matters_to_the_engine_alone() {
    let forbidden = Err(DispatchError::Module(Error::Forbidden));
    assert_eq!(create_both_ways::<Release>(|| RawOrigin::Root, vec![0]), (forbidden, 0));
    let refused = Err(DispatchError::BadOrigin);
    assert_eq!(create_both_ways::<Release>(|| RawOrigin::Nobody, vec![0]), (refused, 0));
    let refused = Err(DispatchError::BadOrigin);
    assert_eq!(create_both_ways::<Debug>(|| RawOrigin::Root, vec![0]), (refused, 0));
    let failed = Err(DispatchError::Runtime(9));
    let sender = || RawOrigin::Signed(address(1));
    assert_eq!(create_both_ways::<Debug>(sender, Vec::new()), (failed, 0));
    assert_eq!(create_both_ways::<Debug>(sender, vec![3]), (Ok(post(8)), 2));
}

#[test]
fn create_error_is_passed_on() {
    let mut pallet = Pallet::<Debug>::new();
    assert_eq!(pallet.create_executed(Err(2)), Err(DispatchError::Runtime(2)));
    assert_eq!(pallet.events().len(), 0);
}

#[test]
fn announced_weights() {
    assert_eq!(Pallet::<Debug>::dispatch_weight(CallKind::SetEthAddr), 0);
    assert_eq!(Pallet::<Debug>::dispatch_weight(CallKind::Withdraw), 0);
    assert_eq!(Pallet::<Debug>::dispatch_weight(CallKind::Call { gas_limit: 10 }), 20);
    assert_eq!(Pallet::<Debug>::dispatch_weight(CallKind::Create { gas_limit: 11 }), 22);
    assert_eq!(Pallet::<Debug>::dispatch_weight(CallKind::Create2 { gas_limit: 11 }), 22);
    assert_eq!(Pallet::<Release>::dispatch_weight(CallKind::Create2 { gas_limit: 12 }), 12);
}

// Accounts.

#[test]
fn created_code_reads_back() {
    let mut pallet = Pallet::<Release>::new();
    let change = pallet.create_account(address(1), vec![1, 2, 3]);
    assert_eq!(change, ReferenceChange::Increment(address(1)));
    assert_eq!(pallet.account_codes(&address(1)), vec![1, 2, 3]);
    assert_eq!(pallet.account_codes(&address(2)), Vec::<u8>::new());
    let change = pallet.create_account(address(1), vec![4]);
    assert_eq!(change, ReferenceChange::Unchanged);
    assert_eq!(pallet.account_codes(&address(1)), vec![4]);
}

#[test]
fn code_of_no_length_is_not_created() {
    let mut pallet = Pallet::<Release>::new();
    assert_eq!(pallet.create_account(address(1), Vec::new()), ReferenceChange::Unchanged);
    assert!(!pallet.has_code(&address(1)));
    pallet.create_account(address(1), vec![4]);
    assert_eq!(pallet.create_account(address(1), Vec::new()), ReferenceChange::Unchanged);
    assert_eq!(pallet.account_codes(&address(1)), vec![4]);
}

#[test]
fn removal_takes_code_and_storage() {
    let mut pallet = Pallet::<Release>::new();
    pallet.create_account(address(1), vec![1]);
    pallet.create_account(address(2), vec![2]);
    pallet.put_word(address(1), word(1), word(8));
    pallet.put_word(address(1), word(2), word(9));
    pallet.put_word(address(2), word(1), word(7));
    pallet.put_word(address(1), word(3), word(0));
    assert_eq!(pallet.account_storages(&address(1), &word(2)), word(9));
    assert!(pallet.has_word(&address(1), &word(3)));
    assert!(!pallet.has_word(&address(1), &word(4)));
    assert_eq!(pallet.remove_account(&address(1)), ReferenceChange::Decrement(address(1)));
    assert!(!pallet.has_code(&address(1)));
    assert!(!pallet.has_word(&address(1), &word(3)));
    assert_eq!(pallet.account_storages(&address(1), &word(1)), word(0));
    assert_eq!(pallet.account_storages(&address(1), &word(2)), word(0));
    assert_eq!(pallet.account_codes(&address(2)), vec![2]);
    assert_eq!(pallet.account_storages(&address(2), &word(1)), word(7));
    assert_eq!(pallet.remove_account(&address(1)), ReferenceChange::Unchanged);
}

#[test]
fn references_count_contracts() {
    let mut pallet = Pallet::<Release>::new();
    let mut count = 0;
    let mut apply = |change: ReferenceChange<H160>| match change {
        ReferenceChange::Unchanged => (),
        ReferenceChange::Increment(who) => {
            assert_eq!(who, address(1));
            count += 1;
        },
        ReferenceChange::Decrement(who) => {
            assert_eq!(who, address(1));
            count -= 1;
        },
    };
    apply(pallet.create_account(address(1), vec![1]));
    apply(pallet.create_account(address(1), vec![2]));
    apply(pallet.remove_account(&address(1)));
    apply(pallet.remove_account(&address(1)));
    apply(pallet.create_account(address(1), vec![3]));
    assert_eq!(count, 1);
}

#[test]
fn account_basic_reads_the_account() {
    let mut accounts = SystemAccounts::<Debug>::new();
    let basic = Pallet::<Debug>::account_basic(&accounts, &address(1));
    assert_eq!(basic.nonce, number(0));
    assert_eq!(basic.balance, number(0));
    accounts.record(address(1), 5, u128::MAX);
    let basic = Pallet::<Debug>::account_basic(&accounts, &address(1));
    assert_eq!(basic.nonce, number(5));
    assert_eq!(basic.balance, U256([u64::MAX, u64::MAX, 0, 0]));
    accounts.record(address(1), 6, (7u128 << 64) + 9);
    let basic = Pallet::<Debug>::account_basic(&accounts, &address(1));
    assert_eq!(basic.nonce, number(6));
    assert_eq!(basic.balance, U256([9, 7, 0, 0]));
    let basic = Pallet::<Debug>::account_basic(&accounts, &address(2));
    assert_eq!(basic.balance, number(0));
}

#[test]
fn emptiness_needs_all_three() {
    let mut pallet = Pallet::<Release>::new();
    let nothing = SystemAccounts::<Release>::new();
    assert!(pallet.is_account_empty(&nothing, &address(1)));
    let mut nonce = SystemAccounts::<Release>::new();
    nonce.record(address(1), 1, 0);
    assert!(!pallet.is_account_empty(&nonce, &address(1)));
    let mut balance = SystemAccounts::<Release>::new();
    balance.record(address(1), 0, 1);
    assert!(!pallet.is_account_empty(&balance, &address(1)));
    assert!(pallet.is_account_empty(&balance, &address(2)));
    pallet.put_code(address(1), Vec::new());
    assert!(pallet.is_account_empty(&nothing, &address(1)));
    pallet.put_code(address(1), vec![1]);
    assert!(!pallet.is_account_empty(&nothing, &address(1)));
}

#[test]
fn only_empty_accounts_are_removed() {
    let mut pallet = Pallet::<Release>::new();
    let nothing = SystemAccounts::<Release>::new();
    pallet.create_account(address(1), vec![1]);
    let change = pallet.remove_account_if_empty(&nothing, &address(1));
    assert_eq!(change, ReferenceChange::Unchanged);
    assert!(pallet.has_code(&address(1)));
    pallet.put_code(address(2), Vec::new());
    pallet.put_word(address(2), word(1), word(2));
    let change = pallet.remove_account_if_empty(&nothing, &address(2));
    assert_eq!(change, ReferenceChange::Decrement(address(2)));
    assert!(!pallet.has_code(&address(2)));
    assert_eq!(pallet.account_storages(&address(2), &word(1)), word(0));
    let change = pallet.remove_account_if_empty(&nothing, &address(2));
    assert_eq!(change, ReferenceChange::Unchanged);
}

// Fees.

/// A handler that keeps what it is handed.
struct Treasury;

impl<Balance> OnUnbalanced<Balance> for Treasury {
    fn drops() -> bool {
        false
    }

    fn on_unbalanced(rest: NegativeImbalance<Balance>) -> FeeRest<Balance> {
        FeeRest::HandedOn(rest)
    }
}

/// A currency of its own for fees.
struct Coin;

impl FeeCurrency for Coin {
    type Balance = u32;
}

type Adapter = EVMCurrencyAdapter<OwnCurrency<Debug>, Treasury>;
type CoinAdapter = EVMCurrencyAdapter<Coin, ()>;

#[test]
fn fee_is_withdrawn_from_the_account() {
    let r = <Adapter as OnChargeEVMTransaction<Debug>>::withdraw_fee(&address(1), number(21));
    assert_eq!(
        r,
        FeeWithdrawal {
            who: address(1),
            value: 21,
            reason: WithdrawReason::Fee,
            existence: ExistenceRequirement::AllowDeath,
        }
    );
}

#[test]
fn fee_keeps_its_lower_half_and_saturates() {
    let fee = U256([3, 2, 1, 9]);
    let r = <Adapter as OnChargeEVMTransaction<Debug>>::withdraw_fee(&address(1), fee);
    assert_eq!(r.value, (2u128 << 64) + 3);
    let r = <() as OnChargeEVMTransaction<Release>>::withdraw_fee(&address(1), fee);
    assert_eq!(r.value, u64::MAX);
    let r = <() as OnChargeEVMTransaction<Release>>::withdraw_fee(&address(1), U256([3, 0, 1, 0]));
    assert_eq!(r.value, 3);
}

#[test]
fn refused_fee_is_a_low_balance() {
    let r = <Adapter as OnChargeEVMTransaction<Debug>>::fee_withdrawn(Err(1));
    assert_eq!(r, Err(Error::BalanceLow));
    let r = <() as OnChargeEVMTransaction<Debug>>::fee_withdrawn(Ok(NegativeImbalance {
        amount: 4,
    }));
    assert_eq!(r, Ok(Some(NegativeImbalance { amount: 4 })));
}

#[test]
fn refund_is_what_was_paid_too_much() {
    let paid = || Some(NegativeImbalance { amount: 100u128 });
    let refund = |fee: U256| {
        <Adapter as OnChargeEVMTransaction<Debug>>::correct_and_deposit_fee(&address(1), fee, paid())
    };
    assert_eq!(
        refund(number(40)),
        Some(Refund { who: address(1), amount: 60, paid: NegativeImbalance { amount: 100 } })
    );
    assert_eq!(refund(number(100)).unwrap().amount, 0);
    assert_eq!(refund(number(101)).unwrap().amount, 0);
    assert_eq!(refund(number(0)).unwrap().amount, 100);
    assert_eq!(refund(U256([40, 0, 1, 0])).unwrap().amount, 60);
    let none = <() as OnChargeEVMTransaction<Debug>>::correct_and_deposit_fee(
        &address(1),
        number(1),
        None,
    );
    assert_eq!(none, None);
}

#[test]
fn adapter_hands_the_corrected_fee_on() {
    let settle = |refunded: Result<PositiveImbalance<u128>, u8>| {
        let paid = NegativeImbalance { amount: 100u128 };
        <Adapter as OnChargeEVMTransaction<Debug>>::fee_corrected(paid, refunded)
    };
    let rest = |amount: u128| Ok(FeeRest::HandedOn(NegativeImbalance { amount }));
    assert_eq!(settle(Ok(PositiveImbalance { amount: 60 })), rest(40));
    assert_eq!(settle(Ok(PositiveImbalance { amount: 100 })), rest(0));
    assert_eq!(settle(Ok(PositiveImbalance { amount: 0 })), rest(100));
    assert_eq!(settle(Err(1)), rest(100));
    assert_eq!(settle(Ok(PositiveImbalance { amount: 101 })), Err(Error::BalanceLow));
}

#[test]
fn unit_rule_drops_the_corrected_fee() {
    let settle = |refunded: Result<PositiveImbalance<u128>, u8>| {
        let paid = NegativeImbalance { amount: 100u128 };
        <() as OnChargeEVMTransaction<Debug>>::fee_corrected(paid, refunded)
    };
    let rest = |amount: u128| Ok(FeeRest::Dropped(NegativeImbalance { amount }));
    assert_eq!(settle(Ok(PositiveImbalance { amount: 60 })), rest(40));
    assert_eq!(settle(Ok(PositiveImbalance { amount: 0 })), rest(100));
    assert_eq!(settle(Err(1)), rest(100));
    assert_eq!(settle(Ok(PositiveImbalance { amount: 101 })), Err(Error::BalanceLow));
}

#[test]
fn fees_may_be_paid_in_another_currency() {
    let fee = U256([0x1_0000_0005, 0, 0, 0]);
    let taken = <CoinAdapter as OnChargeEVMTransaction<Debug>>::withdraw_fee(&address(1), fee);
    assert_eq!(taken.value, u32::MAX);
    let refund = <CoinAdapter as OnChargeEVMTransaction<Debug>>::correct_and_deposit_fee(
        &address(1),
        number(15),
        Some(NegativeImbalance { amount: 20 }),
    );
    assert_eq!(refund.unwrap().amount, 5);
    let rest = <CoinAdapter as OnChargeEVMTransaction<Debug>>::fee_corrected(
        NegativeImbalance { amount: 20 },
        Ok(PositiveImbalance { amount: 5 }),
    );
    assert_eq!(rest, Ok(FeeRest::Dropped(NegativeImbalance { amount: 15 })));
}

#[test]
fn fee_costs_the_smaller() {
    let cost = |fee: u64, corrected: u64| {
        let taken =
            <() as OnChargeEVMTransaction<Debug>>::withdraw_fee(&address(1), number(fee)).value;
        let kept = <() as OnChargeEVMTransaction<Debug>>::fee_withdrawn(Ok(NegativeImbalance {
            amount: taken,
        }));
        let refund = <() as OnChargeEVMTransaction<Debug>>::correct_and_deposit_fee(
            &address(1),
            number(corrected),
            kept.unwrap(),
        );
        taken - refund.unwrap().amount
    };
    assert_eq!(cost(100, 40), 40);
    assert_eq!(cost(40, 100), 40);
    assert_eq!(cost(7, 7), 7);
}

#[test]
fn gas_price_and_unit_weights() {
    assert_eq!(<() as FeeCalculator>::min_gas_price(), number(0));
    assert_eq!(<() as GasWeightMapping>::gas_to_weight(u64::MAX), u64::MAX);
    assert_eq!(<() as GasWeightMapping>::weight_to_gas(12), 12);
    assert_eq!(Release::config(), EvmConfig::Istanbul);
    assert_eq!(IdentityAddressMapping::into_account_id(address(3)), address(3));
}

// The first block.

fn genesis_account(nonce: U256, balance: U256, code: Vec<u8>) -> GenesisAccount {
    GenesisAccount { nonce, balance, storage: OrderedMap::new(), code }
}

#[test]
fn genesis_of_nothing_asks_for_nothing() {
    let config = GenesisConfig::default();
    let mut pallet = Pallet::<Release>::new();
    let mut build = config.build();
    assert_eq!(build.next(&mut pallet), None);
    assert_eq!(build.next(&mut pallet), None);
}

#[test]
fn genesis_counts_deposits_and_writes() {
    let mut config = GenesisConfig::default();
    config.accounts.insert(address(2), genesis_account(number(1), U256([0, 1, 0, 0]), Vec::new()));
    let mut first = genesis_account(U256([2, 0, 5, 0]), number(77), vec![6, 7]);
    first.storage.insert(word(4), word(5));
    first.storage.insert(word(3), word(1));
    config.accounts.insert(address(1), first);
    let mut pallet = Pallet::<Release>::new();
    pallet.put_word(address(1), word(8), word(9));
    let mut build = config.build();
    let mut actions = Vec::new();
    while let Some(action) = build.next(&mut pallet) {
        actions.push(action);
    }
    assert_eq!(
        actions,
        vec![
            GenesisAction::IncrementNonce(address(1)),
            GenesisAction::IncrementNonce(address(1)),
            GenesisAction::DepositCreating { who: address(1), amount: 77 },
            GenesisAction::IncrementNonce(address(2)),
            GenesisAction::DepositCreating { who: address(2), amount: u64::MAX },
        ]
    );
    assert_eq!(pallet.account_codes(&address(1)), vec![6, 7]);
    assert_eq!(pallet.account_storages(&address(1), &word(4)), word(5));
    assert_eq!(pallet.account_storages(&address(1), &word(3)), word(1));
    assert_eq!(pallet.account_storages(&address(1), &word(8)), word(9));
    assert!(!pallet.has_word(&address(1), &word(5)));
    assert!(!pallet.has_word(&address(2), &word(3)));
    assert_eq!(pallet.account_storages(&address(2), &word(3)), word(0));
    assert!(pallet.has_code(&address(2)));
    assert_eq!(pallet.account_codes(&address(2)), Vec::<u8>::new());
    assert!(!pallet.has_code(&address(3)));
    assert_eq!(pallet.events().len(), 0);
}
