//! Rewards for the authors of blocks.

use crate::config::{configures, Config};
use crate::pallet::{Pallet, PalletView};
use crate::primitives::{H160, U256};
use crate::runner::Runner;
use crate::types::{Event, EvmConfig};
use vstd::prelude::*;

verus! {

/// What the author of a block is paid.
pub const BLOCK_REWARD: u128 = 1_000_000_000_000_000_000;

/// What the pallet holds once the outcome of a block reward is reported: only a failure is.
pub open spec fn after_reward<AccountId, E>(
    before: PalletView<AccountId>,
    address: H160,
    outcome: Result<(), E>,
) -> PalletView<AccountId> {
    match outcome {
        Ok(_) => before,
        Err(_) => before.with_event(Event::EthRewardFailed(address)),
    }
}

/// How a block reward may go. The engine is handed the payment of the reward to `address`.
pub open spec fn may_reward<T: Config>(before: Pallet<T>, address: H160, after: Pallet<T>) -> bool {
    exists|value: U256, config: EvmConfig, ran: Pallet<T>, outcome: Result<(), T::HostError>|
        {
            &&& value@ == BLOCK_REWARD
            &&& configures::<T>(config)
            &&& #[trigger] T::Runner::may_mint(before, address, value, config, ran, outcome)
            &&& after@ == after_reward(ran@, address, outcome)
        }
}

impl<T: Config> Pallet<T> {
    /// Notes the author of a block: pays the block reward to the address that the author named, if
    /// the author named one.
    pub fn note_author(&mut self, author: T::AccountId)
        ensures
            old(self)@.eth_addrs.contains_key(author) ==> may_reward(
                *old(self),
                old(self)@.eth_addrs[author],
                *final(self),
            ),
            !old(self)@.eth_addrs.contains_key(author) ==> *final(self) == *old(self),
    {
        if let Some(eth_addr) = self.eth_addr(&author) {
            self.reward(eth_addr);
        }
    }

    /// Notes the author of an uncle block, who is paid nothing.
    pub fn note_uncle<BlockNumber>(&mut self, _author: T::AccountId, _age: BlockNumber)
        ensures
            *final(self) == *old(self),
    {
    }

    /// Pays the block reward to an address.
    pub fn reward(&mut self, eth_address: H160)
        ensures
            may_reward(*old(self), eth_address, *final(self)),
    {
        let value = U256::from_u128(BLOCK_REWARD);
        let outcome = T::Runner::mint(self, eth_address, value, T::config());
        self.reward_executed(eth_address, outcome);
    }

    /// Reports the outcome of a block reward.
    pub fn reward_executed(&mut self, eth_address: H160, outcome: Result<(), T::HostError>)
        ensures
            final(self)@ == after_reward(old(self)@, eth_address, outcome),
    {
        if outcome.is_err() {
            self.deposit_event(Event::EthRewardFailed(eth_address));
        }
    }
}

} // verus!
