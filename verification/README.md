# pallet_vm

The decisions of a pallet that hosts a virtual machine in a FRAME runtime: who may act for an
address, what each call does, how fees are taken and corrected, which contracts stand where, how the
authors of blocks are rewarded, and what the first block holds. The library is written in Verus, and
the functions state in their contracts what they return or change. The runtime's own choices of
chain number, block gas limit and gas price are left open.

- `src/` is the library. `pallet.rs` holds the storage and the accounts, `dispatch.rs` the calls,
  `fees.rs` the fees, `rewards.rs` the block rewards, `genesis.rs` the first block, `origin.rs` and
  `mapping.rs` the rules for origins and accounts, and `laws.rs` what holds of the operations taken
  together.
- `tests/` runs the library on concrete values.
- `app/` places it in a runtime: storage, currency, reference counters and the execution engine.

What the runtime owns is asked for by value. A function says what is to be done, such as a transfer
or a change of a reference counter, and where the reply matters another function takes it. The
execution engine is a trait that the runtime implements.

Conversions of 256-bit numbers (`primitives.rs`) and the BLAKE2b hash function (`mapping.rs`) come
from the `sp_core` and `sp_runtime` crates. Their contracts are trusted, not proved.
