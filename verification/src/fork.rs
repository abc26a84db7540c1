//! A single forked network, and how it comes into being.

use crate::env::{
    build_tx, call_tx, hash_view, BlobExcessGasAndPrice, BlockContext, BlockView, CallTarget,
    CallTargetView, CallTxView, ChainConfig, Env, EnvView,
};
use crate::error::{ForkCallError, ForkCallErrorView};
use crate::evm::{
    can_run, clone_backend, clone_db, db_backend, db_view, exec, exec_result, fresh_db, left_by,
    new_db, result_view, DbView, ReplyView,
};
use crate::primitives::{Address, B256, U256};
use crate::result::{RawCallResult, RawCallResultView};
use foundry_fork_db::backend::SharedBackend;
use revm::database::CacheDB;
use vstd::prelude::*;

verus! {

/// Identifies a fork by its RPC URL and the block it was pinned at.
#[derive(Clone, PartialEq, Eq, Hash, Debug)]
pub struct ForkId {
    /// RPC URL of the forked network.
    pub url: String,
    /// Block the fork was created at, if pinned.
    pub block: Option<u64>,
}

/// What a [`ForkId`] holds.
pub struct ForkIdView {
    /// RPC URL of the forked network.
    pub url: Seq<char>,
    /// Block the fork was created at, if pinned.
    pub block: Option<u64>,
}

impl View for ForkId {
    type V = ForkIdView;

    open spec fn view(&self) -> ForkIdView {
        ForkIdView { url: self.url@, block: self.block }
    }
}

impl ForkId {
    /// Creates a new fork identifier from a URL and optional block number.
    pub fn new(url: &str, block: Option<u64>) -> (r: ForkId)
        ensures
            r@ == (ForkIdView { url: url@, block }),
    {
        ForkId { url: url.to_owned(), block }
    }

    /// Whether two identifiers are of the same fork.
    pub fn same(&self, other: &ForkId) -> (r: bool)
        ensures
            r == (self@ == other@),
    {
        let same_block = match (self.block, other.block) {
            (Some(a), Some(b)) => a == b,
            (None, None) => true,
            _ => false,
        };
        same_block && self.url == other.url
    }

    /// A copy of this identifier.
    pub fn copy(&self) -> (r: ForkId)
        ensures
            r@ == self@,
    {
        ForkId { url: self.url.clone(), block: self.block }
    }
}

/// Configuration for creating a new forked EVM instance.
#[derive(Debug, Clone)]
pub struct NewForkedEvm {
    /// RPC URL of the network to fork.
    pub fork_url: String,
    /// Optional block number to fork from. Uses latest if `None`.
    pub fork_block_number: Option<u64>,
}

impl NewForkedEvm {
    /// The identifier of the fork that this configures.
    pub open spec fn spec_id(&self) -> ForkIdView {
        ForkIdView { url: self.fork_url@, block: self.fork_block_number }
    }

    /// The identifier of the fork that this configures.
    pub fn id(&self) -> (r: ForkId)
        ensures
            r@ == self.spec_id(),
    {
        ForkId::new(self.fork_url.as_str(), self.fork_block_number)
    }
}

/// Which block to ask the network for.
#[derive(Debug, Clone, Copy, PartialEq, Eq)]
pub enum BlockTag {
    /// The block of a height.
    Number(u64),
    /// The newest block.
    Latest,
}

/// What is read of a block's header.
#[derive(Debug, Clone, Copy, PartialEq, Eq)]
pub struct BlockHeader {
    /// Height of the block.
    pub number: u64,
    /// Receiver of the block's fees.
    pub beneficiary: Address,
    /// Seconds since the Unix epoch.
    pub timestamp: u64,
    /// Gas limit of the block.
    pub gas_limit: u64,
    /// Base fee per gas, from the hardfork on that has one.
    pub base_fee_per_gas: Option<u64>,
    /// Difficulty of the block.
    pub difficulty: U256,
    /// Mix hash of the block.
    pub mix_hash: Option<B256>,
}

/// The base fee of a block: zero before there were base fees.
pub open spec fn base_fee(header: BlockHeader) -> u64 {
    match header.base_fee_per_gas {
        Some(fee) => fee,
        None => 0,
    }
}

/// The block environment of a fork at the block with the header `header`.
pub open spec fn fork_block(header: BlockHeader) -> BlockView {
    BlockView {
        number: header.number as nat,
        beneficiary: header.beneficiary@,
        timestamp: header.timestamp as nat,
        gas_limit: header.gas_limit,
        basefee: base_fee(header),
        difficulty: header.difficulty@,
        prevrandao: hash_view(header.mix_hash),
        blob_excess_gas_and_price: Some(
            BlobExcessGasAndPrice { excess_blob_gas: 0, blob_gasprice: 1 },
        ),
    }
}

impl BlockHeader {
    /// The block's base fee: zero before there were base fees.
    pub fn basefee(&self) -> (r: u64)
        ensures
            r == base_fee(*self),
            self.base_fee_per_gas matches Some(fee) ==> r == fee,
            self.base_fee_per_gas is None ==> r == 0,
    {
        match self.base_fee_per_gas {
            Some(fee) => fee,
            None => 0,
        }
    }

    /// The block environment of a fork at this block.
    pub fn block_context(&self) -> (r: BlockContext)
        ensures
            r@ == fork_block(*self),
            r.number@ == self.number,
            r.beneficiary == self.beneficiary,
            r.timestamp@ == self.timestamp,
            r.gas_limit == self.gas_limit,
            self.base_fee_per_gas matches Some(fee) ==> r.basefee == fee,
            self.base_fee_per_gas is None ==> r.basefee == 0,
            r.difficulty == self.difficulty,
            r.prevrandao == self.mix_hash,
    {
        BlockContext {
            number: U256::from_u64(self.number),
            beneficiary: self.beneficiary,
            timestamp: U256::from_u64(self.timestamp),
            gas_limit: self.gas_limit,
            basefee: self.basefee(),
            difficulty: self.difficulty,
            prevrandao: self.mix_hash,
            blob_excess_gas_and_price: Some(
                BlobExcessGasAndPrice { excess_blob_gas: 0, blob_gasprice: 1 },
            ),
        }
    }
}

/// The settings of a fork of the chain `chain_id`. Calls come with gas price zero from any sender,
/// so what would turn them away is switched off.
pub open spec fn fork_cfg(chain_id: u64) -> ChainConfig {
    ChainConfig {
        chain_id,
        tx_gas_limit_cap: Some(u64::MAX),
        disable_base_fee: true,
        disable_block_gas_limit: true,
        disable_eip3607: true,
        disable_nonce_check: true,
        base: None,
    }
}

impl ChainConfig {
    /// The settings of a fork of the chain `chain_id`, for calls that are not meant for a block:
    /// no cap on gas, and no check that would turn away a call with gas price zero from any
    /// sender.
    pub fn for_fork(chain_id: u64) -> (r: ChainConfig)
        ensures
            r == fork_cfg(chain_id),
    {
        ChainConfig {
            chain_id,
            tx_gas_limit_cap: Some(u64::MAX),
            disable_base_fee: true,
            disable_block_gas_limit: true,
            disable_eip3607: true,
            disable_nonce_check: true,
            base: None,
        }
    }
}

/// A single forked network: its database, the shared backend used for block and transaction
/// lookups, and the cfg/block environment to execute against.
pub struct Fork {
    /// revm database layered over the RPC-backed shared backend; accumulates state committed by
    /// `*_committing` calls.
    db: CacheDB<SharedBackend>,
    /// Shared backend, retained for block and transaction lookups.
    backend: SharedBackend,
    /// cfg + block environment for this fork (tx is filled in per call).
    env: Env,
    /// RPC URL of the fork.
    url: String,
}

/// What a [`Fork`] holds.
pub struct ForkView {
    /// The state that calls run on.
    pub db: DbView,
    /// The environment that calls run against.
    pub env: EnvView,
    /// RPC URL of the fork.
    pub url: Seq<char>,
}

impl View for Fork {
    type V = ForkView;

    closed spec fn view(&self) -> ForkView {
        ForkView { db: db_view(self.db), env: self.env@, url: self.url@ }
    }
}

/// A fork at `url` that no call has run on yet.
pub open spec fn fresh_fork(backend: SharedBackend, env: EnvView, url: Seq<char>) -> ForkView {
    ForkView { db: fresh_db(backend), env, url }
}

/// The fork with its environment at another block height.
pub open spec fn at_height(fork: ForkView, number: nat) -> ForkView {
    ForkView {
        env: EnvView { block: BlockView { number, ..fork.env.block }, ..fork.env },
        ..fork
    }
}

/// The fork taken into the block of height `number` with the header `header`: its state is the one
/// it was forked with, nothing committed yet, and of its environment's block only what the header
/// does not say stays as it was.
pub open spec fn in_block(fork: ForkView, number: u64, header: BlockHeader) -> ForkView {
    ForkView {
        db: fresh_db(fork.db.backend),
        env: EnvView {
            block: BlockView {
                number: number as nat,
                blob_excess_gas_and_price: fork.env.block.blob_excess_gas_and_price,
                ..fork_block(header)
            },
            ..fork.env
        },
        ..fork
    }
}

/// A call on a fork.
pub struct CallView {
    /// The sender.
    pub from: Seq<u8>,
    /// What is called: an account, or a new contract.
    pub to: CallTargetView,
    /// Calldata, or the new contract's init code.
    pub data: Seq<u8>,
    /// Value sent along.
    pub value: nat,
}

/// The transaction that `call` runs as on `fork`.
pub open spec fn tx_of(fork: ForkView, call: CallView) -> CallTxView {
    call_tx(fork.env.cfg, call.from, call.to, call.data, call.value)
}

/// That the EVM can answer `call` on the fork `fork` with `reply`, once what is new in `loaded` has
/// been loaded.
pub open spec fn can_answer(
    fork: ForkView,
    call: CallView,
    reply: ReplyView,
    loaded: DbView,
) -> bool {
    can_run(fork.db, fork.env.cfg, fork.env.block, tx_of(fork, call), reply, loaded)
}

/// The fork that `call` leaves of the fork `fork`, with its changes kept or not as `commit` says,
/// where `loaded` was loaded and `reply` the answer.
pub open spec fn after_call(
    fork: ForkView,
    call: CallView,
    commit: bool,
    reply: ReplyView,
    loaded: DbView,
) -> ForkView {
    ForkView {
        db: left_by(loaded, fork.env.cfg, fork.env.block, tx_of(fork, call), commit, reply),
        ..fork
    }
}

/// That `call` on the fork `before`, with its changes kept or not as `commit` says, can give the
/// result `r` and leave the fork `after`. The result is the EVM's answer, which is the same whether
/// changes are kept or not; unless they are, all that is new in the state was loaded.
pub open spec fn ran(
    before: ForkView,
    call: CallView,
    commit: bool,
    r: Result<RawCallResultView, ForkCallErrorView>,
    after: ForkView,
) -> bool {
    exists|reply: ReplyView, loaded: DbView|
        {
            &&& #[trigger] can_answer(before, call, reply, loaded)
            &&& r == exec_result(before.env, tx_of(before, call), reply)
            &&& after == after_call(before, call, commit, reply, loaded)
        }
}

impl Fork {
    /// The database loads from the backend that lookups go to.
    pub closed spec fn wf(&self) -> bool {
        db_backend(self.db) == self.backend
    }

    /// A fork at `url` that loads its state from `backend` and runs its calls against `env`.
    pub fn new(backend: SharedBackend, env: Env, url: String) -> (r: Fork)
        ensures
            r.wf(),
            r@ == fresh_fork(backend, env@, url@),
    {
        Fork { db: new_db(clone_backend(&backend)), backend, env, url }
    }

    /// RPC URL of the fork.
    pub fn url(&self) -> (r: &String)
        ensures
            r@ == self@.url,
    {
        &self.url
    }

    /// A handle to the backend that the fork loads its state from.
    pub fn backend(&self) -> (r: SharedBackend)
        requires
            self.wf(),
        ensures
            r == self@.db.backend,
    {
        clone_backend(&self.backend)
    }

    /// Moves the fork's environment to another block height.
    pub fn set_block_number(&mut self, number: u64)
        requires
            old(self).wf(),
        ensures
            final(self).wf(),
            final(self)@ == at_height(old(self)@, number as nat),
            final(self)@.env.block.number == number,
            final(self)@.env.block.timestamp == old(self)@.env.block.timestamp,
            final(self)@.db == old(self)@.db,
            final(self)@.url == old(self)@.url,
    {
        self.env.block.number = U256::from_u64(number);
    }

    /// Takes the fork into the block of height `number` with the header `header`, on the state it
    /// was forked with.
    pub fn enter_block(&mut self, number: u64, header: &BlockHeader)
        requires
            old(self).wf(),
        ensures
            final(self).wf(),
            final(self)@ == in_block(old(self)@, number, *header),
            final(self)@.env.block.number == number,
            final(self)@.env.block.timestamp == header.timestamp,
            final(self)@.env.block.beneficiary == header.beneficiary@,
            final(self)@.env.block.difficulty == header.difficulty@,
            final(self)@.env.block.gas_limit == header.gas_limit,
            header.mix_hash matches Some(hash) ==> final(self)@.env.block.prevrandao == Some(
                hash@,
            ),
            header.mix_hash is None ==> final(self)@.env.block.prevrandao is None,
            header.base_fee_per_gas matches Some(fee) ==> final(self)@.env.block.basefee == fee,
            header.base_fee_per_gas is None ==> final(self)@.env.block.basefee == 0,
            final(self)@.env.cfg == old(self)@.env.cfg,
            final(self)@.db.contents.dom() == Set::<Seq<u8>>::empty(),
            final(self)@.db.backend == old(self)@.db.backend,
            final(self)@.url == old(self)@.url,
    {
        self.db = new_db(clone_backend(&self.backend));
        self.env.block.number = U256::from_u64(number);
        self.env.block.timestamp = U256::from_u64(header.timestamp);
        self.env.block.beneficiary = header.beneficiary;
        self.env.block.difficulty = header.difficulty;
        self.env.block.prevrandao = header.mix_hash;
        self.env.block.basefee = header.basefee();
        self.env.block.gas_limit = header.gas_limit;
    }

    /// Performs a read-only call against the fork's state (not committed).
    pub fn call(&self, from: Address, kind: CallTarget, calldata: &[u8], value: U256) -> (r: Result<
        RawCallResult,
        ForkCallError,
    >)
        requires
            self.wf(),
        ensures
            exists|after: ForkView| #[trigger]
                ran(
                    self@,
                    CallView { from: from@, to: kind@, data: calldata@, value: value@ },
                    false,
                    result_view(r),
                    after,
                ),
    {
        let tx = build_tx(&self.env, from, kind, calldata, value);
        let mut db = clone_db(&self.db);
        let ghost call = CallView { from: from@, to: kind@, data: calldata@, value: value@ };
        assert(db_view(db) == self@.db);
        let r = exec(&mut db, &self.env, tx, false);
        proof {
            let (reply, loaded) = choose|reply: ReplyView, loaded: DbView|
                {
                    &&& #[trigger] can_run(
                        self@.db,
                        self.env.cfg,
                        self.env.block@,
                        tx@,
                        reply,
                        loaded,
                    )
                    &&& result_view(r) == exec_result(self.env@, tx@, reply)
                };
            assert(can_answer(self@, call, reply, loaded));
            let after = after_call(self@, call, false, reply, loaded);
            assert(ran(self@, call, false, result_view(r), after));
        }
        r
    }

    /// Performs a state-committing call against the fork.
    pub fn call_committing(
        &mut self,
        from: Address,
        kind: CallTarget,
        calldata: &[u8],
        value: U256,
    ) -> (r: Result<RawCallResult, ForkCallError>)
        requires
            old(self).wf(),
        ensures
            final(self).wf(),
            ran(
                old(self)@,
                CallView { from: from@, to: kind@, data: calldata@, value: value@ },
                true,
                result_view(r),
                final(self)@,
            ),
    {
        let tx = build_tx(&self.env, from, kind, calldata, value);
        let ghost call = CallView { from: from@, to: kind@, data: calldata@, value: value@ };
        let ghost env = self.env;
        let r = exec(&mut self.db, &self.env, tx, true);
        proof {
            let (reply, loaded) = choose|reply: ReplyView, loaded: DbView|
                {
                    &&& #[trigger] can_run(
                        old(self)@.db,
                        env.cfg,
                        env.block@,
                        tx@,
                        reply,
                        loaded,
                    )
                    &&& result_view(r) == exec_result(env@, tx@, reply)
                    &&& self@.db == left_by(loaded, env.cfg, env.block@, tx@, true, reply)
                };
            assert(can_answer(old(self)@, call, reply, loaded));
        }
        r
    }
}

} // verus!
