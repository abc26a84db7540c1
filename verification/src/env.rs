//! The environment that a call runs against: chain settings, block and transaction.

use crate::primitives::{bytes_to_vec, zero_address, Address, B256, U256};
use vstd::prelude::*;

verus! {

/// Gas limit of every call. It is as large as it can be, so that a call runs whatever the
/// conditions on the forked network are.
pub const CALL_GAS_LIMIT: u64 = 0xffff_ffff_ffff_ffff;

/// The hardfork that a chain runs, as revm names it.
#[verifier::external_type_specification]
#[verifier::external_body]
pub struct ExSpecId(revm::primitives::hardfork::SpecId);

/// revm's chain settings, carried and not looked into.
#[verifier::external_type_specification]
#[verifier::external_body]
#[verifier::reject_recursive_types(SPEC)]
pub struct ExCfgEnv<SPEC>(revm::context::CfgEnv<SPEC>);

/// Chain settings: those that a fork sets or reads, and the rest as revm holds them.
#[derive(Debug, Clone)]
pub struct ChainConfig {
    /// Chain id of the forked network.
    pub chain_id: u64,
    /// Cap on the gas limit of one transaction; the hardfork's own where there is none.
    pub tx_gas_limit_cap: Option<u64>,
    /// Whether a gas price below the block's base fee is let through.
    pub disable_base_fee: bool,
    /// Whether a gas limit above the block's is let through.
    pub disable_block_gas_limit: bool,
    /// Whether a sender that has code is let through.
    pub disable_eip3607: bool,
    /// Whether any nonce is let through.
    pub disable_nonce_check: bool,
    /// The settings not named above; revm's defaults where there are none.
    pub base: Option<revm::context::CfgEnv>,
}

/// Blob gas of a block.
#[derive(Clone, Copy, Debug, PartialEq, Eq)]
pub struct BlobExcessGasAndPrice {
    /// Excess blob gas.
    pub excess_blob_gas: u64,
    /// Price of blob gas.
    pub blob_gasprice: u128,
}

/// The block that a call runs in.
#[derive(Clone, Copy, Debug, PartialEq, Eq)]
pub struct BlockContext {
    /// Height of the block.
    pub number: U256,
    /// Receiver of the block's fees.
    pub beneficiary: Address,
    /// Seconds since the Unix epoch.
    pub timestamp: U256,
    /// Gas limit of the block.
    pub gas_limit: u64,
    /// Base fee per gas.
    pub basefee: u64,
    /// Difficulty of the block.
    pub difficulty: U256,
    /// Output of the randomness beacon.
    pub prevrandao: Option<B256>,
    /// Blob gas of the block.
    pub blob_excess_gas_and_price: Option<BlobExcessGasAndPrice>,
}

/// What a [`BlockContext`] holds.
pub struct BlockView {
    /// Height of the block.
    pub number: nat,
    /// Receiver of the block's fees.
    pub beneficiary: Seq<u8>,
    /// Seconds since the Unix epoch.
    pub timestamp: nat,
    /// Gas limit of the block.
    pub gas_limit: u64,
    /// Base fee per gas.
    pub basefee: u64,
    /// Difficulty of the block.
    pub difficulty: nat,
    /// Output of the randomness beacon.
    pub prevrandao: Option<Seq<u8>>,
    /// Blob gas of the block.
    pub blob_excess_gas_and_price: Option<BlobExcessGasAndPrice>,
}

/// What an optional hash holds.
pub open spec fn hash_view(hash: Option<B256>) -> Option<Seq<u8>> {
    match hash {
        Some(bytes) => Some(bytes@),
        None => None,
    }
}

impl View for BlockContext {
    type V = BlockView;

    open spec fn view(&self) -> BlockView {
        BlockView {
            number: self.number@,
            beneficiary: self.beneficiary@,
            timestamp: self.timestamp@,
            gas_limit: self.gas_limit,
            basefee: self.basefee,
            difficulty: self.difficulty@,
            prevrandao: hash_view(self.prevrandao),
            blob_excess_gas_and_price: self.blob_excess_gas_and_price,
        }
    }
}

/// What a transaction is sent to.
#[derive(Clone, Copy, Debug, PartialEq, Eq)]
pub enum CallTarget {
    /// An account.
    Call(Address),
    /// A new contract.
    Create,
}

/// What a [`CallTarget`] holds.
pub enum CallTargetView {
    /// An account.
    Call(Seq<u8>),
    /// A new contract.
    Create,
}

impl View for CallTarget {
    type V = CallTargetView;

    open spec fn view(&self) -> CallTargetView {
        match self {
            CallTarget::Call(to) => CallTargetView::Call(to@),
            CallTarget::Create => CallTargetView::Create,
        }
    }
}

/// The transaction that a call runs as. It carries no access list, blobs or authorizations, and
/// its nonce is zero.
#[derive(Debug, Clone, PartialEq, Eq)]
pub struct CallTx {
    /// The sender.
    pub caller: Address,
    /// What it is sent to.
    pub kind: CallTarget,
    /// Calldata.
    pub data: Vec<u8>,
    /// Value sent along.
    pub value: U256,
    /// Gas price.
    pub gas_price: u128,
    /// Gas limit.
    pub gas_limit: u64,
    /// Chain id that the transaction is for.
    pub chain_id: Option<u64>,
}

/// What a [`CallTx`] holds.
pub struct CallTxView {
    /// The sender.
    pub caller: Seq<u8>,
    /// What it is sent to.
    pub kind: CallTargetView,
    /// Calldata.
    pub data: Seq<u8>,
    /// Value sent along.
    pub value: nat,
    /// Gas price.
    pub gas_price: u128,
    /// Gas limit.
    pub gas_limit: u64,
    /// Chain id that the transaction is for.
    pub chain_id: Option<u64>,
}

impl View for CallTx {
    type V = CallTxView;

    open spec fn view(&self) -> CallTxView {
        CallTxView {
            caller: self.caller@,
            kind: self.kind@,
            data: self.data@,
            value: self.value@,
            gas_price: self.gas_price,
            gas_limit: self.gas_limit,
            chain_id: self.chain_id,
        }
    }
}

/// The transaction of an environment that no call has filled in yet: nothing, sent from the zero
/// address to the zero address on chain 1, with as much gas as one transaction may have.
pub open spec fn idle_tx() -> CallTxView {
    CallTxView {
        caller: zero_address(),
        kind: CallTargetView::Call(zero_address()),
        data: Seq::empty(),
        value: 0,
        gas_price: 0,
        gas_limit: 16_777_216,
        chain_id: Some(1),
    }
}

impl Default for CallTx {
    fn default() -> (r: CallTx)
        ensures
            r@ == idle_tx(),
    {
        let nobody: Address = [0u8; 20];
        assert(nobody@ =~= zero_address());
        CallTx {
            caller: nobody,
            kind: CallTarget::Call(nobody),
            data: Vec::new(),
            value: U256::zero(),
            gas_price: 0,
            gas_limit: 16_777_216,
            chain_id: Some(1),
        }
    }
}

/// The EVM environment (cfg/block/tx) a call runs against.
#[derive(Debug, Clone)]
pub struct Env {
    /// Chain settings.
    pub cfg: ChainConfig,
    /// Block environment.
    pub block: BlockContext,
    /// Transaction environment.
    pub tx: CallTx,
}

/// What an [`Env`] holds.
pub struct EnvView {
    /// Chain settings.
    pub cfg: ChainConfig,
    /// Block environment.
    pub block: BlockView,
    /// Transaction environment.
    pub tx: CallTxView,
}

impl View for Env {
    type V = EnvView;

    open spec fn view(&self) -> EnvView {
        EnvView { cfg: self.cfg, block: self.block@, tx: self.tx@ }
    }
}

/// Chain settings as revm has them by default: chain 1, no cap of their own, every check on.
pub open spec fn default_cfg() -> ChainConfig {
    ChainConfig {
        chain_id: 1,
        tx_gas_limit_cap: None,
        disable_base_fee: false,
        disable_block_gas_limit: false,
        disable_eip3607: false,
        disable_nonce_check: false,
        base: None,
    }
}

impl Default for ChainConfig {
    fn default() -> (r: ChainConfig)
        ensures
            r == default_cfg(),
    {
        ChainConfig {
            chain_id: 1,
            tx_gas_limit_cap: None,
            disable_base_fee: false,
            disable_block_gas_limit: false,
            disable_eip3607: false,
            disable_nonce_check: false,
            base: None,
        }
    }
}

/// A block as revm has it by default: the one of height 0, a second after the epoch, with all the
/// gas there can be.
pub open spec fn default_block() -> BlockView {
    BlockView {
        number: 0,
        beneficiary: zero_address(),
        timestamp: 1,
        gas_limit: u64::MAX,
        basefee: 0,
        difficulty: 0,
        prevrandao: Some(Seq::new(32, |i: int| 0u8)),
        blob_excess_gas_and_price: Some(
            BlobExcessGasAndPrice { excess_blob_gas: 0, blob_gasprice: 1 },
        ),
    }
}

impl Default for BlockContext {
    fn default() -> (r: BlockContext)
        ensures
            r@ == default_block(),
    {
        let beneficiary: Address = [0u8; 20];
        let prevrandao: B256 = [0u8; 32];
        assert(beneficiary@ =~= zero_address());
        assert(prevrandao@ =~= Seq::new(32, |i: int| 0u8));
        BlockContext {
            number: U256::zero(),
            beneficiary,
            timestamp: U256::from_u64(1),
            gas_limit: u64::MAX,
            basefee: 0,
            difficulty: U256::zero(),
            prevrandao: Some(prevrandao),
            blob_excess_gas_and_price: Some(
                BlobExcessGasAndPrice { excess_blob_gas: 0, blob_gasprice: 1 },
            ),
        }
    }
}

impl Default for Env {
    fn default() -> (r: Env)
        ensures
            r@ == (EnvView { cfg: default_cfg(), block: default_block(), tx: idle_tx() }),
    {
        Env {
            cfg: ChainConfig::default(),
            block: BlockContext::default(),
            tx: CallTx::default(),
        }
    }
}

/// A copy of revm's chain settings, made by `CfgEnv::clone`: it holds the same settings.
#[verifier::external_body]
fn clone_settings(settings: &revm::context::CfgEnv) -> (r: revm::context::CfgEnv)
    ensures
        r == *settings,
{
    settings.clone()
}

impl ChainConfig {
    /// A copy of these settings.
    pub fn copy(&self) -> (r: ChainConfig)
        ensures
            r == *self,
    {
        let base = match &self.base {
            Some(settings) => Some(clone_settings(settings)),
            None => None,
        };
        ChainConfig {
            chain_id: self.chain_id,
            tx_gas_limit_cap: self.tx_gas_limit_cap,
            disable_base_fee: self.disable_base_fee,
            disable_block_gas_limit: self.disable_block_gas_limit,
            disable_eip3607: self.disable_eip3607,
            disable_nonce_check: self.disable_nonce_check,
            base,
        }
    }
}

/// The transaction of a call from `caller` on the chain with the settings `cfg`: gas is free and
/// all but unlimited.
pub open spec fn call_tx(
    cfg: ChainConfig,
    caller: Seq<u8>,
    kind: CallTargetView,
    data: Seq<u8>,
    value: nat,
) -> CallTxView {
    CallTxView {
        caller,
        kind,
        data,
        value,
        gas_price: 0,
        gas_limit: CALL_GAS_LIMIT,
        chain_id: Some(cfg.chain_id),
    }
}

/// Builds a tx env from the fork env plus the call specifics, with gas price 0.
pub fn build_tx(
    env: &Env,
    caller: Address,
    kind: CallTarget,
    data: &[u8],
    value: U256,
) -> (r: CallTx)
    ensures
        r@ == call_tx(env.cfg, caller@, kind@, data@, value@),
        r.caller == caller,
        r.kind == kind,
        r.data@ == data@,
        r.value == value,
        r.gas_price == 0,
        r.gas_limit == 0xffff_ffff_ffff_ffff,
        r.chain_id == Some(env.cfg.chain_id),
{
    CallTx {
        caller,
        kind,
        data: bytes_to_vec(data),
        value,
        gas_price: 0,
        gas_limit: CALL_GAS_LIMIT,
        chain_id: Some(env.cfg.chain_id),
    }
}

} // verus!
