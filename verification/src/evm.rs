//! Running transactions on revm.

use crate::env::{
    BlockContext, BlockView, CallTarget, CallTx, CallTxView, ChainConfig, Env, EnvView,
};
use crate::error::{ForkCallError, ForkCallErrorView};
use crate::result::{raw_result, Outcome, OutcomeView, Output, RawCallResult, RawCallResultView};
use foundry_fork_db::backend::SharedBackend;
use foundry_fork_db::error::DatabaseError;
use revm::context::result::{EVMError, ExecutionResult, HaltReason, InvalidTransaction};
use revm::database::CacheDB;
use revm::inspector::{InspectCommitEvm, InspectEvm};
use revm::{MainBuilder, MainContext};
use revm_inspectors::tracing::{CallTraceArena, TracingInspector, TracingInspectorConfig};
use vstd::prelude::*;

verus! {

/// A handle to the thread that fetches and keeps the state of a forked network.
#[verifier::external_type_specification]
#[verifier::external_body]
pub struct ExSharedBackend(foundry_fork_db::backend::SharedBackend);

/// revm's database: the accounts, storage slots and block hashes that calls have read or written,
/// in front of another database that has the rest.
#[verifier::external_type_specification]
#[verifier::external_body]
#[verifier::reject_recursive_types(ExtDB)]
pub struct ExCacheDB<ExtDB>(revm::database::CacheDB<ExtDB>);

/// revm's block environment.
#[verifier::external_type_specification]
#[verifier::external_body]
pub struct ExBlockEnv(revm::context::BlockEnv);

/// revm's transaction environment.
#[verifier::external_type_specification]
#[verifier::external_body]
pub struct ExTxEnv(revm::context::TxEnv);

/// Why revm stopped a transaction.
#[verifier::external_type_specification]
#[verifier::external_body]
pub struct ExHaltReason(revm::context::result::HaltReason);

/// Why revm did not run a transaction.
#[verifier::external_type_specification]
#[verifier::external_body]
#[verifier::reject_recursive_types(DBError)]
#[verifier::reject_recursive_types(TransactionError)]
pub struct ExEVMError<DBError, TransactionError>(
    revm::context::result::EVMError<DBError, TransactionError>,
);

/// What revm finds invalid in a transaction.
#[verifier::external_type_specification]
#[verifier::external_body]
pub struct ExInvalidTransaction(revm::context::result::InvalidTransaction);

/// How revm answered a transaction.
#[verifier::external_type_specification]
#[verifier::external_body]
#[verifier::reject_recursive_types(HaltReasonTy)]
pub struct ExExecutionResult<HaltReasonTy>(revm::context::result::ExecutionResult<HaltReasonTy>);

/// What the tracing inspector is to record.
#[verifier::external_type_specification]
#[verifier::external_body]
pub struct ExTracingInspectorConfig(revm_inspectors::tracing::TracingInspectorConfig);

/// What a database holds in front of its backend: for each account, storage slot, contract code and
/// block hash in its cache one entry, key and value written out as bytes. The empty code, which is
/// in every cache, is not counted.
pub uninterp spec fn db_contents(db: CacheDB<SharedBackend>) -> Map<Seq<u8>, Seq<u8>>;

/// The backend that a database loads from.
pub uninterp spec fn db_backend(db: CacheDB<SharedBackend>) -> SharedBackend;

/// The state that a fork's calls run on.
pub struct DbView {
    /// What calls have read or written.
    pub contents: Map<Seq<u8>, Seq<u8>>,
    /// Where the rest comes from.
    pub backend: SharedBackend,
}

/// The state that `db` holds.
pub open spec fn db_view(db: CacheDB<SharedBackend>) -> DbView {
    DbView { contents: db_contents(db), backend: db_backend(db) }
}

/// The state of a database that no call has used yet.
pub open spec fn fresh_db(backend: SharedBackend) -> DbView {
    DbView { contents: Map::empty(), backend }
}

/// A copy of a backend's handle, made by `SharedBackend::clone`: it reaches the same backend.
#[verifier::external_body]
pub(crate) fn clone_backend(backend: &SharedBackend) -> (r: SharedBackend)
    ensures
        r == *backend,
{
    backend.clone()
}

/// A copy of the handle to the backend that a database loads from, made by `SharedBackend::clone`.
#[verifier::external_body]
fn backend_of(db: &CacheDB<SharedBackend>) -> (r: SharedBackend)
    ensures
        r == db_backend(*db),
{
    db.db.clone()
}

/// A database with an empty cache, made by `CacheDB::new`, that loads from `backend`.
#[verifier::external_body]
pub(crate) fn new_db(backend: SharedBackend) -> (r: CacheDB<SharedBackend>)
    ensures
        db_view(r) == fresh_db(backend),
{
    CacheDB::new(backend)
}

/// A copy of a database, made by `CacheDB::clone`: it holds the same entries and loads from the
/// same backend.
#[verifier::external_body]
pub(crate) fn clone_db(db: &CacheDB<SharedBackend>) -> (r: CacheDB<SharedBackend>)
    ensures
        db_contents(r) == db_contents(*db),
        db_backend(r) == db_backend(*db),
{
    db.clone()
}

/// Chain settings carried as revm holds them, or revm's defaults where there are none.
pub uninterp spec fn settings_or_default(
    base: Option<revm::context::CfgEnv>,
) -> revm::context::CfgEnv;

/// Gives carried settings back, and those of `CfgEnv::default` where there are none.
#[verifier::external_body]
fn fill_settings(base: Option<revm::context::CfgEnv>) -> (r: revm::context::CfgEnv)
    ensures
        r == settings_or_default(base),
        base matches Some(settings) ==> r == settings,
{
    base.unwrap_or_default()
}

/// The settings `settings` with those that `cfg` names put in.
pub uninterp spec fn named_settings(
    cfg: ChainConfig,
    settings: revm::context::CfgEnv,
) -> revm::context::CfgEnv;

/// revm's form of chain settings: those that are carried, or revm's defaults, with the named ones
/// put in.
pub open spec fn revm_cfg(cfg: ChainConfig) -> revm::context::CfgEnv {
    named_settings(cfg, settings_or_default(cfg.base))
}

/// revm's form of a block.
pub uninterp spec fn revm_block(block: BlockView) -> revm::context::BlockEnv;

/// revm's form of a transaction.
pub uninterp spec fn revm_tx(tx: CallTxView) -> revm::context::TxEnv;

/// Writes the settings that `cfg` names into a revm `CfgEnv`, field by field.
#[verifier::external_body]
fn name_settings(cfg: &ChainConfig, settings: revm::context::CfgEnv) -> (r: revm::context::CfgEnv)
    ensures
        r == named_settings(*cfg, settings),
{
    let mut out = settings;
    out.chain_id = cfg.chain_id;
    out.tx_gas_limit_cap = cfg.tx_gas_limit_cap;
    out.disable_base_fee = cfg.disable_base_fee;
    out.disable_block_gas_limit = cfg.disable_block_gas_limit;
    out.disable_eip3607 = cfg.disable_eip3607;
    out.disable_nonce_check = cfg.disable_nonce_check;
    out
}

/// Writes chain settings as a revm `CfgEnv`.
fn to_revm_cfg(cfg: &ChainConfig) -> (r: revm::context::CfgEnv)
    ensures
        r == revm_cfg(*cfg),
{
    name_settings(cfg, fill_settings(cfg.copy().base))
}

/// Writes a block as a revm `BlockEnv`, field by field.
#[verifier::external_body]
fn to_revm_block(block: &BlockContext) -> (r: revm::context::BlockEnv)
    ensures
        r == revm_block(block@),
{
    revm::context::BlockEnv {
        number: revm::primitives::U256::from_limbs(block.number.limbs),
        beneficiary: block.beneficiary.into(),
        timestamp: revm::primitives::U256::from_limbs(block.timestamp.limbs),
        gas_limit: block.gas_limit,
        basefee: block.basefee,
        difficulty: revm::primitives::U256::from_limbs(block.difficulty.limbs),
        prevrandao: block.prevrandao.map(revm::primitives::B256::from),
        blob_excess_gas_and_price: block.blob_excess_gas_and_price.map(|blob|
            revm::context_interface::block::BlobExcessGasAndPrice {
                excess_blob_gas: blob.excess_blob_gas,
                blob_gasprice: blob.blob_gasprice,
            }),
    }
}

/// Writes a transaction as a revm `TxEnv`, field by field; the fields that a [`CallTx`] lacks are
/// those of `TxEnv::default`.
#[verifier::external_body]
fn to_revm_tx(tx: &CallTx) -> (r: revm::context::TxEnv)
    ensures
        r == revm_tx(tx@),
{
    let mut out = revm::context::TxEnv::default();
    out.caller = tx.caller.into();
    out.kind = match tx.kind {
        CallTarget::Call(to) => revm::primitives::TxKind::Call(to.into()),
        CallTarget::Create => revm::primitives::TxKind::Create,
    };
    out.data = revm::primitives::Bytes::copy_from_slice(&tx.data);
    out.value = revm::primitives::U256::from_limbs(tx.value.limbs);
    out.gas_price = tx.gas_price;
    out.gas_limit = tx.gas_limit;
    out.chain_id = tx.chain_id;
    out
}

/// What a revm `ExecutionResult` holds.
pub uninterp spec fn outcome_of(result: ExecutionResult<HaltReason>) -> OutcomeView;

/// Takes a revm `ExecutionResult` apart. A reason is given by its code, the discriminant of revm's
/// `InstructionResult::from(reason)`; those of a success and of a halt are what the variant says.
#[verifier::external_body]
fn to_outcome(result: ExecutionResult<HaltReason>) -> (r: Outcome)
    ensures
        r@ == outcome_of(result),
        r@.well_formed(),
{
    match result {
        ExecutionResult::Success { reason, gas_used, output, .. } => Outcome::Success {
            code: revm::interpreter::InstructionResult::from(reason) as u8,
            gas_used,
            output: match output {
                revm::context::result::Output::Call(data) => Output::Call(data.to_vec()),
                revm::context::result::Output::Create(data, address)
                    => Output::Create(data.to_vec(), address.map(|a| a.into_array())),
            },
        },
        ExecutionResult::Revert { gas_used, output } =>
            Outcome::Revert { gas_used, output: output.to_vec() },
        ExecutionResult::Halt { reason, gas_used } => Outcome::Halt {
            code: revm::interpreter::InstructionResult::from(reason) as u8, gas_used },
    }
}

/// Why revm did not run a transaction.
#[derive(Debug, Clone, PartialEq, Eq)]
pub enum Refusal {
    /// The transaction or the block is not valid.
    Invalid(String),
    /// Something that the run needed could not be had.
    Failed(String),
}

/// What a [`Refusal`] holds.
pub enum RefusalView {
    /// The transaction or the block is not valid.
    Invalid(Seq<char>),
    /// Something that the run needed could not be had.
    Failed(Seq<char>),
}

impl View for Refusal {
    type V = RefusalView;

    open spec fn view(&self) -> RefusalView {
        match self {
            Refusal::Invalid(text) => RefusalView::Invalid(text@),
            Refusal::Failed(text) => RefusalView::Failed(text@),
        }
    }
}

impl RefusalView {
    /// The text of the error.
    pub open spec fn text(self) -> Seq<char> {
        match self {
            RefusalView::Invalid(text) => text,
            RefusalView::Failed(text) => text,
        }
    }
}

impl Refusal {
    /// The text of the error.
    pub fn into_text(self) -> (r: String)
        ensures
            r@ == self@.text(),
    {
        match self {
            Refusal::Invalid(text) => text,
            Refusal::Failed(text) => text,
        }
    }
}

/// What a revm `EVMError` over a backend holds.
pub uninterp spec fn refusal_of(error: EVMError<DatabaseError, InvalidTransaction>) -> RefusalView;

/// Takes a revm `EVMError` apart: `Transaction` and `Header` are what revm finds invalid,
/// `Database` and `Custom` what failed on the way. The text is the error's own.
#[verifier::external_body]
fn to_refusal(error: EVMError<DatabaseError, InvalidTransaction>) -> (r: Refusal)
    ensures
        r@ == refusal_of(error),
{
    let text = error.to_string();
    match error {
        EVMError::Transaction(_) => Refusal::Invalid(text),
        EVMError::Header(_) => Refusal::Invalid(text),
        EVMError::Database(_) => Refusal::Failed(text),
        EVMError::Custom(_) => Refusal::Failed(text),
    }
}

/// What is recorded of a call besides its frames and their input.
#[derive(Clone, Copy, Debug, PartialEq, Eq)]
pub struct TraceConfig {
    /// Whether every single step is recorded.
    pub record_steps: bool,
    /// Whether the memory is recorded with each step.
    pub record_memory_snapshots: bool,
    /// Whether changes of state are recorded.
    pub record_state_diff: bool,
    /// Whether the return data buffer is recorded with each step.
    pub record_returndata_snapshots: bool,
    /// Whether calls of precompiled contracts are left out.
    pub exclude_precompile_calls: bool,
    /// Whether logs are recorded.
    pub record_logs: bool,
    /// Whether the immediate bytes of opcodes are recorded.
    pub record_immediate_bytes: bool,
}

/// What is recorded of every call: its frames with their input, those of precompiled contracts left
/// out, and nothing of the single steps.
pub open spec fn call_tracing() -> TraceConfig {
    TraceConfig {
        record_steps: false,
        record_memory_snapshots: false,
        record_state_diff: false,
        record_returndata_snapshots: false,
        exclude_precompile_calls: true,
        record_logs: false,
        record_immediate_bytes: false,
    }
}

/// Tracing config that records call frames (and their input calldata) without step-level overhead,
/// as Parity does.
pub fn tracing_config() -> (r: TraceConfig)
    ensures
        r == call_tracing(),
{
    TraceConfig {
        record_steps: false,
        record_memory_snapshots: false,
        record_state_diff: false,
        record_returndata_snapshots: false,
        exclude_precompile_calls: true,
        record_logs: false,
        record_immediate_bytes: false,
    }
}

/// The form of a [`TraceConfig`] that the tracing inspector takes.
pub uninterp spec fn inspector_config(config: TraceConfig) -> TracingInspectorConfig;

/// Writes a [`TraceConfig`] as a `TracingInspectorConfig`, field by field; the fields that it lacks
/// are those of `TracingInspectorConfig::none`.
#[verifier::external_body]
fn to_inspector_config(config: &TraceConfig) -> (r: TracingInspectorConfig)
    ensures
        r == inspector_config(*config),
{
    let mut out = TracingInspectorConfig::none();
    out.record_steps = config.record_steps;
    out.record_memory_snapshots = config.record_memory_snapshots;
    out.record_state_diff = config.record_state_diff;
    out.record_returndata_snapshots = config.record_returndata_snapshots;
    out.exclude_precompile_calls = config.exclude_precompile_calls;
    out.record_logs = config.record_logs;
    out.record_immediate_bytes = config.record_immediate_bytes;
    out
}

/// How many nodes an arena lists, the root among them.
pub uninterp spec fn arena_nodes(arena: CallTraceArena) -> nat;

/// How the EVM answered: what a transaction that ran came to, or why it could not be run, and the
/// call frames that were recorded.
pub struct ReplyView {
    /// The outcome, or why there is none.
    pub outcome: Result<OutcomeView, RefusalView>,
    /// The recorded call frames.
    pub traces: CallTraceArena,
}

/// That a backend can answer with `value` when it is asked for the entry `key`. It is a relation
/// and no function, since the answer rests on the network.
pub uninterp spec fn can_load(backend: SharedBackend, key: Seq<u8>, value: Seq<u8>) -> bool;

/// That `after` is `before` with nothing but entries loaded from the backend put in.
pub open spec fn only_loads(before: DbView, after: DbView) -> bool {
    &&& after.backend == before.backend
    &&& before.contents.submap_of(after.contents)
    &&& forall|key: Seq<u8>|
        #![trigger after.contents.dom().contains(key)]
        after.contents.dom().contains(key) && !before.contents.dom().contains(key) ==> can_load(
            before.backend,
            key,
            after.contents[key],
        )
}

/// What revm answers to the transaction `tx` under `cfg` and `block`, and what it records of it as
/// `tracing` says, where the entries `contents` are all that the run reads. Every read goes through
/// the cache, so that once a run has come to an end, or been found invalid, its cache holds all
/// that it read, and the answer rests on nothing else.
pub uninterp spec fn evm_reply(
    contents: Map<Seq<u8>, Seq<u8>>,
    cfg: revm::context::CfgEnv,
    block: revm::context::BlockEnv,
    tx: revm::context::TxEnv,
    tracing: TracingInspectorConfig,
) -> ReplyView;

/// The entries that `contents` become once the changes that the transaction `tx` makes on them
/// under `cfg` and `block` are kept.
pub uninterp spec fn evm_kept(
    contents: Map<Seq<u8>, Seq<u8>>,
    cfg: revm::context::CfgEnv,
    block: revm::context::BlockEnv,
    tx: revm::context::TxEnv,
) -> Map<Seq<u8>, Seq<u8>>;

/// That revm, asked to run `tx` under `cfg` and `block` on the state `before`, can fail with the
/// error `text` once it has loaded what is new in `loaded`. It is a relation and no function, since
/// the error may be the backend's.
pub uninterp spec fn can_fail(
    before: DbView,
    cfg: revm::context::CfgEnv,
    block: revm::context::BlockEnv,
    tx: revm::context::TxEnv,
    text: Seq<char>,
    loaded: DbView,
) -> bool;

/// That running `tx` under `cfg` and `block` on the state `before` can be answered with `reply`
/// once what is new in `loaded` has been loaded. Unless something failed, the answer is as the
/// entries say.
pub open spec fn evm_ran(
    before: DbView,
    cfg: revm::context::CfgEnv,
    block: revm::context::BlockEnv,
    tx: revm::context::TxEnv,
    tracing: TracingInspectorConfig,
    reply: ReplyView,
    loaded: DbView,
) -> bool {
    &&& only_loads(before, loaded)
    &&& match reply.outcome {
        Err(RefusalView::Failed(text)) => can_fail(before, cfg, block, tx, text, loaded),
        _ => reply == evm_reply(loaded.contents, cfg, block, tx, tracing),
    }
}

/// The state that a run leaves which loaded `loaded` and was answered with `reply`, where `kept` is
/// what keeping its changes makes of the entries: a run that gives an error makes none.
pub open spec fn committed_to(
    loaded: DbView,
    kept: Map<Seq<u8>, Seq<u8>>,
    reply: ReplyView,
) -> DbView {
    match reply.outcome {
        Ok(_) => DbView { contents: kept, ..loaded },
        Err(_) => loaded,
    }
}

/// What the EVM's answer to a transaction, and the call frames recorded on the way, hold.
pub open spec fn reply_view(
    outcome: Result<ExecutionResult<HaltReason>, EVMError<DatabaseError, InvalidTransaction>>,
    traces: CallTraceArena,
) -> ReplyView {
    ReplyView {
        outcome: match outcome {
            Ok(result) => Ok(outcome_of(result)),
            Err(error) => Err(refusal_of(error)),
        },
        traces,
    }
}

/// Runs a transaction with revm's `inspect_tx` under a `TracingInspector` with the config
/// `tracing`, and gives back the answer, the recorded frames and the database. The changes that the
/// transaction makes are dropped: an entry of the cache stays as it is, and all that is new are
/// entries that the run loaded. The answer to a run that comes to an end, or that revm finds
/// invalid, rests on the entries that are then in the cache, and on the arguments, alone; where
/// something failed on the way the text may be the backend's, and of it no more is stated than the
/// relation. An arena always has its root node. The backend blocks its thread with tokio's
/// `block_in_place`, which is not for use inside a current-thread runtime.
#[verifier::external_body]
fn inspect_tx(
    db: CacheDB<SharedBackend>,
    cfg: revm::context::CfgEnv,
    block: revm::context::BlockEnv,
    tx: revm::context::TxEnv,
    tracing: TracingInspectorConfig,
) -> (r: (
    Result<ExecutionResult<HaltReason>, EVMError<DatabaseError, InvalidTransaction>>,
    CallTraceArena,
    CacheDB<SharedBackend>,
))
    ensures
        match reply_view(r.0, r.1).outcome {
            Err(RefusalView::Failed(text)) => can_fail(
                db_view(db),
                cfg,
                block,
                tx,
                text,
                db_view(r.2),
            ),
            _ => reply_view(r.0, r.1) == evm_reply(db_contents(r.2), cfg, block, tx, tracing),
        },
        db_backend(r.2) == db_backend(db),
        db_contents(db).submap_of(db_contents(r.2)),
        forall|key: Seq<u8>|
            #![trigger db_contents(r.2).dom().contains(key)]
            db_contents(r.2).dom().contains(key) && !db_contents(db).dom().contains(key)
                ==> can_load(db_backend(db), key, db_contents(r.2)[key]),
        arena_nodes(r.1) >= 1,
{
    let mut evm = revm::Context::mainnet().with_db(db).with_block(block).with_cfg(cfg)
        .build_mainnet_with_inspector(TracingInspector::new(tracing));
    let outcome = evm.inspect_tx(tx).map(|ran| ran.result);
    (outcome, evm.inspector.into_traces(), evm.ctx.journaled_state.database)
}

/// Runs a transaction with revm's `inspect_tx_commit`, which does what `inspect_tx` does and then
/// keeps the changes that the transaction makes; where there is an error it keeps none. The changes
/// rest on the entries that the run read, and on the arguments, alone; what they are is not stated
/// beyond that, as it takes all of the EVM to say. Otherwise this is as [`inspect_tx`].
#[verifier::external_body]
fn inspect_tx_commit(
    db: CacheDB<SharedBackend>,
    cfg: revm::context::CfgEnv,
    block: revm::context::BlockEnv,
    tx: revm::context::TxEnv,
    tracing: TracingInspectorConfig,
) -> (r: (
    Result<ExecutionResult<HaltReason>, EVMError<DatabaseError, InvalidTransaction>>,
    CallTraceArena,
    CacheDB<SharedBackend>,
))
    ensures
        exists|loaded: DbView|
            {
                &&& #[trigger] evm_ran(
                    db_view(db),
                    cfg,
                    block,
                    tx,
                    tracing,
                    reply_view(r.0, r.1),
                    loaded,
                )
                &&& db_view(r.2) == committed_to(
                    loaded,
                    evm_kept(loaded.contents, cfg, block, tx),
                    reply_view(r.0, r.1),
                )
            },
        arena_nodes(r.1) >= 1,
{
    let mut evm = revm::Context::mainnet().with_db(db).with_block(block).with_cfg(cfg)
        .build_mainnet_with_inspector(TracingInspector::new(tracing));
    let outcome = evm.inspect_tx_commit(tx);
    (outcome, evm.inspector.into_traces(), evm.ctx.journaled_state.database)
}

/// That a reply is one that the EVM gives: its outcome, if there is one, is well formed, and the
/// arena has a root node.
pub open spec fn reply_ok(reply: ReplyView) -> bool {
    &&& reply.outcome matches Ok(outcome) ==> outcome.well_formed()
    &&& arena_nodes(reply.traces) >= 1
}

/// That running `tx` under `cfg` and `block` on the state `before`, traced as every call is, can be
/// answered with `reply` once what is new in `loaded` has been loaded.
pub open spec fn can_run(
    before: DbView,
    cfg: ChainConfig,
    block: BlockView,
    tx: CallTxView,
    reply: ReplyView,
    loaded: DbView,
) -> bool {
    &&& evm_ran(
        before,
        revm_cfg(cfg),
        revm_block(block),
        revm_tx(tx),
        inspector_config(call_tracing()),
        reply,
        loaded,
    )
    &&& reply_ok(reply)
}

/// The state that running `tx` leaves, with its changes kept or not as `commit` says, where
/// `loaded` was loaded and `reply` the answer.
pub open spec fn left_by(
    loaded: DbView,
    cfg: ChainConfig,
    block: BlockView,
    tx: CallTxView,
    commit: bool,
    reply: ReplyView,
) -> DbView {
    if commit {
        committed_to(
            loaded,
            evm_kept(loaded.contents, revm_cfg(cfg), revm_block(block), revm_tx(tx)),
            reply,
        )
    } else {
        loaded
    }
}

/// The result of running `tx` under `env` when the EVM answers with `reply`.
pub open spec fn exec_result(
    env: EnvView,
    tx: CallTxView,
    reply: ReplyView,
) -> Result<RawCallResultView, ForkCallErrorView> {
    match reply.outcome {
        Ok(outcome) => Ok(raw_result(outcome, reply.traces, EnvView { tx, ..env })),
        Err(refusal) => Err(ForkCallErrorView::ExecutorError(refusal.text())),
    }
}

/// What a call's result holds.
pub open spec fn result_view(r: Result<RawCallResult, ForkCallError>) -> Result<
    RawCallResultView,
    ForkCallErrorView,
> {
    match r {
        Ok(raw) => Ok(raw@),
        Err(error) => Err(error@),
    }
}

/// The result of a call, given what the EVM made of its transaction or why it could not be run.
pub fn exec_outcome(ran: Result<Outcome, String>, traces: CallTraceArena, env: Env) -> (r: Result<
    RawCallResult,
    ForkCallError,
>)
    requires
        ran matches Ok(outcome) ==> outcome@.well_formed(),
    ensures
        match ran {
            Ok(outcome) => r matches Ok(raw) && raw@ == raw_result(outcome@, traces, env@)
                && raw.env == env && raw.traces == Some(traces),
            Err(text) => r matches Err(error) && error@ == ForkCallErrorView::ExecutorError(text@),
        },
{
    match ran {
        Ok(outcome) => Ok(RawCallResult::from_outcome(outcome, traces, env)),
        Err(text) => Err(ForkCallError::ExecutorError(text)),
    }
}

/// Runs a transaction against `db` with a tracing inspector, optionally committing the resulting
/// state, and converts the outcome into a [`RawCallResult`]. Whatever comes of it, `db` ends up
/// with what it held before, with what was loaded, and with what was committed.
pub fn exec(db: &mut CacheDB<SharedBackend>, env: &Env, tx: CallTx, commit: bool) -> (r: Result<
    RawCallResult,
    ForkCallError,
>)
    ensures
        exists|reply: ReplyView, loaded: DbView|
            {
                &&& #[trigger] can_run(
                    db_view(*old(db)),
                    env.cfg,
                    env.block@,
                    tx@,
                    reply,
                    loaded,
                )
                &&& result_view(r) == exec_result(env@, tx@, reply)
                &&& db_view(*final(db)) == left_by(
                    loaded,
                    env.cfg,
                    env.block@,
                    tx@,
                    commit,
                    reply,
                )
            },
        r matches Ok(raw) ==> raw@.env.tx == tx@ && raw@.env.cfg == env.cfg && raw@.env.block
            == env.block@,
        db_backend(*final(db)) == db_backend(*old(db)),
        !commit || r is Err ==> db_contents(*old(db)).submap_of(db_contents(*final(db))),
{
    let cfg = to_revm_cfg(&env.cfg);
    let block = to_revm_block(&env.block);
    let revm_form = to_revm_tx(&tx);
    let tracing = to_inspector_config(&tracing_config());
    // The EVM takes the database over; an empty one on the same backend stands in for it.
    let mut owned_db = new_db(backend_of(db));
    std::mem::swap(db, &mut owned_db);
    let (ran, traces, used_db) = if commit {
        inspect_tx_commit(owned_db, cfg, block, revm_form, tracing)
    } else {
        inspect_tx(owned_db, cfg, block, revm_form, tracing)
    };
    *db = used_db;
    proof {
        let reply = reply_view(ran, traces);
        let loaded = if commit {
            choose|loaded: DbView|
                {
                    &&& #[trigger] evm_ran(
                        db_view(*old(db)),
                        cfg,
                        block,
                        revm_form,
                        tracing,
                        reply,
                        loaded,
                    )
                    &&& db_view(used_db) == committed_to(
                        loaded,
                        evm_kept(loaded.contents, cfg, block, revm_form),
                        reply,
                    )
                }
        } else {
            db_view(used_db)
        };
        assert(evm_ran(db_view(*old(db)), cfg, block, revm_form, tracing, reply, loaded));
        assert(db_view(used_db) == left_by(loaded, env.cfg, env.block@, tx@, commit, reply));
        if reply_ok(reply) {
            assert(can_run(db_view(*old(db)), env.cfg, env.block@, tx@, reply, loaded));
        }
    }
    let outcome = match ran {
        Ok(result) => Ok(to_outcome(result)),
        Err(error) => Err(to_refusal(error).into_text()),
    };
    exec_outcome(outcome, traces, Env { cfg: env.cfg.copy(), block: env.block, tx })
}

} // verus!
