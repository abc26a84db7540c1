//! What the operations come to, said of their inputs and results field by field.

use crate::create::{block_tag, env_view, fork_env, invalid_url, AwaitingBackend};
use crate::env::{
    call_tx, default_block, default_cfg, idle_tx, BlobExcessGasAndPrice, BlockContext,
    BlockView, CallTarget, CallTargetView, CallTx, CallTxView, ChainConfig, Env, EnvView,
};
use crate::error::{
    ForkCallError, ForkCallErrorView, ReplayTransactionError, ReplayTransactionErrorView,
};
use crate::evm::{
    arena_nodes, can_fail, can_load, can_run, db_backend, db_contents, db_view, evm_kept,
    evm_reply, exec_result, fresh_db, inspector_config, left_by, named_settings, outcome_of,
    refusal_of, reply_view, result_view, revm_block, revm_tx, settings_or_default, DbView, Refusal,
    RefusalView, ReplyView, TraceConfig,
};
use crate::fork::{
    after_call, can_answer, fork_block, fork_cfg, BlockHeader, BlockTag, CallView,
    ForkId, ForkIdView, ForkView, NewForkedEvm,
};
use crate::forker::{
    answered, empty_forker, id_view, rolled, selected, valid_addresses, with_fork, ForkerView,
};
use crate::laws::{position_is_first, replay_stays_in_its_block};
use crate::primitives::{zero_address, U256};
use crate::replay::{
    earlier_tx, mined_call, position, replay_error, replayed, AwaitingParentFork, MinedTx,
};
use crate::result::{
    raw_result, InstructionResult, Outcome, OutcomeView, Output, OutputView, RawCallResult,
    RawCallResultView,
};
use crate::text::{decimal_text, hex_digit, hex_text};
use crate::typed::{failure_text, step_view, typed_step, DecodeFailure, TypedStep, TypedStepView};
use foundry_fork_db::backend::SharedBackend;
use foundry_fork_db::error::DatabaseError;
use revm::context::result::{EVMError, ExecutionResult, HaltReason, InvalidTransaction};
use revm::database::CacheDB;
use revm_inspectors::tracing::CallTraceArena;
use vstd::prelude::*;

verus! {

/// A result holds what the EVM's outcome holds: all the bytes that a call returned or reverted
/// with, however many, none for a created contract or a halt, and the gas and the reason of the
/// outcome. It reverted unless the outcome is a success, and it carries the traces and the
/// environment given.
pub proof fn result_holds_the_outcome(
    outcome: OutcomeView,
    traces: CallTraceArena,
    env: EnvView,
)
    requires
        outcome.well_formed(),
    ensures
        ({
            let raw = raw_result(outcome, traces, env);
            &&& raw.traces == Some(traces)
            &&& raw.env == env
            &&& match outcome {
                OutcomeView::Success { code, gas_used, output } => {
                    &&& code == 0x01 ==> raw.exit_reason == InstructionResult::Stop
                    &&& code == 0x02 ==> raw.exit_reason == InstructionResult::Return
                    &&& code == 0x03 ==> raw.exit_reason == InstructionResult::SelfDestruct
                    &&& 0x01 <= code <= 0x03
                    &&& !raw.reverted
                    &&& raw.gas_used == gas_used
                    &&& output matches OutputView::Call(data) ==> raw.result == data
                    &&& output matches OutputView::Create(_, _) ==> raw.result == Seq::<u8>::empty()
                },
                OutcomeView::Revert { gas_used, output } => {
                    &&& raw.exit_reason == InstructionResult::Revert
                    &&& raw.reverted
                    &&& raw.gas_used == gas_used
                    &&& raw.result == output
                },
                OutcomeView::Halt { code, gas_used } => {
                    &&& raw.exit_reason.spec_code() == code
                    &&& 0x10 < code <= 0x36
                    &&& raw.reverted
                    &&& raw.gas_used == gas_used
                    &&& raw.result == Seq::<u8>::empty()
                },
            }
        }),
{
}

/// Each reason has its own code, and the three with the smallest codes are the ones that mean
/// success.
pub proof fn reasons_go_by_their_codes(a: InstructionResult, b: InstructionResult)
    ensures
        a.spec_code() == b.spec_code() <==> a == b,
        a.spec_is_ok() <==> a.spec_code() <= 0x03,
        InstructionResult::known_code(a.spec_code()),
        InstructionResult::of_code(a.spec_code()) == a,
        InstructionResult::Stop.spec_code() == 0x01,
        InstructionResult::Return.spec_code() == 0x02,
        InstructionResult::SelfDestruct.spec_code() == 0x03,
        InstructionResult::Revert.spec_code() == 0x10,
        InstructionResult::CallTooDeep.spec_code() == 0x11,
        InstructionResult::OutOfFunds.spec_code() == 0x12,
        InstructionResult::CreateInitCodeStartingEF00.spec_code() == 0x13,
        InstructionResult::InvalidEOFInitCode.spec_code() == 0x14,
        InstructionResult::InvalidExtDelegateCallTarget.spec_code() == 0x15,
        InstructionResult::OutOfGas.spec_code() == 0x20,
        InstructionResult::MemoryOOG.spec_code() == 0x21,
        InstructionResult::MemoryLimitOOG.spec_code() == 0x22,
        InstructionResult::PrecompileOOG.spec_code() == 0x23,
        InstructionResult::InvalidOperandOOG.spec_code() == 0x24,
        InstructionResult::ReentrancySentryOOG.spec_code() == 0x25,
        InstructionResult::OpcodeNotFound.spec_code() == 0x26,
        InstructionResult::CallNotAllowedInsideStatic.spec_code() == 0x27,
        InstructionResult::StateChangeDuringStaticCall.spec_code() == 0x28,
        InstructionResult::InvalidFEOpcode.spec_code() == 0x29,
        InstructionResult::InvalidJump.spec_code() == 0x2a,
        InstructionResult::NotActivated.spec_code() == 0x2b,
        InstructionResult::StackUnderflow.spec_code() == 0x2c,
        InstructionResult::StackOverflow.spec_code() == 0x2d,
        InstructionResult::OutOfOffset.spec_code() == 0x2e,
        InstructionResult::CreateCollision.spec_code() == 0x2f,
        InstructionResult::OverflowPayment.spec_code() == 0x30,
        InstructionResult::PrecompileError.spec_code() == 0x31,
        InstructionResult::NonceOverflow.spec_code() == 0x32,
        InstructionResult::CreateContractSizeLimit.spec_code() == 0x33,
        InstructionResult::CreateContractStartingWithEF.spec_code() == 0x34,
        InstructionResult::CreateInitCodeSizeLimit.spec_code() == 0x35,
        InstructionResult::FatalExternalError.spec_code() == 0x36,
{
    assert(InstructionResult::of_code(a.spec_code()).spec_code() == a.spec_code());
}

/// Running a transaction hands the EVM exactly that transaction, under exactly those settings and
/// in exactly that block, recording call frames and no steps, on a state that has all that it had
/// and else only what the backend supplied. Where changes are kept, whatever the transaction is,
/// the entries afterwards are those that the EVM's changes make; otherwise they are those loaded.
pub proof fn a_run_is_the_evms(
    before: DbView,
    cfg: ChainConfig,
    block: BlockView,
    tx: CallTxView,
    reply: ReplyView,
    loaded: DbView,
    key: Seq<u8>,
)
    requires
        can_run(before, cfg, block, tx, reply, loaded),
    ensures
        arena_nodes(reply.traces) >= 1,
        loaded.backend == before.backend,
        before.contents.dom().contains(key) ==> loaded.contents.dom().contains(key)
            && loaded.contents[key] == before.contents[key],
        loaded.contents.dom().contains(key) && !before.contents.dom().contains(key) ==> can_load(
            before.backend,
            key,
            loaded.contents[key],
        ),
        ({
            let settings = named_settings(cfg, settings_or_default(cfg.base));
            match reply.outcome {
                Err(RefusalView::Failed(text)) => can_fail(
                    before,
                    settings,
                    revm_block(block),
                    revm_tx(tx),
                    text,
                    loaded,
                ),
                _ => reply == evm_reply(
                    loaded.contents,
                    settings,
                    revm_block(block),
                    revm_tx(tx),
                    inspector_config(
                        TraceConfig {
                            record_steps: false,
                            record_memory_snapshots: false,
                            record_state_diff: false,
                            record_returndata_snapshots: false,
                            exclude_precompile_calls: true,
                            record_logs: false,
                            record_immediate_bytes: false,
                        },
                    ),
                ),
            }
        }),
        reply.outcome is Ok ==> left_by(loaded, cfg, block, tx, true, reply).contents == evm_kept(
            loaded.contents,
            named_settings(cfg, settings_or_default(cfg.base)),
            revm_block(block),
            revm_tx(tx),
        ),
        reply.outcome is Err ==> left_by(loaded, cfg, block, tx, true, reply).contents
            == loaded.contents,
        left_by(loaded, cfg, block, tx, false, reply).contents == loaded.contents,
        left_by(loaded, cfg, block, tx, true, reply).backend == before.backend,
        left_by(loaded, cfg, block, tx, false, reply).backend == before.backend,
{
}

/// What the EVM's answer, or its refusal, says is what is taken from it.
pub proof fn answers_are_taken_as_they_are(
    result: ExecutionResult<HaltReason>,
    error: EVMError<DatabaseError, InvalidTransaction>,
    traces: CallTraceArena,
    env: EnvView,
    tx: CallTxView,
    reply: ReplyView,
)
    ensures
        reply_view(Ok(result), traces).outcome == Ok::<_, RefusalView>(outcome_of(result)),
        reply_view(Err(error), traces).outcome == Err::<OutcomeView, _>(refusal_of(error)),
        reply_view(Ok(result), traces).traces == traces,
        reply_view(Err(error), traces).traces == traces,
        reply.outcome matches Err(RefusalView::Invalid(text)) ==> exec_result(env, tx, reply)
            == Err::<RawCallResultView, _>(ForkCallErrorView::ExecutorError(text)),
        reply.outcome matches Err(RefusalView::Failed(text)) ==> exec_result(env, tx, reply)
            == Err::<RawCallResultView, _>(ForkCallErrorView::ExecutorError(text)),
        reply.outcome is Ok ==> (exec_result(env, tx, reply) matches Ok(raw) && raw.env.cfg
            == env.cfg && raw.env.block == env.block && raw.env.tx == tx && raw.traces == Some(
            reply.traces,
        )),
{
}

/// What every call on an active fork comes to. The EVM is given the very transaction that the
/// result carries: the call's sender, target, calldata and value in full, free and all but
/// unlimited gas, and the fork's chain id. Its answer is the result. A committing call that runs to
/// an outcome leaves the entries that the EVM keeps, whatever its target, calldata and value; every
/// other call leaves what was there and what was loaded.
pub proof fn a_call_is_what_the_evm_makes_of_it(
    before: ForkerView,
    call: CallView,
    commit: bool,
    r: Result<RawCallResultView, ForkCallErrorView>,
    after: ForkerView,
    id: ForkIdView,
) -> (run: (ReplyView, DbView))
    requires
        answered(before, call, commit, r, after),
        before.active == Some(id),
        call.from.len() == 20,
        call.to matches CallTargetView::Call(to) ==> to.len() == 20,
    ensures
        ({
            let (reply, loaded) = run;
            let fork = before.forks[id];
            let left = after.forks[id];
            let tx = CallTxView {
                caller: call.from,
                kind: call.to,
                data: call.data,
                value: call.value,
                gas_price: 0,
                gas_limit: 0xffff_ffff_ffff_ffff,
                chain_id: Some(fork.env.cfg.chain_id),
            };
            let settings = named_settings(
                fork.env.cfg,
                settings_or_default(fork.env.cfg.base),
            );
            let block = revm_block(fork.env.block);
            let answer = evm_reply(
                loaded.contents,
                settings,
                block,
                revm_tx(tx),
                inspector_config(
                    TraceConfig {
                        record_steps: false,
                        record_memory_snapshots: false,
                        record_state_diff: false,
                        record_returndata_snapshots: false,
                        exclude_precompile_calls: true,
                        record_logs: false,
                        record_immediate_bytes: false,
                    },
                ),
            );
            &&& loaded.backend == fork.db.backend
            &&& fork.db.contents.submap_of(loaded.contents)
            &&& forall|key: Seq<u8>|
                #![trigger loaded.contents.dom().contains(key)]
                loaded.contents.dom().contains(key) && !fork.db.contents.dom().contains(key)
                    ==> can_load(fork.db.backend, key, loaded.contents[key])
            &&& left.db.backend == fork.db.backend
            &&& left.env == fork.env
            &&& left.url == fork.url
            &&& match reply.outcome {
                Ok(outcome) => {
                    &&& reply == answer
                    &&& r matches Ok(raw)
                    &&& raw.env.cfg == fork.env.cfg
                    &&& raw.env.block == fork.env.block
                    &&& raw.env.tx == tx
                    &&& raw.traces == Some(reply.traces)
                    &&& arena_nodes(reply.traces) >= 1
                    &&& left.db.contents == if commit {
                        evm_kept(loaded.contents, settings, block, revm_tx(tx))
                    } else {
                        loaded.contents
                    }
                    &&& match outcome {
                        OutcomeView::Success { code, gas_used, output } => {
                            &&& raw.exit_reason.spec_code() == code
                            &&& 0x01 <= code <= 0x03
                            &&& !raw.reverted
                            &&& raw.gas_used == gas_used
                            &&& output matches OutputView::Call(data) ==> raw.result == data
                            &&& output matches OutputView::Create(_, _) ==> raw.result == Seq::<
                                u8,
                            >::empty()
                        },
                        OutcomeView::Revert { gas_used, output } => {
                            &&& raw.exit_reason == InstructionResult::Revert
                            &&& raw.reverted
                            &&& raw.gas_used == gas_used
                            &&& raw.result == output
                        },
                        OutcomeView::Halt { code, gas_used } => {
                            &&& raw.exit_reason.spec_code() == code
                            &&& 0x10 < code <= 0x36
                            &&& raw.reverted
                            &&& raw.gas_used == gas_used
                            &&& raw.result == Seq::<u8>::empty()
                        },
                    }
                },
                Err(RefusalView::Invalid(text)) => {
                    &&& reply == answer
                    &&& r == Err::<RawCallResultView, _>(ForkCallErrorView::ExecutorError(text))
                    &&& left.db.contents == loaded.contents
                },
                Err(RefusalView::Failed(text)) => {
                    &&& can_fail(fork.db, settings, block, revm_tx(tx), text, loaded)
                    &&& r == Err::<RawCallResultView, _>(ForkCallErrorView::ExecutorError(text))
                    &&& left.db.contents == loaded.contents
                },
            }
        }),
        after.active == before.active,
        after.forks.dom() == before.forks.dom().insert(id),
        forall|other: ForkIdView| other != id ==> #[trigger] after.forks[other]
            == before.forks[other],
{
    let fork = before.forks[id];
    let (reply, loaded) = choose|reply: ReplyView, loaded: DbView|
        {
            &&& #[trigger] can_answer(fork, call, reply, loaded)
            &&& r == exec_result(
                fork.env,
                call_tx(fork.env.cfg, call.from, call.to, call.data, call.value),
                reply,
            )
            &&& after.forks[id] == after_call(fork, call, commit, reply, loaded)
        };
    if let Ok(outcome) = reply.outcome {
        let tx = call_tx(fork.env.cfg, call.from, call.to, call.data, call.value);
        result_holds_the_outcome(outcome, reply.traces, EnvView { tx, ..fork.env });
    }
    assert(after.forks.dom() =~= before.forks.dom().insert(id));
    (reply, loaded)
}

/// A call with an address of another length than 20 bytes is refused as an invalid address, and any
/// other call where no fork is active as having none. Nothing changes.
pub proof fn a_call_that_cannot_be_sent_is_refused(
    before: ForkerView,
    call: CallView,
    commit: bool,
    r: Result<RawCallResultView, ForkCallErrorView>,
    after: ForkerView,
)
    requires
        answered(before, call, commit, r, after),
    ensures
        call.from.len() != 20 ==> r == Err::<RawCallResultView, _>(
            ForkCallErrorView::ExecutorError("invalid address!"@),
        ) && after == before,
        call.to matches CallTargetView::Call(to) ==> to.len() != 20 ==> r == Err::<
            RawCallResultView,
            _,
        >(ForkCallErrorView::ExecutorError("invalid address!"@)) && after == before,
        call.from.len() == 20 && (call.to matches CallTargetView::Call(to) ==> to.len() == 20)
            && before.active is None ==> r == Err::<RawCallResultView, _>(
            ForkCallErrorView::ExecutorError("no active fork!"@),
        ) && after == before,
{
}

/// Two committing calls in a row: the second runs on the entries that the EVM kept of the first,
/// and on what it loads besides.
pub proof fn the_second_commit_sees_the_first(
    start: ForkerView,
    first: CallView,
    first_raw: RawCallResultView,
    middle: ForkerView,
    second: CallView,
    commit: bool,
    second_r: Result<RawCallResultView, ForkCallErrorView>,
    end: ForkerView,
    id: ForkIdView,
) -> (loads: (DbView, DbView))
    requires
        answered(start, first, true, Ok(first_raw), middle),
        answered(middle, second, commit, second_r, end),
        valid_addresses(first),
        valid_addresses(second),
        start.active == Some(id),
    ensures
        ({
            let fork = start.forks[id];
            let kept = evm_kept(
                loads.0.contents,
                named_settings(fork.env.cfg, settings_or_default(fork.env.cfg.base)),
                revm_block(fork.env.block),
                revm_tx(first_raw.env.tx),
            );
            &&& fork.db.contents.submap_of(loads.0.contents)
            &&& middle.forks[id].db.contents == kept
            &&& kept.submap_of(loads.1.contents)
            &&& second_r matches Ok(raw) ==> raw.traces == Some(
                evm_reply(
                    loads.1.contents,
                    named_settings(fork.env.cfg, settings_or_default(fork.env.cfg.base)),
                    revm_block(fork.env.block),
                    revm_tx(raw.env.tx),
                    inspector_config(
                        TraceConfig {
                            record_steps: false,
                            record_memory_snapshots: false,
                            record_state_diff: false,
                            record_returndata_snapshots: false,
                            exclude_precompile_calls: true,
                            record_logs: false,
                            record_immediate_bytes: false,
                        },
                    ),
                ).traces,
            )
        }),
{
    let one = a_call_is_what_the_evm_makes_of_it(start, first, true, Ok(first_raw), middle, id);
    let two = a_call_is_what_the_evm_makes_of_it(middle, second, commit, second_r, end, id);
    (one.1, two.1)
}

/// The block environment of a fork is the header's, field by field; the base fee is zero where the
/// header has none.
pub proof fn a_forks_block_is_the_headers(header: BlockHeader)
    ensures
        ({
            let block = fork_block(header);
            &&& block.number == header.number
            &&& block.beneficiary == header.beneficiary@
            &&& block.timestamp == header.timestamp
            &&& block.gas_limit == header.gas_limit
            &&& header.base_fee_per_gas matches Some(fee) ==> block.basefee == fee
            &&& header.base_fee_per_gas is None ==> block.basefee == 0
            &&& block.difficulty == header.difficulty@
            &&& header.mix_hash matches Some(hash) ==> block.prevrandao == Some(hash@)
            &&& header.mix_hash is None ==> block.prevrandao is None
            &&& block.blob_excess_gas_and_price == Some(
                BlobExcessGasAndPrice { excess_blob_gas: 0, blob_gasprice: 1 },
            )
        }),
{
}

/// The environment of a new fork: the given one in every field, where one is given; else the
/// chain's id with every check off that would turn a call away and no cap on gas, the forked block,
/// and a transaction that nothing has been filled into.
pub proof fn a_forks_environment(given: EnvView, chain_id: u64, header: BlockHeader)
    ensures
        fork_env(Some(given), chain_id, header) == given,
        ({
            let env = fork_env(None, chain_id, header);
            &&& env.cfg.chain_id == chain_id
            &&& env.cfg.tx_gas_limit_cap == Some(0xffff_ffff_ffff_ffffu64)
            &&& env.cfg.disable_base_fee
            &&& env.cfg.disable_block_gas_limit
            &&& env.cfg.disable_eip3607
            &&& env.cfg.disable_nonce_check
            &&& env.cfg.base is None
            &&& env.block.number == header.number
            &&& env.block.beneficiary == header.beneficiary@
            &&& env.block.timestamp == header.timestamp
            &&& env.block.gas_limit == header.gas_limit
            &&& header.base_fee_per_gas matches Some(fee) ==> env.block.basefee == fee
            &&& header.base_fee_per_gas is None ==> env.block.basefee == 0
            &&& env.block.difficulty == header.difficulty@
            &&& header.mix_hash matches Some(hash) ==> env.block.prevrandao == Some(hash@)
            &&& header.mix_hash is None ==> env.block.prevrandao is None
            &&& env.block.blob_excess_gas_and_price == Some(
                BlobExcessGasAndPrice { excess_blob_gas: 0, blob_gasprice: 1 },
            )
            &&& env.tx.caller == Seq::new(20, |i: int| 0u8)
            &&& env.tx.kind == CallTargetView::Call(Seq::new(20, |i: int| 0u8))
            &&& env.tx.data == Seq::<u8>::empty()
            &&& env.tx.value == 0
            &&& env.tx.gas_price == 0
            &&& env.tx.gas_limit == 16_777_216
            &&& env.tx.chain_id == Some(1u64)
        }),
{
    assert(zero_address() =~= Seq::new(20, |i: int| 0u8));
}

/// The settings of a fork: the chain's id, no cap on gas, and every check off that would turn away
/// a call with gas price zero from any sender.
pub proof fn a_forks_settings(chain_id: u64)
    ensures
        fork_cfg(chain_id) == (ChainConfig {
            chain_id,
            tx_gas_limit_cap: Some(0xffff_ffff_ffff_ffff),
            disable_base_fee: true,
            disable_block_gas_limit: true,
            disable_eip3607: true,
            disable_nonce_check: true,
            base: None,
        }),
{
}

/// The environment that none has filled in.
pub proof fn the_default_environment()
    ensures
        default_cfg().chain_id == 1,
        default_cfg().tx_gas_limit_cap is None,
        !default_cfg().disable_base_fee,
        !default_cfg().disable_block_gas_limit,
        !default_cfg().disable_eip3607,
        !default_cfg().disable_nonce_check,
        default_cfg().base is None,
        default_block().number == 0,
        default_block().beneficiary == Seq::new(20, |i: int| 0u8),
        default_block().timestamp == 1,
        default_block().gas_limit == 0xffff_ffff_ffff_ffff,
        default_block().basefee == 0,
        default_block().difficulty == 0,
        default_block().prevrandao == Some(Seq::new(32, |i: int| 0u8)),
        default_block().blob_excess_gas_and_price == Some(
            BlobExcessGasAndPrice { excess_blob_gas: 0, blob_gasprice: 1 },
        ),
        idle_tx() == fork_env(None, 1, arbitrary()).tx,
{
    assert(zero_address() =~= Seq::new(20, |i: int| 0u8));
    assert(Seq::new(32, |i: int| 0u8) =~= default_block().prevrandao->Some_0);
}

/// What is asked of the network, and what the fork that comes of it holds: the block of the height
/// asked for, or else the newest; and, on the backend that was made, no entries, the environment
/// awaited and the URL as it was given.
pub proof fn a_new_fork_is_empty(
    pending: AwaitingBackend,
    backend: SharedBackend,
    number: u64,
    text: Seq<char>,
)
    ensures
        block_tag(Some(number)) == BlockTag::Number(number),
        block_tag(None) == BlockTag::Latest,
        pending.spec_finish(backend).db.contents == Map::<Seq<u8>, Seq<u8>>::empty(),
        pending.spec_finish(backend).db.backend == backend,
        pending.spec_finish(backend).env == pending.env@,
        pending.spec_finish(backend).url == pending.args.fork_url@,
        invalid_url(text) == ForkCallErrorView::ExecutorError("invalid fork url: "@ + text),
{
}

/// A fork goes by the URL and the block it was asked for at, and by nothing else.
pub proof fn a_fork_goes_by_url_and_block(
    args: NewForkedEvm,
    other: NewForkedEvm,
    replay: AwaitingParentFork,
)
    ensures
        args.spec_id().url == args.fork_url@,
        args.spec_id().block == args.fork_block_number,
        args.spec_id() == other.spec_id() <==> args.fork_url@ == other.fork_url@
            && args.fork_block_number == other.fork_block_number,
        replay.spec_parent().url == replay.fork_url@,
        replay.spec_parent().block == Some(replay.prev_block),
{
}

/// Putting a fork in and selecting one: what is under each identifier afterwards, and which one is
/// active.
pub proof fn what_adding_and_selecting_do(
    forker: ForkerView,
    id: ForkIdView,
    fork: ForkView,
    other: ForkIdView,
)
    ensures
        with_fork(forker, id, fork).active == Some(id),
        with_fork(forker, id, fork).forks.dom().contains(id),
        with_fork(forker, id, fork).forks[id] == fork,
        other != id ==> with_fork(forker, id, fork).forks.dom().contains(other)
            == forker.forks.dom().contains(other),
        other != id ==> with_fork(forker, id, fork).forks[other] == forker.forks[other],
        selected(forker, id).active == Some(id),
        selected(forker, id).forks == forker.forks,
        empty_forker().active is None,
        !empty_forker().forks.dom().contains(id),
        with_fork(empty_forker(), id, fork).forks.dom() == set![id],
{
    assert(with_fork(empty_forker(), id, fork).forks.dom() =~= set![id]);
}

/// Rolling moves the number of the active fork's block to the one asked for, and leaves every other
/// field of the block, the settings, the transaction, the state, the URL, the other forks and the
/// selection.
pub proof fn what_rolling_does(forker: ForkerView, number: u64, id: ForkIdView, other: ForkIdView)
    requires
        forker.active == Some(id),
        forker.forks.dom().contains(id),
    ensures
        rolled(forker, None) == forker,
        ({
            let before = forker.forks[id];
            let after = rolled(forker, Some(number)).forks[id];
            &&& after.env.block.number == number
            &&& after.env.block.beneficiary == before.env.block.beneficiary
            &&& after.env.block.timestamp == before.env.block.timestamp
            &&& after.env.block.gas_limit == before.env.block.gas_limit
            &&& after.env.block.basefee == before.env.block.basefee
            &&& after.env.block.difficulty == before.env.block.difficulty
            &&& after.env.block.prevrandao == before.env.block.prevrandao
            &&& after.env.block.blob_excess_gas_and_price
                == before.env.block.blob_excess_gas_and_price
            &&& after.env.cfg == before.env.cfg
            &&& after.env.tx == before.env.tx
            &&& after.db == before.db
            &&& after.url == before.url
        }),
        rolled(forker, Some(number)).active == Some(id),
        other != id ==> rolled(forker, Some(number)).forks[other] == forker.forks[other],
        rolled(forker, Some(number)).forks.dom() == forker.forks.dom(),
{
    assert(rolled(forker, Some(number)).forks.dom() =~= forker.forks.dom());
}

/// In every state of a replay, and in its target's result, the block is the replayed one: its
/// height and, field by field, its header's, with a base fee of zero only where the header has
/// none. The settings, the blob gas and the URL stay the fork's.
pub proof fn a_replay_runs_in_the_replayed_block(
    before: ForkerView,
    replay: AwaitingParentFork,
    states: Seq<ForkerView>,
    r: Result<RawCallResultView, ForkCallErrorView>,
    i: int,
    id: ForkIdView,
)
    requires
        replayed(before, replay, states, r),
        before.active == Some(id),
        0 <= i < states.len(),
    ensures
        ({
            let header = replay.block.header;
            let fork = states[i].forks[id];
            let block = fork.env.block;
            &&& block.number == replay.block_number
            &&& block.timestamp == header.timestamp
            &&& block.beneficiary == header.beneficiary@
            &&& block.difficulty == header.difficulty@
            &&& block.gas_limit == header.gas_limit
            &&& header.mix_hash matches Some(hash) ==> block.prevrandao == Some(hash@)
            &&& header.mix_hash is None ==> block.prevrandao is None
            &&& header.base_fee_per_gas matches Some(fee) ==> block.basefee == fee
            &&& header.base_fee_per_gas is None ==> block.basefee == 0
            &&& block.blob_excess_gas_and_price
                == before.forks[id].env.block.blob_excess_gas_and_price
            &&& fork.env.cfg == before.forks[id].env.cfg
            &&& fork.url == before.forks[id].url
            &&& fork.db.backend == before.forks[id].db.backend
            &&& r matches Ok(raw) ==> {
                &&& raw.env.block == block
                &&& raw.env.cfg == before.forks[id].env.cfg
            }
        }),
        states[0].forks[id].db.contents == Map::<Seq<u8>, Seq<u8>>::empty(),
        id.url == replay.fork_url@,
        id.block == Some(replay.prev_block),
{
    replay_stays_in_its_block(before, replay, states, r, i, id);
}

/// A replay is made of calls: of each transaction ahead of the first one with the target's hash, in
/// order, committed, and then of that one, not committed; each with its own sender, target,
/// calldata and value, on what the one before it left. Where the block has no such transaction, all
/// of it is replayed and the transaction is not found.
pub proof fn a_replay_is_made_of_calls(
    before: ForkerView,
    replay: AwaitingParentFork,
    states: Seq<ForkerView>,
    r: Result<RawCallResultView, ForkCallErrorView>,
) -> (n: int)
    requires
        replayed(before, replay, states, r),
    ensures
        ({
            let txs = replay.block.transactions@;
            &&& 0 <= n <= txs.len()
            &&& states.len() == n + 1
            &&& forall|i: int| 0 <= i < n ==> (#[trigger] txs[i]).hash@ != replay.tx_hash@
            &&& forall|i: int|
                #![trigger txs[i]]
                0 <= i < n ==> exists|done: Result<RawCallResultView, ForkCallErrorView>|
                    #[trigger] answered(
                        states[i],
                        (CallView {
                            from: txs[i].from@,
                            to: txs[i].kind@,
                            data: txs[i].input@,
                            value: txs[i].value@,
                        }),
                        true,
                        done,
                        states[i + 1],
                    )
            &&& n < txs.len() ==> {
                &&& txs[n].hash@ == replay.tx_hash@
                &&& exists|after: ForkerView| #[trigger]
                    answered(
                        states[n],
                        (CallView {
                            from: txs[n].from@,
                            to: txs[n].kind@,
                            data: txs[n].input@,
                            value: txs[n].value@,
                        }),
                        false,
                        r,
                        after,
                    )
            }
            &&& n == txs.len() ==> r == Err::<RawCallResultView, _>(
                ForkCallErrorView::ReplayTransactionError(
                    ReplayTransactionErrorView::TransactionNotFound(
                        hex_text(replay.tx_hash@),
                        replay.fork_url@,
                    ),
                ),
            )
        }),
{
    let txs = replay.block.transactions@;
    let n = position(txs, replay.tx_hash@);
    position_is_first(txs, replay.tx_hash@);
    assert forall|i: int| #![trigger txs[i]] 0 <= i < n implies exists|
        done: Result<RawCallResultView, ForkCallErrorView>,
    |
        #[trigger] answered(
            states[i],
            (CallView {
                from: txs[i].from@,
                to: txs[i].kind@,
                data: txs[i].input@,
                value: txs[i].value@,
            }),
            true,
            done,
            states[i + 1],
        ) by {
        assert(earlier_tx(states[i], txs[i]@, states[i + 1]));
        let done = choose|done: Result<RawCallResultView, ForkCallErrorView>| #[trigger]
            answered(states[i], mined_call(txs[i]@), true, done, states[i + 1]);
        assert(mined_call(txs[i]@) == CallView {
            from: txs[i].from@,
            to: txs[i].kind@,
            data: txs[i].input@,
            value: txs[i].value@,
        });
    }
    if n < txs.len() {
        assert(mined_call(txs[n]@) == CallView {
            from: txs[n].from@,
            to: txs[n].kind@,
            data: txs[n].input@,
            value: txs[n].value@,
        });
    }
    n
}

/// What is to be decoded of a typed call: all of its raw result, as return data where it stopped,
/// returned or self-destructed, as an error where it plainly reverted and that is wanted;
/// everything else that ran is a failure that carries the raw result, and what did not run is the
/// error it was.
pub proof fn what_a_typed_call_decodes(
    raw: RawCallResultView,
    error: ForkCallErrorView,
    decode_error: bool,
)
    ensures
        raw.exit_reason is Stop || raw.exit_reason is Return || raw.exit_reason is SelfDestruct
            ==> typed_step(Ok(raw), decode_error) == Ok::<_, ForkCallErrorView>(
            TypedStepView::DecodeReturn(raw),
        ),
        raw.exit_reason is Revert && decode_error ==> typed_step(Ok(raw), decode_error) == Ok::<
            _,
            ForkCallErrorView,
        >(TypedStepView::DecodeError(raw)),
        raw.exit_reason is Revert && !decode_error ==> typed_step(Ok(raw), decode_error) == Err::<
            TypedStepView,
            _,
        >(ForkCallErrorView::Failed(raw)),
        !(raw.exit_reason is Stop || raw.exit_reason is Return || raw.exit_reason is SelfDestruct
            || raw.exit_reason is Revert) ==> typed_step(Ok(raw), decode_error) == Err::<
            TypedStepView,
            _,
        >(ForkCallErrorView::Failed(raw)),
        typed_step(Err(error), decode_error) == Err::<TypedStepView, _>(error),
{
}

/// The text of return data that could not be decoded names the call, the decoder's error and the
/// raw result, each in full.
pub proof fn a_decode_failure_names_its_parts(failure: DecodeFailure)
    ensures
        failure_text(failure) =~= "Call:"@ + failure.call@ + " Error:"@ + failure.error@ + " Raw:"@
            + failure.raw@,
{
}

/// The number that a digit of a hash's or number's text stands for.
pub open spec fn digit_value(digit: char) -> int {
    if '0' <= digit <= '9' {
        digit as int - '0' as int
    } else if 'a' <= digit <= 'f' {
        digit as int - 'a' as int + 10
    } else {
        -1
    }
}

/// The digits stand for the numbers below sixteen.
pub proof fn digits_stand_for_numbers(n: int)
    requires
        0 <= n < 16,
    ensures
        digit_value(hex_digit(n)) == n,
{
    reveal_strlit("0123456789abcdef");
}

/// The text of a hash is `0x` and two digits for each byte, from which the byte can be read back.
pub proof fn a_hash_can_be_read_back(bytes: Seq<u8>, i: int)
    requires
        0 <= i < bytes.len(),
    ensures
        hex_text(bytes).len() == 2 + 2 * bytes.len(),
        hex_text(bytes)[0] == '0',
        hex_text(bytes)[1] == 'x',
        0 <= digit_value(hex_text(bytes)[2 + 2 * i]) < 16,
        0 <= digit_value(hex_text(bytes)[3 + 2 * i]) < 16,
        16 * digit_value(hex_text(bytes)[2 + 2 * i]) + digit_value(hex_text(bytes)[3 + 2 * i])
            == bytes[i],
{
    reveal_strlit("0x");
    digits_stand_for_numbers(bytes[i] as int / 16);
    digits_stand_for_numbers(bytes[i] as int % 16);
    assert((2 * i) / 2 == i && (2 * i) % 2 == 0);
    assert((2 * i + 1) / 2 == i && (2 * i + 1) % 2 == 1);
}

/// The number that a text of decimal digits stands for.
pub open spec fn decimal_value(text: Seq<char>) -> int
    decreases text.len(),
{
    if text.len() == 0 {
        0
    } else {
        10 * decimal_value(text.drop_last()) + digit_value(text.last())
    }
}

/// The text of a number is made of decimal digits, has no leading zero but for zero itself, and can
/// be read back.
pub proof fn a_number_can_be_read_back(n: nat)
    ensures
        decimal_value(decimal_text(n)) == n,
        decimal_text(n).len() >= 1,
        forall|i: int|
            0 <= i < decimal_text(n).len() ==> 0 <= digit_value(#[trigger] decimal_text(n)[i])
                <= 9,
        n > 0 ==> decimal_text(n)[0] != '0',
    decreases n,
{
    digits_stand_for_numbers(n as int % 10);
    if n < 10 {
        assert(decimal_text(n).drop_last() =~= Seq::empty());
        assert(decimal_value(Seq::empty()) == 0);
        digits_stand_for_numbers(n as int);
        assert(digit_value('0') == 0);
    } else {
        a_number_can_be_read_back(n / 10);
        assert(decimal_text(n).drop_last() =~= decimal_text(n / 10));
        assert(decimal_text(n)[0] == decimal_text(n / 10)[0]);
    }
}

/// What is said of a block, a transaction, an environment or an identifier is said of each of its
/// fields as it is.
pub proof fn values_are_seen_whole(
    block: BlockContext,
    tx: CallTx,
    env: Env,
    given: Option<Env>,
    id: ForkId,
    word: U256,
    mined: MinedTx,
)
    ensures
        block@.number == block.number@,
        block@.beneficiary == block.beneficiary@,
        block@.timestamp == block.timestamp@,
        block@.gas_limit == block.gas_limit,
        block@.basefee == block.basefee,
        block@.difficulty == block.difficulty@,
        block.prevrandao matches Some(hash) ==> block@.prevrandao == Some(hash@),
        block.prevrandao is None ==> block@.prevrandao is None,
        block@.blob_excess_gas_and_price == block.blob_excess_gas_and_price,
        tx@.caller == tx.caller@,
        tx.kind matches CallTarget::Call(to) ==> tx@.kind == CallTargetView::Call(to@),
        tx.kind is Create ==> tx@.kind is Create,
        tx@.data == tx.data@,
        tx@.value == tx.value@,
        tx@.gas_price == tx.gas_price,
        tx@.gas_limit == tx.gas_limit,
        tx@.chain_id == tx.chain_id,
        env@.cfg == env.cfg,
        env@.block == env.block@,
        env@.tx == env.tx@,
        given matches Some(e) ==> env_view(given) == Some(e@),
        given is None ==> env_view(given) is None,
        id@.url == id.url@,
        id@.block == id.block,
        id_view(Some(id)) == Some(id@),
        id_view(None) is None,
        word@ == word.limbs[0] + 0x1_0000_0000_0000_0000 * word.limbs[1]
            + 0x1_0000_0000_0000_0000_0000_0000_0000_0000 * word.limbs[2]
            + 0x1_0000_0000_0000_0000_0000_0000_0000_0000_0000_0000_0000_0000 * word.limbs[3],
        mined@.hash == mined.hash@,
        mined@.from == mined.from@,
        mined.kind matches CallTarget::Call(to) ==> mined@.kind == CallTargetView::Call(to@),
        mined.kind is Create ==> mined@.kind is Create,
        mined@.input == mined.input@,
        mined@.value == mined.value@,
{
}

/// What is said of a result or an error is said of each of its parts as it is.
pub proof fn results_are_seen_whole(
    raw: RawCallResult,
    error: ForkCallError,
    replay: ReplayTransactionError,
    step: TypedStep,
    outcome: Outcome,
    refusal: Refusal,
    cause: ReplayTransactionErrorView,
)
    ensures
        replay_error(cause) == ForkCallErrorView::ReplayTransactionError(cause),
        raw@.exit_reason == raw.exit_reason,
        raw@.reverted == raw.reverted,
        raw@.result == raw.result@,
        raw@.gas_used == raw.gas_used,
        raw@.traces == raw.traces,
        raw@.env == raw.env@,
        error matches ForkCallError::ExecutorError(text) ==> error@
            == ForkCallErrorView::ExecutorError(text@),
        error matches ForkCallError::Failed(raw) ==> error@ == ForkCallErrorView::Failed(raw@),
        error matches ForkCallError::TypedError(text) ==> error@ == ForkCallErrorView::TypedError(
            text@,
        ),
        error matches ForkCallError::ReplayTransactionError(inner) ==> error@
            == ForkCallErrorView::ReplayTransactionError(inner@),
        replay matches ReplayTransactionError::TransactionNotFound(what, url) ==> replay@
            == ReplayTransactionErrorView::TransactionNotFound(what@, url@),
        replay matches ReplayTransactionError::DatabaseError(what, url, cause) ==> replay@
            == ReplayTransactionErrorView::DatabaseError(what@, url@, cause),
        replay matches ReplayTransactionError::NoBlockNumberFound(what, url) ==> replay@
            == ReplayTransactionErrorView::NoBlockNumberFound(what@, url@),
        replay matches ReplayTransactionError::GenesisBlockReplay(what, url) ==> replay@
            == ReplayTransactionErrorView::GenesisBlockReplay(what@, url@),
        result_view(Ok(raw)) == Ok::<_, ForkCallErrorView>(raw@),
        result_view(Err(error)) == Err::<RawCallResultView, _>(error@),
        step matches TypedStep::DecodeError(raw) ==> step@ == TypedStepView::DecodeError(raw@),
        step matches TypedStep::DecodeReturn(raw) ==> step@ == TypedStepView::DecodeReturn(raw@),
        step_view(Ok(step)) == Ok::<_, ForkCallErrorView>(step@),
        step_view(Err(error)) == Err::<TypedStepView, _>(error@),
        outcome matches Outcome::Success { code, gas_used, output: Output::Call(data) } ==> outcome@
            == (OutcomeView::Success { code, gas_used, output: OutputView::Call(data@) }),
        outcome matches Outcome::Success { code, gas_used, output: Output::Create(data, address) }
            ==> outcome@ == (OutcomeView::Success {
            code,
            gas_used,
            output: OutputView::Create(data@, address),
        }),
        outcome matches Outcome::Revert { gas_used, output } ==> outcome@ == (OutcomeView::Revert {
            gas_used,
            output: output@,
        }),
        outcome matches Outcome::Halt { code, gas_used } ==> outcome@ == (OutcomeView::Halt {
            code,
            gas_used,
        }),
        refusal matches Refusal::Invalid(text) ==> refusal@ == RefusalView::Invalid(text@)
            && refusal@.text() == text@,
        refusal matches Refusal::Failed(text) ==> refusal@ == RefusalView::Failed(text@)
            && refusal@.text() == text@,
{
}

/// What is said of a database is said of its own entries and its own backend; one that no call has
/// used has none.
pub proof fn databases_are_seen_whole(db: CacheDB<SharedBackend>, backend: SharedBackend)
    ensures
        db_view(db).contents == db_contents(db),
        db_view(db).backend == db_backend(db),
        fresh_db(backend).contents == Map::<Seq<u8>, Seq<u8>>::empty(),
        fresh_db(backend).backend == backend,
{
}

} // verus!
