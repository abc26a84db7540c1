//! Calls on forks of a network whose state is laid out beforehand: what is not there cannot be
//! fetched, and asking for it is an error.

use alloy::eips::BlockId;
use alloy::network::AnyNetwork;
use alloy::primitives::{Address, Bytes, U256 as Word};
use alloy::providers::mock::Asserter;
use alloy::providers::ProviderBuilder;
use foundry_fork_db::backend::SharedBackend;
use foundry_fork_db::cache::{BlockchainDb, BlockchainDbMeta};
use rain_forker::create::{AwaitingBackend, AwaitingChainId};
use rain_forker::env::{BlobExcessGasAndPrice, CallTarget, CallTx};
use rain_forker::fork::{BlockHeader, BlockTag};
use rain_forker::primitives::U256;
use rain_forker::result::InstructionResult;
use rain_forker::typed::{DecodeFailure, TypedStep};
use rain_forker::{Env, ForkCallError, ForkId, ForkTypedReturn, Forker, NewForkedEvm};
use revm::context::BlockEnv;
use revm::state::{AccountInfo, Bytecode};

const ZERO: [u8; 20] = [0u8; 20];

const URL: &str = "http://localhost:8545";

/// Address of the EVM identity precompile (0x..04), which returns its input.
fn identity_precompile() -> [u8; 20] {
    let mut addr = [0u8; 20];
    addr[19] = 0x04;
    addr
}

fn account(last: u8) -> [u8; 20] {
    let mut addr = [0u8; 20];
    addr[19] = last;
    addr
}

/// Adds 1 to slot 0 and returns the new value.
const COUNTER: [u8; 18] = [
    0x60, 0x00, 0x54, 0x60, 0x01, 0x01, 0x80, 0x60, 0x00, 0x55, 0x60, 0x00, 0x52, 0x60, 0x20, 0x60,
    0x00, 0xf3,
];

const COUNTER_ADDR: u8 = 0xaa;

/// Reverts with the word 42.
const REVERTER: [u8; 10] = [0x60, 0x2a, 0x60, 0x00, 0x52, 0x60, 0x20, 0x60, 0x00, 0xfd];

const REVERTER_ADDR: u8 = 0xab;

/// Runs into an undefined opcode.
const HALTER: [u8; 1] = [0xfe];

const HALTER_ADDR: u8 = 0xac;

/// Returns the word that one opcode pushes.
fn teller(opcode: u8) -> Vec<u8> {
    vec![opcode, 0x60, 0x00, 0x52, 0x60, 0x20, 0x60, 0x00, 0xf3]
}

/// Calls another account and stops.
fn caller(callee: u8) -> Vec<u8> {
    vec![
        0x60, 0x00, 0x60, 0x00, 0x60, 0x00, 0x60, 0x00, 0x60, 0x00, 0x60, callee, 0x5a, 0xf1, 0x00,
    ]
}

/// Calls the identity precompile.
const PRECOMPILE_CALLER_ADDR: u8 = 0xad;

/// Calls the counter.
const COUNTER_CALLER_ADDR: u8 = 0xae;

/// Opcodes of the environment, each told by the account of the same number.
const TOLD: [u8; 11] = [0x33, 0x34, 0x3a, 0x41, 0x42, 0x43, 0x44, 0x45, 0x46, 0x48, 0x4a];

/// An account that holds a thousand.
const RICH_ADDR: u8 = 0x77;

/// An account that the network does not have.
const UNKNOWN_ADDR: u8 = 0xee;

fn backend() -> SharedBackend {
    let meta = BlockchainDbMeta::new(BlockEnv::default(), URL.to_owned());
    let db = BlockchainDb::new(meta, None);
    let put = |last: u8, info: AccountInfo| {
        db.accounts().write().insert(Address::from(account(last)), info);
    };
    let code = |bytes: Vec<u8>| AccountInfo::from_bytecode(Bytecode::new_raw(Bytes::from(bytes)));
    put(0x00, AccountInfo::default());
    put(0x04, AccountInfo::default());
    put(0x0b, AccountInfo::default());
    put(RICH_ADDR, AccountInfo::from_balance(Word::from(1000)));
    put(COUNTER_ADDR, code(COUNTER.to_vec()));
    put(REVERTER_ADDR, code(REVERTER.to_vec()));
    put(HALTER_ADDR, code(HALTER.to_vec()));
    put(PRECOMPILE_CALLER_ADDR, code(caller(0x04)));
    put(COUNTER_CALLER_ADDR, code(caller(COUNTER_ADDR)));
    for opcode in TOLD {
        put(opcode, code(teller(opcode)));
    }
    db.storage()
        .write()
        .entry(Address::from(account(COUNTER_ADDR)))
        .or_default()
        .insert(Word::ZERO, Word::ZERO);
    let provider =
        ProviderBuilder::new().network::<AnyNetwork>().connect_mocked_client(Asserter::new());
    SharedBackend::spawn_backend_thread(provider, db, Some(BlockId::from(100u64)))
}

fn header(number: u64) -> BlockHeader {
    BlockHeader {
        number,
        beneficiary: account(0x0b),
        timestamp: 1_700_000_000,
        gas_limit: 30_000_000,
        base_fee_per_gas: Some(7),
        difficulty: U256::from_u64(5),
        mix_hash: Some([9u8; 32]),
    }
}

fn args(number: Option<u64>) -> NewForkedEvm {
    NewForkedEvm { fork_url: URL.to_owned(), fork_block_number: number }
}

fn pending(number: Option<u64>, env: Option<Env>) -> AwaitingBackend {
    AwaitingChainId::start(args(number), env)
        .unwrap()
        .chain_id(Ok(31337))
        .unwrap()
        .block(Ok(Some(header(number.unwrap_or(100)))))
        .unwrap()
}

fn forked() -> Forker {
    Forker::new_with_fork(pending(None, None), backend())
}

fn word(bytes: &[u8]) -> Word {
    Word::from_be_slice(bytes)
}

fn told(forker: &Forker, opcode: u8) -> Word {
    word(&forker.call(&ZERO, &account(opcode), &[]).unwrap().result)
}

fn is_executor_error<T>(result: Result<T, ForkCallError>, text: &str) -> bool {
    matches!(result, Err(ForkCallError::ExecutorError(ref msg)) if msg == text)
}

#[test]
fn test_call_invalid_from_address() {
    let forker = Forker::new().unwrap();
    let result = forker.call(&[0u8; 19], &ZERO, &[]);
    assert!(
        matches!(result, Err(ForkCallError::ExecutorError(ref msg)) if msg == "invalid address!")
    );
}

#[test]
fn test_call_invalid_to_address() {
    let forker = Forker::new().unwrap();
    let result = forker.call(&ZERO, &[0u8; 21], &[]);
    assert!(
        matches!(result, Err(ForkCallError::ExecutorError(ref msg)) if msg == "invalid address!")
    );
}

#[test]
fn test_call_empty_addresses() {
    let forker = Forker::new().unwrap();
    let result = forker.call(&[], &[], &[]);
    assert!(
        matches!(result, Err(ForkCallError::ExecutorError(ref msg)) if msg == "invalid address!")
    );
}

#[test]
fn test_call_no_active_fork() {
    let forker = Forker::new().unwrap();
    let result = forker.call(&ZERO, &identity_precompile(), &[]);
    assert!(
        matches!(result, Err(ForkCallError::ExecutorError(ref msg)) if msg == "no active fork!")
    );
}

#[test]
fn test_call_committing_invalid_address() {
    let mut forker = Forker::new().unwrap();
    let result = forker.call_committing(&[0u8; 19], &ZERO, &[], U256::zero());
    assert!(
        matches!(result, Err(ForkCallError::ExecutorError(ref msg)) if msg == "invalid address!")
    );
}

#[test]
fn test_roll_fork_no_active_fork() {
    let mut forker = Forker::new().unwrap();
    let result = forker.roll_fork(Some(100), None);
    assert!(
        matches!(result, Err(ForkCallError::ExecutorError(ref msg)) if msg == "no active fork!")
    );
}

#[test]
fn test_fork_identity_precompile() {
    let forker = forked();

    // The identity precompile echoes its input back as the return data.
    let input = [1u8, 2, 3, 4, 5, 6, 7, 8];
    let res = forker.call(&ZERO, &identity_precompile(), &input).unwrap();

    assert!(res.exit_reason.is_ok());
    assert!(!res.reverted);
    assert_eq!(res.result.as_slice(), &input);
    // Tracing captured the top-level call frame.
    let traces = res.traces.expect("traces present");
    assert!(!traces.nodes().is_empty());
}

#[test]
fn test_commit_persists_and_reads_are_isolated() {
    let mut forker = forked();
    let counter = account(COUNTER_ADDR);

    // Two committing calls increment persistent storage: 0 -> 1 -> 2.
    let r1 = forker.call_committing(&ZERO, &counter, &[], U256::zero()).unwrap();
    assert_eq!(word(&r1.result), Word::from(1));
    let r2 = forker.call_committing(&ZERO, &counter, &[], U256::zero()).unwrap();
    assert_eq!(word(&r2.result), Word::from(2));

    // Read-only calls compute 2 + 1 = 3 but do NOT persist, so repeating gives 3.
    let read_a = forker.call(&ZERO, &counter, &[]).unwrap();
    assert_eq!(word(&read_a.result), Word::from(3));
    let read_b = forker.call(&ZERO, &counter, &[]).unwrap();
    assert_eq!(word(&read_b.result), Word::from(3));

    // The committed state is still 2, so the next commit yields 3.
    let r3 = forker.call_committing(&ZERO, &counter, &[], U256::zero()).unwrap();
    assert_eq!(word(&r3.result), Word::from(3));

    // The trace arena recorded the call to the counter contract.
    let traces = r3.traces.expect("traces present");
    let node = &traces.nodes()[0];
    assert_eq!(node.trace.address.into_array(), counter);
}

#[test]
fn committing_without_a_fork_is_refused() {
    let mut forker = Forker::default();
    assert!(is_executor_error(
        forker.call_committing(&ZERO, &ZERO, &[], U256::zero()),
        "no active fork!"
    ));
    assert!(is_executor_error(
        forker.call_committing(&ZERO, &[0u8; 21], &[], U256::zero()),
        "invalid address!"
    ));
}

#[test]
fn a_refused_call_changes_nothing() {
    let mut forker = forked();
    let counter = account(COUNTER_ADDR);
    forker.call_committing(&ZERO, &counter, &[], U256::zero()).unwrap();
    assert!(is_executor_error(
        forker.call_committing(&ZERO, &counter[1..], &[], U256::zero()),
        "invalid address!"
    ));
    assert_eq!(word(&forker.call(&ZERO, &counter, &[]).unwrap().result), Word::from(2));
}

#[test]
fn a_call_that_cannot_run_keeps_what_was_committed() {
    let mut forker = forked();
    let counter = account(COUNTER_ADDR);
    forker.call_committing(&ZERO, &counter, &[], U256::zero()).unwrap();

    // The sender cannot be fetched.
    let failed = forker.call_committing(&account(UNKNOWN_ADDR), &counter, &[], U256::zero());
    assert!(matches!(failed, Err(ForkCallError::ExecutorError(_))));
    // The sender cannot pay.
    let failed = forker.call_committing(&account(RICH_ADDR), &counter, &[], U256::from_u64(1001));
    assert!(matches!(failed, Err(ForkCallError::ExecutorError(_))));

    let next = forker.call_committing(&ZERO, &counter, &[], U256::zero()).unwrap();
    assert_eq!(word(&next.result), Word::from(2));
}

#[test]
fn a_reverted_commit_keeps_what_was_committed() {
    let mut forker = forked();
    let counter = account(COUNTER_ADDR);
    forker.call_committing(&ZERO, &counter, &[], U256::zero()).unwrap();
    let reverted =
        forker.call_committing(&ZERO, &account(REVERTER_ADDR), &[], U256::zero()).unwrap();
    assert!(reverted.reverted);
    assert_eq!(word(&forker.call(&ZERO, &counter, &[]).unwrap().result), Word::from(2));
}

#[test]
fn value_is_sent_along_when_committing_and_never_when_reading() {
    let mut forker = forked();
    let sent = forker
        .call_committing(&account(RICH_ADDR), &account(0x34), &[], U256::from_u64(600))
        .unwrap();
    assert_eq!(word(&sent.result), Word::from(600));
    assert_eq!(sent.env.tx.value, U256::from_u64(600));
    // Only 400 are left.
    let failed =
        forker.call_committing(&account(RICH_ADDR), &account(0x34), &[], U256::from_u64(401));
    assert!(matches!(failed, Err(ForkCallError::ExecutorError(_))));
    let read = forker.call(&account(RICH_ADDR), &account(0x34), &[]).unwrap();
    assert_eq!(word(&read.result), Word::ZERO);
}

#[test]
fn a_revert_carries_its_data() {
    let forker = forked();
    let res = forker.call(&ZERO, &account(REVERTER_ADDR), &[]).unwrap();
    assert_eq!(res.exit_reason, InstructionResult::Revert);
    assert!(res.reverted);
    assert!(!res.exit_reason.is_ok());
    assert_eq!(word(&res.result), Word::from(42));
    assert!(res.gas_used > 21_000);
}

#[test]
fn a_halt_has_no_data() {
    let forker = forked();
    let res = forker.call(&ZERO, &account(HALTER_ADDR), &[]).unwrap();
    assert_eq!(res.exit_reason, InstructionResult::InvalidFEOpcode);
    assert!(res.reverted);
    assert!(res.result.is_empty());
}

#[test]
fn an_account_without_code_stops_at_once() {
    let forker = forked();
    let res = forker.call(&ZERO, &account(RICH_ADDR), &[]).unwrap();
    assert_eq!(res.exit_reason, InstructionResult::Stop);
    assert!(!res.reverted);
    assert!(res.result.is_empty());
    assert_eq!(res.gas_used, 21_000);
}

#[test]
fn traces_hold_the_frames_of_contracts_and_no_steps() {
    let forker = forked();
    let res = forker.call(&ZERO, &account(COUNTER_CALLER_ADDR), &[7, 8]).unwrap();
    assert_eq!(res.exit_reason, InstructionResult::Stop);
    let traces = res.traces.expect("traces present");
    assert_eq!(traces.nodes().len(), 2);
    assert_eq!(traces.nodes()[0].children, vec![1]);
    assert_eq!(traces.nodes()[0].trace.data.to_vec(), vec![7, 8]);
    assert!(traces.nodes()[0].trace.steps.is_empty());
    assert_eq!(traces.nodes()[1].trace.address.into_array(), account(COUNTER_ADDR));

    // A precompiled contract is not among the callees.
    let res = forker.call(&ZERO, &account(PRECOMPILE_CALLER_ADDR), &[]).unwrap();
    let traces = res.traces.expect("traces present");
    assert!(traces.nodes()[0].children.is_empty());
}

#[test]
fn a_call_runs_in_the_forked_block() {
    let forker = forked();
    assert_eq!(told(&forker, 0x33), Word::ZERO);
    assert_eq!(told(&forker, 0x3a), Word::ZERO);
    assert_eq!(told(&forker, 0x41), word(&account(0x0b)));
    assert_eq!(told(&forker, 0x42), Word::from(1_700_000_000u64));
    assert_eq!(told(&forker, 0x43), Word::from(100));
    assert_eq!(told(&forker, 0x44), word(&[9u8; 32]));
    assert_eq!(told(&forker, 0x45), Word::from(30_000_000));
    assert_eq!(told(&forker, 0x46), Word::from(31337));
    assert_eq!(told(&forker, 0x48), Word::from(7));
    assert_eq!(told(&forker, 0x4a), Word::from(1));
}

#[test]
fn a_result_carries_its_environment() {
    let forker = forked();
    let res = forker.call(&account(RICH_ADDR), &identity_precompile(), &[1, 2]).unwrap();
    assert_eq!(
        res.env.tx,
        CallTx {
            caller: account(RICH_ADDR),
            kind: CallTarget::Call(identity_precompile()),
            data: vec![1, 2],
            value: U256::zero(),
            gas_price: 0,
            gas_limit: u64::MAX,
            chain_id: Some(31337),
        }
    );
    assert_eq!(res.env.cfg.chain_id, 31337);
    assert_eq!(res.env.cfg.tx_gas_limit_cap, Some(u64::MAX));
    assert!(res.env.cfg.disable_base_fee);
    assert!(res.env.cfg.disable_block_gas_limit);
    assert!(res.env.cfg.disable_eip3607);
    assert!(res.env.cfg.disable_nonce_check);
    assert_eq!(res.env.block, header(100).block_context());
    assert_eq!(
        res.env.block.blob_excess_gas_and_price,
        Some(BlobExcessGasAndPrice { excess_blob_gas: 0, blob_gasprice: 1 })
    );
}

#[test]
fn a_sender_with_code_is_let_through() {
    let forker = forked();
    let res = forker.call(&account(COUNTER_ADDR), &account(0x33), &[]).unwrap();
    assert_eq!(word(&res.result), word(&account(COUNTER_ADDR)));
}

#[test]
fn rolling_moves_the_height_and_nothing_else() {
    let mut forker = forked();
    forker.call_committing(&ZERO, &account(COUNTER_ADDR), &[], U256::zero()).unwrap();
    forker.roll_fork(Some(7), None).unwrap();
    forker.roll_fork(Some(500), Some(Env::default())).unwrap();
    assert_eq!(told(&forker, 0x43), Word::from(500));
    assert_eq!(told(&forker, 0x42), Word::from(1_700_000_000u64));
    assert_eq!(told(&forker, 0x46), Word::from(31337));
    forker.roll_fork(None, None).unwrap();
    assert_eq!(told(&forker, 0x43), Word::from(500));
    assert_eq!(told(&forker, COUNTER_ADDR), Word::from(2));
}

#[test]
fn forks_are_found_again_and_kept_apart() {
    let mut forker = forked();
    let counter = account(COUNTER_ADDR);
    forker.call_committing(&ZERO, &counter, &[], U256::zero()).unwrap();

    // A fork at another block is a new one.
    let step = forker.add_or_select(args(Some(50)), None).unwrap().expect("a fork to make");
    assert_eq!(told(&forker, 0x43), Word::from(100));
    assert_eq!(step.args.fork_block_number, Some(50));
    let made = step.chain_id(Ok(31337)).unwrap().block(Ok(Some(header(50)))).unwrap();
    forker.add(made, backend());
    assert_eq!(told(&forker, 0x43), Word::from(50));
    assert_eq!(told(&forker, COUNTER_ADDR), Word::from(1));

    // The same fork again is the one that is there.
    forker.call_committing(&ZERO, &counter, &[], U256::zero()).unwrap();
    assert!(forker.add_or_select(args(Some(50)), None).unwrap().is_none());
    assert_eq!(told(&forker, COUNTER_ADDR), Word::from(2));

    // So is the first one, with what was committed to it.
    forker.roll_fork(Some(51), None).unwrap();
    assert!(forker.add_or_select(args(None), None).unwrap().is_none());
    assert_eq!(told(&forker, 0x43), Word::from(100));
    assert_eq!(told(&forker, COUNTER_ADDR), Word::from(2));
    assert!(forker.add_or_select(args(Some(50)), None).unwrap().is_none());
    assert_eq!(told(&forker, 0x43), Word::from(51));
}

#[test]
fn adding_a_fork_that_is_there_keeps_it() {
    let mut forker = forked();
    forker.call_committing(&ZERO, &account(COUNTER_ADDR), &[], U256::zero()).unwrap();
    forker.add(pending(None, None), backend());
    assert_eq!(told(&forker, COUNTER_ADDR), Word::from(2));
}

#[test]
fn a_fork_that_cannot_be_started_leaves_the_selection() {
    let mut forker = forked();
    let bad = NewForkedEvm { fork_url: "nowhere".to_owned(), fork_block_number: None };
    assert!(is_executor_error(
        forker.add_or_select(bad, None),
        "invalid fork url: relative URL without a base"
    ));
    assert_eq!(told(&forker, 0x43), Word::from(100));
}

#[test]
fn a_given_environment_takes_the_place_of_the_blocks() {
    let mut env = pending(None, None).env;
    env.cfg.chain_id = 5;
    env.block.number = U256::from_u64(12);
    let forker = Forker::new_with_fork(pending(None, Some(env)), backend());
    assert_eq!(told(&forker, 0x43), Word::from(12));
    assert_eq!(told(&forker, 0x46), Word::from(5));
}

#[test]
fn the_transaction_of_the_environment_is_not_read() {
    let mut env = pending(None, None).env;
    env.tx.gas_limit = 0;
    env.tx.chain_id = Some(5);
    env.tx.caller = account(UNKNOWN_ADDR);
    let forker = Forker::new_with_fork(pending(None, Some(env)), backend());
    let res = forker.call(&ZERO, &account(0x33), &[]).unwrap();
    assert_eq!(word(&res.result), Word::ZERO);
    assert_eq!(res.env.tx.chain_id, Some(31337));
}

#[test]
fn a_fork_by_itself_runs_calls() {
    let mut fork = pending(None, None).finish(backend());
    assert_eq!(fork.url(), URL);
    // Nothing that is not laid out can be fetched from its backend.
    assert!(fork.backend().get_full_block(1u64).is_err());
    fork.set_block_number(8);
    let number = CallTarget::Call(account(0x43));
    let res = fork.call(ZERO, number, &[], U256::zero()).unwrap();
    assert_eq!(word(&res.result), Word::from(8));
    let counter = CallTarget::Call(account(COUNTER_ADDR));
    fork.call_committing(ZERO, counter, &[], U256::zero()).unwrap();
    let res = fork.call(ZERO, counter, &[], U256::zero()).unwrap();
    assert_eq!(word(&res.result), Word::from(2));
    fork.enter_block(5, &header(5));
    let res = fork.call(ZERO, counter, &[], U256::zero()).unwrap();
    assert_eq!(word(&res.result), Word::from(1));
}

#[test]
fn what_is_invalid_is_refused_alike() {
    let mut forker = forked();
    let text = "transaction validation error: lack of funds (1000) for max fee (1001)";
    for _ in 0..2 {
        let refused = forker.call_committing(
            &account(RICH_ADDR),
            &account(0x34),
            &[],
            U256::from_u64(1001),
        );
        assert!(is_executor_error(refused, text));
    }
}

#[test]
fn a_commit_gives_what_a_read_gives() {
    let mut forker = forked();
    for to in [COUNTER_ADDR, REVERTER_ADDR, HALTER_ADDR, RICH_ADDR, 0x46] {
        let read = forker.call(&ZERO, &account(to), &[1]).unwrap();
        let again = forker.call(&ZERO, &account(to), &[1]).unwrap();
        let kept = forker.call_committing(&ZERO, &account(to), &[1], U256::zero()).unwrap();
        for other in [again, kept] {
            assert_eq!(other.exit_reason, read.exit_reason);
            assert_eq!(other.reverted, read.reverted);
            assert_eq!(other.result, read.result);
            assert_eq!(other.gas_used, read.gas_used);
            assert_eq!(other.env.tx, read.env.tx);
            assert_eq!(other.env.block, read.env.block);
            assert_eq!(other.traces, read.traces);
        }
    }
}

#[test]
fn the_default_environment_turns_a_huge_gas_limit_away() {
    let forker = Forker::new_with_fork(pending(None, Some(Env::default())), backend());
    let refused = forker.call(&ZERO, &identity_precompile(), &[]);
    assert!(matches!(refused, Err(ForkCallError::ExecutorError(_))));
}

#[test]
fn settings_carried_from_revm_are_used() {
    // A hardfork from before there was an opcode for the chain id.
    let base = revm::context::CfgEnv::new_with_spec(revm::primitives::hardfork::SpecId::HOMESTEAD);
    let mut env = pending(None, None).env;
    env.cfg.base = Some(base);
    let forker = Forker::new_with_fork(pending(None, Some(env)), backend());
    let res = forker.call(&ZERO, &account(0x46), &[]).unwrap();
    assert_eq!(res.exit_reason, InstructionResult::NotActivated);
    assert_eq!(told(&forker, 0x43), Word::from(100));
    // In its time the opcode for randomness told the difficulty.
    assert_eq!(told(&forker, 0x44), Word::from(5));
    // The named settings win over the carried ones.
    assert_eq!(res.env.tx.chain_id, Some(31337));
    assert!(res.env.cfg.base.is_some());
}

#[test]
fn creating_a_fork_asks_for_what_it_needs() {
    let step = AwaitingChainId::start(args(Some(9)), None).unwrap();
    assert_eq!(step.endpoint, "http://localhost:8545/");
    assert!(step.env.is_none());
    let step = step.chain_id(Ok(1)).unwrap();
    assert_eq!(step.tag, BlockTag::Number(9));
    let made = step.block(Ok(Some(header(9)))).unwrap();
    assert_eq!(made.block_number, 9);
    assert_eq!(made.block, header(9).block_context());
    assert_eq!(made.env.block, made.block);
    assert_eq!(made.env.cfg.chain_id, 1);
    assert_eq!(made.env.tx, CallTx::default());

    let step = AwaitingChainId::start(args(None), None).unwrap().chain_id(Ok(1)).unwrap();
    assert_eq!(step.tag, BlockTag::Latest);
}

#[test]
fn creating_a_fork_fails_with_what_went_wrong() {
    let bad = NewForkedEvm { fork_url: "http://".to_owned(), fork_block_number: None };
    assert!(is_executor_error(AwaitingChainId::start(bad, None), "invalid fork url: empty host"));
    assert!(is_executor_error(
        AwaitingChainId::with_parsed(args(None), None, Err("why".to_owned())),
        "invalid fork url: why"
    ));
    let step = || AwaitingChainId::start(args(None), None).unwrap();
    assert!(is_executor_error(step().chain_id(Err("no chain".to_owned())), "no chain"));
    let step = || step().chain_id(Ok(1)).unwrap();
    assert!(is_executor_error(step().block(Err("no block".to_owned())), "no block"));
    assert!(is_executor_error(step().block(Ok(None)), "fork block not found"));
}

#[test]
fn a_header_without_base_fee_or_mix_hash_gives_none() {
    let old = BlockHeader { base_fee_per_gas: None, mix_hash: None, ..header(3) };
    let block = old.block_context();
    assert_eq!(block.basefee, 0);
    assert_eq!(block.prevrandao, None);
    assert_eq!(block.number, U256::from_u64(3));
    assert_eq!(block.difficulty, U256::from_u64(5));
}

#[test]
fn fork_ids_go_by_url_and_block() {
    assert_eq!(ForkId::new("a", Some(1)), ForkId { url: "a".to_owned(), block: Some(1) });
    let id = ForkId::new("a", Some(1));
    assert!(id.same(&id.copy()));
    assert!(!id.same(&ForkId::new("b", Some(1))));
    assert!(!id.same(&ForkId::new("a", Some(2))));
    assert!(!id.same(&ForkId::new("a", None)));
    assert!(ForkId::new("a", None).same(&ForkId::new("a", None)));
    assert!(args(Some(4)).id().same(&ForkId::new(URL, Some(4))));
}

#[test]
fn typed_calls_say_what_to_decode() {
    let mut forker = forked();
    let input = [5u8; 32];
    match forker.alloy_call(ZERO, identity_precompile(), &input, true) {
        Ok(TypedStep::DecodeReturn(raw)) => assert_eq!(raw.result.as_slice(), &input),
        other => panic!("{other:?}"),
    }
    match forker.alloy_call(ZERO, account(REVERTER_ADDR), &[], true) {
        Ok(TypedStep::DecodeError(raw)) => assert_eq!(word(&raw.result), Word::from(42)),
        other => panic!("{other:?}"),
    }
    match forker.alloy_call(ZERO, account(REVERTER_ADDR), &[], false) {
        Err(ForkCallError::Failed(raw)) => {
            assert_eq!(raw.exit_reason, InstructionResult::Revert)
        }
        other => panic!("{other:?}"),
    }
    match forker.alloy_call(ZERO, account(HALTER_ADDR), &[], true) {
        Err(ForkCallError::Failed(raw)) => {
            assert_eq!(raw.exit_reason, InstructionResult::InvalidFEOpcode)
        }
        other => panic!("{other:?}"),
    }
    let step = forker
        .alloy_call_committing(
            account(RICH_ADDR),
            account(COUNTER_ADDR),
            &[],
            U256::from_u64(1),
            false,
        )
        .unwrap();
    assert!(matches!(step, TypedStep::DecodeReturn(_)));
    assert_eq!(told(&forker, COUNTER_ADDR), Word::from(2));
    let empty = Forker::default();
    assert!(is_executor_error(empty.alloy_call(ZERO, ZERO, &[], true), "no active fork!"));
    let mut empty = Forker::default();
    assert!(is_executor_error(
        empty.alloy_call_committing(ZERO, ZERO, &[], U256::zero(), true),
        "no active fork!"
    ));
}

#[test]
fn typed_results_are_put_together() {
    let forker = forked();
    let raw = forker.call(&ZERO, &identity_precompile(), &[3]).unwrap();
    let typed = ForkTypedReturn::from_decoded(raw, Ok(3u8)).unwrap();
    assert_eq!(typed.typed_return, 3);
    assert_eq!(typed.raw.result, vec![3]);

    let raw = forker.call(&ZERO, &identity_precompile(), &[3]).unwrap();
    let failure = DecodeFailure {
        call: "\"Count\"".to_owned(),
        error: "Overrun".to_owned(),
        raw: "RawCallResult".to_owned(),
    };
    let failed: Result<ForkTypedReturn<u8>, ForkCallError> =
        ForkTypedReturn::from_decoded(raw, Err(failure));
    assert!(matches!(
        failed,
        Err(ForkCallError::TypedError(ref text))
            if text == "Call:\"Count\" Error:Overrun Raw:RawCallResult"
    ));
}
