//! Replays of a block that increments a counter.

use alloy::eips::BlockId;
use alloy::network::AnyNetwork;
use alloy::primitives::{Address, Bytes, B256, U256 as Word};
use alloy::providers::mock::Asserter;
use alloy::providers::ProviderBuilder;
use foundry_fork_db::backend::SharedBackend;
use foundry_fork_db::cache::{BlockchainDb, BlockchainDbMeta};
use foundry_fork_db::error::DatabaseError;
use rain_forker::create::AwaitingChainId;
use rain_forker::env::CallTarget;
use rain_forker::fork::BlockHeader;
use rain_forker::primitives::U256;
use rain_forker::replay::{AwaitingMinedBlock, AwaitingParentFork, MinedBlock, MinedTx};
use rain_forker::result::InstructionResult;
use rain_forker::{ForkCallError, Forker, NewForkedEvm, ReplayTransactionError};
use revm::context::BlockEnv;
use revm::state::{AccountInfo, Bytecode};

const URL: &str = "http://localhost:8545";

fn account(last: u8) -> [u8; 20] {
    let mut addr = [0u8; 20];
    addr[19] = last;
    addr
}

/// Adds 1 to slot 0 and returns the new value.
const COUNTER: [u8; 18] = [
    0x60, 0x00, 0x54, 0x60, 0x01, 0x01, 0x80, 0x60, 0x00, 0x55, 0x60, 0x00, 0x52, 0x60, 0x20, 0x60,
    0x00, 0xf3,
];

const COUNTER_ADDR: u8 = 0xaa;

/// Init code that deploys the counter.
fn deploy_counter() -> Vec<u8> {
    let mut code = vec![0x71];
    code.extend_from_slice(&COUNTER);
    code.extend_from_slice(&[0x60, 0x00, 0x52, 0x60, 0x12, 0x60, 0x0e, 0xf3]);
    code
}

/// Address of the contract that the zero address creates at a nonce.
fn created(nonce: u64) -> [u8; 20] {
    Address::from(account(0x00)).create(nonce).into_array()
}

/// An account that holds a thousand.
const RICH_ADDR: u8 = 0x77;

/// Opcodes of the environment, each told by the account of the same number.
const TOLD: [u8; 8] = [0x34, 0x41, 0x42, 0x43, 0x44, 0x45, 0x46, 0x48];

fn backend() -> SharedBackend {
    let meta = BlockchainDbMeta::new(BlockEnv::default(), URL.to_owned());
    let db = BlockchainDb::new(meta, None);
    let put = |last: u8, info: AccountInfo| {
        db.accounts().write().insert(Address::from(account(last)), info);
    };
    let code = |bytes: Vec<u8>| AccountInfo::from_bytecode(Bytecode::new_raw(Bytes::from(bytes)));
    put(0x00, AccountInfo::default());
    put(0x0b, AccountInfo::default());
    put(0x0c, AccountInfo::default());
    for nonce in 0..4 {
        let addr = Address::from(created(nonce));
        db.accounts().write().insert(addr, AccountInfo::default());
    }
    put(RICH_ADDR, AccountInfo::from_balance(Word::from(1000)));
    put(COUNTER_ADDR, code(COUNTER.to_vec()));
    for opcode in TOLD {
        put(opcode, code(vec![opcode, 0x60, 0x00, 0x52, 0x60, 0x20, 0x60, 0x00, 0xf3]));
    }
    db.storage()
        .write()
        .entry(Address::from(account(COUNTER_ADDR)))
        .or_default()
        .insert(Word::ZERO, Word::ZERO);
    let provider =
        ProviderBuilder::new().network::<AnyNetwork>().connect_mocked_client(Asserter::new());
    SharedBackend::spawn_backend_thread(provider, db, Some(BlockId::from(41u64)))
}

fn header(number: u64, beneficiary: u8, timestamp: u64) -> BlockHeader {
    BlockHeader {
        number,
        beneficiary: account(beneficiary),
        timestamp,
        gas_limit: 30_000_000,
        base_fee_per_gas: Some(7),
        difficulty: U256::zero(),
        mix_hash: Some([9u8; 32]),
    }
}

fn forked(number: Option<u64>) -> Forker {
    let args = NewForkedEvm { fork_url: URL.to_owned(), fork_block_number: number };
    let made = AwaitingChainId::start(args, None)
        .unwrap()
        .chain_id(Ok(31337))
        .unwrap()
        .block(Ok(Some(header(41, 0x0b, 1_000))))
        .unwrap();
    Forker::new_with_fork(made, backend())
}

fn hash(n: u8) -> [u8; 32] {
    let mut bytes = [0u8; 32];
    bytes[0] = 0xab;
    bytes[31] = n;
    bytes
}

fn hash_text(n: u8) -> String {
    format!("0xab{}{n:02x}", "00".repeat(30))
}

fn call_tx(n: u8, from: u8, to: u8, value: u64) -> MinedTx {
    MinedTx {
        hash: hash(n),
        from: account(from),
        kind: CallTarget::Call(account(to)),
        input: vec![],
        value: U256::from_u64(value),
    }
}

fn create_tx(n: u8, input: Vec<u8>) -> MinedTx {
    MinedTx {
        hash: hash(n),
        from: account(0x00),
        kind: CallTarget::Create,
        input,
        value: U256::zero(),
    }
}

fn ready(target: u8, transactions: Vec<MinedTx>) -> AwaitingParentFork {
    let block_header = BlockHeader {
        gas_limit: 20_000_000,
        base_fee_per_gas: None,
        mix_hash: Some([3u8; 32]),
        ..header(42, 0x0c, 2_000)
    };
    AwaitingParentFork {
        tx_hash: hash(target),
        fork_url: URL.to_owned(),
        block_number: 42,
        prev_block: 41,
        block: MinedBlock { header: block_header, transactions },
    }
}

fn word(bytes: &[u8]) -> Word {
    Word::from_be_slice(bytes)
}

fn told(forker: &Forker, opcode: u8) -> Word {
    word(&forker.call(&account(0x00), &account(opcode), &[]).unwrap().result)
}

fn looked_up(
    found: Result<Option<u64>, DatabaseError>,
) -> Result<AwaitingMinedBlock, ForkCallError> {
    forked(None).replay_transaction(hash(1)).unwrap().transaction(found)
}

#[test]
fn a_replay_needs_an_active_fork() {
    let refused = Forker::default().replay_transaction(hash(1));
    assert!(matches!(
        refused.map(|_| ()),
        Err(ForkCallError::ExecutorError(ref text)) if text == "no active fork!"
    ));
    let refused = Forker::default().replay_block(ready(1, vec![]));
    assert!(matches!(
        refused,
        Err(ForkCallError::ExecutorError(ref text)) if text == "no active fork!"
    ));
}

#[test]
fn a_replay_looks_the_transaction_up_where_it_forked() {
    let step = forked(None).replay_transaction(hash(1)).unwrap();
    assert_eq!(step.tx_hash, hash(1));
    assert_eq!(step.fork_url, URL);
    // Nothing can be fetched from this network.
    let found = step.backend.get_transaction(B256::from(step.tx_hash));
    assert!(found.is_err());
}

#[test]
fn a_replay_forks_at_the_block_before() {
    let step = looked_up(Ok(Some(42))).unwrap();
    assert_eq!(step.block_number, 42);
    assert_eq!(step.prev_block, 41);
    let block = MinedBlock { header: header(42, 0x0c, 2_000), transactions: vec![] };
    let step = step.block(Ok(block)).unwrap();
    let parent = step.parent();
    assert_eq!(parent.fork_url, URL);
    assert_eq!(parent.fork_block_number, Some(41));

    let first = looked_up(Ok(Some(1))).unwrap();
    assert_eq!(first.prev_block, 0);
    let last = looked_up(Ok(Some(u64::MAX))).unwrap();
    assert_eq!(last.prev_block, u64::MAX - 1);
}

#[test]
fn a_transaction_that_cannot_be_fetched_is_named_by_its_hash() {
    let failed = looked_up(Err(DatabaseError::BlockNotFound(BlockId::from(5u64))));
    assert!(matches!(
        failed.map(|_| ()),
        Err(ForkCallError::ReplayTransactionError(ReplayTransactionError::DatabaseError(
            what,
            url,
            DatabaseError::BlockNotFound(_)
        ))) if what == hash_text(1) && url == URL
    ));
}

#[test]
fn a_transaction_that_is_not_mined_has_no_block() {
    assert!(matches!(
        looked_up(Ok(None)).map(|_| ()),
        Err(ForkCallError::ReplayTransactionError(ReplayTransactionError::NoBlockNumberFound(
            what,
            url
        ))) if what == hash_text(1) && url == URL
    ));
}

#[test]
fn a_transaction_of_the_first_block_has_no_block_before() {
    assert!(matches!(
        looked_up(Ok(Some(0))).map(|_| ()),
        Err(ForkCallError::ReplayTransactionError(ReplayTransactionError::GenesisBlockReplay(
            what,
            url
        ))) if what == hash_text(1) && url == URL
    ));
}

#[test]
fn a_block_that_cannot_be_fetched_is_named_by_its_number() {
    let numbers: [(u64, &str); 4] =
        [(1, "1"), (10, "10"), (12_345, "12345"), (u64::MAX, "18446744073709551615")];
    for (number, text) in numbers {
        let step = looked_up(Ok(Some(number))).unwrap();
        let failed = step.block(Err(DatabaseError::BlockNotFound(BlockId::from(number))));
        assert!(matches!(
            failed.map(|_| ()),
            Err(ForkCallError::ReplayTransactionError(ReplayTransactionError::DatabaseError(
                what,
                url,
                _
            ))) if what == text && url == URL
        ));
    }
}

#[test]
fn earlier_transactions_are_committed_and_the_target_is_not() {
    let mut forker = forked(Some(41));
    let txs = vec![
        call_tx(1, 0x00, COUNTER_ADDR, 0),
        create_tx(2, deploy_counter()),
        call_tx(3, RICH_ADDR, COUNTER_ADDR, 400),
        call_tx(4, 0x00, COUNTER_ADDR, 0),
        call_tx(5, 0x00, COUNTER_ADDR, 0),
    ];
    let res = forker.replay_block(ready(4, txs)).unwrap();
    assert_eq!(word(&res.result), Word::from(3));
    assert_eq!(told(&forker, COUNTER_ADDR), Word::from(3));
    // So is the contract that the second transaction created.
    let res = forker.call(&account(0x00), &created(1), &[]).unwrap();
    assert_eq!(word(&res.result), Word::from(1));
    // The value of the third transaction has been spent.
    let rest = forker.call_committing(
        &account(RICH_ADDR),
        &account(0x34),
        &[],
        U256::from_u64(601),
    );
    assert!(rest.is_err());
}

#[test]
fn a_replay_runs_in_the_block_of_the_target() {
    let mut forker = forked(Some(41));
    let res = forker.replay_block(ready(1, vec![call_tx(1, 0x00, 0x43, 0)])).unwrap();
    assert_eq!(word(&res.result), Word::from(42));
    assert_eq!(told(&forker, 0x41), word(&account(0x0c)));
    assert_eq!(told(&forker, 0x42), Word::from(2_000));
    assert_eq!(told(&forker, 0x43), Word::from(42));
    assert_eq!(told(&forker, 0x44), word(&[3u8; 32]));
    assert_eq!(told(&forker, 0x45), Word::from(20_000_000));
    assert_eq!(told(&forker, 0x46), Word::from(31337));
    assert_eq!(told(&forker, 0x48), Word::ZERO);
}

#[test]
fn the_first_transaction_runs_on_the_parent_block() {
    let mut forker = forked(Some(41));
    let txs = vec![call_tx(1, 0x00, COUNTER_ADDR, 0), call_tx(2, 0x00, COUNTER_ADDR, 0)];
    let res = forker.replay_block(ready(1, txs)).unwrap();
    assert_eq!(word(&res.result), Word::from(1));
    assert_eq!(told(&forker, COUNTER_ADDR), Word::from(1));
}

#[test]
fn earlier_transactions_that_fail_are_passed_over() {
    let mut forker = forked(Some(41));
    let txs = vec![
        call_tx(1, 0x00, COUNTER_ADDR, 0),
        // Its sender cannot pay, and the next one's cannot be fetched.
        call_tx(2, RICH_ADDR, COUNTER_ADDR, 5_000),
        call_tx(3, 0xee, COUNTER_ADDR, 0),
        call_tx(4, 0x00, COUNTER_ADDR, 0),
    ];
    let res = forker.replay_block(ready(4, txs)).unwrap();
    assert_eq!(word(&res.result), Word::from(2));
}

#[test]
fn the_target_carries_its_value() {
    let mut forker = forked(Some(41));
    let res = forker.replay_block(ready(1, vec![call_tx(1, RICH_ADDR, 0x34, 10)])).unwrap();
    assert_eq!(word(&res.result), Word::from(10));
    assert_eq!(res.env.tx.caller, account(RICH_ADDR));
    assert_eq!(res.env.tx.kind, CallTarget::Call(account(0x34)));
    assert_eq!(res.env.tx.value, U256::from_u64(10));
    // It is not committed: all of the thousand are still there.
    let rest = forker.call_committing(
        &account(RICH_ADDR),
        &account(0x34),
        &[],
        U256::from_u64(1000),
    );
    assert_eq!(word(&rest.unwrap().result), Word::from(1000));
}

#[test]
fn a_target_that_creates_a_contract_runs_as_one() {
    let mut forker = forked(Some(41));
    let res = forker.replay_block(ready(1, vec![create_tx(1, deploy_counter())])).unwrap();
    assert_eq!(res.env.tx.kind, CallTarget::Create);
    assert_eq!(res.env.tx.data, deploy_counter());
    assert_eq!(res.exit_reason, InstructionResult::Return);
    assert!(!res.reverted);
    assert!(res.result.is_empty());
    // The trace shows the code that the new contract would have.
    let traces = res.traces.expect("traces present");
    assert_eq!(traces.nodes()[0].trace.output.to_vec(), COUNTER.to_vec());
    // It is not committed: there is no code at the new address.
    let left = forker.call(&account(0x00), &created(0), &[]).unwrap();
    assert_eq!(left.exit_reason, InstructionResult::Stop);
}

#[test]
fn a_contract_created_earlier_in_the_block_is_there_for_the_target() {
    let mut forker = forked(Some(41));
    let to_created = |n: u8| MinedTx {
        kind: CallTarget::Call(created(0)),
        ..call_tx(n, RICH_ADDR, 0x00, 0)
    };
    let txs = vec![create_tx(1, deploy_counter()), to_created(2), to_created(3)];
    let res = forker.replay_block(ready(3, txs)).unwrap();
    assert_eq!(res.exit_reason, InstructionResult::Return);
    assert_eq!(word(&res.result), Word::from(2));
}

#[test]
fn a_replay_runs_on_the_fork_at_the_block_before() {
    let mut forker = forked(None);
    // Without that fork there is nothing to run on.
    let refused = forker.replay_block(ready(1, vec![call_tx(1, 0x00, 0x43, 0)]));
    assert!(matches!(
        refused,
        Err(ForkCallError::ExecutorError(ref text)) if text == "no active fork!"
    ));
    assert_eq!(told(&forker, 0x43), Word::from(41));

    let parent = || ready(1, vec![]).parent();
    let step = forker.add_or_select(parent(), None).unwrap().expect("a fork to make");
    let made = step.chain_id(Ok(5)).unwrap().block(Ok(Some(header(41, 0x0b, 1_000)))).unwrap();
    forker.add(made, backend());
    // Another fork is active, and is left alone.
    let first = NewForkedEvm { fork_url: URL.to_owned(), fork_block_number: None };
    let again = || NewForkedEvm { fork_url: URL.to_owned(), fork_block_number: None };
    assert!(forker.add_or_select(first, None).unwrap().is_none());
    let res = forker.replay_block(ready(1, vec![call_tx(1, 0x00, 0x46, 0)])).unwrap();
    assert_eq!(word(&res.result), Word::from(5));
    assert_eq!(told(&forker, 0x43), Word::from(42));
    assert!(forker.add_or_select(again(), None).unwrap().is_none());
    assert_eq!(told(&forker, 0x43), Word::from(41));
    assert_eq!(told(&forker, 0x46), Word::from(31337));
}

#[test]
fn a_replay_starts_from_the_forked_state() {
    let mut forker = forked(Some(41));
    let txs = || {
        vec![
            call_tx(1, 0x00, COUNTER_ADDR, 0),
            call_tx(2, RICH_ADDR, COUNTER_ADDR, 900),
            call_tx(3, 0x00, COUNTER_ADDR, 0),
        ]
    };
    forker
        .call_committing(&account(0x00), &account(COUNTER_ADDR), &[], U256::zero())
        .unwrap();
    for _ in 0..3 {
        let res = forker.replay_block(ready(3, txs())).unwrap();
        assert_eq!(word(&res.result), Word::from(3));
        assert_eq!(res.env.block.number, U256::from_u64(42));
    }
}

#[test]
fn a_target_that_cannot_run_is_an_error() {
    let mut forker = forked(Some(41));
    let failed = forker.replay_block(ready(1, vec![call_tx(1, 0xee, COUNTER_ADDR, 0)]));
    assert!(matches!(failed, Err(ForkCallError::ExecutorError(_))));
}

#[test]
fn a_target_that_the_block_lacks_is_not_found() {
    let mut forker = forked(Some(41));
    let failed = forker.replay_block(ready(9, vec![call_tx(1, 0x00, COUNTER_ADDR, 0)]));
    assert!(matches!(
        failed,
        Err(ForkCallError::ReplayTransactionError(ReplayTransactionError::TransactionNotFound(
            ref what,
            ref url
        ))) if *what == hash_text(9) && url == URL
    ));
    // All of the block has been replayed.
    assert_eq!(told(&forker, COUNTER_ADDR), Word::from(2));
}
