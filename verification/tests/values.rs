//! Plain values, held against revm's.

use alloy::primitives::{Bytes, B256, U256 as Word};
use rain_forker::create::AwaitingChainId;
use rain_forker::env::{build_tx, CallTarget, CallTx, Env, CALL_GAS_LIMIT};
use rain_forker::evm::{exec_outcome, tracing_config};
use rain_forker::forker::validate_addresses;
use rain_forker::primitives::{address_from_slice, bytes_to_vec, hash_eq, U256};
use rain_forker::result::{InstructionResult, Outcome, Output};
use rain_forker::text::{hash_text, number_text};
use rain_forker::{ForkCallError, NewForkedEvm, RawCallResult};
use revm::context::{BlockEnv, CfgEnv, TxEnv};
use revm::primitives::TxKind;
use revm_inspectors::tracing::{CallTraceArena, TracingInspectorConfig};

#[test]
fn reasons_have_the_codes_of_revm() {
    use_reasons(&[
        revm::interpreter::InstructionResult::Stop,
        revm::interpreter::InstructionResult::Return,
        revm::interpreter::InstructionResult::SelfDestruct,
        revm::interpreter::InstructionResult::Revert,
        revm::interpreter::InstructionResult::CallTooDeep,
        revm::interpreter::InstructionResult::OutOfFunds,
        revm::interpreter::InstructionResult::CreateInitCodeStartingEF00,
        revm::interpreter::InstructionResult::InvalidEOFInitCode,
        revm::interpreter::InstructionResult::InvalidExtDelegateCallTarget,
        revm::interpreter::InstructionResult::OutOfGas,
        revm::interpreter::InstructionResult::MemoryOOG,
        revm::interpreter::InstructionResult::MemoryLimitOOG,
        revm::interpreter::InstructionResult::PrecompileOOG,
        revm::interpreter::InstructionResult::InvalidOperandOOG,
        revm::interpreter::InstructionResult::ReentrancySentryOOG,
        revm::interpreter::InstructionResult::OpcodeNotFound,
        revm::interpreter::InstructionResult::CallNotAllowedInsideStatic,
        revm::interpreter::InstructionResult::StateChangeDuringStaticCall,
        revm::interpreter::InstructionResult::InvalidFEOpcode,
        revm::interpreter::InstructionResult::InvalidJump,
        revm::interpreter::InstructionResult::NotActivated,
        revm::interpreter::InstructionResult::StackUnderflow,
        revm::interpreter::InstructionResult::StackOverflow,
        revm::interpreter::InstructionResult::OutOfOffset,
        revm::interpreter::InstructionResult::CreateCollision,
        revm::interpreter::InstructionResult::OverflowPayment,
        revm::interpreter::InstructionResult::PrecompileError,
        revm::interpreter::InstructionResult::NonceOverflow,
        revm::interpreter::InstructionResult::CreateContractSizeLimit,
        revm::interpreter::InstructionResult::CreateContractStartingWithEF,
        revm::interpreter::InstructionResult::CreateInitCodeSizeLimit,
        revm::interpreter::InstructionResult::FatalExternalError,
    ]);
}

fn use_reasons(reasons: &[revm::interpreter::InstructionResult]) {
    let mut known = 0;
    for reason in reasons {
        let own = InstructionResult::from_code(*reason as u8).expect("a known code");
        assert_eq!(format!("{own:?}"), format!("{reason:?}"));
        assert_eq!(own.is_ok(), reason.is_ok());
    }
    for code in 0..=u8::MAX {
        if InstructionResult::from_code(code).is_some() {
            known += 1;
        }
    }
    assert_eq!(known, reasons.len());
}

#[test]
fn the_idle_transaction_is_revms_default() {
    let own = CallTx::default();
    let theirs = TxEnv::default();
    assert_eq!(own.caller, theirs.caller.into_array());
    assert!(matches!(
        (own.kind, theirs.kind),
        (CallTarget::Call(to), TxKind::Call(their_to)) if to == their_to.into_array()
    ));
    assert_eq!(Bytes::from(own.data), theirs.data);
    assert_eq!(Word::from_limbs(own.value.limbs), theirs.value);
    assert_eq!(own.gas_price, theirs.gas_price);
    assert_eq!(own.gas_limit, theirs.gas_limit);
    assert_eq!(own.chain_id, theirs.chain_id);
}

#[test]
fn the_default_environment_is_revms() {
    let own = Env::default();
    let cfg: CfgEnv = CfgEnv::default();
    assert_eq!(own.cfg.chain_id, cfg.chain_id);
    assert_eq!(own.cfg.tx_gas_limit_cap, cfg.tx_gas_limit_cap);
    assert_eq!(own.cfg.disable_base_fee, cfg.disable_base_fee);
    assert_eq!(own.cfg.disable_block_gas_limit, cfg.disable_block_gas_limit);
    assert_eq!(own.cfg.disable_eip3607, cfg.disable_eip3607);
    assert_eq!(own.cfg.disable_nonce_check, cfg.disable_nonce_check);
    assert!(own.cfg.base.is_none());
    let block = BlockEnv::default();
    assert_eq!(Word::from_limbs(own.block.number.limbs), block.number);
    assert_eq!(own.block.beneficiary, block.beneficiary.into_array());
    assert_eq!(Word::from_limbs(own.block.timestamp.limbs), block.timestamp);
    assert_eq!(own.block.gas_limit, block.gas_limit);
    assert_eq!(own.block.basefee, block.basefee);
    assert_eq!(Word::from_limbs(own.block.difficulty.limbs), block.difficulty);
    assert_eq!(own.block.prevrandao, block.prevrandao.map(|hash| hash.0));
    let blob = own.block.blob_excess_gas_and_price.expect("blob gas");
    let their_blob = block.blob_excess_gas_and_price.expect("blob gas");
    assert_eq!(blob.excess_blob_gas, their_blob.excess_blob_gas);
    assert_eq!(blob.blob_gasprice, their_blob.blob_gasprice);
    assert_eq!(own.tx, CallTx::default());
}

#[test]
fn a_call_pays_nothing_for_all_the_gas() {
    let mut env = Env::default();
    env.cfg.chain_id = 99;
    let tx = build_tx(&env, [1; 20], CallTarget::Create, &[4, 5], U256 { limbs: [1, 2, 3, 4] });
    assert_eq!(
        tx,
        CallTx {
            caller: [1; 20],
            kind: CallTarget::Create,
            data: vec![4, 5],
            value: U256 { limbs: [1, 2, 3, 4] },
            gas_price: 0,
            gas_limit: u64::MAX,
            chain_id: Some(99),
        }
    );
    assert_eq!(CALL_GAS_LIMIT, u64::MAX);
}

#[test]
fn addresses_are_twenty_bytes() {
    let (from, to) = validate_addresses(&[1u8; 20], &[2u8; 20]).unwrap();
    assert_eq!((from, to), ([1u8; 20], [2u8; 20]));
    for (from_len, to_len) in [(0, 20), (20, 0), (19, 20), (20, 21), (32, 32)] {
        let refused = validate_addresses(&vec![0u8; from_len], &vec![0u8; to_len]);
        assert!(matches!(
            refused,
            Err(ForkCallError::ExecutorError(ref text)) if text == "invalid address!"
        ));
    }
}

#[test]
fn bytes_are_copied() {
    let bytes: Vec<u8> = (0..20).collect();
    assert_eq!(address_from_slice(&bytes).to_vec(), bytes);
    assert_eq!(bytes_to_vec(&bytes), bytes);
    assert!(bytes_to_vec(&[]).is_empty());
    let mut other = [7u8; 32];
    assert!(hash_eq(&[7u8; 32], &other));
    other[31] = 8;
    assert!(!hash_eq(&[7u8; 32], &other));
}

#[test]
fn words_are_wide() {
    assert_eq!(Word::from_limbs(U256::from_u64(u64::MAX).limbs), Word::from(u64::MAX));
    assert_eq!(U256::zero(), U256 { limbs: [0; 4] });
}

fn finished(outcome: Outcome) -> RawCallResult {
    exec_outcome(Ok(outcome), CallTraceArena::default(), Env::default()).unwrap()
}

#[test]
fn outcomes_become_results() {
    let raw = finished(Outcome::Success { code: 0x02, gas_used: 5, output: Output::Call(vec![1]) });
    assert_eq!(raw.exit_reason, InstructionResult::Return);
    assert!(!raw.reverted);
    assert_eq!(raw.result, vec![1]);
    assert_eq!(raw.gas_used, 5);
    assert!(raw.traces.is_some());

    let created = Output::Create(vec![2, 3], Some([8; 20]));
    let raw = finished(Outcome::Success { code: 0x03, gas_used: 6, output: created });
    assert_eq!(raw.exit_reason, InstructionResult::SelfDestruct);
    assert!(!raw.reverted);
    assert!(raw.result.is_empty());

    let raw = finished(Outcome::Revert { gas_used: 7, output: vec![9] });
    assert_eq!(raw.exit_reason, InstructionResult::Revert);
    assert!(raw.reverted);
    assert_eq!(raw.result, vec![9]);
    assert_eq!(raw.gas_used, 7);

    let raw = finished(Outcome::Halt { code: 0x20, gas_used: 8 });
    assert_eq!(raw.exit_reason, InstructionResult::OutOfGas);
    assert!(raw.reverted);
    assert!(raw.result.is_empty());
    assert_eq!(raw.gas_used, 8);

    let failed = exec_outcome(Err("why".to_owned()), CallTraceArena::default(), Env::default());
    assert!(matches!(failed, Err(ForkCallError::ExecutorError(ref text)) if text == "why"));
}

#[test]
fn hashes_and_numbers_are_written_out() {
    let mut hash = [0u8; 32];
    for (i, byte) in hash.iter_mut().enumerate() {
        *byte = (i * 8 + 3) as u8;
    }
    assert_eq!(hash_text(&hash), B256::from(hash).to_string());
    assert_eq!(hash_text(&[0; 32]), format!("0x{}", "0".repeat(64)));
    assert_eq!(hash_text(&[0xfa; 32]), format!("0x{}", "fa".repeat(32)));
    for n in [0, 9, 10, 99, 100, 1_234_567_890, u64::MAX] {
        assert_eq!(number_text(n), n.to_string());
    }
}

#[test]
fn calls_are_traced_as_parity_does() {
    let own = tracing_config();
    let parity = TracingInspectorConfig::default_parity();
    assert_eq!(own.record_steps, parity.record_steps);
    assert_eq!(own.record_memory_snapshots, parity.record_memory_snapshots);
    assert_eq!(own.record_state_diff, parity.record_state_diff);
    assert_eq!(own.record_returndata_snapshots, parity.record_returndata_snapshots);
    assert_eq!(own.exclude_precompile_calls, parity.exclude_precompile_calls);
    assert_eq!(own.record_logs, parity.record_logs);
    assert_eq!(own.record_immediate_bytes, parity.record_immediate_bytes);
    let none = TracingInspectorConfig::none();
    assert_eq!(none.record_stack_snapshots, parity.record_stack_snapshots);
    assert_eq!(none.record_opcodes_filter, parity.record_opcodes_filter);
}

#[test]
fn urls_are_spelled_in_full() {
    let args = NewForkedEvm {
        fork_url: "HTTPS://Example.COM:443/a/../b".to_owned(),
        fork_block_number: None,
    };
    let step = AwaitingChainId::start(args, None).unwrap();
    assert_eq!(step.endpoint, "https://example.com/b");
    assert_eq!(step.args.fork_url, "HTTPS://Example.COM:443/a/../b");
}
