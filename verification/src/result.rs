//! What a call gives back.

use crate::env::{Env, EnvView};
use crate::primitives::Address;
use vstd::prelude::*;

verus! {

/// How the EVM left a call. Each reason has a one-byte code.
#[derive(Clone, Copy, Debug, PartialEq, Eq, Structural)]
pub enum InstructionResult {
    /// Encountered a `STOP` opcode.
    Stop,
    /// Returned from the call.
    Return,
    /// Self-destructed the contract.
    SelfDestruct,
    /// Reverted by the `REVERT` opcode.
    Revert,
    /// Exceeded the call depth.
    CallTooDeep,
    /// Too little balance for the transfer.
    OutOfFunds,
    /// Init code starts with `0xEF00`.
    CreateInitCodeStartingEF00,
    /// Init code in an invalid object format.
    InvalidEOFInitCode,
    /// Delegate call to a contract of the older format.
    InvalidExtDelegateCallTarget,
    /// Out of gas.
    OutOfGas,
    /// Out of gas while memory grew.
    MemoryOOG,
    /// Exceeded the memory limit.
    MemoryLimitOOG,
    /// Out of gas in a precompiled contract.
    PrecompileOOG,
    /// Out of gas on an invalid operand.
    InvalidOperandOOG,
    /// Out of gas at the reentrancy sentry.
    ReentrancySentryOOG,
    /// Unknown opcode.
    OpcodeNotFound,
    /// Call with value in a static context.
    CallNotAllowedInsideStatic,
    /// State change in a static context.
    StateChangeDuringStaticCall,
    /// Undefined opcode.
    InvalidFEOpcode,
    /// Jump to a place that is no jump destination.
    InvalidJump,
    /// Opcode of a later hardfork.
    NotActivated,
    /// Popped from an empty stack.
    StackUnderflow,
    /// Pushed onto a full stack.
    StackOverflow,
    /// Invalid memory or storage offset.
    OutOfOffset,
    /// Contract address already taken.
    CreateCollision,
    /// Payment overflowed a balance.
    OverflowPayment,
    /// Error in a precompiled contract.
    PrecompileError,
    /// Nonce overflowed.
    NonceOverflow,
    /// Contract code too large.
    CreateContractSizeLimit,
    /// Contract code starts with `0xEF`.
    CreateContractStartingWithEF,
    /// Init code too large.
    CreateInitCodeSizeLimit,
    /// Error that the database gave back.
    FatalExternalError,
}

impl InstructionResult {
    /// The code of this reason.
    pub open spec fn spec_code(self) -> u8 {
        match self {
            InstructionResult::Stop => 0x01,
            InstructionResult::Return => 0x02,
            InstructionResult::SelfDestruct => 0x03,
            InstructionResult::Revert => 0x10,
            InstructionResult::CallTooDeep => 0x11,
            InstructionResult::OutOfFunds => 0x12,
            InstructionResult::CreateInitCodeStartingEF00 => 0x13,
            InstructionResult::InvalidEOFInitCode => 0x14,
            InstructionResult::InvalidExtDelegateCallTarget => 0x15,
            InstructionResult::OutOfGas => 0x20,
            InstructionResult::MemoryOOG => 0x21,
            InstructionResult::MemoryLimitOOG => 0x22,
            InstructionResult::PrecompileOOG => 0x23,
            InstructionResult::InvalidOperandOOG => 0x24,
            InstructionResult::ReentrancySentryOOG => 0x25,
            InstructionResult::OpcodeNotFound => 0x26,
            InstructionResult::CallNotAllowedInsideStatic => 0x27,
            InstructionResult::StateChangeDuringStaticCall => 0x28,
            InstructionResult::InvalidFEOpcode => 0x29,
            InstructionResult::InvalidJump => 0x2a,
            InstructionResult::NotActivated => 0x2b,
            InstructionResult::StackUnderflow => 0x2c,
            InstructionResult::StackOverflow => 0x2d,
            InstructionResult::OutOfOffset => 0x2e,
            InstructionResult::CreateCollision => 0x2f,
            InstructionResult::OverflowPayment => 0x30,
            InstructionResult::PrecompileError => 0x31,
            InstructionResult::NonceOverflow => 0x32,
            InstructionResult::CreateContractSizeLimit => 0x33,
            InstructionResult::CreateContractStartingWithEF => 0x34,
            InstructionResult::CreateInitCodeSizeLimit => 0x35,
            InstructionResult::FatalExternalError => 0x36,
        }
    }

    /// Whether `code` is the code of some reason.
    pub open spec fn known_code(code: u8) -> bool {
        exists|reason: InstructionResult| #[trigger] reason.spec_code() == code
    }

    /// The reason whose code is `code`.
    pub open spec fn of_code(code: u8) -> InstructionResult {
        choose|reason: InstructionResult| #[trigger] reason.spec_code() == code
    }

    /// The reason with the code `code`, if there is one.
    pub fn from_code(code: u8) -> (r: Option<InstructionResult>)
        ensures
            r is Some <==> InstructionResult::known_code(code),
            r matches Some(reason) ==> reason.spec_code() == code && reason
                == InstructionResult::of_code(code),
    {
        let reason = match code {
            0x01 => InstructionResult::Stop,
            0x02 => InstructionResult::Return,
            0x03 => InstructionResult::SelfDestruct,
            0x10 => InstructionResult::Revert,
            0x11 => InstructionResult::CallTooDeep,
            0x12 => InstructionResult::OutOfFunds,
            0x13 => InstructionResult::CreateInitCodeStartingEF00,
            0x14 => InstructionResult::InvalidEOFInitCode,
            0x15 => InstructionResult::InvalidExtDelegateCallTarget,
            0x20 => InstructionResult::OutOfGas,
            0x21 => InstructionResult::MemoryOOG,
            0x22 => InstructionResult::MemoryLimitOOG,
            0x23 => InstructionResult::PrecompileOOG,
            0x24 => InstructionResult::InvalidOperandOOG,
            0x25 => InstructionResult::ReentrancySentryOOG,
            0x26 => InstructionResult::OpcodeNotFound,
            0x27 => InstructionResult::CallNotAllowedInsideStatic,
            0x28 => InstructionResult::StateChangeDuringStaticCall,
            0x29 => InstructionResult::InvalidFEOpcode,
            0x2a => InstructionResult::InvalidJump,
            0x2b => InstructionResult::NotActivated,
            0x2c => InstructionResult::StackUnderflow,
            0x2d => InstructionResult::StackOverflow,
            0x2e => InstructionResult::OutOfOffset,
            0x2f => InstructionResult::CreateCollision,
            0x30 => InstructionResult::OverflowPayment,
            0x31 => InstructionResult::PrecompileError,
            0x32 => InstructionResult::NonceOverflow,
            0x33 => InstructionResult::CreateContractSizeLimit,
            0x34 => InstructionResult::CreateContractStartingWithEF,
            0x35 => InstructionResult::CreateInitCodeSizeLimit,
            0x36 => InstructionResult::FatalExternalError,
            _ => {
                return None;
            },
        };
        assert(reason.spec_code() == code);
        Some(reason)
    }

    /// Whether the call succeeded.
    pub open spec fn spec_is_ok(self) -> bool {
        self is Stop || self is Return || self is SelfDestruct
    }

    /// Whether the call succeeded.
    pub fn is_ok(&self) -> (r: bool)
        ensures
            r == self.spec_is_ok(),
    {
        match self {
            InstructionResult::Stop | InstructionResult::Return
            | InstructionResult::SelfDestruct => true,
            _ => false,
        }
    }
}

/// The call frames that revm's tracing inspector recorded, carried and not looked into.
#[verifier::external_type_specification]
#[verifier::external_body]
pub struct ExCallTraceArena(revm_inspectors::tracing::CallTraceArena);

/// What a transaction that succeeded returned.
#[derive(Debug, Clone, PartialEq, Eq)]
pub enum Output {
    /// Return data of a call.
    Call(Vec<u8>),
    /// Code of a created contract, and its address.
    Create(Vec<u8>, Option<Address>),
}

/// What an [`Output`] holds.
pub enum OutputView {
    /// Return data of a call.
    Call(Seq<u8>),
    /// Code of a created contract, and its address.
    Create(Seq<u8>, Option<Address>),
}

impl View for Output {
    type V = OutputView;

    open spec fn view(&self) -> OutputView {
        match self {
            Output::Call(data) => OutputView::Call(data@),
            Output::Create(data, address) => OutputView::Create(data@, *address),
        }
    }
}

/// How the EVM answered a transaction that it ran.
#[derive(Debug, Clone, PartialEq, Eq)]
pub enum Outcome {
    /// The transaction succeeded.
    Success {
        /// Code of the [`InstructionResult`] it ended with.
        code: u8,
        /// Gas consumed.
        gas_used: u64,
        /// What it returned.
        output: Output,
    },
    /// The transaction reverted.
    Revert {
        /// Gas consumed.
        gas_used: u64,
        /// Revert data.
        output: Vec<u8>,
    },
    /// The transaction was stopped by an error.
    Halt {
        /// Code of the [`InstructionResult`] it ended with.
        code: u8,
        /// Gas consumed.
        gas_used: u64,
    },
}

/// What an [`Outcome`] holds.
pub enum OutcomeView {
    /// The transaction succeeded.
    Success {
        /// Code of the [`InstructionResult`] it ended with.
        code: u8,
        /// Gas consumed.
        gas_used: u64,
        /// What it returned.
        output: OutputView,
    },
    /// The transaction reverted.
    Revert {
        /// Gas consumed.
        gas_used: u64,
        /// Revert data.
        output: Seq<u8>,
    },
    /// The transaction was stopped by an error.
    Halt {
        /// Code of the [`InstructionResult`] it ended with.
        code: u8,
        /// Gas consumed.
        gas_used: u64,
    },
}

impl View for Outcome {
    type V = OutcomeView;

    open spec fn view(&self) -> OutcomeView {
        match self {
            Outcome::Success { code, gas_used, output } => OutcomeView::Success {
                code: *code,
                gas_used: *gas_used,
                output: output@,
            },
            Outcome::Revert { gas_used, output } => OutcomeView::Revert {
                gas_used: *gas_used,
                output: output@,
            },
            Outcome::Halt { code, gas_used } => OutcomeView::Halt {
                code: *code,
                gas_used: *gas_used,
            },
        }
    }
}

impl OutcomeView {
    /// A success ends with a reason that means success, a halt with one that means neither success
    /// nor a plain revert.
    pub open spec fn well_formed(self) -> bool {
        match self {
            OutcomeView::Success { code, .. } => InstructionResult::known_code(code)
                && InstructionResult::of_code(code).spec_is_ok(),
            OutcomeView::Revert { .. } => true,
            OutcomeView::Halt { code, .. } => InstructionResult::known_code(code)
                && !InstructionResult::of_code(code).spec_is_ok()
                && InstructionResult::of_code(code) != InstructionResult::Revert,
        }
    }

    /// The reason the transaction ended with.
    pub open spec fn exit_reason(self) -> InstructionResult {
        match self {
            OutcomeView::Success { code, .. } => InstructionResult::of_code(code),
            OutcomeView::Revert { .. } => InstructionResult::Revert,
            OutcomeView::Halt { code, .. } => InstructionResult::of_code(code),
        }
    }

    /// The bytes the transaction returned: none if it created a contract or was stopped by an
    /// error.
    pub open spec fn data(self) -> Seq<u8> {
        match self {
            OutcomeView::Success { output: OutputView::Call(data), .. } => data,
            OutcomeView::Success { output: OutputView::Create(..), .. } => Seq::empty(),
            OutcomeView::Revert { output, .. } => output,
            OutcomeView::Halt { .. } => Seq::empty(),
        }
    }

    /// The gas the transaction consumed.
    pub open spec fn gas(self) -> u64 {
        match self {
            OutcomeView::Success { gas_used, .. } => gas_used,
            OutcomeView::Revert { gas_used, .. } => gas_used,
            OutcomeView::Halt { gas_used, .. } => gas_used,
        }
    }
}

/// Raw result of a forked EVM call: the exit status, the return bytes, the gas consumed, the call
/// traces and the environment the call ran against.
#[derive(Debug, Clone)]
pub struct RawCallResult {
    /// The EVM exit status of the call.
    pub exit_reason: InstructionResult,
    /// Whether the call reverted.
    pub reverted: bool,
    /// The raw returned bytes of the call (empty on halt/create).
    pub result: Vec<u8>,
    /// Gas consumed by the call.
    pub gas_used: u64,
    /// The call-trace arena collected by the tracing inspector, if any.
    pub traces: Option<revm_inspectors::tracing::CallTraceArena>,
    /// The environment (cfg/block/tx) the call executed against.
    pub env: Env,
}

/// What a [`RawCallResult`] holds.
pub struct RawCallResultView {
    /// The EVM exit status of the call.
    pub exit_reason: InstructionResult,
    /// Whether the call reverted.
    pub reverted: bool,
    /// The raw returned bytes of the call.
    pub result: Seq<u8>,
    /// Gas consumed by the call.
    pub gas_used: u64,
    /// The call-trace arena collected by the tracing inspector, if any.
    pub traces: Option<revm_inspectors::tracing::CallTraceArena>,
    /// The environment the call executed against.
    pub env: EnvView,
}

impl View for RawCallResult {
    type V = RawCallResultView;

    open spec fn view(&self) -> RawCallResultView {
        RawCallResultView {
            exit_reason: self.exit_reason,
            reverted: self.reverted,
            result: self.result@,
            gas_used: self.gas_used,
            traces: self.traces,
            env: self.env@,
        }
    }
}

/// The result of a call that the EVM answered with `outcome`, that left `traces` and that ran
/// against `env`.
pub open spec fn raw_result(
    outcome: OutcomeView,
    traces: revm_inspectors::tracing::CallTraceArena,
    env: EnvView,
) -> RawCallResultView {
    RawCallResultView {
        exit_reason: outcome.exit_reason(),
        reverted: !outcome.exit_reason().spec_is_ok(),
        result: outcome.data(),
        gas_used: outcome.gas(),
        traces: Some(traces),
        env,
    }
}

/// The reason whose code is `code`.
fn known_reason(code: u8) -> (r: InstructionResult)
    requires
        InstructionResult::known_code(code),
    ensures
        r == InstructionResult::of_code(code),
{
    match InstructionResult::from_code(code) {
        Some(reason) => reason,
        None => InstructionResult::FatalExternalError,
    }
}

impl RawCallResult {
    /// Converts the EVM's answer to a transaction into the result of the call.
    pub fn from_outcome(
        outcome: Outcome,
        traces: revm_inspectors::tracing::CallTraceArena,
        env: Env,
    ) -> (r: RawCallResult)
        requires
            outcome@.well_formed(),
        ensures
            r@ == raw_result(outcome@, traces, env@),
            r.env == env,
            r.traces == Some(traces),
            match outcome {
                Outcome::Success { code, gas_used, output } => {
                    &&& r.exit_reason.spec_code() == code
                    &&& !r.reverted
                    &&& r.gas_used == gas_used
                    &&& output matches Output::Call(data) ==> r.result@ == data@
                    &&& output matches Output::Create(_, _) ==> r.result@.len() == 0
                },
                Outcome::Revert { gas_used, output } => {
                    &&& r.exit_reason == InstructionResult::Revert
                    &&& r.reverted
                    &&& r.gas_used == gas_used
                    &&& r.result@ == output@
                },
                Outcome::Halt { code, gas_used } => {
                    &&& r.exit_reason.spec_code() == code
                    &&& r.reverted
                    &&& r.gas_used == gas_used
                    &&& r.result@.len() == 0
                },
            },
    {
        let (exit_reason, result, gas_used) = match outcome {
            Outcome::Success { code, gas_used, output } => {
                let data = match output {
                    Output::Call(data) => data,
                    Output::Create(_, _) => Vec::new(),
                };
                (known_reason(code), data, gas_used)
            },
            Outcome::Revert { gas_used, output } => (InstructionResult::Revert, output, gas_used),
            Outcome::Halt { code, gas_used } => (known_reason(code), Vec::new(), gas_used),
        };
        RawCallResult {
            reverted: !exit_reason.is_ok(),
            exit_reason,
            result,
            gas_used,
            traces: Some(traces),
            env,
        }
    }
}

/// A call reverted exactly when the EVM did not answer it with a success; its reason is a plain
/// revert exactly when the EVM answered it with one, and no bytes come back from a halt or from the
/// creation of a contract.
pub proof fn reverted_iff_not_success(
    outcome: OutcomeView,
    traces: revm_inspectors::tracing::CallTraceArena,
    env: EnvView,
)
    requires
        outcome.well_formed(),
    ensures
        raw_result(outcome, traces, env).reverted <==> !(outcome is Success),
        raw_result(outcome, traces, env).exit_reason == InstructionResult::Revert <==> outcome
            is Revert,
        outcome is Halt ==> raw_result(outcome, traces, env).result.len() == 0,
        outcome matches OutcomeView::Success { output: OutputView::Create(..), .. } ==> raw_result(
            outcome,
            traces,
            env,
        ).result.len() == 0,
{
}

} // verus!
