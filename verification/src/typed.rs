//! Calls whose return data has a type.

use crate::error::{ForkCallError, ForkCallErrorView};
use crate::result::{InstructionResult, RawCallResult, RawCallResultView};
use vstd::prelude::*;
use vstd::string::StringExecFns;

verus! {

/// Result of a typed call: the raw EVM result plus the ABI-decoded return.
#[derive(Debug)]
pub struct ForkTypedReturn<R> {
    /// The raw EVM call result, including traces and exit reason.
    pub raw: RawCallResult,
    /// The ABI-decoded return value.
    pub typed_return: R,
}

/// What is to be decoded of a typed call's result.
#[derive(Debug)]
pub enum TypedStep {
    /// The bytes are revert data, to be decoded as an error.
    DecodeError(RawCallResult),
    /// The bytes are return data, to be decoded as the call's return type.
    DecodeReturn(RawCallResult),
}

/// What a [`TypedStep`] holds.
pub enum TypedStepView {
    /// The bytes are revert data.
    DecodeError(RawCallResultView),
    /// The bytes are return data.
    DecodeReturn(RawCallResultView),
}

impl View for TypedStep {
    type V = TypedStepView;

    open spec fn view(&self) -> TypedStepView {
        match self {
            TypedStep::DecodeError(raw) => TypedStepView::DecodeError(raw@),
            TypedStep::DecodeReturn(raw) => TypedStepView::DecodeReturn(raw@),
        }
    }
}

/// What is to be decoded, given what the call gave and whether reverts are to be decoded: a plain
/// revert where they are, else the return data of a call that succeeded.
pub open spec fn typed_step(
    r: Result<RawCallResultView, ForkCallErrorView>,
    decode_error: bool,
) -> Result<TypedStepView, ForkCallErrorView> {
    match r {
        Ok(raw) => if decode_error && raw.exit_reason == InstructionResult::Revert {
            Ok(TypedStepView::DecodeError(raw))
        } else if !raw.exit_reason.spec_is_ok() {
            Err(ForkCallErrorView::Failed(raw))
        } else {
            Ok(TypedStepView::DecodeReturn(raw))
        },
        Err(error) => Err(error),
    }
}

/// What a step or an error holds.
pub open spec fn step_view(r: Result<TypedStep, ForkCallError>) -> Result<
    TypedStepView,
    ForkCallErrorView,
> {
    match r {
        Ok(step) => Ok(step@),
        Err(error) => Err(error@),
    }
}

/// Decides what is to be decoded of a raw result, surfacing reverts as errors to be decoded when
/// requested.
pub fn decode_typed(raw: RawCallResult, decode_error: bool) -> (r: Result<TypedStep, ForkCallError>)
    ensures
        step_view(r) == typed_step(Ok(raw@), decode_error),
        raw.exit_reason is Stop || raw.exit_reason is Return || raw.exit_reason is SelfDestruct
            ==> r == Ok::<_, ForkCallError>(TypedStep::DecodeReturn(raw)),
        raw.exit_reason is Revert && decode_error ==> r == Ok::<_, ForkCallError>(
            TypedStep::DecodeError(raw),
        ),
{
    if decode_error && raw.exit_reason == InstructionResult::Revert {
        return Ok(TypedStep::DecodeError(raw));
    }
    if !raw.exit_reason.is_ok() {
        return Err(ForkCallError::Failed(Box::new(raw)));
    }
    Ok(TypedStep::DecodeReturn(raw))
}

/// Return data that is not what a call's type says, each part written out for people to read.
#[derive(Debug)]
pub struct DecodeFailure {
    /// The call's type.
    pub call: String,
    /// What the decoder says.
    pub error: String,
    /// The raw result.
    pub raw: String,
}

/// The text of a [`DecodeFailure`].
pub open spec fn failure_text(failure: DecodeFailure) -> Seq<char> {
    "Call:"@ + failure.call@ + " Error:"@ + failure.error@ + " Raw:"@ + failure.raw@
}

impl<R> ForkTypedReturn<R> {
    /// Puts a typed result together from the raw one and from what decoding its bytes gave.
    pub fn from_decoded(raw: RawCallResult, decoded: Result<R, DecodeFailure>) -> (r: Result<
        ForkTypedReturn<R>,
        ForkCallError,
    >)
        ensures
            match decoded {
                Ok(typed_return) => r == Ok::<_, ForkCallError>(
                    (ForkTypedReturn { raw, typed_return }),
                ),
                Err(failure) => r matches Err(error) && error@ == ForkCallErrorView::TypedError(
                    failure_text(failure),
                ),
            },
    {
        match decoded {
            Ok(typed_return) => Ok(ForkTypedReturn { raw, typed_return }),
            Err(failure) => {
                let text = "Call:".to_owned().concat(failure.call.as_str()).concat(
                    " Error:",
                ).concat(failure.error.as_str()).concat(" Raw:").concat(failure.raw.as_str());
                Err(ForkCallError::TypedError(text))
            },
        }
    }
}

} // verus!
