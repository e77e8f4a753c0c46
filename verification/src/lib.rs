//! Safe, verified layer around a native blockchain validation engine.
//!
//! The crate models the caller-visible rules of the engine's C interface:
//! the error taxonomy, the closed tables of integral constants, the script
//! verification flag set and its preconditions, the builder and lifetime
//! discipline of the validation context, and the process-wide logging
//! state. Every function here is verified; the raw foreign calls themselves
//! live outside this crate and feed their outcomes in as plain values.

use vstd::prelude::*;

pub mod block;
pub mod chain;
pub mod constants;
pub mod enums;
pub mod error;
pub mod logger;
pub mod transaction;

pub use crate::block::{Block, BlockIndex, BlockUndo, Coin};
pub use crate::chain::{
    ChainParams, ChainstateManager, ChainstateManagerOptions, Context, ContextLifecycle,
    ContextOptions,
};
pub use crate::error::{KernelError, ScriptVerifyError};
pub use crate::logger::{disable_logging, KernelNotifications, Logger, ValidationInterface};
pub use crate::transaction::{ScriptPubkey, Transaction, TransactionOutput, TransactionSpentOutputs};

use crate::constants::{
    SCRIPT_FLAGS_VERIFY_ALL, SCRIPT_FLAGS_VERIFY_TAPROOT, flags_require_spent_outputs,
    valid_verification_flags, verification_flags_require_spent_outputs, verification_flags_valid,
};
use crate::enums::ScriptVerifyStatus;

verus! {

/// The flag word a verification call actually uses: an absent word selects
/// every defined flag.
pub open spec fn spec_effective_flags(flags: Option<u32>) -> u32 {
    match flags {
        Some(f) => f,
        None => SCRIPT_FLAGS_VERIFY_ALL,
    }
}

/// The caller-side preconditions of one script verification call, checked in
/// this order: the input index must name an input of the transaction (else
/// `OutOfBounds`); a non-empty spent-outputs list must cover the inputs
/// one-for-one (else `InvalidLength`); the flag word must hold only defined
/// bits (else `InvalidFlags`); and taproot-aware flags need spent outputs
/// (else `SpentOutputsRequired`).
pub open spec fn spec_verify_script_checks(
    input_count: usize,
    spent_outputs_len: usize,
    input_index: u32,
    flags: u32,
) -> Result<(), KernelError> {
    if input_index as usize >= input_count {
        Err(KernelError::OutOfBounds)
    } else if spent_outputs_len != 0 && spent_outputs_len != input_count {
        Err(KernelError::InvalidLength { expected: input_count, actual: spent_outputs_len })
    } else if !valid_verification_flags(flags) {
        Err(KernelError::ScriptVerify(ScriptVerifyError::InvalidFlags))
    } else if flags_require_spent_outputs(flags) && spent_outputs_len == 0 {
        Err(KernelError::ScriptVerify(ScriptVerifyError::SpentOutputsRequired))
    } else {
        Ok(())
    }
}

/// Checks every caller-side precondition of a script verification call and
/// hands back the flag word to give the engine. Nothing is sent to the
/// engine until this returns `Ok`.
pub fn verify_script_checks(
    tx_to: &Transaction,
    spent_outputs: &[TransactionOutput],
    input_index: u32,
    flags: Option<u32>,
) -> (r: Result<u32, KernelError>)
    ensures
        match spec_verify_script_checks(
            tx_to.spec_input_count(),
            spent_outputs@.len() as usize,
            input_index,
            spec_effective_flags(flags),
        ) {
            Ok(()) => r == Ok::<u32, KernelError>(spec_effective_flags(flags)),
            Err(e) => r == Err::<u32, KernelError>(e),
        },
{
    let effective: u32 = match flags {
        Some(f) => f,
        None => SCRIPT_FLAGS_VERIFY_ALL,
    };
    let input_count = tx_to.input_count();
    let spent_len = spent_outputs.len();
    if input_index as usize >= input_count {
        Err(KernelError::OutOfBounds)
    } else if spent_len != 0 && spent_len != input_count {
        Err(KernelError::InvalidLength { expected: input_count, actual: spent_len })
    } else if !verification_flags_valid(effective) {
        Err(KernelError::ScriptVerify(ScriptVerifyError::InvalidFlags))
    } else if verification_flags_require_spent_outputs(effective) && spent_len == 0 {
        Err(KernelError::ScriptVerify(ScriptVerifyError::SpentOutputsRequired))
    } else {
        Ok(effective)
    }
}

/// Maps an engine verdict into the error taxonomy: acceptance is `Ok`, and
/// every reported status has its own failure reason.
pub open spec fn spec_script_verdict_result(
    accepted: bool,
    status: ScriptVerifyStatus,
) -> Result<(), KernelError> {
    if accepted {
        Ok(())
    } else {
        match status {
            ScriptVerifyStatus::Success => Err(
                KernelError::ScriptVerify(ScriptVerifyError::Invalid),
            ),
            ScriptVerifyStatus::ErrorInvalidFlagsCombination => Err(
                KernelError::ScriptVerify(ScriptVerifyError::InvalidFlagsCombination),
            ),
            ScriptVerifyStatus::ErrorSpentOutputsRequired => Err(
                KernelError::ScriptVerify(ScriptVerifyError::SpentOutputsRequired),
            ),
        }
    }
}

/// Maps the engine's verdict on one verification call into the error
/// taxonomy, for every verdict the engine can report.
pub fn interpret_script_verdict(accepted: bool, status: ScriptVerifyStatus) -> (r: Result<
    (),
    KernelError,
>)
    ensures
        r == spec_script_verdict_result(accepted, status),
{
    if accepted {
        Ok(())
    } else {
        match status {
            ScriptVerifyStatus::Success => Err(
                KernelError::ScriptVerify(ScriptVerifyError::Invalid),
            ),
            ScriptVerifyStatus::ErrorInvalidFlagsCombination => Err(
                KernelError::ScriptVerify(ScriptVerifyError::InvalidFlagsCombination),
            ),
            ScriptVerifyStatus::ErrorSpentOutputsRequired => Err(
                KernelError::ScriptVerify(ScriptVerifyError::SpentOutputsRequired),
            ),
        }
    }
}

/// The full result of one script verification call: a precondition failure
/// if any check trips, the engine's verdict otherwise.
pub open spec fn spec_verify_script(
    input_count: usize,
    spent_outputs_len: usize,
    input_index: u32,
    flags: u32,
    accepted: bool,
    status: ScriptVerifyStatus,
) -> Result<(), KernelError> {
    match spec_verify_script_checks(input_count, spent_outputs_len, input_index, flags) {
        Ok(()) => spec_script_verdict_result(accepted, status),
        Err(e) => Err(e),
    }
}

/// Verifies that input `input_index` of `tx_to` correctly satisfies
/// `script_pubkey`, given the amount being spent and the outputs spent by
/// the transaction. Verification itself is the engine's: its verdict on
/// these arguments enters as `accepted` and `status`, and decides the result
/// only once every caller-side precondition holds — the preconditions are
/// enforced here first, so a precondition failure is reported whatever the
/// verdict says. `amount` is part of the request the engine judges; no rule
/// of this layer reads it.
pub fn verify_script(
    script_pubkey: &ScriptPubkey,
    amount: Option<i64>,
    tx_to: &Transaction,
    spent_outputs: &[TransactionOutput],
    input_index: u32,
    flags: Option<u32>,
    accepted: bool,
    status: ScriptVerifyStatus,
) -> (r: Result<(), KernelError>)
    ensures
        r == spec_verify_script(
            tx_to.spec_input_count(),
            spent_outputs@.len() as usize,
            input_index,
            spec_effective_flags(flags),
            accepted,
            status,
        ),
{
    match verify_script_checks(tx_to, spent_outputs, input_index, flags) {
        Ok(_) => interpret_script_verdict(accepted, status),
        Err(e) => Err(e),
    }
}

/// An input index at or beyond the transaction's input count is rejected as
/// `OutOfBounds`, whatever the other arguments are and whatever the engine's
/// verdict would have been.
pub proof fn lemma_out_of_range_input_index_rejected(
    input_count: usize,
    spent_outputs_len: usize,
    input_index: u32,
    flags: u32,
    accepted: bool,
    status: ScriptVerifyStatus,
)
    requires
        input_index as usize >= input_count,
    ensures
        spec_verify_script(input_count, spent_outputs_len, input_index, flags, accepted, status)
            == Err::<(), KernelError>(KernelError::OutOfBounds),
{
}

/// With a taproot-aware flag set and no spent outputs supplied, verification
/// reports that spent outputs are required, whatever the engine's verdict
/// would have been.
pub proof fn lemma_taproot_needs_spent_outputs(
    input_count: usize,
    input_index: u32,
    flags: u32,
    accepted: bool,
    status: ScriptVerifyStatus,
)
    requires
        (input_index as usize) < input_count,
        valid_verification_flags(flags),
        flags & SCRIPT_FLAGS_VERIFY_TAPROOT != 0,
    ensures
        spec_verify_script(input_count, 0, input_index, flags, accepted, status) == Err::<
            (),
            KernelError,
        >(KernelError::ScriptVerify(ScriptVerifyError::SpentOutputsRequired)),
{
}

/// Once every caller-side precondition holds, the engine's verdict alone
/// decides the result; in particular an accepted verdict gives `Ok`.
pub proof fn lemma_verdict_decides_when_checks_pass(
    input_count: usize,
    spent_outputs_len: usize,
    input_index: u32,
    flags: u32,
    accepted: bool,
    status: ScriptVerifyStatus,
)
    requires
        spec_verify_script_checks(input_count, spent_outputs_len, input_index, flags) == Ok::<
            (),
            KernelError,
        >(()),
    ensures
        spec_verify_script(input_count, spent_outputs_len, input_index, flags, accepted, status)
            == spec_script_verdict_result(accepted, status),
        accepted ==> spec_verify_script(
            input_count,
            spent_outputs_len,
            input_index,
            flags,
            accepted,
            status,
        ) == Ok::<(), KernelError>(()),
{
}

} // verus!
