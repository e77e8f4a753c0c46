use bitcoinkernel::constants::{
    SCRIPT_FLAGS_VERIFY_ALL, SCRIPT_FLAGS_VERIFY_P2SH, SCRIPT_FLAGS_VERIFY_TAPROOT,
    SCRIPT_FLAGS_VERIFY_WITNESS,
};
use bitcoinkernel::enums::ScriptVerifyStatus;
use bitcoinkernel::error::{KernelError, ScriptVerifyError};
use bitcoinkernel::transaction::{ScriptPubkey, Transaction, TransactionOutput};
use bitcoinkernel::{interpret_script_verdict, verify_script, verify_script_checks};

/// A legacy pay-to-pubkey-hash output script.
fn p2pkh_script() -> ScriptPubkey {
    let mut raw = vec![0x76u8, 0xa9, 0x14];
    raw.extend(std::iter::repeat(0x11u8).take(20));
    raw.push(0x88);
    raw.push(0xac);
    ScriptPubkey::new(raw)
}

fn transaction_with_inputs(n: usize) -> Transaction {
    Transaction::from_bytes(vec![0x02u8, 0x00, 0x00, 0x00], Some(n)).unwrap()
}

fn spent_outputs(n: usize) -> Vec<TransactionOutput> {
    let mut v = Vec::new();
    for _ in 0..n {
        v.push(TransactionOutput::new(p2pkh_script(), 50_000));
    }
    v
}

#[test]
fn all_flags_and_accepted_p2pkh_input_verifies() {
    let tx = transaction_with_inputs(1);
    let outs = spent_outputs(1);
    let r = verify_script(
        &p2pkh_script(),
        Some(50_000),
        &tx,
        &outs,
        0,
        Some(SCRIPT_FLAGS_VERIFY_ALL),
        true,
        ScriptVerifyStatus::Success,
    );
    assert_eq!(r, Ok(()));
}

#[test]
fn absent_flags_select_all_flags() {
    let tx = transaction_with_inputs(1);
    // With no flag word given, taproot-aware verification is selected, so an
    // empty spent-outputs list is refused just as with an explicit ALL.
    let r = verify_script(
        &p2pkh_script(),
        None,
        &tx,
        &[],
        0,
        None,
        true,
        ScriptVerifyStatus::Success,
    );
    assert_eq!(
        r,
        Err(KernelError::ScriptVerify(ScriptVerifyError::SpentOutputsRequired))
    );
    // With spent outputs supplied it goes through to the verdict.
    let outs = spent_outputs(1);
    let r = verify_script(
        &p2pkh_script(),
        None,
        &tx,
        &outs,
        0,
        None,
        true,
        ScriptVerifyStatus::Success,
    );
    assert_eq!(r, Ok(()));
}

#[test]
fn taproot_with_empty_spent_outputs_is_refused() {
    let tx = transaction_with_inputs(1);
    let r = verify_script(
        &p2pkh_script(),
        Some(50_000),
        &tx,
        &[],
        0,
        Some(SCRIPT_FLAGS_VERIFY_TAPROOT),
        true,
        ScriptVerifyStatus::Success,
    );
    assert_eq!(
        r,
        Err(KernelError::ScriptVerify(ScriptVerifyError::SpentOutputsRequired))
    );
}

#[test]
fn input_index_at_input_count_is_out_of_bounds() {
    let tx = transaction_with_inputs(1);
    let outs = spent_outputs(1);
    let r = verify_script(
        &p2pkh_script(),
        Some(50_000),
        &tx,
        &outs,
        1,
        Some(SCRIPT_FLAGS_VERIFY_ALL),
        true,
        ScriptVerifyStatus::Success,
    );
    assert_eq!(r, Err(KernelError::OutOfBounds));
}

#[test]
fn input_index_far_past_input_count_is_out_of_bounds() {
    let tx = transaction_with_inputs(2);
    let outs = spent_outputs(2);
    let r = verify_script(
        &p2pkh_script(),
        None,
        &tx,
        &outs,
        17,
        Some(SCRIPT_FLAGS_VERIFY_P2SH),
        false,
        ScriptVerifyStatus::Success,
    );
    assert_eq!(r, Err(KernelError::OutOfBounds));
}

#[test]
fn undefined_flag_bits_are_refused() {
    let tx = transaction_with_inputs(1);
    let outs = spent_outputs(1);
    let r = verify_script(
        &p2pkh_script(),
        Some(50_000),
        &tx,
        &outs,
        0,
        Some(1 << 1),
        true,
        ScriptVerifyStatus::Success,
    );
    assert_eq!(r, Err(KernelError::ScriptVerify(ScriptVerifyError::InvalidFlags)));
}

#[test]
fn mismatched_spent_outputs_length_is_refused() {
    let tx = transaction_with_inputs(2);
    let outs = spent_outputs(1);
    let r = verify_script(
        &p2pkh_script(),
        Some(50_000),
        &tx,
        &outs,
        0,
        Some(SCRIPT_FLAGS_VERIFY_ALL),
        true,
        ScriptVerifyStatus::Success,
    );
    assert_eq!(r, Err(KernelError::InvalidLength { expected: 2, actual: 1 }));
}

#[test]
fn precondition_failures_outrank_the_verdict() {
    let tx = transaction_with_inputs(1);
    let outs = spent_outputs(1);
    // Even an accepting verdict cannot rescue an out-of-range index.
    let r = verify_script(
        &p2pkh_script(),
        None,
        &tx,
        &outs,
        9,
        Some(SCRIPT_FLAGS_VERIFY_ALL),
        true,
        ScriptVerifyStatus::Success,
    );
    assert_eq!(r, Err(KernelError::OutOfBounds));
}

#[test]
fn rejecting_verdicts_map_to_their_own_reasons() {
    assert_eq!(interpret_script_verdict(true, ScriptVerifyStatus::Success), Ok(()));
    assert_eq!(
        interpret_script_verdict(false, ScriptVerifyStatus::Success),
        Err(KernelError::ScriptVerify(ScriptVerifyError::Invalid))
    );
    assert_eq!(
        interpret_script_verdict(false, ScriptVerifyStatus::ErrorInvalidFlagsCombination),
        Err(KernelError::ScriptVerify(ScriptVerifyError::InvalidFlagsCombination))
    );
    assert_eq!(
        interpret_script_verdict(false, ScriptVerifyStatus::ErrorSpentOutputsRequired),
        Err(KernelError::ScriptVerify(ScriptVerifyError::SpentOutputsRequired))
    );
}

#[test]
fn checks_hand_back_the_effective_flag_word() {
    let tx = transaction_with_inputs(1);
    let outs = spent_outputs(1);
    assert_eq!(
        verify_script_checks(&tx, &outs, 0, None),
        Ok(SCRIPT_FLAGS_VERIFY_ALL)
    );
    assert_eq!(
        verify_script_checks(&tx, &outs, 0, Some(SCRIPT_FLAGS_VERIFY_WITNESS)),
        Ok(SCRIPT_FLAGS_VERIFY_WITNESS)
    );
}

#[test]
fn witness_without_taproot_allows_empty_spent_outputs() {
    let tx = transaction_with_inputs(1);
    assert_eq!(
        verify_script_checks(&tx, &[], 0, Some(SCRIPT_FLAGS_VERIFY_WITNESS)),
        Ok(SCRIPT_FLAGS_VERIFY_WITNESS)
    );
}
