//! Owned handles for transactions, outputs, scripts and spent-output sets.
//!
//! Each handle stands for exactly one engine-side resource. The crate keeps
//! the plain data the caller-visible rules read — encoded bytes, counts,
//! amounts — while the engine alone interprets the encodings; its reading of
//! a byte string enters through the deserializing constructors as a plain
//! value.

use vstd::prelude::*;
use crate::error::KernelError;

verus! {

/// An output script, held as its raw encoded bytes.
pub struct ScriptPubkey {
    raw: Vec<u8>,
}

impl View for ScriptPubkey {
    type V = Seq<u8>;

    closed spec fn view(&self) -> Seq<u8> {
        self.raw@
    }
}

impl ScriptPubkey {
    /// Wraps raw script bytes. Any byte string is a syntactically valid
    /// script, so this never fails.
    pub fn new(raw: Vec<u8>) -> (r: ScriptPubkey)
        ensures
            r@ == raw@,
    {
        ScriptPubkey { raw }
    }

    /// The script's encoded bytes.
    pub fn as_bytes(&self) -> (r: &[u8])
        ensures
            r@ == self@,
    {
        self.raw.as_slice()
    }
}

/// One transaction output: an amount and the script that locks it.
pub struct TransactionOutput {
    script_pubkey: ScriptPubkey,
    amount: i64,
}

impl TransactionOutput {
    /// The output's locking script bytes.
    pub closed spec fn spec_script(self) -> Seq<u8> {
        self.script_pubkey@
    }

    /// The output's amount.
    pub closed spec fn spec_amount(self) -> i64 {
        self.amount
    }

    pub fn new(script_pubkey: ScriptPubkey, amount: i64) -> (r: TransactionOutput)
        ensures
            r.spec_script() == script_pubkey@,
            r.spec_amount() == amount,
    {
        TransactionOutput { script_pubkey, amount }
    }

    pub fn amount(&self) -> (r: i64)
        ensures
            r == self.spec_amount(),
    {
        self.amount
    }

    pub fn script_pubkey(&self) -> (r: &ScriptPubkey)
        ensures
            r@ == self.spec_script(),
    {
        &self.script_pubkey
    }
}

/// A transaction, held as its raw encoded bytes together with the input
/// count the engine decoded from them.
pub struct Transaction {
    raw: Vec<u8>,
    input_count: usize,
}

impl Transaction {
    /// The encoded bytes this handle stands for.
    pub closed spec fn spec_bytes(self) -> Seq<u8> {
        self.raw@
    }

    /// The number of inputs the engine decoded from the bytes.
    pub closed spec fn spec_input_count(self) -> usize {
        self.input_count
    }

    /// Builds the handle from raw bytes and the engine's reading of them:
    /// `decoded_input_count` is `Some` with the decoded input count when the
    /// engine accepted the bytes, `None` when it rejected them. Malformed
    /// bytes thus yield `SerializationFailed` and nothing else.
    pub fn from_bytes(raw: Vec<u8>, decoded_input_count: Option<usize>) -> (r: Result<
        Transaction,
        KernelError,
    >)
        ensures
            decoded_input_count matches Some(n) ==> (r matches Ok(t) && t.spec_bytes() == raw@
                && t.spec_input_count() == n),
            decoded_input_count is None ==> r == Err::<Transaction, KernelError>(
                KernelError::SerializationFailed,
            ),
    {
        match decoded_input_count {
            Some(n) => Ok(Transaction { raw, input_count: n }),
            None => Err(KernelError::SerializationFailed),
        }
    }

    /// How many inputs the transaction has.
    pub fn input_count(&self) -> (r: usize)
        ensures
            r == self.spec_input_count(),
    {
        self.input_count
    }

    /// The transaction's encoded bytes, exactly as constructed.
    pub fn as_bytes(&self) -> (r: &[u8])
        ensures
            r@ == self.spec_bytes(),
    {
        self.raw.as_slice()
    }
}

/// The outputs spent by one transaction, in input order.
pub struct TransactionSpentOutputs {
    outputs: Vec<TransactionOutput>,
}

impl TransactionSpentOutputs {
    /// The outputs the set holds.
    pub closed spec fn spec_outputs(self) -> Seq<TransactionOutput> {
        self.outputs@
    }

    pub fn new(outputs: Vec<TransactionOutput>) -> (r: TransactionSpentOutputs)
        ensures
            r.spec_outputs() == outputs@,
    {
        TransactionSpentOutputs { outputs }
    }

    /// How many spent outputs the set holds.
    pub fn len(&self) -> (r: usize)
        ensures
            r == self.spec_outputs().len(),
    {
        self.outputs.len()
    }

    /// The output at `index`, or `OutOfBounds` past the end.
    pub fn get(&self, index: usize) -> (r: Result<&TransactionOutput, KernelError>)
        ensures
            index < self.spec_outputs().len() ==> (r matches Ok(o) && *o == self.spec_outputs()[index as int]),
            index >= self.spec_outputs().len() ==> r == Err::<&TransactionOutput, KernelError>(
                KernelError::OutOfBounds,
            ),
    {
        if index < self.outputs.len() {
            Ok(&self.outputs[index])
        } else {
            Err(KernelError::OutOfBounds)
        }
    }

    /// A borrow of all outputs, for handing to script verification.
    pub fn as_slice(&self) -> (r: &[TransactionOutput])
        ensures
            r@ == self.spec_outputs(),
    {
        self.outputs.as_slice()
    }
}

} // verus!
