//! Owned handles for blocks and chain-state query results.

use vstd::prelude::*;
use crate::error::KernelError;
use crate::transaction::{TransactionOutput, TransactionSpentOutputs};

verus! {

/// A block, held as the raw encoded bytes it was constructed from.
///
/// The bytes are kept verbatim, so re-serializing a block yields output
/// byte-identical to the input it was built from.
pub struct Block {
    raw: Vec<u8>,
}

/// The handle `Block::from_bytes` hands out for accepted bytes.
pub closed spec fn spec_block_of(raw: Vec<u8>) -> Block {
    Block { raw }
}

/// Round trip: a block constructed from raw bytes re-serializes to output
/// byte-identical to those bytes — `serialize` returns exactly the
/// `spec_bytes` that construction stored.
pub proof fn lemma_block_round_trip(raw: Vec<u8>)
    ensures
        spec_block_of(raw).spec_bytes() == raw@,
{
}

impl Block {
    /// The encoded bytes this handle stands for.
    pub closed spec fn spec_bytes(self) -> Seq<u8> {
        self.raw@
    }

    /// Builds the handle from raw bytes and the engine's reading of them:
    /// `decode_ok` says whether the engine accepted the encoding. Malformed
    /// bytes thus yield `SerializationFailed` and nothing else.
    pub fn from_bytes(raw: Vec<u8>, decode_ok: bool) -> (r: Result<Block, KernelError>)
        ensures
            decode_ok ==> r == Ok::<Block, KernelError>(spec_block_of(raw)),
            decode_ok ==> (r matches Ok(b) && b.spec_bytes() == raw@),
            !decode_ok ==> r == Err::<Block, KernelError>(KernelError::SerializationFailed),
    {
        if decode_ok {
            Ok(Block { raw })
        } else {
            Err(KernelError::SerializationFailed)
        }
    }

    /// The block's encoded bytes, exactly as constructed.
    pub fn serialize(&self) -> (r: &[u8])
        ensures
            r@ == self.spec_bytes(),
    {
        self.raw.as_slice()
    }
}

/// One block's position and summary within the chain structure, without its
/// full contents.
pub struct BlockIndex {
    height: i32,
    block_hash: [u8; 32],
}

impl BlockIndex {
    /// The height this index points at.
    pub closed spec fn spec_height(self) -> i32 {
        self.height
    }

    /// The hash of the block this index points at.
    pub closed spec fn spec_block_hash(self) -> Seq<u8> {
        self.block_hash@
    }

    pub fn new(height: i32, block_hash: [u8; 32]) -> (r: BlockIndex)
        ensures
            r.spec_height() == height,
            r.spec_block_hash() == block_hash@,
    {
        BlockIndex { height, block_hash }
    }

    pub fn height(&self) -> (r: i32)
        ensures
            r == self.spec_height(),
    {
        self.height
    }

    pub fn block_hash(&self) -> (r: &[u8; 32])
        ensures
            r@ == self.spec_block_hash(),
    {
        &self.block_hash
    }
}

/// The undo data of one block: for each of its transactions, the outputs
/// that the transaction spent, in transaction order.
pub struct BlockUndo {
    spent: Vec<TransactionSpentOutputs>,
}

impl BlockUndo {
    /// The per-transaction spent-output sets the undo data holds.
    pub closed spec fn spec_spent(self) -> Seq<TransactionSpentOutputs> {
        self.spent@
    }

    pub fn new(spent: Vec<TransactionSpentOutputs>) -> (r: BlockUndo)
        ensures
            r.spec_spent() == spent@,
    {
        BlockUndo { spent }
    }

    /// How many transactions the undo data covers.
    pub fn transaction_count(&self) -> (r: usize)
        ensures
            r == self.spec_spent().len(),
    {
        self.spent.len()
    }

    /// The spent outputs of the transaction at `index`, or `OutOfBounds`
    /// past the end.
    pub fn get(&self, index: usize) -> (r: Result<&TransactionSpentOutputs, KernelError>)
        ensures
            index < self.spec_spent().len() ==> (r matches Ok(s) && *s == self.spec_spent()[index as int]),
            index >= self.spec_spent().len() ==> r == Err::<&TransactionSpentOutputs, KernelError>(
                KernelError::OutOfBounds,
            ),
    {
        if index < self.spent.len() {
            Ok(&self.spent[index])
        } else {
            Err(KernelError::OutOfBounds)
        }
    }
}

/// One unspent-transaction-output record as seen by the current chain view.
pub struct Coin {
    output: TransactionOutput,
    confirmation_height: u32,
    is_coinbase: bool,
}

impl Coin {
    /// The output the coin holds.
    pub closed spec fn spec_output(self) -> TransactionOutput {
        self.output
    }

    /// The height of the block the coin was confirmed in.
    pub closed spec fn spec_confirmation_height(self) -> u32 {
        self.confirmation_height
    }

    /// Whether the coin comes from a coinbase transaction.
    pub closed spec fn spec_is_coinbase(self) -> bool {
        self.is_coinbase
    }

    pub fn new(output: TransactionOutput, confirmation_height: u32, is_coinbase: bool) -> (r: Coin)
        ensures
            r.spec_output() == output,
            r.spec_confirmation_height() == confirmation_height,
            r.spec_is_coinbase() == is_coinbase,
    {
        Coin { output, confirmation_height, is_coinbase }
    }

    pub fn output(&self) -> (r: &TransactionOutput)
        ensures
            *r == self.spec_output(),
    {
        &self.output
    }

    pub fn confirmation_height(&self) -> (r: u32)
        ensures
            r == self.spec_confirmation_height(),
    {
        self.confirmation_height
    }

    pub fn is_coinbase(&self) -> (r: bool)
        ensures
            r == self.spec_is_coinbase(),
    {
        self.is_coinbase
    }
}

} // verus!
