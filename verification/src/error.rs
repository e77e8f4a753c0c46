//! The error taxonomy shared by every component of the crate.
//!
//! Every fallible operation surfaces one of these kinds, so that callers can
//! tell retriable misuse apart from non-retriable engine failure.

use vstd::prelude::*;
use vstd::string::StringExecFns;

verus! {

/// The reasons one script verification call can fail.
#[derive(Clone, Copy, Debug, PartialEq, Eq, Structural)]
pub enum ScriptVerifyError {
    /// The input index does not name an input of the spending transaction.
    TxInputIndex,
    /// The serialized transaction size does not match its declared size.
    TxSizeMismatch,
    /// The spending transaction could not be deserialized.
    TxDeserialize,
    /// The flag word holds bits outside the defined flag set.
    InvalidFlags,
    /// The flag bits are individually defined but mutually inconsistent.
    InvalidFlagsCombination,
    /// The spent-outputs list does not line up with the transaction inputs.
    SpentOutputsMismatch,
    /// The selected flags need spent outputs, and none were supplied.
    SpentOutputsRequired,
    /// The script itself does not verify.
    Invalid,
}

/// An error of the validation layer.
#[derive(Clone, Debug, PartialEq, Eq)]
pub enum KernelError {
    /// The foreign engine failed; the message is opaque to this crate.
    Internal(String),
    /// A caller-supplied string holds an embedded terminator.
    CStringCreationFailed(String),
    /// A builder was misused or configured inconsistently.
    InvalidOptions(String),
    /// An index reached beyond the size of a collection.
    OutOfBounds,
    /// Script verification failed for the carried reason.
    ScriptVerify(ScriptVerifyError),
    /// Encoded bytes were malformed.
    SerializationFailed,
    /// A size-constrained input had the wrong length.
    InvalidLength { expected: usize, actual: usize },
}

/// The character for one decimal digit.
pub open spec fn digit_char(d: nat) -> char
    recommends
        d < 10,
{
    if d == 0 {
        '0'
    } else if d == 1 {
        '1'
    } else if d == 2 {
        '2'
    } else if d == 3 {
        '3'
    } else if d == 4 {
        '4'
    } else if d == 5 {
        '5'
    } else if d == 6 {
        '6'
    } else if d == 7 {
        '7'
    } else if d == 8 {
        '8'
    } else {
        '9'
    }
}

/// The decimal rendering of a number: most significant digit first,
/// no leading zeros except for the number zero itself.
pub open spec fn decimal_rep(n: nat) -> Seq<char>
    decreases n,
{
    if n < 10 {
        seq![digit_char(n)]
    } else {
        decimal_rep(n / 10).push(digit_char(n % 10))
    }
}

/// The characters of a digit sequence read back to front.
pub open spec fn digits_reversed(ds: Seq<u8>) -> Seq<char> {
    Seq::new(ds.len(), |i: int| digit_char(ds[ds.len() - 1 - i] as nat))
}

fn digit_str(d: u8) -> (r: &'static str)
    requires
        d < 10,
    ensures
        r@ == seq![digit_char(d as nat)],
{
    proof {
        reveal_strlit("0");
        reveal_strlit("1");
        reveal_strlit("2");
        reveal_strlit("3");
        reveal_strlit("4");
        reveal_strlit("5");
        reveal_strlit("6");
        reveal_strlit("7");
        reveal_strlit("8");
        reveal_strlit("9");
    }
    let r = match d {
        0 => "0",
        1 => "1",
        2 => "2",
        3 => "3",
        4 => "4",
        5 => "5",
        6 => "6",
        7 => "7",
        8 => "8",
        _ => "9",
    };
    proof {
        assert(r@ =~= seq![digit_char(d as nat)]);
    }
    r
}

/// Renders a number in decimal, as the standard formatter would.
pub fn decimal_string(n: usize) -> (r: String)
    ensures
        r@ == decimal_rep(n as nat),
{
    let mut digits: Vec<u8> = Vec::new();
    let mut m: usize = n;
    loop
        invariant_except_break
            decimal_rep(n as nat) =~= decimal_rep(m as nat) + digits_reversed(digits@),
            forall|i: int| 0 <= i < digits@.len() ==> digits@[i] < 10,
        ensures
            decimal_rep(n as nat) =~= digits_reversed(digits@),
            forall|i: int| 0 <= i < digits@.len() ==> digits@[i] < 10,
        decreases m,
    {
        let d: u8 = (m % 10) as u8;
        digits.push(d);
        if m < 10 {
            proof {
                let ds = digits@;
                assert(decimal_rep(m as nat) =~= seq![digit_char(d as nat)]);
                assert(digits_reversed(ds) =~= seq![digit_char(d as nat)] + digits_reversed(
                    ds.drop_last(),
                ));
                assert(decimal_rep(n as nat) =~= digits_reversed(ds));
            }
            break;
        }
        proof {
            let ds = digits@;
            assert(decimal_rep(m as nat) =~= decimal_rep((m as nat) / 10).push(
                digit_char((m as nat) % 10),
            ));
            assert(digits_reversed(ds) =~= seq![digit_char(d as nat)] + digits_reversed(
                ds.drop_last(),
            ));
            assert(decimal_rep((m as nat) / 10) + digits_reversed(ds) =~= decimal_rep(m as nat)
                + digits_reversed(ds.drop_last()));
        }
        m = m / 10;
    }
    let mut s = String::new();
    let mut i: usize = digits.len();
    while i > 0
        invariant
            i <= digits@.len(),
            forall|k: int| 0 <= k < digits@.len() ==> digits@[k] < 10,
            s@ =~= digits_reversed(digits@).take(digits@.len() - i),
        decreases i,
    {
        i = i - 1;
        let part = digit_str(digits[i]);
        s.append(part);
        proof {
            assert(s@ =~= digits_reversed(digits@).take(digits@.len() - i));
        }
    }
    proof {
        assert(digits_reversed(digits@).take(digits@.len() - 0) =~= digits_reversed(digits@));
        assert(s@ =~= decimal_rep(n as nat));
    }
    s
}

impl ScriptVerifyError {
    /// What `message` returns for this reason.
    pub open spec fn spec_message(self) -> Seq<char> {
        match self {
            ScriptVerifyError::TxInputIndex => "invalid input index"@,
            ScriptVerifyError::TxSizeMismatch => "transaction size mismatch"@,
            ScriptVerifyError::TxDeserialize => "transaction deserialization failed"@,
            ScriptVerifyError::InvalidFlags => "invalid verification flags"@,
            ScriptVerifyError::InvalidFlagsCombination => "invalid combination of verification flags"@,
            ScriptVerifyError::SpentOutputsMismatch => "spent outputs mismatch"@,
            ScriptVerifyError::SpentOutputsRequired => "spent outputs required"@,
            ScriptVerifyError::Invalid => "script verification failed"@,
        }
    }

    /// A fixed description of the failure reason.
    pub fn message(&self) -> (r: &'static str)
        ensures
            r@ == self.spec_message(),
    {
        match self {
            ScriptVerifyError::TxInputIndex => "invalid input index",
            ScriptVerifyError::TxSizeMismatch => "transaction size mismatch",
            ScriptVerifyError::TxDeserialize => "transaction deserialization failed",
            ScriptVerifyError::InvalidFlags => "invalid verification flags",
            ScriptVerifyError::InvalidFlagsCombination => "invalid combination of verification flags",
            ScriptVerifyError::SpentOutputsMismatch => "spent outputs mismatch",
            ScriptVerifyError::SpentOutputsRequired => "spent outputs required",
            ScriptVerifyError::Invalid => "script verification failed",
        }
    }
}

impl KernelError {
    /// What `message` returns for this error.
    pub open spec fn spec_message(self) -> Seq<char> {
        match self {
            KernelError::Internal(msg) => "Internal Error: "@ + msg@,
            KernelError::CStringCreationFailed(msg) => msg@,
            KernelError::InvalidOptions(msg) => msg@,
            KernelError::OutOfBounds => "Index out of bounds"@,
            KernelError::ScriptVerify(err) => "Script Verification failed: "@
                + err.spec_message(),
            KernelError::SerializationFailed => "Serialization failed"@,
            KernelError::InvalidLength { expected, actual } => "Invalid length: expected "@
                + decimal_rep(expected as nat) + ", got "@ + decimal_rep(actual as nat),
        }
    }

    /// A human-readable description of the error.
    pub fn message(&self) -> (r: String)
        ensures
            r@ == self.spec_message(),
    {
        match self {
            KernelError::Internal(msg) => String::from_str("Internal Error: ").concat(
                msg.as_str(),
            ),
            KernelError::CStringCreationFailed(msg) => msg.clone(),
            KernelError::InvalidOptions(msg) => msg.clone(),
            KernelError::OutOfBounds => String::from_str("Index out of bounds"),
            KernelError::ScriptVerify(err) => String::from_str(
                "Script Verification failed: ",
            ).concat(err.message()),
            KernelError::SerializationFailed => String::from_str("Serialization failed"),
            KernelError::InvalidLength { expected, actual } => {
                let expected_part = decimal_string(*expected);
                let actual_part = decimal_string(*actual);
                String::from_str("Invalid length: expected ").concat(
                    expected_part.as_str(),
                ).concat(", got ").concat(actual_part.as_str())
            },
        }
    }
}

} // verus!
