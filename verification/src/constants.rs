//! The script verification flag set: an independently-combinable set of bits
//! selecting which consensus script rules apply to one verification call,
//! mirrored exactly from the engine's constant table.

use vstd::prelude::*;

verus! {

pub const SCRIPT_FLAGS_VERIFY_NONE: u32 = 0;

pub const SCRIPT_FLAGS_VERIFY_P2SH: u32 = 1 << 0;

pub const SCRIPT_FLAGS_VERIFY_DERSIG: u32 = 1 << 2;

pub const SCRIPT_FLAGS_VERIFY_NULLDUMMY: u32 = 1 << 4;

pub const SCRIPT_FLAGS_VERIFY_CHECKLOCKTIMEVERIFY: u32 = 1 << 9;

pub const SCRIPT_FLAGS_VERIFY_CHECKSEQUENCEVERIFY: u32 = 1 << 10;

pub const SCRIPT_FLAGS_VERIFY_WITNESS: u32 = 1 << 11;

pub const SCRIPT_FLAGS_VERIFY_TAPROOT: u32 = 1 << 17;

/// The aggregate of all seven defined flags.
pub const SCRIPT_FLAGS_VERIFY_ALL: u32 = SCRIPT_FLAGS_VERIFY_P2SH | SCRIPT_FLAGS_VERIFY_DERSIG
    | SCRIPT_FLAGS_VERIFY_NULLDUMMY | SCRIPT_FLAGS_VERIFY_CHECKLOCKTIMEVERIFY
    | SCRIPT_FLAGS_VERIFY_CHECKSEQUENCEVERIFY | SCRIPT_FLAGS_VERIFY_WITNESS
    | SCRIPT_FLAGS_VERIFY_TAPROOT;

/// A flag word is valid when it holds no bits outside the defined flag set.
pub open spec fn valid_verification_flags(flags: u32) -> bool {
    flags & SCRIPT_FLAGS_VERIFY_ALL == flags
}

/// Whether a flag word is a valid combination of defined flags.
pub fn verification_flags_valid(flags: u32) -> (r: bool)
    ensures
        r == valid_verification_flags(flags),
{
    flags & SCRIPT_FLAGS_VERIFY_ALL == flags
}

/// Taproot-aware verification needs the outputs spent by the transaction.
pub open spec fn flags_require_spent_outputs(flags: u32) -> bool {
    flags & SCRIPT_FLAGS_VERIFY_TAPROOT != 0
}

/// Whether the flag word selects a mode that needs spent outputs.
pub fn verification_flags_require_spent_outputs(flags: u32) -> (r: bool)
    ensures
        r == flags_require_spent_outputs(flags),
{
    flags & SCRIPT_FLAGS_VERIFY_TAPROOT != 0
}

/// The numeric values of the seven flags and of their aggregate.
pub proof fn lemma_flag_values()
    ensures
        SCRIPT_FLAGS_VERIFY_P2SH == 1u32,
        SCRIPT_FLAGS_VERIFY_DERSIG == 4u32,
        SCRIPT_FLAGS_VERIFY_NULLDUMMY == 16u32,
        SCRIPT_FLAGS_VERIFY_CHECKLOCKTIMEVERIFY == 512u32,
        SCRIPT_FLAGS_VERIFY_CHECKSEQUENCEVERIFY == 1024u32,
        SCRIPT_FLAGS_VERIFY_WITNESS == 2048u32,
        SCRIPT_FLAGS_VERIFY_TAPROOT == 131072u32,
        SCRIPT_FLAGS_VERIFY_ALL == 134677u32,
{
    assert(1u32 << 0 == 1u32) by (bit_vector);
    assert(1u32 << 2 == 4u32) by (bit_vector);
    assert(1u32 << 4 == 16u32) by (bit_vector);
    assert(1u32 << 9 == 512u32) by (bit_vector);
    assert(1u32 << 10 == 1024u32) by (bit_vector);
    assert(1u32 << 11 == 2048u32) by (bit_vector);
    assert(1u32 << 17 == 131072u32) by (bit_vector);
    assert(1u32 | 4u32 | 16u32 | 512u32 | 1024u32 | 2048u32 | 131072u32 == 134677u32)
        by (bit_vector);
}

/// The seven flags are distinct single bits: any two of them share no bit,
/// so they combine independently.
pub proof fn lemma_flag_bits_disjoint()
    ensures
        SCRIPT_FLAGS_VERIFY_P2SH & SCRIPT_FLAGS_VERIFY_DERSIG == 0,
        SCRIPT_FLAGS_VERIFY_P2SH & SCRIPT_FLAGS_VERIFY_NULLDUMMY == 0,
        SCRIPT_FLAGS_VERIFY_P2SH & SCRIPT_FLAGS_VERIFY_CHECKLOCKTIMEVERIFY == 0,
        SCRIPT_FLAGS_VERIFY_P2SH & SCRIPT_FLAGS_VERIFY_CHECKSEQUENCEVERIFY == 0,
        SCRIPT_FLAGS_VERIFY_P2SH & SCRIPT_FLAGS_VERIFY_WITNESS == 0,
        SCRIPT_FLAGS_VERIFY_P2SH & SCRIPT_FLAGS_VERIFY_TAPROOT == 0,
        SCRIPT_FLAGS_VERIFY_DERSIG & SCRIPT_FLAGS_VERIFY_NULLDUMMY == 0,
        SCRIPT_FLAGS_VERIFY_DERSIG & SCRIPT_FLAGS_VERIFY_CHECKLOCKTIMEVERIFY == 0,
        SCRIPT_FLAGS_VERIFY_DERSIG & SCRIPT_FLAGS_VERIFY_CHECKSEQUENCEVERIFY == 0,
        SCRIPT_FLAGS_VERIFY_DERSIG & SCRIPT_FLAGS_VERIFY_WITNESS == 0,
        SCRIPT_FLAGS_VERIFY_DERSIG & SCRIPT_FLAGS_VERIFY_TAPROOT == 0,
        SCRIPT_FLAGS_VERIFY_NULLDUMMY & SCRIPT_FLAGS_VERIFY_CHECKLOCKTIMEVERIFY == 0,
        SCRIPT_FLAGS_VERIFY_NULLDUMMY & SCRIPT_FLAGS_VERIFY_CHECKSEQUENCEVERIFY == 0,
        SCRIPT_FLAGS_VERIFY_NULLDUMMY & SCRIPT_FLAGS_VERIFY_WITNESS == 0,
        SCRIPT_FLAGS_VERIFY_NULLDUMMY & SCRIPT_FLAGS_VERIFY_TAPROOT == 0,
        SCRIPT_FLAGS_VERIFY_CHECKLOCKTIMEVERIFY & SCRIPT_FLAGS_VERIFY_CHECKSEQUENCEVERIFY == 0,
        SCRIPT_FLAGS_VERIFY_CHECKLOCKTIMEVERIFY & SCRIPT_FLAGS_VERIFY_WITNESS == 0,
        SCRIPT_FLAGS_VERIFY_CHECKLOCKTIMEVERIFY & SCRIPT_FLAGS_VERIFY_TAPROOT == 0,
        SCRIPT_FLAGS_VERIFY_CHECKSEQUENCEVERIFY & SCRIPT_FLAGS_VERIFY_WITNESS == 0,
        SCRIPT_FLAGS_VERIFY_CHECKSEQUENCEVERIFY & SCRIPT_FLAGS_VERIFY_TAPROOT == 0,
        SCRIPT_FLAGS_VERIFY_WITNESS & SCRIPT_FLAGS_VERIFY_TAPROOT == 0,
{
    lemma_flag_values();
    assert((1u32 & 4u32 == 0) && (1u32 & 16u32 == 0) && (1u32 & 512u32 == 0) && (1u32 & 1024u32
        == 0) && (1u32 & 2048u32 == 0) && (1u32 & 131072u32 == 0) && (4u32 & 16u32 == 0) && (4u32
        & 512u32 == 0) && (4u32 & 1024u32 == 0) && (4u32 & 2048u32 == 0) && (4u32 & 131072u32
        == 0) && (16u32 & 512u32 == 0) && (16u32 & 1024u32 == 0) && (16u32 & 2048u32 == 0) && (
    16u32 & 131072u32 == 0) && (512u32 & 1024u32 == 0) && (512u32 & 2048u32 == 0) && (512u32
        & 131072u32 == 0) && (1024u32 & 2048u32 == 0) && (1024u32 & 131072u32 == 0) && (2048u32
        & 131072u32 == 0)) by (bit_vector);
}

/// Every individual flag is a valid flag word, and so is the aggregate.
pub proof fn lemma_each_flag_valid()
    ensures
        valid_verification_flags(SCRIPT_FLAGS_VERIFY_NONE),
        valid_verification_flags(SCRIPT_FLAGS_VERIFY_P2SH),
        valid_verification_flags(SCRIPT_FLAGS_VERIFY_DERSIG),
        valid_verification_flags(SCRIPT_FLAGS_VERIFY_NULLDUMMY),
        valid_verification_flags(SCRIPT_FLAGS_VERIFY_CHECKLOCKTIMEVERIFY),
        valid_verification_flags(SCRIPT_FLAGS_VERIFY_CHECKSEQUENCEVERIFY),
        valid_verification_flags(SCRIPT_FLAGS_VERIFY_WITNESS),
        valid_verification_flags(SCRIPT_FLAGS_VERIFY_TAPROOT),
        valid_verification_flags(SCRIPT_FLAGS_VERIFY_ALL),
{
    lemma_flag_values();
    assert((0u32 & 134677u32 == 0u32) && (1u32 & 134677u32 == 1u32) && (4u32 & 134677u32 == 4u32)
        && (16u32 & 134677u32 == 16u32) && (512u32 & 134677u32 == 512u32) && (1024u32 & 134677u32
        == 1024u32) && (2048u32 & 134677u32 == 2048u32) && (131072u32 & 134677u32 == 131072u32)
        && (134677u32 & 134677u32 == 134677u32)) by (bit_vector);
}

} // verus!
