use bitcoinkernel::constants::{
    verification_flags_require_spent_outputs, verification_flags_valid, SCRIPT_FLAGS_VERIFY_ALL,
    SCRIPT_FLAGS_VERIFY_CHECKLOCKTIMEVERIFY, SCRIPT_FLAGS_VERIFY_CHECKSEQUENCEVERIFY,
    SCRIPT_FLAGS_VERIFY_DERSIG, SCRIPT_FLAGS_VERIFY_NONE, SCRIPT_FLAGS_VERIFY_NULLDUMMY,
    SCRIPT_FLAGS_VERIFY_P2SH, SCRIPT_FLAGS_VERIFY_TAPROOT, SCRIPT_FLAGS_VERIFY_WITNESS,
};

#[test]
fn flag_values_match_the_foreign_table() {
    assert_eq!(SCRIPT_FLAGS_VERIFY_NONE, 0);
    assert_eq!(SCRIPT_FLAGS_VERIFY_P2SH, 1 << 0);
    assert_eq!(SCRIPT_FLAGS_VERIFY_DERSIG, 1 << 2);
    assert_eq!(SCRIPT_FLAGS_VERIFY_NULLDUMMY, 1 << 4);
    assert_eq!(SCRIPT_FLAGS_VERIFY_CHECKLOCKTIMEVERIFY, 1 << 9);
    assert_eq!(SCRIPT_FLAGS_VERIFY_CHECKSEQUENCEVERIFY, 1 << 10);
    assert_eq!(SCRIPT_FLAGS_VERIFY_WITNESS, 1 << 11);
    assert_eq!(SCRIPT_FLAGS_VERIFY_TAPROOT, 1 << 17);
}

#[test]
fn all_is_the_union_of_the_seven_flags() {
    let union = SCRIPT_FLAGS_VERIFY_P2SH
        | SCRIPT_FLAGS_VERIFY_DERSIG
        | SCRIPT_FLAGS_VERIFY_NULLDUMMY
        | SCRIPT_FLAGS_VERIFY_CHECKLOCKTIMEVERIFY
        | SCRIPT_FLAGS_VERIFY_CHECKSEQUENCEVERIFY
        | SCRIPT_FLAGS_VERIFY_WITNESS
        | SCRIPT_FLAGS_VERIFY_TAPROOT;
    assert_eq!(SCRIPT_FLAGS_VERIFY_ALL, union);
    assert_eq!(SCRIPT_FLAGS_VERIFY_ALL, 134677);
}

#[test]
fn flags_are_pairwise_disjoint_bits() {
    let flags = [
        SCRIPT_FLAGS_VERIFY_P2SH,
        SCRIPT_FLAGS_VERIFY_DERSIG,
        SCRIPT_FLAGS_VERIFY_NULLDUMMY,
        SCRIPT_FLAGS_VERIFY_CHECKLOCKTIMEVERIFY,
        SCRIPT_FLAGS_VERIFY_CHECKSEQUENCEVERIFY,
        SCRIPT_FLAGS_VERIFY_WITNESS,
        SCRIPT_FLAGS_VERIFY_TAPROOT,
    ];
    for i in 0..flags.len() {
        assert_eq!(flags[i].count_ones(), 1);
        for j in 0..flags.len() {
            if i != j {
                assert_eq!(flags[i] & flags[j], 0);
            }
        }
    }
}

#[test]
fn every_defined_flag_word_is_valid() {
    assert!(verification_flags_valid(SCRIPT_FLAGS_VERIFY_NONE));
    assert!(verification_flags_valid(SCRIPT_FLAGS_VERIFY_P2SH));
    assert!(verification_flags_valid(SCRIPT_FLAGS_VERIFY_ALL));
    assert!(verification_flags_valid(
        SCRIPT_FLAGS_VERIFY_P2SH | SCRIPT_FLAGS_VERIFY_WITNESS
    ));
}

#[test]
fn undefined_bits_make_a_flag_word_invalid() {
    assert!(!verification_flags_valid(1 << 1));
    assert!(!verification_flags_valid(SCRIPT_FLAGS_VERIFY_ALL | (1 << 20)));
    assert!(!verification_flags_valid(u32::MAX));
}

#[test]
fn only_taproot_aware_flags_need_spent_outputs() {
    assert!(verification_flags_require_spent_outputs(SCRIPT_FLAGS_VERIFY_TAPROOT));
    assert!(verification_flags_require_spent_outputs(SCRIPT_FLAGS_VERIFY_ALL));
    assert!(!verification_flags_require_spent_outputs(SCRIPT_FLAGS_VERIFY_WITNESS));
    assert!(!verification_flags_require_spent_outputs(SCRIPT_FLAGS_VERIFY_NONE));
    assert!(!verification_flags_require_spent_outputs(
        SCRIPT_FLAGS_VERIFY_P2SH | SCRIPT_FLAGS_VERIFY_WITNESS
    ));
}
