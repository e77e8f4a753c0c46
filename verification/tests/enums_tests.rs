use bitcoinkernel::enums::{
    BlockValidationResult, ChainType, LogCategory, LogLevel, ScriptVerifyStatus,
    SynchronizationState, ValidationMode, Warning,
};

#[test]
fn chain_type_codes_round_trip() {
    let all = [
        ChainType::Mainnet,
        ChainType::Testnet,
        ChainType::Testnet4,
        ChainType::Signet,
        ChainType::Regtest,
    ];
    for t in all {
        assert_eq!(ChainType::from_code(t.to_code()), Some(t));
    }
}

#[test]
fn chain_type_codes_match_the_foreign_table() {
    assert_eq!(ChainType::Mainnet.to_code(), 0);
    assert_eq!(ChainType::Testnet.to_code(), 1);
    assert_eq!(ChainType::Testnet4.to_code(), 2);
    assert_eq!(ChainType::Signet.to_code(), 3);
    assert_eq!(ChainType::Regtest.to_code(), 4);
}

#[test]
fn chain_type_rejects_unmapped_codes() {
    assert_eq!(ChainType::from_code(5), None);
    assert_eq!(ChainType::from_code(255), None);
}

#[test]
fn validation_mode_codes_round_trip() {
    let all = [ValidationMode::Valid, ValidationMode::Invalid, ValidationMode::InternalError];
    for m in all {
        assert_eq!(ValidationMode::from_code(m.to_code()), Some(m));
    }
    assert_eq!(ValidationMode::from_code(3), None);
}

#[test]
fn block_validation_result_codes_round_trip() {
    let all = [
        BlockValidationResult::Unset,
        BlockValidationResult::Consensus,
        BlockValidationResult::CachedInvalid,
        BlockValidationResult::InvalidHeader,
        BlockValidationResult::Mutated,
        BlockValidationResult::MissingPrev,
        BlockValidationResult::InvalidPrev,
        BlockValidationResult::TimeFuture,
        BlockValidationResult::HeaderLowWork,
    ];
    for (i, r) in all.iter().enumerate() {
        assert_eq!(r.to_code(), i as u32);
        assert_eq!(BlockValidationResult::from_code(r.to_code()), Some(*r));
    }
    assert_eq!(BlockValidationResult::from_code(9), None);
}

#[test]
fn log_level_codes_round_trip() {
    let all = [LogLevel::Trace, LogLevel::Debug, LogLevel::Info];
    for l in all {
        assert_eq!(LogLevel::from_code(l.to_code()), Some(l));
    }
    assert_eq!(LogLevel::from_code(3), None);
}

#[test]
fn log_category_codes_round_trip() {
    let all = [
        LogCategory::All,
        LogCategory::Bench,
        LogCategory::BlockStorage,
        LogCategory::CoinDb,
        LogCategory::LevelDb,
        LogCategory::Mempool,
        LogCategory::Prune,
        LogCategory::Rand,
        LogCategory::Reindex,
        LogCategory::Validation,
        LogCategory::Kernel,
    ];
    for (i, c) in all.iter().enumerate() {
        assert_eq!(c.to_code(), i as u8);
        assert_eq!(LogCategory::from_code(c.to_code()), Some(*c));
    }
    assert_eq!(LogCategory::from_code(11), None);
}

#[test]
fn synchronization_state_codes_round_trip() {
    let all = [
        SynchronizationState::InitReindex,
        SynchronizationState::InitDownload,
        SynchronizationState::PostInit,
    ];
    for s in all {
        assert_eq!(SynchronizationState::from_code(s.to_code()), Some(s));
    }
    assert_eq!(SynchronizationState::from_code(3), None);
}

#[test]
fn warning_codes_round_trip() {
    assert_eq!(Warning::UnknownNewRulesActivated.to_code(), 0);
    assert_eq!(Warning::LargeWorkInvalidChain.to_code(), 1);
    assert_eq!(Warning::from_code(0), Some(Warning::UnknownNewRulesActivated));
    assert_eq!(Warning::from_code(1), Some(Warning::LargeWorkInvalidChain));
    assert_eq!(Warning::from_code(2), None);
}

#[test]
fn script_verify_status_codes_round_trip() {
    let all = [
        ScriptVerifyStatus::Success,
        ScriptVerifyStatus::ErrorInvalidFlagsCombination,
        ScriptVerifyStatus::ErrorSpentOutputsRequired,
    ];
    for (i, s) in all.iter().enumerate() {
        assert_eq!(s.to_code(), i as u8);
        assert_eq!(ScriptVerifyStatus::from_code(s.to_code()), Some(*s));
    }
    assert_eq!(ScriptVerifyStatus::from_code(3), None);
}
