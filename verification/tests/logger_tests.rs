use bitcoinkernel::enums::{LogCategory, LogLevel};
use bitcoinkernel::logger::{disable_logging, Logger};

#[test]
fn a_fresh_logger_is_connected_and_silent() {
    let logger = Logger::new();
    assert!(logger.is_connected());
    assert_eq!(logger.generation(), 1);
    assert!(!logger.would_emit(LogCategory::Validation, LogLevel::Info));
    assert!(!logger.category_enabled(LogCategory::Bench));
    assert_eq!(logger.effective_level(LogCategory::Bench), LogLevel::Info);
}

#[test]
fn enabling_a_category_is_visible_to_queries() {
    let mut logger = Logger::new();
    logger.enable_category(LogCategory::Validation);
    assert!(logger.category_enabled(LogCategory::Validation));
    assert!(!logger.category_enabled(LogCategory::Bench));
    assert!(logger.would_emit(LogCategory::Validation, LogLevel::Info));
    assert!(!logger.would_emit(LogCategory::Bench, LogLevel::Info));
}

#[test]
fn level_changes_are_visible_to_queries() {
    let mut logger = Logger::new();
    logger.enable_category(LogCategory::Mempool);
    logger.set_level_category(LogCategory::Mempool, LogLevel::Debug);
    assert_eq!(logger.effective_level(LogCategory::Mempool), LogLevel::Debug);
    // Other categories keep their thresholds.
    assert_eq!(logger.effective_level(LogCategory::Bench), LogLevel::Info);
    assert!(logger.would_emit(LogCategory::Mempool, LogLevel::Debug));
    assert!(logger.would_emit(LogCategory::Mempool, LogLevel::Info));
    assert!(!logger.would_emit(LogCategory::Mempool, LogLevel::Trace));
}

#[test]
fn the_aggregate_category_reaches_every_category() {
    let mut logger = Logger::new();
    logger.enable_category(LogCategory::All);
    assert!(logger.category_enabled(LogCategory::Bench));
    assert!(logger.category_enabled(LogCategory::Kernel));
    logger.set_level_category(LogCategory::All, LogLevel::Trace);
    assert_eq!(logger.effective_level(LogCategory::CoinDb), LogLevel::Trace);
    assert!(logger.would_emit(LogCategory::LevelDb, LogLevel::Trace));
    logger.disable_category(LogCategory::All);
    assert!(!logger.category_enabled(LogCategory::Bench));
    assert!(!logger.would_emit(LogCategory::LevelDb, LogLevel::Info));
}

#[test]
fn disabling_one_category_keeps_the_others() {
    let mut logger = Logger::new();
    logger.enable_category(LogCategory::All);
    logger.disable_category(LogCategory::Rand);
    assert!(!logger.category_enabled(LogCategory::Rand));
    assert!(logger.category_enabled(LogCategory::Reindex));
}

#[test]
fn disable_logging_silences_every_emission() {
    let mut logger = Logger::new();
    logger.enable_category(LogCategory::All);
    logger.set_level_category(LogCategory::All, LogLevel::Trace);
    assert!(logger.would_emit(LogCategory::Kernel, LogLevel::Info));
    disable_logging(&mut logger);
    assert!(!logger.is_connected());
    assert!(!logger.would_emit(LogCategory::Kernel, LogLevel::Info));
    assert!(!logger.would_emit(LogCategory::Validation, LogLevel::Trace));
}

#[test]
fn disable_logging_is_idempotent() {
    let mut logger = Logger::new();
    logger.enable_category(LogCategory::Prune);
    disable_logging(&mut logger);
    let generation = logger.generation();
    disable_logging(&mut logger);
    // The second call changes nothing observable.
    assert!(!logger.is_connected());
    assert_eq!(logger.generation(), generation);
    assert!(logger.category_enabled(LogCategory::Prune));
    assert!(!logger.would_emit(LogCategory::Prune, LogLevel::Info));
}

#[test]
fn reconnection_replaces_the_connection_and_keeps_filtering() {
    let mut logger = Logger::new();
    logger.enable_category(LogCategory::CoinDb);
    logger.set_level_category(LogCategory::CoinDb, LogLevel::Trace);
    disable_logging(&mut logger);
    logger.reconnect();
    assert!(logger.is_connected());
    assert_eq!(logger.generation(), 2);
    assert!(logger.category_enabled(LogCategory::CoinDb));
    assert_eq!(logger.effective_level(LogCategory::CoinDb), LogLevel::Trace);
    assert!(logger.would_emit(LogCategory::CoinDb, LogLevel::Debug));
}
