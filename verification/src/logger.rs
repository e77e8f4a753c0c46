//! The process-wide logging state and the callback-bridging capability sets.
//!
//! Logging is singleton state: one value of `Logger` stands for the whole
//! process's connection and filtering configuration, so every change is by
//! construction visible to every holder of a handle. The connection policy
//! is replace: the most recent connection wins, and category and level
//! filtering survive a reconnection.

use vstd::prelude::*;
use crate::block::Block;
use crate::enums::{BlockValidationResult, LogCategory, LogLevel, SynchronizationState, ValidationMode, Warning};

verus! {

/// How many categories the engine's table defines.
pub const LOG_CATEGORY_COUNT: usize = 11;

/// The per-category enabled flags after enabling `category`: the aggregate
/// category enables all at once, any other enables exactly its own entry.
pub open spec fn spec_enable(enabled: Seq<bool>, category: LogCategory) -> Seq<bool> {
    if category is All {
        Seq::new(enabled.len(), |i: int| true)
    } else {
        enabled.update(category.spec_code() as int, true)
    }
}

/// The per-category enabled flags after disabling `category`: the aggregate
/// category disables all at once, any other disables exactly its own entry.
pub open spec fn spec_disable(enabled: Seq<bool>, category: LogCategory) -> Seq<bool> {
    if category is All {
        Seq::new(enabled.len(), |i: int| false)
    } else {
        enabled.update(category.spec_code() as int, false)
    }
}

/// The per-category levels after setting `category` to `level`: the
/// aggregate category sets every entry, any other sets exactly its own.
pub open spec fn spec_set_level(levels: Seq<LogLevel>, category: LogCategory, level: LogLevel) -> Seq<LogLevel> {
    if category is All {
        Seq::new(levels.len(), |i: int| level)
    } else {
        levels.update(category.spec_code() as int, level)
    }
}

/// The process-wide logging connection and filtering state.
pub struct Logger {
    connected: bool,
    generation: u64,
    enabled: Vec<bool>,
    levels: Vec<LogLevel>,
}

impl Logger {
    /// Whether a connection is active.
    pub closed spec fn spec_connected(self) -> bool {
        self.connected
    }

    /// How many connections have been installed so far.
    pub closed spec fn spec_generation(self) -> u64 {
        self.generation
    }

    /// The enabled flag of each category, indexed by category code.
    pub closed spec fn spec_enabled(self) -> Seq<bool> {
        self.enabled@
    }

    /// The level threshold of each category, indexed by category code.
    pub closed spec fn spec_levels(self) -> Seq<LogLevel> {
        self.levels@
    }

    /// The state tables cover exactly the defined categories.
    pub open spec fn wf(self) -> bool {
        self.spec_enabled().len() == LOG_CATEGORY_COUNT && self.spec_levels().len()
            == LOG_CATEGORY_COUNT
    }

    /// Whether an emission in `category` at `level` reaches the sink: a
    /// connection must be active, the category enabled, and the level at or
    /// above the category's threshold.
    pub open spec fn spec_would_emit(self, category: LogCategory, level: LogLevel) -> bool
        recommends
            self.wf(),
    {
        &&& self.spec_connected()
        &&& self.spec_enabled()[category.spec_code() as int]
        &&& level.spec_code() >= self.spec_levels()[category.spec_code() as int].spec_code()
    }

    /// Installs the first logging connection. Every category starts
    /// disabled with an informational threshold.
    pub fn new() -> (r: Logger)
        ensures
            r.wf(),
            r.spec_connected(),
            r.spec_generation() == 1,
            forall|i: int| 0 <= i < LOG_CATEGORY_COUNT ==> !r.spec_enabled()[i],
            forall|i: int| 0 <= i < LOG_CATEGORY_COUNT ==> r.spec_levels()[i] == LogLevel::Info,
    {
        let mut enabled: Vec<bool> = Vec::new();
        let mut levels: Vec<LogLevel> = Vec::new();
        let mut i: usize = 0;
        while i < LOG_CATEGORY_COUNT
            invariant
                i <= LOG_CATEGORY_COUNT,
                enabled@.len() == i,
                levels@.len() == i,
                forall|k: int| 0 <= k < i ==> !enabled@[k],
                forall|k: int| 0 <= k < i ==> levels@[k] == LogLevel::Info,
            decreases LOG_CATEGORY_COUNT - i,
        {
            enabled.push(false);
            levels.push(LogLevel::Info);
            i = i + 1;
        }
        Logger { connected: true, generation: 1, enabled, levels }
    }

    /// Replaces the active connection: the most recent connection wins, and
    /// the filtering configuration carries over unchanged.
    pub fn reconnect(&mut self)
        requires
            old(self).wf(),
            old(self).spec_generation() < u64::MAX,
        ensures
            final(self).wf(),
            final(self).spec_connected(),
            final(self).spec_generation() == old(self).spec_generation() + 1,
            final(self).spec_enabled() == old(self).spec_enabled(),
            final(self).spec_levels() == old(self).spec_levels(),
    {
        self.connected = true;
        self.generation = self.generation + 1;
    }

    /// Enables `category`; the aggregate category enables every category.
    /// The change is visible to every subsequent emission decision.
    pub fn enable_category(&mut self, category: LogCategory)
        requires
            old(self).wf(),
        ensures
            final(self).wf(),
            final(self).spec_connected() == old(self).spec_connected(),
            final(self).spec_generation() == old(self).spec_generation(),
            final(self).spec_enabled() == spec_enable(old(self).spec_enabled(), category),
            final(self).spec_levels() == old(self).spec_levels(),
    {
        match category {
            LogCategory::All => {
                let mut i: usize = 0;
                while i < self.enabled.len()
                    invariant
                        i <= self.enabled@.len(),
                        self.enabled@.len() == old(self).spec_enabled().len(),
                        self.connected == old(self).spec_connected(),
                        self.generation == old(self).spec_generation(),
                        self.levels@ == old(self).spec_levels(),
                        forall|k: int| 0 <= k < i ==> self.enabled@[k],
                        forall|k: int|
                            i <= k < self.enabled@.len() ==> self.enabled@[k] == old(
                                self,
                            ).spec_enabled()[k],
                    decreases self.enabled@.len() - i,
                {
                    self.enabled[i] = true;
                    i = i + 1;
                }
                proof {
                    assert(self.enabled@ =~= spec_enable(old(self).spec_enabled(), category));
                }
            },
            _ => {
                let code = category.to_code() as usize;
                self.enabled[code] = true;
            },
        }
    }

    /// Disables `category`; the aggregate category disables every category.
    pub fn disable_category(&mut self, category: LogCategory)
        requires
            old(self).wf(),
        ensures
            final(self).wf(),
            final(self).spec_connected() == old(self).spec_connected(),
            final(self).spec_generation() == old(self).spec_generation(),
            final(self).spec_enabled() == spec_disable(old(self).spec_enabled(), category),
            final(self).spec_levels() == old(self).spec_levels(),
    {
        match category {
            LogCategory::All => {
                let mut i: usize = 0;
                while i < self.enabled.len()
                    invariant
                        i <= self.enabled@.len(),
                        self.enabled@.len() == old(self).spec_enabled().len(),
                        self.connected == old(self).spec_connected(),
                        self.generation == old(self).spec_generation(),
                        self.levels@ == old(self).spec_levels(),
                        forall|k: int| 0 <= k < i ==> !self.enabled@[k],
                        forall|k: int|
                            i <= k < self.enabled@.len() ==> self.enabled@[k] == old(
                                self,
                            ).spec_enabled()[k],
                    decreases self.enabled@.len() - i,
                {
                    self.enabled[i] = false;
                    i = i + 1;
                }
                proof {
                    assert(self.enabled@ =~= spec_disable(old(self).spec_enabled(), category));
                }
            },
            _ => {
                let code = category.to_code() as usize;
                self.enabled[code] = false;
            },
        }
    }

    /// Sets the level threshold of `category`; the aggregate category sets
    /// every threshold at once.
    pub fn set_level_category(&mut self, category: LogCategory, level: LogLevel)
        requires
            old(self).wf(),
        ensures
            final(self).wf(),
            final(self).spec_connected() == old(self).spec_connected(),
            final(self).spec_generation() == old(self).spec_generation(),
            final(self).spec_enabled() == old(self).spec_enabled(),
            final(self).spec_levels() == spec_set_level(old(self).spec_levels(), category, level),
    {
        match category {
            LogCategory::All => {
                let mut i: usize = 0;
                while i < self.levels.len()
                    invariant
                        i <= self.levels@.len(),
                        self.levels@.len() == old(self).spec_levels().len(),
                        self.connected == old(self).spec_connected(),
                        self.generation == old(self).spec_generation(),
                        self.enabled@ == old(self).spec_enabled(),
                        forall|k: int| 0 <= k < i ==> self.levels@[k] == level,
                        forall|k: int|
                            i <= k < self.levels@.len() ==> self.levels@[k] == old(
                                self,
                            ).spec_levels()[k],
                    decreases self.levels@.len() - i,
                {
                    self.levels[i] = level;
                    i = i + 1;
                }
                proof {
                    assert(self.levels@ =~= spec_set_level(old(self).spec_levels(), category, level));
                }
            },
            _ => {
                let code = category.to_code() as usize;
                self.levels[code] = level;
            },
        }
    }

    /// Whether a connection is currently active.
    pub fn is_connected(&self) -> (r: bool)
        ensures
            r == self.spec_connected(),
    {
        self.connected
    }

    /// How many connections have been installed so far.
    pub fn generation(&self) -> (r: u64)
        ensures
            r == self.spec_generation(),
    {
        self.generation
    }

    /// Whether `category` is currently enabled.
    pub fn category_enabled(&self, category: LogCategory) -> (r: bool)
        requires
            self.wf(),
        ensures
            r == self.spec_enabled()[category.spec_code() as int],
    {
        let code = category.to_code() as usize;
        self.enabled[code]
    }

    /// The level threshold `category` is currently filtered at.
    pub fn effective_level(&self, category: LogCategory) -> (r: LogLevel)
        requires
            self.wf(),
        ensures
            r == self.spec_levels()[category.spec_code() as int],
    {
        let code = category.to_code() as usize;
        self.levels[code]
    }

    /// Whether an emission in `category` at `level` would reach the sink
    /// under the current state.
    pub fn would_emit(&self, category: LogCategory, level: LogLevel) -> (r: bool)
        requires
            self.wf(),
        ensures
            r == self.spec_would_emit(category, level),
    {
        if !self.connected {
            return false;
        }
        let code = category.to_code() as usize;
        self.enabled[code] && level.to_code() >= self.levels[code].to_code()
    }
}

/// The state after `disable_logging`: the connection is gone and nothing
/// else changes.
pub closed spec fn spec_after_disable_logging(l: Logger) -> Logger {
    Logger { connected: false, ..l }
}

/// Tears down the active logging connection unconditionally. Idempotent:
/// disabling an already-disabled logger changes nothing.
pub fn disable_logging(logger: &mut Logger)
    ensures
        *final(logger) == spec_after_disable_logging(*old(logger)),
        !final(logger).spec_connected(),
        final(logger).spec_generation() == old(logger).spec_generation(),
        final(logger).spec_enabled() == old(logger).spec_enabled(),
        final(logger).spec_levels() == old(logger).spec_levels(),
{
    logger.connected = false;
}

/// Once logging is disabled, no emission reaches the sink, whatever its
/// category and level.
pub proof fn lemma_disabled_logger_emits_nothing(l: Logger, category: LogCategory, level: LogLevel)
    ensures
        !spec_after_disable_logging(l).spec_would_emit(category, level),
{
}

/// Disabling logging twice leaves exactly the state that disabling it once
/// leaves.
pub proof fn lemma_disable_logging_idempotent(l: Logger)
    ensures
        spec_after_disable_logging(spec_after_disable_logging(l)) == spec_after_disable_logging(l),
{
}

/// A level change is globally visible: after setting `category` to `level`,
/// the threshold the filtering state holds for `category` is `level` — for
/// the aggregate category, for every category at once — and no other
/// category's threshold moves.
pub proof fn lemma_set_level_visible(levels: Seq<LogLevel>, category: LogCategory, level: LogLevel)
    requires
        levels.len() == LOG_CATEGORY_COUNT,
        category.spec_code() < LOG_CATEGORY_COUNT,
    ensures
        category is All ==> forall|i: int|
            0 <= i < LOG_CATEGORY_COUNT ==> spec_set_level(levels, category, level)[i] == level,
        !(category is All) ==> spec_set_level(levels, category, level)[category.spec_code() as int]
            == level,
        forall|i: int|
            0 <= i < LOG_CATEGORY_COUNT && !(category is All) && i != category.spec_code() as int
                ==> spec_set_level(levels, category, level)[i] == levels[i],
{
}

/// An enablement change is globally visible in the same way.
pub proof fn lemma_enable_category_visible(enabled: Seq<bool>, category: LogCategory)
    requires
        enabled.len() == LOG_CATEGORY_COUNT,
        category.spec_code() < LOG_CATEGORY_COUNT,
    ensures
        category is All ==> forall|i: int|
            0 <= i < LOG_CATEGORY_COUNT ==> spec_enable(enabled, category)[i],
        !(category is All) ==> spec_enable(enabled, category)[category.spec_code() as int],
        forall|i: int|
            0 <= i < LOG_CATEGORY_COUNT && !(category is All) && i != category.spec_code() as int
                ==> spec_enable(enabled, category)[i] == enabled[i],
{
}

/// One engine notification, decoded into plain values.
pub enum NotificationEvent {
    /// The engine's synchronization state moved.
    SyncStateChange(SynchronizationState),
    /// A warning condition arose.
    WarningSet(Warning, String),
    /// A warning condition cleared.
    WarningUnset(Warning),
    /// Flushing chain state to disk failed.
    FlushError(String),
    /// The engine hit an unrecoverable error.
    FatalError(String),
}

/// The capability set of a notification handler. Callers implement this for
/// their own types; the engine's raw callbacks are decoded into
/// `NotificationEvent` values and dispatched here, so no handler ever sees a
/// foreign call frame.
pub trait KernelNotifications {
    fn on_sync_state_change(&mut self, state: SynchronizationState);

    fn on_warning_set(&mut self, warning: Warning, message: String);

    fn on_warning_unset(&mut self, warning: Warning);

    fn on_flush_error(&mut self, message: String);

    fn on_fatal_error(&mut self, message: String);
}

/// Dispatches one decoded notification to the matching handler method:
/// every event kind reaches exactly one method, in the order events are
/// handed in.
pub fn dispatch_notification<H: KernelNotifications>(handler: &mut H, event: NotificationEvent) {
    match event {
        NotificationEvent::SyncStateChange(state) => handler.on_sync_state_change(state),
        NotificationEvent::WarningSet(warning, message) => handler.on_warning_set(
            warning,
            message,
        ),
        NotificationEvent::WarningUnset(warning) => handler.on_warning_unset(warning),
        NotificationEvent::FlushError(message) => handler.on_flush_error(message),
        NotificationEvent::FatalError(message) => handler.on_fatal_error(message),
    }
}

/// The capability set through which the engine reports per-block validation
/// outcomes. Callers implement this for their own types.
pub trait ValidationInterface {
    fn on_block_checked(
        &mut self,
        block: &Block,
        mode: ValidationMode,
        result: BlockValidationResult,
    );
}

/// Decodes one raw block-checked callback and dispatches it. Returns whether
/// both foreign codes were mapped; an unmapped code is reported as a defect
/// by returning false, never dispatched truncated.
pub fn dispatch_block_checked<V: ValidationInterface>(
    handler: &mut V,
    block: &Block,
    mode_code: u8,
    result_code: u32,
) -> (r: bool)
    ensures
        r == (ValidationMode::spec_from_code(mode_code) is Some
            && BlockValidationResult::spec_from_code(result_code) is Some),
{
    let mode = ValidationMode::from_code(mode_code);
    let result = BlockValidationResult::from_code(result_code);
    match (mode, result) {
        (Some(m), Some(res)) => {
            handler.on_block_checked(block, m, res);
            true
        },
        _ => false,
    }
}

} // verus!
