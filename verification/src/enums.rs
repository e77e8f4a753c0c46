//! Closed enumerations mirroring the engine's integral constant tables.
//!
//! Each table becomes a tagged type with an exhaustively-matched conversion
//! to and from the foreign integral representation, so an unmapped foreign
//! value is caught as a defect instead of being silently truncated.

use vstd::prelude::*;

verus! {

/// The fixed set of network parameter profiles.
#[derive(Clone, Copy, Debug, PartialEq, Eq, Structural)]
pub enum ChainType {
    Mainnet,
    Testnet,
    Testnet4,
    Signet,
    Regtest,
}

impl ChainType {
    /// The foreign integral code of this chain type.
    pub open spec fn spec_code(self) -> u8 {
        match self {
            ChainType::Mainnet => 0,
            ChainType::Testnet => 1,
            ChainType::Testnet4 => 2,
            ChainType::Signet => 3,
            ChainType::Regtest => 4,
        }
    }

    /// The chain type a foreign code stands for, if any.
    pub open spec fn spec_from_code(code: u8) -> Option<ChainType> {
        if code == 0 {
            Some(ChainType::Mainnet)
        } else if code == 1 {
            Some(ChainType::Testnet)
        } else if code == 2 {
            Some(ChainType::Testnet4)
        } else if code == 3 {
            Some(ChainType::Signet)
        } else if code == 4 {
            Some(ChainType::Regtest)
        } else {
            None
        }
    }

    pub fn to_code(self) -> (r: u8)
        ensures
            r == self.spec_code(),
    {
        match self {
            ChainType::Mainnet => 0,
            ChainType::Testnet => 1,
            ChainType::Testnet4 => 2,
            ChainType::Signet => 3,
            ChainType::Regtest => 4,
        }
    }

    pub fn from_code(code: u8) -> (r: Option<ChainType>)
        ensures
            r == Self::spec_from_code(code),
    {
        match code {
            0 => Some(ChainType::Mainnet),
            1 => Some(ChainType::Testnet),
            2 => Some(ChainType::Testnet4),
            3 => Some(ChainType::Signet),
            4 => Some(ChainType::Regtest),
            _ => None,
        }
    }

    /// Encoding then decoding gives back the same chain type.
    pub proof fn lemma_code_round_trip(self)
        ensures
            Self::spec_from_code(self.spec_code()) == Some(self),
    {
    }

    /// Exactly the codes below five are mapped, and decoding inverts encoding.
    pub proof fn lemma_from_code_exact(code: u8)
        ensures
            Self::spec_from_code(code) is Some <==> code < 5,
            Self::spec_from_code(code) matches Some(t) ==> t.spec_code() == code,
    {
    }
}

/// How the engine classified a validation attempt.
#[derive(Clone, Copy, Debug, PartialEq, Eq, Structural)]
pub enum ValidationMode {
    Valid,
    Invalid,
    InternalError,
}

impl ValidationMode {
    /// The foreign integral code of this mode.
    pub open spec fn spec_code(self) -> u8 {
        match self {
            ValidationMode::Valid => 0,
            ValidationMode::Invalid => 1,
            ValidationMode::InternalError => 2,
        }
    }

    /// The mode a foreign code stands for, if any.
    pub open spec fn spec_from_code(code: u8) -> Option<ValidationMode> {
        if code == 0 {
            Some(ValidationMode::Valid)
        } else if code == 1 {
            Some(ValidationMode::Invalid)
        } else if code == 2 {
            Some(ValidationMode::InternalError)
        } else {
            None
        }
    }

    pub fn to_code(self) -> (r: u8)
        ensures
            r == self.spec_code(),
    {
        match self {
            ValidationMode::Valid => 0,
            ValidationMode::Invalid => 1,
            ValidationMode::InternalError => 2,
        }
    }

    pub fn from_code(code: u8) -> (r: Option<ValidationMode>)
        ensures
            r == Self::spec_from_code(code),
    {
        match code {
            0 => Some(ValidationMode::Valid),
            1 => Some(ValidationMode::Invalid),
            2 => Some(ValidationMode::InternalError),
            _ => None,
        }
    }

    /// Encoding then decoding gives back the same mode.
    pub proof fn lemma_code_round_trip(self)
        ensures
            Self::spec_from_code(self.spec_code()) == Some(self),
    {
    }
}

/// Why the engine rejected (or how it accepted) one block.
#[derive(Clone, Copy, Debug, PartialEq, Eq, Structural)]
pub enum BlockValidationResult {
    Unset,
    Consensus,
    CachedInvalid,
    InvalidHeader,
    Mutated,
    MissingPrev,
    InvalidPrev,
    TimeFuture,
    HeaderLowWork,
}

impl BlockValidationResult {
    /// The foreign integral code of this result.
    pub open spec fn spec_code(self) -> u32 {
        match self {
            BlockValidationResult::Unset => 0,
            BlockValidationResult::Consensus => 1,
            BlockValidationResult::CachedInvalid => 2,
            BlockValidationResult::InvalidHeader => 3,
            BlockValidationResult::Mutated => 4,
            BlockValidationResult::MissingPrev => 5,
            BlockValidationResult::InvalidPrev => 6,
            BlockValidationResult::TimeFuture => 7,
            BlockValidationResult::HeaderLowWork => 8,
        }
    }

    /// The result a foreign code stands for, if any.
    pub open spec fn spec_from_code(code: u32) -> Option<BlockValidationResult> {
        if code == 0 {
            Some(BlockValidationResult::Unset)
        } else if code == 1 {
            Some(BlockValidationResult::Consensus)
        } else if code == 2 {
            Some(BlockValidationResult::CachedInvalid)
        } else if code == 3 {
            Some(BlockValidationResult::InvalidHeader)
        } else if code == 4 {
            Some(BlockValidationResult::Mutated)
        } else if code == 5 {
            Some(BlockValidationResult::MissingPrev)
        } else if code == 6 {
            Some(BlockValidationResult::InvalidPrev)
        } else if code == 7 {
            Some(BlockValidationResult::TimeFuture)
        } else if code == 8 {
            Some(BlockValidationResult::HeaderLowWork)
        } else {
            None
        }
    }

    pub fn to_code(self) -> (r: u32)
        ensures
            r == self.spec_code(),
    {
        match self {
            BlockValidationResult::Unset => 0,
            BlockValidationResult::Consensus => 1,
            BlockValidationResult::CachedInvalid => 2,
            BlockValidationResult::InvalidHeader => 3,
            BlockValidationResult::Mutated => 4,
            BlockValidationResult::MissingPrev => 5,
            BlockValidationResult::InvalidPrev => 6,
            BlockValidationResult::TimeFuture => 7,
            BlockValidationResult::HeaderLowWork => 8,
        }
    }

    pub fn from_code(code: u32) -> (r: Option<BlockValidationResult>)
        ensures
            r == Self::spec_from_code(code),
    {
        match code {
            0 => Some(BlockValidationResult::Unset),
            1 => Some(BlockValidationResult::Consensus),
            2 => Some(BlockValidationResult::CachedInvalid),
            3 => Some(BlockValidationResult::InvalidHeader),
            4 => Some(BlockValidationResult::Mutated),
            5 => Some(BlockValidationResult::MissingPrev),
            6 => Some(BlockValidationResult::InvalidPrev),
            7 => Some(BlockValidationResult::TimeFuture),
            8 => Some(BlockValidationResult::HeaderLowWork),
            _ => None,
        }
    }

    /// Encoding then decoding gives back the same result.
    pub proof fn lemma_code_round_trip(self)
        ensures
            Self::spec_from_code(self.spec_code()) == Some(self),
    {
    }
}

/// The verbosity a log category is filtered at.
#[derive(Clone, Copy, Debug, PartialEq, Eq, Structural)]
pub enum LogLevel {
    Trace,
    Debug,
    Info,
}

impl LogLevel {
    /// The foreign integral code of this level.
    pub open spec fn spec_code(self) -> u8 {
        match self {
            LogLevel::Trace => 0,
            LogLevel::Debug => 1,
            LogLevel::Info => 2,
        }
    }

    /// The level a foreign code stands for, if any.
    pub open spec fn spec_from_code(code: u8) -> Option<LogLevel> {
        if code == 0 {
            Some(LogLevel::Trace)
        } else if code == 1 {
            Some(LogLevel::Debug)
        } else if code == 2 {
            Some(LogLevel::Info)
        } else {
            None
        }
    }

    pub fn to_code(self) -> (r: u8)
        ensures
            r == self.spec_code(),
    {
        match self {
            LogLevel::Trace => 0,
            LogLevel::Debug => 1,
            LogLevel::Info => 2,
        }
    }

    pub fn from_code(code: u8) -> (r: Option<LogLevel>)
        ensures
            r == Self::spec_from_code(code),
    {
        match code {
            0 => Some(LogLevel::Trace),
            1 => Some(LogLevel::Debug),
            2 => Some(LogLevel::Info),
            _ => None,
        }
    }

    /// Encoding then decoding gives back the same level.
    pub proof fn lemma_code_round_trip(self)
        ensures
            Self::spec_from_code(self.spec_code()) == Some(self),
    {
    }
}

/// One of the engine's logging categories.
#[derive(Clone, Copy, Debug, PartialEq, Eq, Structural)]
pub enum LogCategory {
    All,
    Bench,
    BlockStorage,
    CoinDb,
    LevelDb,
    Mempool,
    Prune,
    Rand,
    Reindex,
    Validation,
    Kernel,
}

impl LogCategory {
    /// The foreign integral code of this category.
    pub open spec fn spec_code(self) -> u8 {
        match self {
            LogCategory::All => 0,
            LogCategory::Bench => 1,
            LogCategory::BlockStorage => 2,
            LogCategory::CoinDb => 3,
            LogCategory::LevelDb => 4,
            LogCategory::Mempool => 5,
            LogCategory::Prune => 6,
            LogCategory::Rand => 7,
            LogCategory::Reindex => 8,
            LogCategory::Validation => 9,
            LogCategory::Kernel => 10,
        }
    }

    /// The category a foreign code stands for, if any.
    pub open spec fn spec_from_code(code: u8) -> Option<LogCategory> {
        if code == 0 {
            Some(LogCategory::All)
        } else if code == 1 {
            Some(LogCategory::Bench)
        } else if code == 2 {
            Some(LogCategory::BlockStorage)
        } else if code == 3 {
            Some(LogCategory::CoinDb)
        } else if code == 4 {
            Some(LogCategory::LevelDb)
        } else if code == 5 {
            Some(LogCategory::Mempool)
        } else if code == 6 {
            Some(LogCategory::Prune)
        } else if code == 7 {
            Some(LogCategory::Rand)
        } else if code == 8 {
            Some(LogCategory::Reindex)
        } else if code == 9 {
            Some(LogCategory::Validation)
        } else if code == 10 {
            Some(LogCategory::Kernel)
        } else {
            None
        }
    }

    pub fn to_code(self) -> (r: u8)
        ensures
            r == self.spec_code(),
    {
        match self {
            LogCategory::All => 0,
            LogCategory::Bench => 1,
            LogCategory::BlockStorage => 2,
            LogCategory::CoinDb => 3,
            LogCategory::LevelDb => 4,
            LogCategory::Mempool => 5,
            LogCategory::Prune => 6,
            LogCategory::Rand => 7,
            LogCategory::Reindex => 8,
            LogCategory::Validation => 9,
            LogCategory::Kernel => 10,
        }
    }

    pub fn from_code(code: u8) -> (r: Option<LogCategory>)
        ensures
            r == Self::spec_from_code(code),
    {
        match code {
            0 => Some(LogCategory::All),
            1 => Some(LogCategory::Bench),
            2 => Some(LogCategory::BlockStorage),
            3 => Some(LogCategory::CoinDb),
            4 => Some(LogCategory::LevelDb),
            5 => Some(LogCategory::Mempool),
            6 => Some(LogCategory::Prune),
            7 => Some(LogCategory::Rand),
            8 => Some(LogCategory::Reindex),
            9 => Some(LogCategory::Validation),
            10 => Some(LogCategory::Kernel),
            _ => None,
        }
    }

    /// Encoding then decoding gives back the same category.
    pub proof fn lemma_code_round_trip(self)
        ensures
            Self::spec_from_code(self.spec_code()) == Some(self),
    {
    }

    /// Exactly the codes below eleven are mapped, and decoding inverts encoding.
    pub proof fn lemma_from_code_exact(code: u8)
        ensures
            Self::spec_from_code(code) is Some <==> code < 11,
            Self::spec_from_code(code) matches Some(c) ==> c.spec_code() == code,
    {
    }
}

/// How far along the engine's initial synchronization is.
#[derive(Clone, Copy, Debug, PartialEq, Eq, Structural)]
pub enum SynchronizationState {
    InitReindex,
    InitDownload,
    PostInit,
}

impl SynchronizationState {
    /// The foreign integral code of this state.
    pub open spec fn spec_code(self) -> u8 {
        match self {
            SynchronizationState::InitReindex => 0,
            SynchronizationState::InitDownload => 1,
            SynchronizationState::PostInit => 2,
        }
    }

    /// The state a foreign code stands for, if any.
    pub open spec fn spec_from_code(code: u8) -> Option<SynchronizationState> {
        if code == 0 {
            Some(SynchronizationState::InitReindex)
        } else if code == 1 {
            Some(SynchronizationState::InitDownload)
        } else if code == 2 {
            Some(SynchronizationState::PostInit)
        } else {
            None
        }
    }

    pub fn to_code(self) -> (r: u8)
        ensures
            r == self.spec_code(),
    {
        match self {
            SynchronizationState::InitReindex => 0,
            SynchronizationState::InitDownload => 1,
            SynchronizationState::PostInit => 2,
        }
    }

    pub fn from_code(code: u8) -> (r: Option<SynchronizationState>)
        ensures
            r == Self::spec_from_code(code),
    {
        match code {
            0 => Some(SynchronizationState::InitReindex),
            1 => Some(SynchronizationState::InitDownload),
            2 => Some(SynchronizationState::PostInit),
            _ => None,
        }
    }

    /// Encoding then decoding gives back the same state.
    pub proof fn lemma_code_round_trip(self)
        ensures
            Self::spec_from_code(self.spec_code()) == Some(self),
    {
    }
}

/// A condition the engine warns about.
#[derive(Clone, Copy, Debug, PartialEq, Eq, Structural)]
pub enum Warning {
    UnknownNewRulesActivated,
    LargeWorkInvalidChain,
}

impl Warning {
    /// The foreign integral code of this warning.
    pub open spec fn spec_code(self) -> u8 {
        match self {
            Warning::UnknownNewRulesActivated => 0,
            Warning::LargeWorkInvalidChain => 1,
        }
    }

    /// The warning a foreign code stands for, if any.
    pub open spec fn spec_from_code(code: u8) -> Option<Warning> {
        if code == 0 {
            Some(Warning::UnknownNewRulesActivated)
        } else if code == 1 {
            Some(Warning::LargeWorkInvalidChain)
        } else {
            None
        }
    }

    pub fn to_code(self) -> (r: u8)
        ensures
            r == self.spec_code(),
    {
        match self {
            Warning::UnknownNewRulesActivated => 0,
            Warning::LargeWorkInvalidChain => 1,
        }
    }

    pub fn from_code(code: u8) -> (r: Option<Warning>)
        ensures
            r == Self::spec_from_code(code),
    {
        match code {
            0 => Some(Warning::UnknownNewRulesActivated),
            1 => Some(Warning::LargeWorkInvalidChain),
            _ => None,
        }
    }

    /// Encoding then decoding gives back the same warning.
    pub proof fn lemma_code_round_trip(self)
        ensures
            Self::spec_from_code(self.spec_code()) == Some(self),
    {
    }
}

/// The status word a script verification call reports beside its verdict.
#[derive(Clone, Copy, Debug, PartialEq, Eq, Structural)]
pub enum ScriptVerifyStatus {
    /// The call itself went through; the verdict alone decides.
    Success,
    /// The flag bits passed in were mutually inconsistent.
    ErrorInvalidFlagsCombination,
    /// The selected flags need spent outputs, and none were supplied.
    ErrorSpentOutputsRequired,
}

impl ScriptVerifyStatus {
    /// The foreign integral code of this status.
    pub open spec fn spec_code(self) -> u8 {
        match self {
            ScriptVerifyStatus::Success => 0,
            ScriptVerifyStatus::ErrorInvalidFlagsCombination => 1,
            ScriptVerifyStatus::ErrorSpentOutputsRequired => 2,
        }
    }

    /// The status a foreign code stands for, if any.
    pub open spec fn spec_from_code(code: u8) -> Option<ScriptVerifyStatus> {
        if code == 0 {
            Some(ScriptVerifyStatus::Success)
        } else if code == 1 {
            Some(ScriptVerifyStatus::ErrorInvalidFlagsCombination)
        } else if code == 2 {
            Some(ScriptVerifyStatus::ErrorSpentOutputsRequired)
        } else {
            None
        }
    }

    pub fn to_code(self) -> (r: u8)
        ensures
            r == self.spec_code(),
    {
        match self {
            ScriptVerifyStatus::Success => 0,
            ScriptVerifyStatus::ErrorInvalidFlagsCombination => 1,
            ScriptVerifyStatus::ErrorSpentOutputsRequired => 2,
        }
    }

    pub fn from_code(code: u8) -> (r: Option<ScriptVerifyStatus>)
        ensures
            r == Self::spec_from_code(code),
    {
        match code {
            0 => Some(ScriptVerifyStatus::Success),
            1 => Some(ScriptVerifyStatus::ErrorInvalidFlagsCombination),
            2 => Some(ScriptVerifyStatus::ErrorSpentOutputsRequired),
            _ => None,
        }
    }

    /// Encoding then decoding gives back the same status.
    pub proof fn lemma_code_round_trip(self)
        ensures
            Self::spec_from_code(self.spec_code()) == Some(self),
    {
    }
}

} // verus!
