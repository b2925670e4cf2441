//! The remaining tuning enumerations: the engine's informational log level
//! and the five numeric-first enumerations whose native representation is an
//! integer ordinal fixed by the engine's own numbering.

use vstd::prelude::*;

use crate::codec::{EnumCodec, OrdinalCodec, ParamKind, RawValue, RawView};
use crate::text::str_eq;
use vstd::string::StringExecFns;

verus! {

/// A closed enumeration with a fixed set of engine-facing textual names.
///
/// The engine's own configuration strings are strict: an unrecognised name
/// is a programming error, so `from_string` demands a recognised name and
/// promises the exact variant it identifies.
pub trait FromString: Sized {
    /// Which variant, if any, the given engine-facing name identifies.
    spec fn spec_from_string(s: Seq<char>) -> Option<Self>;

    fn from_string(name: &str) -> (r: Self)
        requires
            Self::spec_from_string(name@) is Some,
        ensures
            Some(r) == Self::spec_from_string(name@),
    ;
}

/// The verbosity of the engine's informational log, as a configuration
/// document writes it.
#[derive(Copy, Clone, Debug, PartialEq, Eq, Structural)]
pub enum LogLevel {
    Error,
    Fatal,
    Info,
    Warn,
    Debug,
}

/// The strict kebab-case name of each log level.
pub open spec fn spec_log_level_name(l: LogLevel) -> Seq<char> {
    match l {
        LogLevel::Error => "error"@,
        LogLevel::Fatal => "fatal"@,
        LogLevel::Info => "info"@,
        LogLevel::Warn => "warn"@,
        LogLevel::Debug => "debug"@,
    }
}

/// Strict textual decoding of the log level.
pub open spec fn spec_log_level_from_text(s: Seq<char>) -> Option<LogLevel> {
    if s == "error"@ {
        Some(LogLevel::Error)
    } else if s == "fatal"@ {
        Some(LogLevel::Fatal)
    } else if s == "info"@ {
        Some(LogLevel::Info)
    } else if s == "warn"@ {
        Some(LogLevel::Warn)
    } else if s == "debug"@ {
        Some(LogLevel::Debug)
    } else {
        None
    }
}

impl LogLevel {
    /// The canonical kebab-case name, the exact inverse of textual decoding.
    pub fn name(self) -> (r: &'static str)
        ensures
            r@ == spec_log_level_name(self),
    {
        match self {
            LogLevel::Error => "error",
            LogLevel::Fatal => "fatal",
            LogLevel::Info => "info",
            LogLevel::Warn => "warn",
            LogLevel::Debug => "debug",
        }
    }
}

impl EnumCodec for LogLevel {
    open spec fn spec_kind() -> ParamKind {
        ParamKind::InfoLog
    }

    open spec fn spec_from_text(s: Seq<char>) -> Option<Self> {
        spec_log_level_from_text(s)
    }

    open spec fn spec_from_ordinal(n: i64) -> Option<Self> {
        None
    }

    open spec fn spec_encode(self) -> RawView {
        RawView::Text(spec_log_level_name(self))
    }

    fn kind() -> (k: ParamKind) {
        ParamKind::InfoLog
    }

    fn from_text(s: &str) -> (r: Option<Self>) {
        if str_eq(s, "error") {
            Some(LogLevel::Error)
        } else if str_eq(s, "fatal") {
            Some(LogLevel::Fatal)
        } else if str_eq(s, "info") {
            Some(LogLevel::Info)
        } else if str_eq(s, "warn") {
            Some(LogLevel::Warn)
        } else if str_eq(s, "debug") {
            Some(LogLevel::Debug)
        } else {
            None
        }
    }

    fn from_ordinal(n: i64) -> (r: Option<Self>) {
        None
    }

    fn encode(self) -> (r: RawValue) {
        RawValue::Text(String::from_str(self.name()))
    }

    proof fn lemma_encode_decode(self) {
        reveal_strlit("error");
        reveal_strlit("fatal");
        reveal_strlit("info");
        reveal_strlit("warn");
        reveal_strlit("debug");
        assert(("error"@).len() == 5);
        assert(("fatal"@).len() == 5);
        assert(("info"@).len() == 4);
        assert(("warn"@).len() == 4);
        assert(("debug"@).len() == 5);
        assert(("error"@)[0] == 'e');
        assert(("fatal"@)[0] == 'f');
        assert(("info"@)[0] == 'i');
        assert(("warn"@)[0] == 'w');
        assert(("debug"@)[0] == 'd');
    }
}

/// The engine's native informational log level.
#[derive(Copy, Clone, Debug, PartialEq, Eq, Structural)]
pub enum DbInfoLogLevel {
    Error,
    Fatal,
    Info,
    Warn,
    Debug,
}

/// The engine-native log level a document-level choice stands for.
pub open spec fn spec_db_of_log_level(l: LogLevel) -> DbInfoLogLevel {
    match l {
        LogLevel::Error => DbInfoLogLevel::Error,
        LogLevel::Fatal => DbInfoLogLevel::Fatal,
        LogLevel::Info => DbInfoLogLevel::Info,
        LogLevel::Warn => DbInfoLogLevel::Warn,
        LogLevel::Debug => DbInfoLogLevel::Debug,
    }
}

impl core::convert::From<LogLevel> for DbInfoLogLevel {
    fn from(l: LogLevel) -> (r: DbInfoLogLevel) {
        match l {
            LogLevel::Error => DbInfoLogLevel::Error,
            LogLevel::Fatal => DbInfoLogLevel::Fatal,
            LogLevel::Info => DbInfoLogLevel::Info,
            LogLevel::Warn => DbInfoLogLevel::Warn,
            LogLevel::Debug => DbInfoLogLevel::Debug,
        }
    }
}

impl vstd::std_specs::convert::FromSpecImpl<LogLevel> for DbInfoLogLevel {
    open spec fn obeys_from_spec() -> bool {
        true
    }

    open spec fn from_spec(l: LogLevel) -> DbInfoLogLevel {
        spec_db_of_log_level(l)
    }
}

/// How the engine orders files when picking the next compaction.
/// Ordinals follow the engine's native numbering, starting at zero.
#[derive(Copy, Clone, Debug, PartialEq, Eq, Structural)]
pub enum CompactionPriority {
    ByCompensatedSize,
    OldestLargestSeqFirst,
    OldestSmallestSeqFirst,
    MinOverlappingRatio,
}

/// The fixed engine-native ordinal of each `CompactionPriority` variant.
pub open spec fn spec_compaction_priority_ordinal(v: CompactionPriority) -> i64 {
    match v {
        CompactionPriority::ByCompensatedSize => 0,
        CompactionPriority::OldestLargestSeqFirst => 1,
        CompactionPriority::OldestSmallestSeqFirst => 2,
        CompactionPriority::MinOverlappingRatio => 3,
    }
}

impl EnumCodec for CompactionPriority {
    open spec fn spec_kind() -> ParamKind {
        ParamKind::CompactionPriority
    }

    open spec fn spec_from_text(s: Seq<char>) -> Option<Self> {
        if s == "ByCompensatedSize"@ {
            Some(CompactionPriority::ByCompensatedSize)
        } else if s == "OldestLargestSeqFirst"@ {
            Some(CompactionPriority::OldestLargestSeqFirst)
        } else if s == "OldestSmallestSeqFirst"@ {
            Some(CompactionPriority::OldestSmallestSeqFirst)
        } else if s == "MinOverlappingRatio"@ {
            Some(CompactionPriority::MinOverlappingRatio)
        } else {
            None
        }
    }

    open spec fn spec_from_ordinal(n: i64) -> Option<Self> {
        if n == 0 {
            Some(CompactionPriority::ByCompensatedSize)
        } else if n == 1 {
            Some(CompactionPriority::OldestLargestSeqFirst)
        } else if n == 2 {
            Some(CompactionPriority::OldestSmallestSeqFirst)
        } else if n == 3 {
            Some(CompactionPriority::MinOverlappingRatio)
        } else {
            None
        }
    }

    open spec fn spec_encode(self) -> RawView {
        RawView::Ordinal(spec_compaction_priority_ordinal(self))
    }

    fn kind() -> (k: ParamKind) {
        ParamKind::CompactionPriority
    }

    fn from_text(s: &str) -> (r: Option<Self>) {
        if str_eq(s, "ByCompensatedSize") {
            Some(CompactionPriority::ByCompensatedSize)
        } else if str_eq(s, "OldestLargestSeqFirst") {
            Some(CompactionPriority::OldestLargestSeqFirst)
        } else if str_eq(s, "OldestSmallestSeqFirst") {
            Some(CompactionPriority::OldestSmallestSeqFirst)
        } else if str_eq(s, "MinOverlappingRatio") {
            Some(CompactionPriority::MinOverlappingRatio)
        } else {
            None
        }
    }

    fn from_ordinal(n: i64) -> (r: Option<Self>) {
        if n == 0 {
            Some(CompactionPriority::ByCompensatedSize)
        } else if n == 1 {
            Some(CompactionPriority::OldestLargestSeqFirst)
        } else if n == 2 {
            Some(CompactionPriority::OldestSmallestSeqFirst)
        } else if n == 3 {
            Some(CompactionPriority::MinOverlappingRatio)
        } else {
            None
        }
    }

    fn encode(self) -> (r: RawValue) {
        RawValue::Ordinal(self.ordinal())
    }

    proof fn lemma_encode_decode(self) {
    }
}

impl OrdinalCodec for CompactionPriority {
    open spec fn spec_ordinal(self) -> i64 {
        spec_compaction_priority_ordinal(self)
    }

    fn ordinal(self) -> (n: i64) {
        match self {
            CompactionPriority::ByCompensatedSize => 0,
            CompactionPriority::OldestLargestSeqFirst => 1,
            CompactionPriority::OldestSmallestSeqFirst => 2,
            CompactionPriority::MinOverlappingRatio => 3,
        }
    }

    proof fn lemma_ordinal_round_trip(self) {
    }
}

impl FromString for CompactionPriority {
    open spec fn spec_from_string(s: Seq<char>) -> Option<Self> {
        <Self as EnumCodec>::spec_from_text(s)
    }

    fn from_string(name: &str) -> (r: Self) {
        match <Self as EnumCodec>::from_text(name) {
            Some(t) => t,
            None => vstd::pervasive::unreached(),
        }
    }
}

/// Which I/O directions the engine's rate limiter throttles.
/// Ordinals follow the engine's native numbering, starting at one.
#[derive(Copy, Clone, Debug, PartialEq, Eq, Structural)]
pub enum RateLimiterMode {
    ReadOnly,
    WriteOnly,
    AllIo,
}

/// The fixed engine-native ordinal of each `RateLimiterMode` variant.
pub open spec fn spec_rate_limiter_mode_ordinal(v: RateLimiterMode) -> i64 {
    match v {
        RateLimiterMode::ReadOnly => 1,
        RateLimiterMode::WriteOnly => 2,
        RateLimiterMode::AllIo => 3,
    }
}

impl EnumCodec for RateLimiterMode {
    open spec fn spec_kind() -> ParamKind {
        ParamKind::RateLimiterMode
    }

    open spec fn spec_from_text(s: Seq<char>) -> Option<Self> {
        if s == "ReadOnly"@ {
            Some(RateLimiterMode::ReadOnly)
        } else if s == "WriteOnly"@ {
            Some(RateLimiterMode::WriteOnly)
        } else if s == "AllIo"@ {
            Some(RateLimiterMode::AllIo)
        } else {
            None
        }
    }

    open spec fn spec_from_ordinal(n: i64) -> Option<Self> {
        if n == 1 {
            Some(RateLimiterMode::ReadOnly)
        } else if n == 2 {
            Some(RateLimiterMode::WriteOnly)
        } else if n == 3 {
            Some(RateLimiterMode::AllIo)
        } else {
            None
        }
    }

    open spec fn spec_encode(self) -> RawView {
        RawView::Ordinal(spec_rate_limiter_mode_ordinal(self))
    }

    fn kind() -> (k: ParamKind) {
        ParamKind::RateLimiterMode
    }

    fn from_text(s: &str) -> (r: Option<Self>) {
        if str_eq(s, "ReadOnly") {
            Some(RateLimiterMode::ReadOnly)
        } else if str_eq(s, "WriteOnly") {
            Some(RateLimiterMode::WriteOnly)
        } else if str_eq(s, "AllIo") {
            Some(RateLimiterMode::AllIo)
        } else {
            None
        }
    }

    fn from_ordinal(n: i64) -> (r: Option<Self>) {
        if n == 1 {
            Some(RateLimiterMode::ReadOnly)
        } else if n == 2 {
            Some(RateLimiterMode::WriteOnly)
        } else if n == 3 {
            Some(RateLimiterMode::AllIo)
        } else {
            None
        }
    }

    fn encode(self) -> (r: RawValue) {
        RawValue::Ordinal(self.ordinal())
    }

    proof fn lemma_encode_decode(self) {
    }
}

impl OrdinalCodec for RateLimiterMode {
    open spec fn spec_ordinal(self) -> i64 {
        spec_rate_limiter_mode_ordinal(self)
    }

    fn ordinal(self) -> (n: i64) {
        match self {
            RateLimiterMode::ReadOnly => 1,
            RateLimiterMode::WriteOnly => 2,
            RateLimiterMode::AllIo => 3,
        }
    }

    proof fn lemma_ordinal_round_trip(self) {
    }
}

impl FromString for RateLimiterMode {
    open spec fn spec_from_string(s: Seq<char>) -> Option<Self> {
        <Self as EnumCodec>::spec_from_text(s)
    }

    fn from_string(name: &str) -> (r: Self) {
        match <Self as EnumCodec>::from_text(name) {
            Some(t) => t,
            None => vstd::pervasive::unreached(),
        }
    }
}

/// The engine's overall compaction shape.
/// Ordinals follow the engine's native numbering, starting at zero.
#[derive(Copy, Clone, Debug, PartialEq, Eq, Structural)]
pub enum CompactionStyle {
    Level,
    Universal,
}

/// The fixed engine-native ordinal of each `CompactionStyle` variant.
pub open spec fn spec_compaction_style_ordinal(v: CompactionStyle) -> i64 {
    match v {
        CompactionStyle::Level => 0,
        CompactionStyle::Universal => 1,
    }
}

impl EnumCodec for CompactionStyle {
    open spec fn spec_kind() -> ParamKind {
        ParamKind::CompactionStyle
    }

    open spec fn spec_from_text(s: Seq<char>) -> Option<Self> {
        if s == "level"@ {
            Some(CompactionStyle::Level)
        } else if s == "universal"@ {
            Some(CompactionStyle::Universal)
        } else {
            None
        }
    }

    open spec fn spec_from_ordinal(n: i64) -> Option<Self> {
        if n == 0 {
            Some(CompactionStyle::Level)
        } else if n == 1 {
            Some(CompactionStyle::Universal)
        } else {
            None
        }
    }

    open spec fn spec_encode(self) -> RawView {
        RawView::Ordinal(spec_compaction_style_ordinal(self))
    }

    fn kind() -> (k: ParamKind) {
        ParamKind::CompactionStyle
    }

    fn from_text(s: &str) -> (r: Option<Self>) {
        if str_eq(s, "level") {
            Some(CompactionStyle::Level)
        } else if str_eq(s, "universal") {
            Some(CompactionStyle::Universal)
        } else {
            None
        }
    }

    fn from_ordinal(n: i64) -> (r: Option<Self>) {
        if n == 0 {
            Some(CompactionStyle::Level)
        } else if n == 1 {
            Some(CompactionStyle::Universal)
        } else {
            None
        }
    }

    fn encode(self) -> (r: RawValue) {
        RawValue::Ordinal(self.ordinal())
    }

    proof fn lemma_encode_decode(self) {
    }
}

impl OrdinalCodec for CompactionStyle {
    open spec fn spec_ordinal(self) -> i64 {
        spec_compaction_style_ordinal(self)
    }

    fn ordinal(self) -> (n: i64) {
        match self {
            CompactionStyle::Level => 0,
            CompactionStyle::Universal => 1,
        }
    }

    proof fn lemma_ordinal_round_trip(self) {
    }
}

impl FromString for CompactionStyle {
    open spec fn spec_from_string(s: Seq<char>) -> Option<Self> {
        <Self as EnumCodec>::spec_from_text(s)
    }

    fn from_string(name: &str) -> (r: Self) {
        match <Self as EnumCodec>::from_text(name) {
            Some(t) => t,
            None => vstd::pervasive::unreached(),
        }
    }
}

/// How strictly the engine replays its write-ahead log after a crash.
/// Ordinals follow the engine's native numbering, starting at zero.
#[derive(Copy, Clone, Debug, PartialEq, Eq, Structural)]
pub enum RecoveryMode {
    TolerateCorruptedTailRecords,
    AbsoluteConsistency,
    PointInTime,
    SkipAnyCorruptedRecords,
}

/// The fixed engine-native ordinal of each `RecoveryMode` variant.
pub open spec fn spec_recovery_mode_ordinal(v: RecoveryMode) -> i64 {
    match v {
        RecoveryMode::TolerateCorruptedTailRecords => 0,
        RecoveryMode::AbsoluteConsistency => 1,
        RecoveryMode::PointInTime => 2,
        RecoveryMode::SkipAnyCorruptedRecords => 3,
    }
}

impl EnumCodec for RecoveryMode {
    open spec fn spec_kind() -> ParamKind {
        ParamKind::RecoveryMode
    }

    open spec fn spec_from_text(s: Seq<char>) -> Option<Self> {
        if s == "TolerateCorruptedTailRecords"@ {
            Some(RecoveryMode::TolerateCorruptedTailRecords)
        } else if s == "AbsoluteConsistency"@ {
            Some(RecoveryMode::AbsoluteConsistency)
        } else if s == "PointInTime"@ {
            Some(RecoveryMode::PointInTime)
        } else if s == "SkipAnyCorruptedRecords"@ {
            Some(RecoveryMode::SkipAnyCorruptedRecords)
        } else {
            None
        }
    }

    open spec fn spec_from_ordinal(n: i64) -> Option<Self> {
        if n == 0 {
            Some(RecoveryMode::TolerateCorruptedTailRecords)
        } else if n == 1 {
            Some(RecoveryMode::AbsoluteConsistency)
        } else if n == 2 {
            Some(RecoveryMode::PointInTime)
        } else if n == 3 {
            Some(RecoveryMode::SkipAnyCorruptedRecords)
        } else {
            None
        }
    }

    open spec fn spec_encode(self) -> RawView {
        RawView::Ordinal(spec_recovery_mode_ordinal(self))
    }

    fn kind() -> (k: ParamKind) {
        ParamKind::RecoveryMode
    }

    fn from_text(s: &str) -> (r: Option<Self>) {
        if str_eq(s, "TolerateCorruptedTailRecords") {
            Some(RecoveryMode::TolerateCorruptedTailRecords)
        } else if str_eq(s, "AbsoluteConsistency") {
            Some(RecoveryMode::AbsoluteConsistency)
        } else if str_eq(s, "PointInTime") {
            Some(RecoveryMode::PointInTime)
        } else if str_eq(s, "SkipAnyCorruptedRecords") {
            Some(RecoveryMode::SkipAnyCorruptedRecords)
        } else {
            None
        }
    }

    fn from_ordinal(n: i64) -> (r: Option<Self>) {
        if n == 0 {
            Some(RecoveryMode::TolerateCorruptedTailRecords)
        } else if n == 1 {
            Some(RecoveryMode::AbsoluteConsistency)
        } else if n == 2 {
            Some(RecoveryMode::PointInTime)
        } else if n == 3 {
            Some(RecoveryMode::SkipAnyCorruptedRecords)
        } else {
            None
        }
    }

    fn encode(self) -> (r: RawValue) {
        RawValue::Ordinal(self.ordinal())
    }

    proof fn lemma_encode_decode(self) {
    }
}

impl OrdinalCodec for RecoveryMode {
    open spec fn spec_ordinal(self) -> i64 {
        spec_recovery_mode_ordinal(self)
    }

    fn ordinal(self) -> (n: i64) {
        match self {
            RecoveryMode::TolerateCorruptedTailRecords => 0,
            RecoveryMode::AbsoluteConsistency => 1,
            RecoveryMode::PointInTime => 2,
            RecoveryMode::SkipAnyCorruptedRecords => 3,
        }
    }

    proof fn lemma_ordinal_round_trip(self) {
    }
}

impl FromString for RecoveryMode {
    open spec fn spec_from_string(s: Seq<char>) -> Option<Self> {
        <Self as EnumCodec>::spec_from_text(s)
    }

    fn from_string(name: &str) -> (r: Self) {
        match <Self as EnumCodec>::from_text(name) {
            Some(t) => t,
            None => vstd::pervasive::unreached(),
        }
    }
}

/// How much performance instrumentation the engine gathers. This
/// enumeration has no textual alphabet: only its ordinal travels through a
/// configuration document.
#[derive(Copy, Clone, Debug, PartialEq, Eq, Structural)]
pub enum PerfLevel {
    Uninitialized,
    Disable,
    EnableCount,
    EnableTimeExceptForMutex,
    EnableTimeAndCpuTimeExceptForMutex,
    EnableTime,
    OutOfBounds,
}

/// The fixed engine-native ordinal of each `PerfLevel` variant.
pub open spec fn spec_perf_level_ordinal(v: PerfLevel) -> i64 {
    match v {
        PerfLevel::Uninitialized => 0,
        PerfLevel::Disable => 1,
        PerfLevel::EnableCount => 2,
        PerfLevel::EnableTimeExceptForMutex => 3,
        PerfLevel::EnableTimeAndCpuTimeExceptForMutex => 4,
        PerfLevel::EnableTime => 5,
        PerfLevel::OutOfBounds => 6,
    }
}

impl EnumCodec for PerfLevel {
    open spec fn spec_kind() -> ParamKind {
        ParamKind::PerfLevel
    }

    open spec fn spec_from_text(s: Seq<char>) -> Option<Self> {
        None
    }

    open spec fn spec_from_ordinal(n: i64) -> Option<Self> {
        if n == 0 {
            Some(PerfLevel::Uninitialized)
        } else if n == 1 {
            Some(PerfLevel::Disable)
        } else if n == 2 {
            Some(PerfLevel::EnableCount)
        } else if n == 3 {
            Some(PerfLevel::EnableTimeExceptForMutex)
        } else if n == 4 {
            Some(PerfLevel::EnableTimeAndCpuTimeExceptForMutex)
        } else if n == 5 {
            Some(PerfLevel::EnableTime)
        } else if n == 6 {
            Some(PerfLevel::OutOfBounds)
        } else {
            None
        }
    }

    open spec fn spec_encode(self) -> RawView {
        RawView::Ordinal(spec_perf_level_ordinal(self))
    }

    fn kind() -> (k: ParamKind) {
        ParamKind::PerfLevel
    }

    fn from_text(s: &str) -> (r: Option<Self>) {
        None
    }

    fn from_ordinal(n: i64) -> (r: Option<Self>) {
        if n == 0 {
            Some(PerfLevel::Uninitialized)
        } else if n == 1 {
            Some(PerfLevel::Disable)
        } else if n == 2 {
            Some(PerfLevel::EnableCount)
        } else if n == 3 {
            Some(PerfLevel::EnableTimeExceptForMutex)
        } else if n == 4 {
            Some(PerfLevel::EnableTimeAndCpuTimeExceptForMutex)
        } else if n == 5 {
            Some(PerfLevel::EnableTime)
        } else if n == 6 {
            Some(PerfLevel::OutOfBounds)
        } else {
            None
        }
    }

    fn encode(self) -> (r: RawValue) {
        RawValue::Ordinal(self.ordinal())
    }

    proof fn lemma_encode_decode(self) {
    }
}

impl OrdinalCodec for PerfLevel {
    open spec fn spec_ordinal(self) -> i64 {
        spec_perf_level_ordinal(self)
    }

    fn ordinal(self) -> (n: i64) {
        match self {
            PerfLevel::Uninitialized => 0,
            PerfLevel::Disable => 1,
            PerfLevel::EnableCount => 2,
            PerfLevel::EnableTimeExceptForMutex => 3,
            PerfLevel::EnableTimeAndCpuTimeExceptForMutex => 4,
            PerfLevel::EnableTime => 5,
            PerfLevel::OutOfBounds => 6,
        }
    }

    proof fn lemma_ordinal_round_trip(self) {
    }
}

} // verus!
