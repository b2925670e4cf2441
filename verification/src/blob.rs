//! The blob-run mode: how the engine's separated blob storage participates
//! in writes. Besides the usual textual codec this enumeration also converses
//! with the generic configuration-value container used for on-line
//! reconfiguration, through the engine's own prefixed variant tags.

use vstd::prelude::*;

use crate::codec::{EnumCodec, ParamKind, RawValue, RawView};
use crate::text::str_eq;
use vstd::string::StringExecFns;

verus! {

/// How blob storage participates in writes.
#[derive(Copy, Clone, Debug, PartialEq, Eq, Structural)]
pub enum BlobRunMode {
    Normal,
    ReadOnly,
    Fallback,
}

/// The engine's native blob-run mode.
#[derive(Copy, Clone, Debug, PartialEq, Eq, Structural)]
pub enum DbTitanBlobRunMode {
    Normal,
    ReadOnly,
    Fallback,
}

/// A typed value in the generic configuration-value container. Only the
/// variants this crate converses with are modelled; the blob-run slot
/// carries the engine's prefixed variant tag as text.
#[derive(Clone, Debug, PartialEq)]
pub enum ConfigValue {
    U64(u64),
    Bool(bool),
    Text(String),
    BlobRunMode(String),
}

/// The strict kebab-case name of each blob-run mode.
pub open spec fn spec_blob_run_mode_name(m: BlobRunMode) -> Seq<char> {
    match m {
        BlobRunMode::Normal => "normal"@,
        BlobRunMode::ReadOnly => "read-only"@,
        BlobRunMode::Fallback => "fallback"@,
    }
}

/// Strict textual decoding of the blob-run mode.
pub open spec fn spec_blob_run_mode_from_text(s: Seq<char>) -> Option<BlobRunMode> {
    if s == "normal"@ {
        Some(BlobRunMode::Normal)
    } else if s == "read-only"@ {
        Some(BlobRunMode::ReadOnly)
    } else if s == "fallback"@ {
        Some(BlobRunMode::Fallback)
    } else {
        None
    }
}

/// The engine's prefixed variant tag for each blob-run mode, as the generic
/// configuration-value container carries it.
pub open spec fn spec_blob_run_mode_tag(m: BlobRunMode) -> Seq<char> {
    match m {
        BlobRunMode::Normal => "kNormal"@,
        BlobRunMode::ReadOnly => "kReadOnly"@,
        BlobRunMode::Fallback => "kFallback"@,
    }
}

/// Which blob-run mode, if any, the given prefixed variant tag identifies.
pub open spec fn spec_blob_run_mode_from_tag(s: Seq<char>) -> Option<BlobRunMode> {
    if s == "kNormal"@ {
        Some(BlobRunMode::Normal)
    } else if s == "kReadOnly"@ {
        Some(BlobRunMode::ReadOnly)
    } else if s == "kFallback"@ {
        Some(BlobRunMode::Fallback)
    } else {
        None
    }
}

impl BlobRunMode {
    /// The canonical kebab-case name, the exact inverse of textual decoding.
    pub fn name(self) -> (r: &'static str)
        ensures
            r@ == spec_blob_run_mode_name(self),
    {
        match self {
            BlobRunMode::Normal => "normal",
            BlobRunMode::ReadOnly => "read-only",
            BlobRunMode::Fallback => "fallback",
        }
    }

    /// Wraps this mode for the generic configuration-value container, under
    /// the engine's prefixed variant tag.
    pub fn to_config_value(self) -> (r: ConfigValue)
        ensures
            r matches ConfigValue::BlobRunMode(s) && s@ == spec_blob_run_mode_tag(self),
    {
        let tag = match self {
            BlobRunMode::Normal => "kNormal",
            BlobRunMode::ReadOnly => "kReadOnly",
            BlobRunMode::Fallback => "kFallback",
        };
        ConfigValue::BlobRunMode(String::from_str(tag))
    }

    /// Reads a blob-run mode back out of the generic container, if the value
    /// is a blob-run slot holding a recognised tag.
    pub fn try_from_config_value(v: &ConfigValue) -> (r: Option<BlobRunMode>)
        ensures
            r == match *v {
                ConfigValue::BlobRunMode(s) => spec_blob_run_mode_from_tag(s@),
                _ => None::<BlobRunMode>,
            },
    {
        match v {
            ConfigValue::BlobRunMode(s) => {
                if str_eq(s.as_str(), "kNormal") {
                    Some(BlobRunMode::Normal)
                } else if str_eq(s.as_str(), "kReadOnly") {
                    Some(BlobRunMode::ReadOnly)
                } else if str_eq(s.as_str(), "kFallback") {
                    Some(BlobRunMode::Fallback)
                } else {
                    None
                }
            },
            _ => None,
        }
    }

    /// Reads a blob-run mode out of the generic container. Feeding any other
    /// container variant, or an unrecognised tag, is a programming error —
    /// never a consequence of untrusted input — so the precondition demands
    /// a well-formed value; a caller that cannot promise one checks with
    /// [`BlobRunMode::try_from_config_value`] first and aborts itself.
    pub fn from_config_value(v: &ConfigValue) -> (r: BlobRunMode)
        requires
            v matches ConfigValue::BlobRunMode(s) && spec_blob_run_mode_from_tag(s@) is Some,
        ensures
            v matches ConfigValue::BlobRunMode(s) && Some(r) == spec_blob_run_mode_from_tag(s@),
    {
        match BlobRunMode::try_from_config_value(v) {
            Some(m) => m,
            None => vstd::pervasive::unreached(),
        }
    }
}

impl EnumCodec for BlobRunMode {
    open spec fn spec_kind() -> ParamKind {
        ParamKind::BlobRun
    }

    open spec fn spec_from_text(s: Seq<char>) -> Option<Self> {
        spec_blob_run_mode_from_text(s)
    }

    open spec fn spec_from_ordinal(n: i64) -> Option<Self> {
        None
    }

    open spec fn spec_encode(self) -> RawView {
        RawView::Text(spec_blob_run_mode_name(self))
    }

    fn kind() -> (k: ParamKind) {
        ParamKind::BlobRun
    }

    fn from_text(s: &str) -> (r: Option<Self>) {
        if str_eq(s, "normal") {
            Some(BlobRunMode::Normal)
        } else if str_eq(s, "read-only") {
            Some(BlobRunMode::ReadOnly)
        } else if str_eq(s, "fallback") {
            Some(BlobRunMode::Fallback)
        } else {
            None
        }
    }

    fn from_ordinal(n: i64) -> (r: Option<Self>) {
        None
    }

    fn encode(self) -> (r: RawValue) {
        RawValue::Text(String::from_str(self.name()))
    }

    proof fn lemma_encode_decode(self) {
        reveal_strlit("normal");
        reveal_strlit("read-only");
        reveal_strlit("fallback");
        assert(("normal"@).len() == 6);
        assert(("read-only"@).len() == 9);
        assert(("fallback"@).len() == 8);
    }
}

/// Container round-trip law: wrapping any blob-run mode for the generic
/// container and reading it back yields the same mode.
pub proof fn lemma_blob_run_mode_tag_round_trip(m: BlobRunMode)
    ensures
        spec_blob_run_mode_from_tag(spec_blob_run_mode_tag(m)) == Some(m),
{
    reveal_strlit("kNormal");
    reveal_strlit("kReadOnly");
    reveal_strlit("kFallback");
    assert(("kNormal"@).len() == 7);
    assert(("kReadOnly"@).len() == 9);
    assert(("kFallback"@).len() == 9);
    assert(("kReadOnly"@)[1] == 'R');
    assert(("kFallback"@)[1] == 'F');
}

/// The engine-native blob-run mode a document-level choice stands for.
pub open spec fn spec_db_of_blob_run_mode(m: BlobRunMode) -> DbTitanBlobRunMode {
    match m {
        BlobRunMode::Normal => DbTitanBlobRunMode::Normal,
        BlobRunMode::ReadOnly => DbTitanBlobRunMode::ReadOnly,
        BlobRunMode::Fallback => DbTitanBlobRunMode::Fallback,
    }
}

impl core::convert::From<BlobRunMode> for DbTitanBlobRunMode {
    fn from(m: BlobRunMode) -> (r: DbTitanBlobRunMode) {
        match m {
            BlobRunMode::Normal => DbTitanBlobRunMode::Normal,
            BlobRunMode::ReadOnly => DbTitanBlobRunMode::ReadOnly,
            BlobRunMode::Fallback => DbTitanBlobRunMode::Fallback,
        }
    }
}

impl vstd::std_specs::convert::FromSpecImpl<BlobRunMode> for DbTitanBlobRunMode {
    open spec fn obeys_from_spec() -> bool {
        true
    }

    open spec fn from_spec(m: BlobRunMode) -> DbTitanBlobRunMode {
        spec_db_of_blob_run_mode(m)
    }
}

} // verus!
