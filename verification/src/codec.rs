//! The configuration codec core: the raw representation a configuration
//! document hands over (a textual name or an integer ordinal), the decode
//! error taxonomy, and the interface every tuning enumeration implements so
//! that one generic decoder serves them all.
//!
//! Centralising the bidirectional mapping here keeps every enumeration's
//! ordinal assignment in one place and lets the round-trip laws be stated
//! once, generically.

use vstd::prelude::*;

verus! {

/// A raw configuration value as a document presents it: either a textual
/// name or an integer ordinal.
pub enum RawValue {
    Text(String),
    Ordinal(i64),
}

/// The mathematical view of a [`RawValue`].
pub enum RawView {
    Text(Seq<char>),
    Ordinal(i64),
}

impl View for RawValue {
    type V = RawView;

    open spec fn view(&self) -> RawView {
        match self {
            RawValue::Text(s) => RawView::Text(s@),
            RawValue::Ordinal(n) => RawView::Ordinal(*n),
        }
    }
}

/// Which enumeration a decoder was working for; carried inside a
/// [`DecodeError`] so a failure identifies the accepted alphabet.
#[derive(Copy, Clone, Debug, PartialEq, Eq, Structural)]
pub enum ParamKind {
    Compression,
    InfoLog,
    BlobRun,
    CompactionPriority,
    RateLimiterMode,
    CompactionStyle,
    RecoveryMode,
    PerfLevel,
}

/// A recoverable decode failure. Invalid input carries the offending value
/// and the enumeration whose alphabet it missed; a compression ladder of the
/// wrong length carries the actual and the expected element count.
#[derive(Clone, Debug, PartialEq)]
pub enum DecodeError {
    InvalidName { got: String, param: ParamKind },
    InvalidOrdinal { got: i64, param: ParamKind },
    WrongLength { got: usize, expected: usize },
}

/// The interface of one closed tuning enumeration: how text decodes, how
/// ordinals decode, and what the canonical (encoded) representation is.
///
/// An enumeration without a textual alphabet returns `None` from
/// `spec_from_text` everywhere; one whose native representation is not
/// numeric returns `None` from `spec_from_ordinal` everywhere.
pub trait EnumCodec: Sized + Copy {
    /// The tag such an enumeration's decode errors carry.
    spec fn spec_kind() -> ParamKind;

    /// Which variant, if any, the given text decodes to.
    spec fn spec_from_text(s: Seq<char>) -> Option<Self>;

    /// Which variant, if any, the given ordinal decodes to.
    spec fn spec_from_ordinal(n: i64) -> Option<Self>;

    /// The canonical representation encoding produces.
    spec fn spec_encode(self) -> RawView;

    fn kind() -> (k: ParamKind)
        ensures
            k == Self::spec_kind(),
    ;

    fn from_text(s: &str) -> (r: Option<Self>)
        ensures
            r == Self::spec_from_text(s@),
    ;

    fn from_ordinal(n: i64) -> (r: Option<Self>)
        ensures
            r == Self::spec_from_ordinal(n),
    ;

    fn encode(self) -> (r: RawValue)
        ensures
            r@ == self.spec_encode(),
    ;

    /// Encoding never leaves the decodable set: what `encode` produces,
    /// `decode` maps back to the same variant.
    proof fn lemma_encode_decode(self)
        ensures
            match self.spec_encode() {
                RawView::Text(s) => Self::spec_from_text(s) == Some(self),
                RawView::Ordinal(n) => Self::spec_from_ordinal(n) == Some(self),
            },
    ;
}

/// A tuning enumeration whose native engine representation is an integer
/// ordinal; encoding such a value yields its ordinal.
pub trait OrdinalCodec: EnumCodec {
    /// The fixed ordinal of this variant in the engine's native numbering.
    spec fn spec_ordinal(self) -> i64;

    fn ordinal(self) -> (n: i64)
        ensures
            n == self.spec_ordinal(),
    ;

    /// Every valid ordinal decodes back to the variant it identifies.
    proof fn lemma_ordinal_round_trip(self)
        ensures
            Self::spec_from_ordinal(self.spec_ordinal()) == Some(self),
    ;
}

/// What decoding a raw value yields, if anything.
pub open spec fn spec_decode<T: EnumCodec>(v: RawView) -> Option<T> {
    match v {
        RawView::Text(s) => T::spec_from_text(s),
        RawView::Ordinal(n) => T::spec_from_ordinal(n),
    }
}

/// The exact error decoding the raw value `v` for enumeration `T` reports.
pub open spec fn spec_decode_error<T: EnumCodec>(e: DecodeError, v: RawView) -> bool {
    match v {
        RawView::Text(s) => {
            &&& e matches DecodeError::InvalidName { got, param }
            &&& got@ == s
            &&& param == T::spec_kind()
        },
        RawView::Ordinal(n) => {
            &&& e matches DecodeError::InvalidOrdinal { got, param }
            &&& got == n
            &&& param == T::spec_kind()
        },
    }
}

/// Strict decoding of one raw configuration value into the enumeration `T`:
/// succeeds exactly on the decodable inputs, and a failure names the
/// offending value together with the enumeration it missed.
pub fn decode<T: EnumCodec>(v: &RawValue) -> (r: Result<T, DecodeError>)
    ensures
        r is Ok <==> spec_decode::<T>(v@) is Some,
        r is Ok ==> Some(r->Ok_0) == spec_decode::<T>(v@),
        r is Err ==> spec_decode_error::<T>(r->Err_0, v@),
{
    match v {
        RawValue::Text(s) => match T::from_text(s.as_str()) {
            Some(t) => Ok(t),
            None => Err(DecodeError::InvalidName { got: s.clone(), param: T::kind() }),
        },
        RawValue::Ordinal(n) => match T::from_ordinal(*n) {
            Some(t) => Ok(t),
            None => Err(DecodeError::InvalidOrdinal { got: *n, param: T::kind() }),
        },
    }
}

/// Round-trip law: for every variant of every tuning enumeration, decoding
/// the canonical encoding gives the variant back.
pub proof fn lemma_round_trip<T: EnumCodec>(v: T)
    ensures
        spec_decode::<T>(v.spec_encode()) == Some(v),
{
    v.lemma_encode_decode();
}

/// Numeric round-trip law: for every variant of an ordinal-represented
/// enumeration, decoding the variant's ordinal gives the variant back.
pub proof fn lemma_numeric_round_trip<T: OrdinalCodec>(v: T)
    ensures
        spec_decode::<T>(RawView::Ordinal(v.spec_ordinal())) == Some(v),
{
    v.lemma_ordinal_round_trip();
}

} // verus!
