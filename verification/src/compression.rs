//! Compression settings: the engine's native per-block compression
//! enumeration, the configuration-document counterpart, and the fixed-length
//! per-level compression ladder codec.

use vstd::prelude::*;

use crate::codec::{DecodeError, EnumCodec, ParamKind, RawValue, RawView};
use crate::text::{chars_eq_str, normal_chars, normal_seq};
use vstd::string::StringExecFns;

verus! {

/// The engine's native compression algorithm selection. The variant order
/// mirrors the engine's own declaration; only textual names travel through
/// configuration documents for this enumeration.
#[derive(Copy, Clone, Debug, PartialEq, Eq, Structural)]
pub enum DbCompressionType {
    No,
    Snappy,
    Zlib,
    Bz2,
    Lz4,
    Lz4hc,
    Zstd,
    ZstdNotFinal,
    Disable,
}

/// The canonical textual name of each compression algorithm.
pub open spec fn spec_compression_name(t: DbCompressionType) -> Seq<char> {
    match t {
        DbCompressionType::No => "no"@,
        DbCompressionType::Snappy => "snappy"@,
        DbCompressionType::Zlib => "zlib"@,
        DbCompressionType::Bz2 => "bzip2"@,
        DbCompressionType::Lz4 => "lz4"@,
        DbCompressionType::Lz4hc => "lz4hc"@,
        DbCompressionType::Zstd => "zstd"@,
        DbCompressionType::ZstdNotFinal => "zstd-not-final"@,
        DbCompressionType::Disable => "disable"@,
    }
}

/// Lenient textual decoding: surrounding whitespace and ASCII case are
/// forgiven, then the text must be a canonical compression name.
pub open spec fn spec_compression_from_text(s: Seq<char>) -> Option<DbCompressionType> {
    let t = normal_seq(s);
    if t == "no"@ {
        Some(DbCompressionType::No)
    } else if t == "snappy"@ {
        Some(DbCompressionType::Snappy)
    } else if t == "zlib"@ {
        Some(DbCompressionType::Zlib)
    } else if t == "bzip2"@ {
        Some(DbCompressionType::Bz2)
    } else if t == "lz4"@ {
        Some(DbCompressionType::Lz4)
    } else if t == "lz4hc"@ {
        Some(DbCompressionType::Lz4hc)
    } else if t == "zstd"@ {
        Some(DbCompressionType::Zstd)
    } else if t == "zstd-not-final"@ {
        Some(DbCompressionType::ZstdNotFinal)
    } else if t == "disable"@ {
        Some(DbCompressionType::Disable)
    } else {
        None
    }
}

impl DbCompressionType {
    /// The canonical textual name, the exact inverse of textual decoding.
    pub fn name(self) -> (r: &'static str)
        ensures
            r@ == spec_compression_name(self),
    {
        match self {
            DbCompressionType::No => "no",
            DbCompressionType::Snappy => "snappy",
            DbCompressionType::Zlib => "zlib",
            DbCompressionType::Bz2 => "bzip2",
            DbCompressionType::Lz4 => "lz4",
            DbCompressionType::Lz4hc => "lz4hc",
            DbCompressionType::Zstd => "zstd",
            DbCompressionType::ZstdNotFinal => "zstd-not-final",
            DbCompressionType::Disable => "disable",
        }
    }
}

/// The canonical name of each algorithm is already in normal form, so
/// normalising it changes nothing.
proof fn lemma_compression_name_normal(t: DbCompressionType)
    ensures
        normal_seq(spec_compression_name(t)) == spec_compression_name(t),
{
    reveal_strlit("no");
    reveal_strlit("snappy");
    reveal_strlit("zlib");
    reveal_strlit("bzip2");
    reveal_strlit("lz4");
    reveal_strlit("lz4hc");
    reveal_strlit("zstd");
    reveal_strlit("zstd-not-final");
    reveal_strlit("disable");
    let n = spec_compression_name(t);
    assert(crate::text::trim_seq(n) == n);
    assert(crate::text::lower_seq(n) =~= n);
}

impl EnumCodec for DbCompressionType {
    open spec fn spec_kind() -> ParamKind {
        ParamKind::Compression
    }

    open spec fn spec_from_text(s: Seq<char>) -> Option<Self> {
        spec_compression_from_text(s)
    }

    open spec fn spec_from_ordinal(n: i64) -> Option<Self> {
        None
    }

    open spec fn spec_encode(self) -> RawView {
        RawView::Text(spec_compression_name(self))
    }

    fn kind() -> (k: ParamKind) {
        ParamKind::Compression
    }

    fn from_text(s: &str) -> (r: Option<Self>) {
        let t = normal_chars(s);
        if chars_eq_str(&t, "no") {
            Some(DbCompressionType::No)
        } else if chars_eq_str(&t, "snappy") {
            Some(DbCompressionType::Snappy)
        } else if chars_eq_str(&t, "zlib") {
            Some(DbCompressionType::Zlib)
        } else if chars_eq_str(&t, "bzip2") {
            Some(DbCompressionType::Bz2)
        } else if chars_eq_str(&t, "lz4") {
            Some(DbCompressionType::Lz4)
        } else if chars_eq_str(&t, "lz4hc") {
            Some(DbCompressionType::Lz4hc)
        } else if chars_eq_str(&t, "zstd") {
            Some(DbCompressionType::Zstd)
        } else if chars_eq_str(&t, "zstd-not-final") {
            Some(DbCompressionType::ZstdNotFinal)
        } else if chars_eq_str(&t, "disable") {
            Some(DbCompressionType::Disable)
        } else {
            None
        }
    }

    fn from_ordinal(n: i64) -> (r: Option<Self>) {
        None
    }

    fn encode(self) -> (r: RawValue) {
        RawValue::Text(String::from_str(self.name()))
    }

    proof fn lemma_encode_decode(self) {
        lemma_compression_name_normal(self);
        reveal_strlit("no");
        reveal_strlit("snappy");
        reveal_strlit("zlib");
        reveal_strlit("bzip2");
        reveal_strlit("lz4");
        reveal_strlit("lz4hc");
        reveal_strlit("zstd");
        reveal_strlit("zstd-not-final");
        reveal_strlit("disable");
    }
}

/// The number of storage levels a compression ladder covers.
pub const LADDER_LEVELS: usize = 7;

/// Decodes the per-level compression ladder: exactly
/// [`LADDER_LEVELS`] textual names, each a recognised compression name.
/// A wrong element count is reported as a length error; otherwise the first
/// unrecognised element is reported as an invalid name.
pub fn decode_ladder(names: &Vec<String>) -> (r: Result<
    [DbCompressionType; 7],
    DecodeError,
>)
    ensures
        names@.len() != 7 ==> r == Err::<[DbCompressionType; 7], DecodeError>(
            DecodeError::WrongLength { got: names@.len() as usize, expected: 7 },
        ),
        r is Ok <==> (names@.len() == 7 && forall|i: int|
            0 <= i < 7 ==> spec_compression_from_text(names@[i]@) is Some),
        r is Ok ==> forall|i: int|
            0 <= i < 7 ==> Some(r->Ok_0@[i]) == spec_compression_from_text(names@[i]@),
        r is Err && names@.len() == 7 ==> exists|i: int|
            #![trigger spec_compression_from_text(names@[i]@)]
            {
                &&& 0 <= i < 7
                &&& spec_compression_from_text(names@[i]@) is None
                &&& forall|j: int| 0 <= j < i ==> spec_compression_from_text(names@[j]@) is Some
                &&& r->Err_0 == (DecodeError::InvalidName {
                    got: names@[i],
                    param: ParamKind::Compression,
                })
            },
{
    if names.len() != LADDER_LEVELS {
        return Err(DecodeError::WrongLength { got: names.len(), expected: LADDER_LEVELS });
    }
    let mut out: Vec<DbCompressionType> = Vec::new();
    let mut i: usize = 0;
    while i < 7
        invariant
            i <= 7,
            names@.len() == 7,
            out@.len() == i,
            forall|j: int| 0 <= j < i ==> Some(out@[j]) == spec_compression_from_text(names@[j]@),
        decreases 7 - i,
    {
        match DbCompressionType::from_text(names[i].as_str()) {
            Some(t) => out.push(t),
            None => {
                let e = DecodeError::InvalidName { got: names[i].clone(), param: ParamKind::Compression };
                proof {
                    let gi = i as int;
                    assert(spec_compression_from_text(names@[gi]@) is None);
                    assert forall|j: int|
                        0 <= j < gi implies spec_compression_from_text(names@[j]@) is Some by {
                        assert(Some(out@[j]) == spec_compression_from_text(names@[j]@));
                    }
                    assert(e == (DecodeError::InvalidName {
                        got: names@[gi],
                        param: ParamKind::Compression,
                    }));
                }
                return Err(e);
            },
        }
        i = i + 1;
    }
    let arr: [DbCompressionType; 7] = [out[0], out[1], out[2], out[3], out[4], out[5], out[6]];
    Ok(arr)
}

/// Encodes the per-level compression ladder as its
/// [`LADDER_LEVELS`] canonical textual names, in level order. Encoding never
/// fails.
pub fn encode_ladder(ts: &[DbCompressionType; 7]) -> (r: Vec<String>)
    ensures
        r@.len() == 7,
        forall|i: int| 0 <= i < 7 ==> r@[i]@ == spec_compression_name(ts@[i]),
{
    let mut r: Vec<String> = Vec::new();
    let mut i: usize = 0;
    while i < 7
        invariant
            i <= 7,
            r@.len() == i,
            forall|j: int| 0 <= j < i ==> r@[j]@ == spec_compression_name(ts@[j]),
        decreases 7 - i,
    {
        r.push(String::from_str(ts[i].name()));
        i = i + 1;
    }
    r
}

/// Ladder round-trip law, decode first: any ladder of canonical names
/// decodes successfully, and re-encoding the result reproduces the names.
pub proof fn lemma_ladder_decode_encode(names: Seq<Seq<char>>)
    requires
        names.len() == 7,
        forall|i: int|
            0 <= i < 7 ==> exists|t: DbCompressionType|
                #[trigger] names[i] == #[trigger] spec_compression_name(t),
    ensures
        forall|i: int| 0 <= i < 7 ==> #[trigger] spec_compression_from_text(names[i]) is Some,
        forall|i: int|
            0 <= i < 7 ==> spec_compression_name(
                (#[trigger] spec_compression_from_text(names[i]))->0,
            ) == names[i],
{
    assert forall|i: int| 0 <= i < 7 implies #[trigger] spec_compression_from_text(names[i]) is Some
        && spec_compression_name(spec_compression_from_text(names[i])->0) == names[i] by {
        let t = choose|t: DbCompressionType| names[i] == spec_compression_name(t);
        t.lemma_encode_decode();
    }
}

/// Ladder round-trip law, encode first: encoding any ladder and decoding
/// the names again yields the very same ladder.
pub proof fn lemma_ladder_encode_decode(ts: Seq<DbCompressionType>)
    requires
        ts.len() == 7,
    ensures
        forall|i: int|
            0 <= i < 7 ==> spec_compression_from_text(
                #[trigger] spec_compression_name(ts[i]),
            ) == Some(ts[i]),
{
    assert forall|i: int| 0 <= i < 7 implies spec_compression_from_text(
        #[trigger] spec_compression_name(ts[i]),
    ) == Some(ts[i]) by {
        ts[i].lemma_encode_decode();
    }
}

/// The compression selection as a configuration document writes it for a
/// single column-family field: the same algorithms the engine knows, minus
/// the internal `Disable` marker, with strict kebab-case names.
#[derive(Copy, Clone, Debug, PartialEq, Eq, Structural)]
pub enum CompressionType {
    No,
    Snappy,
    Zlib,
    Bz2,
    Lz4,
    Lz4hc,
    Zstd,
    ZstdNotFinal,
}

/// The strict kebab-case name of each document-level compression variant.
pub open spec fn spec_config_compression_name(t: CompressionType) -> Seq<char> {
    match t {
        CompressionType::No => "no"@,
        CompressionType::Snappy => "snappy"@,
        CompressionType::Zlib => "zlib"@,
        CompressionType::Bz2 => "bz2"@,
        CompressionType::Lz4 => "lz4"@,
        CompressionType::Lz4hc => "lz4hc"@,
        CompressionType::Zstd => "zstd"@,
        CompressionType::ZstdNotFinal => "zstd-not-final"@,
    }
}

/// Strict textual decoding of the document-level compression enumeration:
/// exactly the kebab-case names, nothing forgiven.
pub open spec fn spec_config_compression_from_text(s: Seq<char>) -> Option<CompressionType> {
    if s == "no"@ {
        Some(CompressionType::No)
    } else if s == "snappy"@ {
        Some(CompressionType::Snappy)
    } else if s == "zlib"@ {
        Some(CompressionType::Zlib)
    } else if s == "bz2"@ {
        Some(CompressionType::Bz2)
    } else if s == "lz4"@ {
        Some(CompressionType::Lz4)
    } else if s == "lz4hc"@ {
        Some(CompressionType::Lz4hc)
    } else if s == "zstd"@ {
        Some(CompressionType::Zstd)
    } else if s == "zstd-not-final"@ {
        Some(CompressionType::ZstdNotFinal)
    } else {
        None
    }
}

impl CompressionType {
    /// The strict kebab-case name, the exact inverse of textual decoding.
    pub fn name(self) -> (r: &'static str)
        ensures
            r@ == spec_config_compression_name(self),
    {
        match self {
            CompressionType::No => "no",
            CompressionType::Snappy => "snappy",
            CompressionType::Zlib => "zlib",
            CompressionType::Bz2 => "bz2",
            CompressionType::Lz4 => "lz4",
            CompressionType::Lz4hc => "lz4hc",
            CompressionType::Zstd => "zstd",
            CompressionType::ZstdNotFinal => "zstd-not-final",
        }
    }
}

impl EnumCodec for CompressionType {
    open spec fn spec_kind() -> ParamKind {
        ParamKind::Compression
    }

    open spec fn spec_from_text(s: Seq<char>) -> Option<Self> {
        spec_config_compression_from_text(s)
    }

    open spec fn spec_from_ordinal(n: i64) -> Option<Self> {
        None
    }

    open spec fn spec_encode(self) -> RawView {
        RawView::Text(spec_config_compression_name(self))
    }

    fn kind() -> (k: ParamKind) {
        ParamKind::Compression
    }

    fn from_text(s: &str) -> (r: Option<Self>) {
        let t = crate::text::chars_of(s);
        if chars_eq_str(&t, "no") {
            Some(CompressionType::No)
        } else if chars_eq_str(&t, "snappy") {
            Some(CompressionType::Snappy)
        } else if chars_eq_str(&t, "zlib") {
            Some(CompressionType::Zlib)
        } else if chars_eq_str(&t, "bz2") {
            Some(CompressionType::Bz2)
        } else if chars_eq_str(&t, "lz4") {
            Some(CompressionType::Lz4)
        } else if chars_eq_str(&t, "lz4hc") {
            Some(CompressionType::Lz4hc)
        } else if chars_eq_str(&t, "zstd") {
            Some(CompressionType::Zstd)
        } else if chars_eq_str(&t, "zstd-not-final") {
            Some(CompressionType::ZstdNotFinal)
        } else {
            None
        }
    }

    fn from_ordinal(n: i64) -> (r: Option<Self>) {
        None
    }

    fn encode(self) -> (r: RawValue) {
        RawValue::Text(String::from_str(self.name()))
    }

    proof fn lemma_encode_decode(self) {
        reveal_strlit("no");
        reveal_strlit("snappy");
        reveal_strlit("zlib");
        reveal_strlit("bz2");
        reveal_strlit("lz4");
        reveal_strlit("lz4hc");
        reveal_strlit("zstd");
        reveal_strlit("zstd-not-final");
        assert(("no"@).len() == 2);
        assert(("snappy"@).len() == 6);
        assert(("zlib"@).len() == 4);
        assert(("bz2"@).len() == 3);
        assert(("lz4"@).len() == 3);
        assert(("lz4hc"@).len() == 5);
        assert(("zstd"@).len() == 4);
        assert(("zstd-not-final"@).len() == 14);
        assert("lz4"@ != "bz2"@) by {
            assert("lz4"@[0] == 'l');
            assert("bz2"@[0] == 'b');
        }
        assert("zstd"@ != "zlib"@) by {
            assert("zstd"@[1] == 's');
            assert("zlib"@[1] == 'l');
        }
        match self {
            CompressionType::No => assert(spec_config_compression_from_text("no"@)
                == Some(CompressionType::No)),
            CompressionType::Snappy => assert(spec_config_compression_from_text("snappy"@)
                == Some(CompressionType::Snappy)),
            CompressionType::Zlib => assert(spec_config_compression_from_text("zlib"@)
                == Some(CompressionType::Zlib)),
            CompressionType::Bz2 => assert(spec_config_compression_from_text("bz2"@)
                == Some(CompressionType::Bz2)),
            CompressionType::Lz4 => assert(spec_config_compression_from_text("lz4"@)
                == Some(CompressionType::Lz4)),
            CompressionType::Lz4hc => assert(spec_config_compression_from_text("lz4hc"@)
                == Some(CompressionType::Lz4hc)),
            CompressionType::Zstd => assert(spec_config_compression_from_text("zstd"@)
                == Some(CompressionType::Zstd)),
            CompressionType::ZstdNotFinal => assert(spec_config_compression_from_text(
                "zstd-not-final"@,
            ) == Some(CompressionType::ZstdNotFinal)),
        }
    }
}

/// The engine-native algorithm a document-level compression choice stands
/// for; the mapping is name-for-name.
pub open spec fn spec_db_of_config(t: CompressionType) -> DbCompressionType {
    match t {
        CompressionType::No => DbCompressionType::No,
        CompressionType::Snappy => DbCompressionType::Snappy,
        CompressionType::Zlib => DbCompressionType::Zlib,
        CompressionType::Bz2 => DbCompressionType::Bz2,
        CompressionType::Lz4 => DbCompressionType::Lz4,
        CompressionType::Lz4hc => DbCompressionType::Lz4hc,
        CompressionType::Zstd => DbCompressionType::Zstd,
        CompressionType::ZstdNotFinal => DbCompressionType::ZstdNotFinal,
    }
}

impl core::convert::From<CompressionType> for DbCompressionType {
    fn from(t: CompressionType) -> (r: DbCompressionType) {
        match t {
            CompressionType::No => DbCompressionType::No,
            CompressionType::Snappy => DbCompressionType::Snappy,
            CompressionType::Zlib => DbCompressionType::Zlib,
            CompressionType::Bz2 => DbCompressionType::Bz2,
            CompressionType::Lz4 => DbCompressionType::Lz4,
            CompressionType::Lz4hc => DbCompressionType::Lz4hc,
            CompressionType::Zstd => DbCompressionType::Zstd,
            CompressionType::ZstdNotFinal => DbCompressionType::ZstdNotFinal,
        }
    }
}

impl vstd::std_specs::convert::FromSpecImpl<CompressionType> for DbCompressionType {
    open spec fn obeys_from_spec() -> bool {
        true
    }

    open spec fn from_spec(t: CompressionType) -> DbCompressionType {
        spec_db_of_config(t)
    }
}

} // verus!

