//! Round-trip and failure behaviour of the configuration codec.

use engine_sysconf::blob::{BlobRunMode, ConfigValue, DbTitanBlobRunMode};
use engine_sysconf::codec::{decode, DecodeError, EnumCodec, OrdinalCodec, ParamKind, RawValue};
use engine_sysconf::compression::{
    decode_ladder, encode_ladder, CompressionType, DbCompressionType,
};
use engine_sysconf::enums::{
    CompactionPriority, CompactionStyle, DbInfoLogLevel, FromString, LogLevel, PerfLevel,
    RateLimiterMode, RecoveryMode,
};

#[test]
fn test_parse_compression_type() {
    let all_tp = vec![
        (DbCompressionType::No, "no"),
        (DbCompressionType::Snappy, "snappy"),
        (DbCompressionType::Zlib, "zlib"),
        (DbCompressionType::Bz2, "bzip2"),
        (DbCompressionType::Lz4, "lz4"),
        (DbCompressionType::Lz4hc, "lz4hc"),
        (DbCompressionType::Zstd, "zstd"),
        (DbCompressionType::ZstdNotFinal, "zstd-not-final"),
        (DbCompressionType::Disable, "disable"),
    ];
    for i in 0..all_tp.len() - 7 {
        let mut src = [DbCompressionType::No; 7];
        let mut exp = ["no"; 7];
        for (j, &t) in all_tp[i..i + 7].iter().enumerate() {
            src[j] = t.0;
            exp[j] = t.1;
        }
        let encoded = encode_ladder(&src);
        let exp_strings: Vec<String> = exp.iter().map(|s| s.to_string()).collect();
        assert_eq!(encoded, exp_strings);
        let decoded = decode_ladder(&exp_strings).unwrap();
        assert_eq!(decoded, src);
    }

    // length is wrong.
    let one = vec!["no".to_string()];
    assert!(decode_ladder(&one).is_err());
    let eight: Vec<String> = vec!["no"; 8].into_iter().map(|s| s.to_string()).collect();
    assert!(decode_ladder(&eight).is_err());
    // value is wrong.
    let mut bad: Vec<String> = vec!["no"; 6].into_iter().map(|s| s.to_string()).collect();
    bad.push("yes".to_string());
    assert!(decode_ladder(&bad).is_err());
}

#[test]
fn ladder_errors_carry_lengths_and_names() {
    let one = vec!["no".to_string()];
    assert_eq!(
        decode_ladder(&one).unwrap_err(),
        DecodeError::WrongLength { got: 1, expected: 7 }
    );
    let six: Vec<String> = vec!["no"; 6].into_iter().map(|s| s.to_string()).collect();
    assert_eq!(
        decode_ladder(&six).unwrap_err(),
        DecodeError::WrongLength { got: 6, expected: 7 }
    );
    let eight: Vec<String> = vec!["no"; 8].into_iter().map(|s| s.to_string()).collect();
    assert_eq!(
        decode_ladder(&eight).unwrap_err(),
        DecodeError::WrongLength { got: 8, expected: 7 }
    );
    let mut bad: Vec<String> = vec!["no"; 6].into_iter().map(|s| s.to_string()).collect();
    bad.push("yes".to_string());
    assert_eq!(
        decode_ladder(&bad).unwrap_err(),
        DecodeError::InvalidName { got: "yes".to_string(), param: ParamKind::Compression }
    );
}

#[test]
fn compression_text_round_trip() {
    let all = [
        DbCompressionType::No,
        DbCompressionType::Snappy,
        DbCompressionType::Zlib,
        DbCompressionType::Bz2,
        DbCompressionType::Lz4,
        DbCompressionType::Lz4hc,
        DbCompressionType::Zstd,
        DbCompressionType::ZstdNotFinal,
        DbCompressionType::Disable,
    ];
    for t in all {
        let encoded = t.encode();
        assert_eq!(decode::<DbCompressionType>(&encoded), Ok(t));
        assert_eq!(DbCompressionType::from_text(t.name()), Some(t));
    }
}

#[test]
fn compression_decode_is_lenient_about_case_and_whitespace() {
    assert_eq!(
        DbCompressionType::from_text(" SNAPPY\n"),
        Some(DbCompressionType::Snappy)
    );
    assert_eq!(
        DbCompressionType::from_text("\tZstd-Not-Final "),
        Some(DbCompressionType::ZstdNotFinal)
    );
    assert_eq!(DbCompressionType::from_text("snappy!"), None);
    assert_eq!(DbCompressionType::from_text(""), None);
}

#[test]
fn config_compression_round_trip_and_engine_mapping() {
    let all = [
        (CompressionType::No, DbCompressionType::No),
        (CompressionType::Snappy, DbCompressionType::Snappy),
        (CompressionType::Zlib, DbCompressionType::Zlib),
        (CompressionType::Bz2, DbCompressionType::Bz2),
        (CompressionType::Lz4, DbCompressionType::Lz4),
        (CompressionType::Lz4hc, DbCompressionType::Lz4hc),
        (CompressionType::Zstd, DbCompressionType::Zstd),
        (CompressionType::ZstdNotFinal, DbCompressionType::ZstdNotFinal),
    ];
    for (t, db) in all {
        assert_eq!(decode::<CompressionType>(&t.encode()), Ok(t));
        assert_eq!(DbCompressionType::from(t), db);
    }
    // The document-level alphabet is strict: the engine-side spellings and
    // any case variation are rejected.
    assert_eq!(CompressionType::from_text("bzip2"), None);
    assert_eq!(CompressionType::from_text("Snappy"), None);
    assert_eq!(CompressionType::from_text(" no"), None);
    assert_eq!(CompressionType::from_text("bz2"), Some(CompressionType::Bz2));
}

#[test]
fn log_level_round_trip_and_engine_mapping() {
    let all = [
        (LogLevel::Error, DbInfoLogLevel::Error, "error"),
        (LogLevel::Fatal, DbInfoLogLevel::Fatal, "fatal"),
        (LogLevel::Info, DbInfoLogLevel::Info, "info"),
        (LogLevel::Warn, DbInfoLogLevel::Warn, "warn"),
        (LogLevel::Debug, DbInfoLogLevel::Debug, "debug"),
    ];
    for (l, db, name) in all {
        assert_eq!(l.name(), name);
        assert_eq!(decode::<LogLevel>(&l.encode()), Ok(l));
        assert_eq!(LogLevel::from_text(name), Some(l));
        assert_eq!(DbInfoLogLevel::from(l), db);
    }
    assert_eq!(LogLevel::from_text("verbose"), None);
    assert_eq!(
        decode::<LogLevel>(&RawValue::Text("verbose".to_string())),
        Err(DecodeError::InvalidName { got: "verbose".to_string(), param: ParamKind::InfoLog })
    );
    // This enumeration is textual: an ordinal is not part of its alphabet.
    assert_eq!(
        decode::<LogLevel>(&RawValue::Ordinal(0)),
        Err(DecodeError::InvalidOrdinal { got: 0, param: ParamKind::InfoLog })
    );
}

#[test]
fn numeric_enums_round_trip_through_ordinals() {
    let pris = [
        (CompactionPriority::ByCompensatedSize, 0),
        (CompactionPriority::OldestLargestSeqFirst, 1),
        (CompactionPriority::OldestSmallestSeqFirst, 2),
        (CompactionPriority::MinOverlappingRatio, 3),
    ];
    for (v, n) in pris {
        assert_eq!(v.ordinal(), n);
        assert_eq!(CompactionPriority::from_ordinal(n), Some(v));
        assert_eq!(decode::<CompactionPriority>(&v.encode()), Ok(v));
    }
    let modes = [
        (RateLimiterMode::ReadOnly, 1),
        (RateLimiterMode::WriteOnly, 2),
        (RateLimiterMode::AllIo, 3),
    ];
    for (v, n) in modes {
        assert_eq!(v.ordinal(), n);
        assert_eq!(RateLimiterMode::from_ordinal(n), Some(v));
        assert_eq!(decode::<RateLimiterMode>(&v.encode()), Ok(v));
    }
    let styles = [(CompactionStyle::Level, 0), (CompactionStyle::Universal, 1)];
    for (v, n) in styles {
        assert_eq!(v.ordinal(), n);
        assert_eq!(CompactionStyle::from_ordinal(n), Some(v));
        assert_eq!(decode::<CompactionStyle>(&v.encode()), Ok(v));
    }
    let recs = [
        (RecoveryMode::TolerateCorruptedTailRecords, 0),
        (RecoveryMode::AbsoluteConsistency, 1),
        (RecoveryMode::PointInTime, 2),
        (RecoveryMode::SkipAnyCorruptedRecords, 3),
    ];
    for (v, n) in recs {
        assert_eq!(v.ordinal(), n);
        assert_eq!(RecoveryMode::from_ordinal(n), Some(v));
        assert_eq!(decode::<RecoveryMode>(&v.encode()), Ok(v));
    }
    let perfs = [
        (PerfLevel::Uninitialized, 0),
        (PerfLevel::Disable, 1),
        (PerfLevel::EnableCount, 2),
        (PerfLevel::EnableTimeExceptForMutex, 3),
        (PerfLevel::EnableTimeAndCpuTimeExceptForMutex, 4),
        (PerfLevel::EnableTime, 5),
        (PerfLevel::OutOfBounds, 6),
    ];
    for (v, n) in perfs {
        assert_eq!(v.ordinal(), n);
        assert_eq!(PerfLevel::from_ordinal(n), Some(v));
        assert_eq!(decode::<PerfLevel>(&v.encode()), Ok(v));
    }
}

#[test]
fn out_of_range_ordinals_are_invalid() {
    assert_eq!(
        decode::<CompactionPriority>(&RawValue::Ordinal(4)),
        Err(DecodeError::InvalidOrdinal { got: 4, param: ParamKind::CompactionPriority })
    );
    assert_eq!(
        decode::<RateLimiterMode>(&RawValue::Ordinal(0)),
        Err(DecodeError::InvalidOrdinal { got: 0, param: ParamKind::RateLimiterMode })
    );
    assert_eq!(
        decode::<CompactionStyle>(&RawValue::Ordinal(2)),
        Err(DecodeError::InvalidOrdinal { got: 2, param: ParamKind::CompactionStyle })
    );
    assert_eq!(
        decode::<RecoveryMode>(&RawValue::Ordinal(-1)),
        Err(DecodeError::InvalidOrdinal { got: -1, param: ParamKind::RecoveryMode })
    );
    assert_eq!(
        decode::<PerfLevel>(&RawValue::Ordinal(7)),
        Err(DecodeError::InvalidOrdinal { got: 7, param: ParamKind::PerfLevel })
    );
}

#[test]
fn every_enumeration_rejects_text_outside_its_alphabet() {
    let bad = RawValue::Text("not-a-value".to_string());
    assert!(matches!(
        decode::<DbCompressionType>(&bad),
        Err(DecodeError::InvalidName { .. })
    ));
    assert!(matches!(
        decode::<CompressionType>(&bad),
        Err(DecodeError::InvalidName { .. })
    ));
    assert!(matches!(decode::<LogLevel>(&bad), Err(DecodeError::InvalidName { .. })));
    assert!(matches!(decode::<BlobRunMode>(&bad), Err(DecodeError::InvalidName { .. })));
    assert!(matches!(
        decode::<CompactionPriority>(&bad),
        Err(DecodeError::InvalidName { .. })
    ));
    assert!(matches!(
        decode::<RateLimiterMode>(&bad),
        Err(DecodeError::InvalidName { .. })
    ));
    assert!(matches!(
        decode::<CompactionStyle>(&bad),
        Err(DecodeError::InvalidName { .. })
    ));
    assert!(matches!(decode::<RecoveryMode>(&bad), Err(DecodeError::InvalidName { .. })));
    // The perf level has no textual alphabet at all.
    assert!(matches!(decode::<PerfLevel>(&bad), Err(DecodeError::InvalidName { .. })));
}

#[test]
fn from_string_accepts_the_engine_spellings() {
    assert_eq!(
        CompactionPriority::from_string("MinOverlappingRatio"),
        CompactionPriority::MinOverlappingRatio
    );
    assert_eq!(
        CompactionPriority::from_string("ByCompensatedSize"),
        CompactionPriority::ByCompensatedSize
    );
    assert_eq!(RateLimiterMode::from_string("AllIo"), RateLimiterMode::AllIo);
    assert_eq!(CompactionStyle::from_string("level"), CompactionStyle::Level);
    assert_eq!(CompactionStyle::from_string("universal"), CompactionStyle::Universal);
    assert_eq!(
        RecoveryMode::from_string("TolerateCorruptedTailRecords"),
        RecoveryMode::TolerateCorruptedTailRecords
    );
    assert_eq!(RecoveryMode::from_string("PointInTime"), RecoveryMode::PointInTime);
}

#[test]
fn blob_run_mode_round_trips_and_converts() {
    let all = [
        (BlobRunMode::Normal, DbTitanBlobRunMode::Normal, "normal", "kNormal"),
        (BlobRunMode::ReadOnly, DbTitanBlobRunMode::ReadOnly, "read-only", "kReadOnly"),
        (BlobRunMode::Fallback, DbTitanBlobRunMode::Fallback, "fallback", "kFallback"),
    ];
    for (m, db, name, tag) in all {
        assert_eq!(m.name(), name);
        assert_eq!(BlobRunMode::from_text(name), Some(m));
        assert_eq!(decode::<BlobRunMode>(&m.encode()), Ok(m));
        assert_eq!(DbTitanBlobRunMode::from(m), db);
        let cv = m.to_config_value();
        assert_eq!(cv, ConfigValue::BlobRunMode(tag.to_string()));
        assert_eq!(BlobRunMode::try_from_config_value(&cv), Some(m));
        assert_eq!(BlobRunMode::from_config_value(&cv), m);
    }
    assert_eq!(BlobRunMode::from_text("normal "), None);
    assert_eq!(BlobRunMode::from_text("Normal"), None);
    // A mismatched container variant or an unknown tag is no blob-run mode.
    assert_eq!(BlobRunMode::try_from_config_value(&ConfigValue::Bool(true)), None);
    assert_eq!(BlobRunMode::try_from_config_value(&ConfigValue::U64(1)), None);
    assert_eq!(
        BlobRunMode::try_from_config_value(&ConfigValue::BlobRunMode("normal".to_string())),
        None
    );
}
