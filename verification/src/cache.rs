//! CPU cache geometry hints: parsing the human-readable size figures the
//! host exposes for a cache level ("64", "32K", "8M"), and the best-effort
//! readers built on it. Absent or unreadable topology is "unknown", never
//! an error and never a fabricated value.

use vstd::prelude::*;

use crate::text::{chars_eq_str, chars_of, trim_chars, trim_seq};

verus! {

/// The numeric value of an ASCII decimal digit, or -1 for any other
/// character.
pub open spec fn spec_digit_val(c: char) -> int {
    if c == '0' { 0 }
    else if c == '1' { 1 }
    else if c == '2' { 2 }
    else if c == '3' { 3 }
    else if c == '4' { 4 }
    else if c == '5' { 5 }
    else if c == '6' { 6 }
    else if c == '7' { 7 }
    else if c == '8' { 8 }
    else if c == '9' { 9 }
    else { -1 }
}

/// Whether the character is an ASCII decimal digit.
pub open spec fn spec_is_digit(c: char) -> bool {
    spec_digit_val(c) >= 0
}

/// How many leading characters of `s` are decimal digits.
pub open spec fn spec_digit_prefix_len(s: Seq<char>) -> int
    decreases s.len(),
{
    if s.len() > 0 && spec_is_digit(s[0]) {
        1 + spec_digit_prefix_len(s.drop_first())
    } else {
        0
    }
}

/// The value of a string of decimal digits, most significant first.
pub open spec fn spec_digits_value(s: Seq<char>) -> int
    decreases s.len(),
{
    if s.len() == 0 {
        0
    } else {
        spec_digits_value(s.drop_last()) * 10 + spec_digit_val(s.last())
    }
}

/// The byte multiplier a size suffix stands for: binary multiples, with or
/// without the `B`/`iB` spelling, and 1 for a bare number.
pub open spec fn spec_unit_multiplier(s: Seq<char>) -> Option<u64> {
    if s.len() == 0 || s == "B"@ {
        Some(1u64)
    } else if s == "K"@ || s == "KB"@ || s == "KiB"@ {
        Some(1024u64)
    } else if s == "M"@ || s == "MB"@ || s == "MiB"@ {
        Some(0x100000u64)
    } else if s == "G"@ || s == "GB"@ || s == "GiB"@ {
        Some(0x40000000u64)
    } else if s == "T"@ || s == "TB"@ || s == "TiB"@ {
        Some(0x10000000000u64)
    } else if s == "P"@ || s == "PB"@ || s == "PiB"@ {
        Some(0x4000000000000u64)
    } else {
        None
    }
}

/// What parsing a size figure yields: surrounding whitespace is removed,
/// then the text must be one or more decimal digits followed by a
/// recognised suffix, and the resulting byte count must be representable.
pub open spec fn spec_parse_size(s: Seq<char>) -> Option<u64> {
    let t = trim_seq(s);
    let k = spec_digit_prefix_len(t);
    if k == 0 {
        None
    } else {
        match spec_unit_multiplier(t.skip(k)) {
            Some(m) => {
                let v = spec_digits_value(t.take(k)) * m;
                if v <= u64::MAX {
                    Some(v as u64)
                } else {
                    None
                }
            },
            None => None,
        }
    }
}

fn digit_val_at(c: char) -> (r: i32)
    ensures
        r as int == spec_digit_val(c),
{
    if c == '0' { 0 }
    else if c == '1' { 1 }
    else if c == '2' { 2 }
    else if c == '3' { 3 }
    else if c == '4' { 4 }
    else if c == '5' { 5 }
    else if c == '6' { 6 }
    else if c == '7' { 7 }
    else if c == '8' { 8 }
    else if c == '9' { 9 }
    else { -1 }
}

/// The digit prefix is exactly characterised by its digits and the first
/// non-digit behind them.
proof fn lemma_digit_prefix_char(s: Seq<char>, k: int)
    requires
        0 <= k <= s.len(),
        forall|j: int| 0 <= j < k ==> spec_is_digit(#[trigger] s[j]),
        k < s.len() ==> !spec_is_digit(s[k]),
    ensures
        spec_digit_prefix_len(s) == k,
    decreases k,
{
    if k == 0 {
    } else {
        lemma_digit_prefix_char(s.drop_first(), k - 1);
    }
}

/// Every position inside the digit prefix holds a digit, and the prefix
/// stays within the sequence.
proof fn lemma_digit_prefix_props(s: Seq<char>)
    ensures
        0 <= spec_digit_prefix_len(s) <= s.len(),
        forall|j: int| 0 <= j < spec_digit_prefix_len(s) ==> spec_is_digit(#[trigger] s[j]),
        spec_digit_prefix_len(s) < s.len() ==> !spec_is_digit(s[spec_digit_prefix_len(s)]),
    decreases s.len(),
{
    if s.len() > 0 && spec_is_digit(s[0]) {
        lemma_digit_prefix_props(s.drop_first());
        let k = spec_digit_prefix_len(s);
        assert forall|j: int| 0 <= j < k implies spec_is_digit(#[trigger] s[j]) by {
            if j > 0 {
                assert(spec_is_digit(s.drop_first()[j - 1]));
                assert(s.drop_first()[j - 1] == s[j]);
            }
        }
        if k < s.len() {
            assert(!spec_is_digit(s.drop_first()[k - 1]));
            assert(s.drop_first()[k - 1] == s[k]);
        }
    }
}

/// Extending a digit string by one digit multiplies its value by ten and
/// adds the digit.
proof fn lemma_digits_value_step(s: Seq<char>, i: int)
    requires
        0 <= i < s.len(),
    ensures
        spec_digits_value(s.take(i + 1)) == spec_digits_value(s.take(i)) * 10 + spec_digit_val(
            s[i],
        ),
{
    assert(s.take(i + 1).drop_last() =~= s.take(i));
    assert(s.take(i + 1).last() == s[i]);
}

/// The value of a digit string is never negative.
proof fn lemma_digits_value_nonneg(s: Seq<char>)
    requires
        forall|j: int| 0 <= j < s.len() ==> spec_is_digit(#[trigger] s[j]),
    ensures
        spec_digits_value(s) >= 0,
    decreases s.len(),
{
    if s.len() > 0 {
        lemma_digits_value_nonneg(s.drop_last());
    }
}

/// A longer digit prefix never has a smaller value.
proof fn lemma_digits_value_mono(s: Seq<char>, i: int, k: int)
    requires
        0 <= i <= k <= s.len(),
        forall|j: int| 0 <= j < k ==> spec_is_digit(#[trigger] s[j]),
    ensures
        spec_digits_value(s.take(i)) <= spec_digits_value(s.take(k)),
    decreases k - i,
{
    if i < k {
        lemma_digits_value_mono(s, i, k - 1);
        lemma_digits_value_step(s, k - 1);
        assert(forall|j: int|
            0 <= j < s.take(k - 1).len() ==> spec_is_digit(#[trigger] s.take(k - 1)[j]));
        lemma_digits_value_nonneg(s.take(k - 1));
    }
}

/// Every recognised suffix multiplier is at least one.
proof fn lemma_unit_multiplier_pos(s: Seq<char>)
    ensures
        spec_unit_multiplier(s) matches Some(m) ==> m >= 1,
{
}

/// Parses a host-exposed size figure such as "64", "32K" or "8MB" into
/// bytes. Yields nothing for empty, malformed or unrepresentably large
/// figures, exactly as [`spec_parse_size`] lays down.
pub fn parse_size(s: &str) -> (r: Option<u64>)
    ensures
        r == spec_parse_size(s@),
{
    let t = trim_chars(chars_of(s));
    let ghost ts = t@;
    let mut i: usize = 0;
    let mut acc: u64 = 0;
    while i < t.len() && digit_val_at(t[i]) >= 0
        invariant
            0 <= i <= ts.len(),
            t@ == ts,
            ts == trim_seq(s@),
            forall|j: int| 0 <= j < i ==> spec_is_digit(#[trigger] ts[j]),
            acc == spec_digits_value(ts.take(i as int)),
        decreases ts.len() - i,
    {
        let d = digit_val_at(t[i]);
        proof {
            assert(spec_is_digit(ts[i as int]));
            lemma_digits_value_step(ts, i as int);
        }
        let du: u64 = d as u64;
        let wide: u128 = (acc as u128) * 10 + (du as u128);
        if wide > (u64::MAX as u128) {
            proof {
                assert(wide == acc * 10 + du);
                assert(spec_digits_value(ts.take(i + 1)) > u64::MAX);
                lemma_digit_prefix_props(ts);
                let k = spec_digit_prefix_len(ts);
                if k < i + 1 {
                    assert(spec_is_digit(ts[k]));
                    assert(false);
                }
                lemma_digits_value_mono(ts, i + 1, k);
                lemma_digits_value_nonneg(ts.take(i + 1));
                assert(spec_digits_value(ts.take(k)) > u64::MAX);
                lemma_unit_multiplier_pos(ts.skip(k));
                match spec_unit_multiplier(ts.skip(k)) {
                    Some(m) => {
                        assert(spec_digits_value(ts.take(k)) * m >= spec_digits_value(
                            ts.take(k),
                        ))
                            by (nonlinear_arith)
                            requires
                                m >= 1,
                                spec_digits_value(ts.take(k)) >= 0,
                        ;
                        assert(spec_parse_size(s@) is None);
                    },
                    None => {
                        assert(spec_parse_size(s@) is None);
                    },
                }
            }
            return None;
        }
        acc = wide as u64;
        i = i + 1;
    }
    proof {
        lemma_digit_prefix_char(ts, i as int);
    }
    if i == 0 {
        return None;
    }
    let mut unit: Vec<char> = Vec::new();
    let mut j: usize = i;
    while j < t.len()
        invariant
            i <= j <= ts.len(),
            t@ == ts,
            ts == trim_seq(s@),
            spec_digit_prefix_len(ts) == i,
            1 <= i,
            acc == spec_digits_value(ts.take(i as int)),
            unit@ == ts.subrange(i as int, j as int),
        decreases ts.len() - j,
    {
        unit.push(t[j]);
        proof {
            assert(unit@ =~= ts.subrange(i as int, j + 1 as int));
        }
        j = j + 1;
    }
    proof {
        assert(unit@ =~= ts.skip(i as int));
    }
    let mult: u64 = if unit.len() == 0 || chars_eq_str(&unit, "B") {
        1
    } else if chars_eq_str(&unit, "K") || chars_eq_str(&unit, "KB") || chars_eq_str(&unit, "KiB") {
        1024
    } else if chars_eq_str(&unit, "M") || chars_eq_str(&unit, "MB") || chars_eq_str(&unit, "MiB") {
        0x100000
    } else if chars_eq_str(&unit, "G") || chars_eq_str(&unit, "GB") || chars_eq_str(&unit, "GiB") {
        0x40000000
    } else if chars_eq_str(&unit, "T") || chars_eq_str(&unit, "TB") || chars_eq_str(&unit, "TiB") {
        0x10000000000
    } else if chars_eq_str(&unit, "P") || chars_eq_str(&unit, "PB") || chars_eq_str(&unit, "PiB") {
        0x4000000000000
    } else {
        return None;
    };
    proof {
        assert((acc as int) * (mult as int) <= (u64::MAX as int) * (u64::MAX as int))
            by (nonlinear_arith)
            requires
                acc as int <= u64::MAX as int,
                mult as int <= u64::MAX as int,
                acc >= 0,
                mult >= 0,
        ;
    }
    let wide: u128 = (acc as u128) * (mult as u128);
    if wide > (u64::MAX as u128) {
        None
    } else {
        Some(wide as u64)
    }
}

/// The size in bytes of the given cache level, parsed from the text the
/// host exposes for it; unknown where the host exposes nothing readable.
pub fn cache_size(content: Option<&str>) -> (r: Option<u64>)
    ensures
        r == match content {
            Some(s) => spec_parse_size(s@),
            None => None::<u64>,
        },
{
    match content {
        Some(s) => parse_size(s),
        None => None,
    }
}

/// The line size in bytes of the given cache level, parsed from the text
/// the host exposes for it; unknown where the host exposes nothing
/// readable.
pub fn cache_line_size(content: Option<&str>) -> (r: Option<u64>)
    ensures
        r == match content {
            Some(s) => spec_parse_size(s@),
            None => None::<u64>,
        },
{
    match content {
        Some(s) => parse_size(s),
        None => None,
    }
}

} // verus!
