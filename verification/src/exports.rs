//! The exports of a source on disk: how their files are named, and which of
//! them belong to the latest export.

use crate::decimal::{decimal_digits, decimal_text, digits_number, parse_digits};
use vstd::prelude::*;
use vstd::string::*;

verus! {

/// What the group named `group` of the regular expression `pattern` holds in
/// its leftmost match in `text`: `None` where the pattern is no valid
/// expression, `Some(None)` where nothing matches or the group takes no part
/// in the match.
pub uninterp spec fn named_capture(
    pattern: Seq<char>,
    group: Seq<char>,
    text: Seq<char>,
) -> Option<Option<Seq<char>>>;

/// Compiles `pattern` with `regex::Regex::new`, searches `text` with
/// `Regex::captures`, and hands out what `Captures::name` gives for `group`.
/// The contract names that result and claims nothing else of it.
#[verifier::external_body]
fn capture_named(pattern: &str, group: &str, text: &str) -> (r: Option<Option<String>>)
    ensures
        match r {
            Some(Some(found)) => named_capture(pattern@, group@, text@) == Some(Some(found@)),
            Some(None) => named_capture(pattern@, group@, text@) == Some(None::<Seq<char>>),
            None => named_capture(pattern@, group@, text@) is None,
        },
{
    match regex::Regex::new(pattern) {
        Ok(compiled) => Some(
            match compiled.captures(text) {
                Some(found) => match found.name(group) {
                    Some(part) => Some(part.as_str().to_string()),
                    None => None,
                },
                None => None,
            },
        ),
        Err(_) => None,
    }
}

/// The names of export files: anything, an underscore, the time stamp, and
/// the endings of a compressed archive split into numbered parts.
pub open spec fn export_pattern() -> Seq<char> {
    ".*_(?P<timestamp>\\d+).tar.zst.\\d+$"@
}

/// The number that a text writes as a signed number of 64 bits: decimal
/// digits, at least one, after at most one sign, with a value in range.
pub open spec fn signed_number(s: Seq<char>) -> Option<i64> {
    if s.len() > 0 && s[0] == '-' {
        match digits_number(s.skip(1)) {
            Some(value) => if value <= 0x8000_0000_0000_0000u64 {
                Some((-(value as int)) as i64)
            } else {
                None
            },
            None => None,
        }
    } else {
        match digits_number(
            if s.len() > 0 && s[0] == '+' {
                s.skip(1)
            } else {
                s
            },
        ) {
            Some(value) => if value <= i64::MAX {
                Some(value as i64)
            } else {
                None
            },
            None => None,
        }
    }
}

/// Reads a signed number of 64 bits as the number's own parser does.
pub fn parse_signed(s: &str) -> (r: Option<i64>)
    ensures
        r == signed_number(s@),
{
    let n = s.unicode_len();
    if n > 0 && s.get_char(0) == '-' {
        match parse_digits(s, 1) {
            Some(value) => {
                if value < 0x8000_0000_0000_0000u64 {
                    Some(-(value as i64))
                } else if value == 0x8000_0000_0000_0000u64 {
                    Some(i64::MIN)
                } else {
                    None
                }
            },
            None => None,
        }
    } else {
        let start: usize = if n > 0 && s.get_char(0) == '+' {
            1
        } else {
            0
        };
        assert(s@.skip(0) =~= s@);
        match parse_digits(s, start) {
            Some(value) => {
                if value <= 0x7fff_ffff_ffff_ffffu64 {
                    Some(value as i64)
                } else {
                    None
                }
            },
            None => None,
        }
    }
}

/// The time stamp in the name of an export file; `None` for a path that is
/// not named as an export file, or whose time stamp is no number in range.
pub open spec fn timestamp_of(path: Seq<char>) -> Option<i64> {
    match named_capture(export_pattern(), "timestamp"@, path) {
        Some(Some(digits)) => signed_number(digits),
        _ => None,
    }
}

/// Reads the time stamp from the path of an export file.
pub fn export_timestamp(path: &str) -> (r: Option<i64>)
    ensures
        r == timestamp_of(path@),
{
    match capture_named(".*_(?P<timestamp>\\d+).tar.zst.\\d+$", "timestamp", path) {
        Some(Some(digits)) => parse_signed(digits.as_str()),
        _ => None,
    }
}

/// The time stamp `r` is the latest among the paths: none where no path
/// carries one; else one that a path carries and that none exceeds.
pub open spec fn is_latest(paths: Seq<String>, r: Option<i64>) -> bool {
    match r {
        None => forall|i: int| 0 <= i < paths.len() ==> timestamp_of(#[trigger] paths[i]@) is None,
        Some(latest) => {
            &&& exists|i: int| 0 <= i < paths.len() && timestamp_of(#[trigger] paths[i]@) == Some(latest)
            &&& forall|i: int|
                0 <= i < paths.len() ==> (timestamp_of(#[trigger] paths[i]@) matches Some(stamp)
                    ==> stamp <= latest)
        },
    }
}

/// Finds the time stamp of the latest export among the paths. Paths that are
/// not named as export files are passed over.
pub fn latest_export_ts(paths: &Vec<String>) -> (r: Option<i64>)
    ensures
        is_latest(paths@, r),
{
    let mut latest: Option<i64> = None;
    let mut i: usize = 0;
    while i < paths.len()
        invariant
            i <= paths.len(),
            is_latest(paths@.take(i as int), latest),
        decreases paths.len() - i,
    {
        let ghost before = paths@.take(i as int);
        let ghost after = paths@.take(i + 1);
        assert(forall|j: int| 0 <= j < i ==> before[j] == #[trigger] after[j]);
        assert(after[i as int] == paths@[i as int]);
        let found = export_timestamp(paths[i].as_str());
        let next = match found {
            None => latest,
            Some(timestamp) => match latest {
                None => Some(timestamp),
                Some(lat) => if timestamp > lat {
                    Some(timestamp)
                } else {
                    latest
                },
            },
        };
        proof {
            match next {
                None => {
                    assert forall|j: int| 0 <= j < after.len() implies timestamp_of(
                        #[trigger] after[j]@,
                    ) is None by {
                        if j < i {
                            assert(after[j] == before[j]);
                        }
                    }
                },
                Some(m) => {
                    if found == Some(m) {
                        assert(timestamp_of(after[i as int]@) == Some(m));
                    } else {
                        let w = choose|w: int|
                            0 <= w < before.len() && timestamp_of(#[trigger] before[w]@) == Some(m);
                        assert(after[w] == before[w]);
                        assert(timestamp_of(after[w]@) == Some(m));
                    }
                    assert forall|j: int| 0 <= j < after.len() implies (timestamp_of(
                        #[trigger] after[j]@,
                    ) matches Some(stamp) ==> stamp <= m) by {
                        if j < i {
                            assert(after[j] == before[j]);
                        }
                    }
                },
            }
        }
        latest = next;
        i = i + 1;
    }
    assert(paths@.take(i as int) =~= paths@);
    latest
}

/// The digits of a signed number, with a minus sign before them where it is negative.
pub open spec fn signed_digits(n: i64) -> Seq<char> {
    if n < 0 {
        seq!['-'] + decimal_digits((-(n as int)) as nat)
    } else {
        decimal_digits(n as nat)
    }
}

/// Writes a signed number in decimal digits.
pub fn signed_text(n: i64) -> (r: String)
    ensures
        r@ == signed_digits(n),
{
    if n < 0 {
        let mut text = String::from_str("-");
        proof {
            reveal_strlit("-");
            assert("-"@ =~= seq!['-']);
        }
        let magnitude: u64 = if n == i64::MIN {
            0x8000_0000_0000_0000u64
        } else {
            (-n) as u64
        };
        text.append(decimal_text(magnitude).as_str());
        text
    } else {
        decimal_text(n as u64)
    }
}

/// The pattern that finds every file of every export of the source `name`.
pub open spec fn exports_glob_text(export_path: Seq<char>, name: Seq<char>) -> Seq<char> {
    export_path + "/"@ + name + "_*.tar.zst.*"@
}

/// Builds the pattern that finds every file of every export of a source.
pub fn exports_glob(export_path: &str, name: &str) -> (r: String)
    ensures
        r@ == exports_glob_text(export_path@, name@),
{
    let mut pattern = String::from_str(export_path);
    pattern.append("/");
    pattern.append(name);
    pattern.append("_*.tar.zst.*");
    pattern
}

/// The pattern that finds the parts of the export of the source `name` made at `timestamp`.
pub open spec fn parts_glob_text(export_path: Seq<char>, name: Seq<char>, timestamp: i64) -> Seq<
    char,
> {
    export_path + "/"@ + name + "_"@ + signed_digits(timestamp) + ".tar.zst.*"@
}

/// Builds the pattern that finds the parts of one export of a source.
pub fn parts_glob(export_path: &str, name: &str, timestamp: i64) -> (r: String)
    ensures
        r@ == parts_glob_text(export_path@, name@, timestamp),
{
    let mut pattern = String::from_str(export_path);
    pattern.append("/");
    pattern.append(name);
    pattern.append("_");
    pattern.append(signed_text(timestamp).as_str());
    pattern.append(".tar.zst.*");
    pattern
}

} // verus!
