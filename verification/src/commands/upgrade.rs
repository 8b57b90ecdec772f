//! Upgrading: which release is newer, and where its binaries are.

use vstd::prelude::*;
use vstd::string::*;
use crate::platform::Platform;
use crate::text::Text;

verus! {

/// The repository that publishes the releases.
pub const GITHUB_REPO: &'static str = "CodingWithCalvin/rnr.cli";

/// Whether `c` is a decimal digit.
pub open spec fn is_digit(c: char) -> bool {
    '0' <= c <= '9'
}

/// Whether `digits` holds digits only.
pub open spec fn all_digits(digits: Seq<char>) -> bool {
    forall|i: int| 0 <= i < digits.len() ==> is_digit(#[trigger] digits[i])
}

/// The number that the digits `digits` write.
pub open spec fn number(digits: Seq<char>) -> nat
    decreases digits.len(),
{
    if digits.len() == 0 {
        0
    } else {
        (number(digits.drop_last()) * 10 + (digits.last() as u32 - '0' as u32)) as nat
    }
}

/// The number that `field` writes, if it writes one that fits 32 bits: one
/// or more digits, with at most a `+` before them.
pub open spec fn parse_u32(field: Text) -> Option<u32> {
    let digits = if field.len() > 0 && field[0] == '+' {
        field.skip(1)
    } else {
        field
    };
    if digits.len() > 0 && all_digits(digits) && number(digits) <= u32::MAX {
        Some(number(digits) as u32)
    } else {
        None
    }
}

/// Where the field that starts at `from` ends: at the next `.`, or at the end
/// of the text.
pub open spec fn field_end(v: Text, from: int) -> int
    decreases v.len() - from,
{
    if from >= v.len() || v[from] == '.' {
        from
    } else {
        field_end(v, from + 1)
    }
}

/// Where the field after the field that starts at `from` starts, if there is
/// one.
pub open spec fn next_field(v: Text, from: Option<int>) -> Option<int> {
    match from {
        Some(start) => if field_end(v, start) < v.len() {
            Some(field_end(v, start) + 1)
        } else {
            None
        },
        None => None,
    }
}

/// The number in the field that starts at `from`; a field that is missing or
/// writes no number counts as 0.
pub open spec fn field_number(v: Text, from: Option<int>) -> u32 {
    match from {
        Some(start) => match parse_u32(v.subrange(start, field_end(v, start))) {
            Some(n) => n,
            None => 0,
        },
        None => 0,
    }
}

/// Major, minor and patch number of the version `v`: its first three fields
/// between dots.
pub open spec fn version_of(v: Text) -> (u32, u32, u32) {
    let major = Some(0int);
    let minor = next_field(v, major);
    let patch = next_field(v, minor);
    (field_number(v, major), field_number(v, minor), field_number(v, patch))
}

/// Whether the version `latest` is later than `current`: a greater major
/// number, or the same and a greater minor number, or both the same and a
/// greater patch number.
pub open spec fn newer(current: (u32, u32, u32), latest: (u32, u32, u32)) -> bool {
    ||| latest.0 > current.0
    ||| latest.0 == current.0 && latest.1 > current.1
    ||| latest.0 == current.0 && latest.1 == current.1 && latest.2 > current.2
}

/// A longer numeral writes no smaller number.
proof fn lemma_number_grows(digits: Seq<char>, n: int)
    requires
        0 <= n <= digits.len(),
        all_digits(digits),
    ensures
        number(digits.take(n)) <= number(digits),
    decreases digits.len() - n,
{
    if n == digits.len() {
        assert(digits.take(n) =~= digits);
    } else {
        lemma_number_grows(digits.drop_last(), n);
        assert(digits.drop_last().take(n) =~= digits.take(n));
    }
}

/// Where the field of `v` that starts at `from` ends.
fn find_field_end(v: &str, len: usize, from: usize) -> (end: usize)
    requires
        len == v@.len(),
        from <= len,
    ensures
        end == field_end(v@, from as int),
        from <= end <= len,
{
    let mut end: usize = from;
    while end < len && v.get_char(end) != '.'
        invariant
            from <= end <= len,
            len == v@.len(),
            field_end(v@, from as int) == field_end(v@, end as int),
        decreases len - end,
    {
        end += 1;
    }
    end
}

/// The number in the field of `v` from `start` to `end`, or 0.
fn parse_field(v: &str, start: usize, end: usize) -> (n: u32)
    requires
        start <= end <= v@.len(),
    ensures
        n == match parse_u32(v@.subrange(start as int, end as int)) {
            Some(n) => n,
            None => 0,
        },
{
    let ghost field = v@.subrange(start as int, end as int);
    let mut i: usize = start;
    if i < end && v.get_char(i) == '+' {
        i += 1;
    }
    let first: usize = i;
    let ghost digits = v@.subrange(first as int, end as int);
    assert(digits =~= if field.len() > 0 && field[0] == '+' {
        field.skip(1)
    } else {
        field
    });
    if i == end {
        return 0;
    }
    let mut value: u64 = 0;
    assert(digits.take(0) =~= Seq::empty());
    while i < end
        invariant
            start <= first <= i <= end <= v@.len(),
            field == v@.subrange(start as int, end as int),
            digits == v@.subrange(first as int, end as int),
            first < end,
            digits == if field.len() > 0 && field[0] == '+' {
                field.skip(1)
            } else {
                field
            },
            forall|j: int| 0 <= j < i - first ==> is_digit(#[trigger] digits[j]),
            value == number(digits.take(i - first)),
            value <= u32::MAX,
        decreases end - i,
    {
        let c = v.get_char(i);
        assert(c == digits[i - first]);
        if !('0' <= c && c <= '9') {
            assert(!is_digit(digits[i - first]));
            return 0;
        }
        let digit: u64 = (c as u32 - '0' as u32) as u64;
        assert(digits.take(i - first + 1).drop_last() =~= digits.take(i - first));
        value = value * 10 + digit;
        if value > u32::MAX as u64 {
            proof {
                if all_digits(digits) {
                    lemma_number_grows(digits, i - first + 1);
                }
            }
            return 0;
        }
        i += 1;
    }
    assert(digits.take(i - first) =~= digits);
    value as u32
}

/// Major, minor and patch number of the version `v`.
pub fn parse_version(v: &str) -> (version: (u32, u32, u32))
    ensures
        version == version_of(v@),
{
    let len = v.unicode_len();
    let major_end = find_field_end(v, len, 0);
    let major = parse_field(v, 0, major_end);
    if major_end == len {
        return (major, 0, 0);
    }
    let minor_end = find_field_end(v, len, major_end + 1);
    let minor = parse_field(v, major_end + 1, minor_end);
    if minor_end == len {
        return (major, minor, 0);
    }
    let patch_end = find_field_end(v, len, minor_end + 1);
    let patch = parse_field(v, minor_end + 1, patch_end);
    (major, minor, patch)
}

/// Whether the version `latest` is later than the version `current`.
pub fn is_newer_version(current: &str, latest: &str) -> (is_newer: bool)
    ensures
        is_newer == newer(version_of(current@), version_of(latest@)),
{
    let (cur_major, cur_minor, cur_patch) = parse_version(current);
    let (lat_major, lat_minor, lat_patch) = parse_version(latest);
    if lat_major > cur_major {
        return true;
    }
    if lat_major == cur_major && lat_minor > cur_minor {
        return true;
    }
    if lat_major == cur_major && lat_minor == cur_minor && lat_patch > cur_patch {
        return true;
    }
    false
}

/// The version that the release tag `tag` names: the tag without the `v` that
/// may stand before it.
pub open spec fn tag_version(tag: Text) -> Text {
    if tag.len() > 0 && tag[0] == 'v' {
        tag.skip(1)
    } else {
        tag
    }
}

/// The version that the release tag `tag` names.
pub fn version_from_tag(tag: &str) -> (version: String)
    ensures
        version@ == tag_version(tag@),
{
    let len = tag.unicode_len();
    if len > 0 && tag.get_char(0) == 'v' {
        let rest = tag.substring_char(1, len);
        assert(rest@ =~= tag@.skip(1));
        rest.to_owned()
    } else {
        tag.to_owned()
    }
}

/// Where the description of the latest release is asked for.
pub fn latest_release_url() -> (url: String)
    ensures
        url@ == "https://api.github.com/repos/"@ + GITHUB_REPO@ + "/releases/latest"@,
{
    "https://api.github.com/repos/".to_owned().concat(GITHUB_REPO).concat("/releases/latest")
}

/// Where the binary of `platform` in the release `version` is fetched from.
pub fn release_binary_url(platform: Platform, version: &str) -> (url: String)
    ensures
        url@ == "https://github.com/"@ + GITHUB_REPO@ + "/releases/download/v"@ + version@ + "/"@
            + platform.binary_text(),
{
    "https://github.com/".to_owned().concat(GITHUB_REPO).concat("/releases/download/v").concat(
        version,
    ).concat("/").concat(platform.binary_name())
}

} // verus!
