//! Deciding whether a release is newer than the running program, and when to look for one.

use crate::profile::opt_text;
use crate::text::{
    parse_u32, parse_u64, split_of, split_text, strip_text_prefix, text_eq, texts, unsigned_of,
};
use vstd::prelude::*;

verus! {

/// The number that a part of a version stands for: the number it denotes, or 0 where it
/// denotes none that fits 32 bits.
pub open spec fn part_value(part: Seq<char>) -> nat {
    match unsigned_of(part, u32::MAX as nat) {
        Some(n) => n,
        None => 0,
    }
}

/// The numbers that a version is made of: those of its parts between the dots.
pub open spec fn version_parts(version: Seq<char>) -> Seq<nat> {
    split_of(version, '.').map_values(|part: Seq<char>| part_value(part))
}

/// The number at a place of a version; a version stands for 0 at a place it does not have.
pub open spec fn part_at(parts: Seq<nat>, i: int) -> nat {
    if 0 <= i < parts.len() {
        parts[i]
    } else {
        0
    }
}

/// How two versions compare from the place `i` on: by the first place at which they differ.
/// The result is -1 where the first is lower, 1 where it is higher, 0 where they do not
/// differ.
pub open spec fn compared_from(a: Seq<nat>, b: Seq<nat>, i: int) -> int
    decreases a.len() + b.len() - i,
{
    if i < 0 || (i >= a.len() && i >= b.len()) {
        0
    } else if part_at(a, i) < part_at(b, i) {
        -1
    } else if part_at(a, i) > part_at(b, i) {
        1
    } else {
        compared_from(a, b, i + 1)
    }
}

/// The numbers that a version is made of.
fn parse_version(version: &str) -> (r: Vec<u32>)
    ensures
        r@.map_values(|n: u32| n as nat) == version_parts(version@),
{
    let pieces = split_text(version, '.');
    let mut parts: Vec<u32> = Vec::new();
    let mut i: usize = 0;
    while i < pieces.len()
        invariant
            i <= pieces.len(),
            parts@.len() == i,
            forall|k: int| 0 <= k < i ==> parts@[k] as nat == part_value(#[trigger] texts(pieces@)[k]),
        decreases pieces.len() - i,
    {
        assert(texts(pieces@)[i as int] == pieces@[i as int]@);
        let n = match parse_u32(pieces[i].as_str()) {
            Some(n) => n,
            None => 0,
        };
        parts.push(n);
        i += 1;
    }
    proof {
        assert(parts@.map_values(|n: u32| n as nat) =~= version_parts(version@));
    }
    parts
}

/// Compares two versions, part by part: -1 where `v1` is the lower one, 1 where it is the
/// higher one, 0 where they are the same. A part that is no number counts as 0, and so does
/// a part that a version does not have.
pub fn compare_versions(v1: &str, v2: &str) -> (r: i32)
    ensures
        r == compared_from(version_parts(v1@), version_parts(v2@), 0),
{
    let a = parse_version(v1);
    let b = parse_version(v2);
    let ghost pa = version_parts(v1@);
    let ghost pb = version_parts(v2@);
    let max_len = if a.len() > b.len() {
        a.len()
    } else {
        b.len()
    };
    let mut i: usize = 0;
    while i < max_len
        invariant
            i <= max_len,
            max_len == (if a@.len() > b@.len() {
                a@.len()
            } else {
                b@.len()
            }),
            pa == version_parts(v1@),
            pb == version_parts(v2@),
            pa == a@.map_values(|n: u32| n as nat),
            pb == b@.map_values(|n: u32| n as nat),
            compared_from(pa, pb, 0) == compared_from(pa, pb, i as int),
        decreases max_len - i,
    {
        let x = if i < a.len() {
            a[i]
        } else {
            0
        };
        let y = if i < b.len() {
            b[i]
        } else {
            0
        };
        assert(pa.len() == a@.len() && pb.len() == b@.len());
        assert(x as nat == part_at(pa, i as int));
        assert(y as nat == part_at(pb, i as int));
        assert(i < pa.len() || i < pb.len());
        if x < y {
            return -1;
        }
        if x > y {
            return 1;
        }
        i += 1;
    }
    0
}

/// A release tag without the `v`s that it begins with.
pub open spec fn without_leading_v(tag: Seq<char>) -> Seq<char>
    decreases tag.len(),
{
    if tag.len() > 0 && tag[0] == 'v' {
        without_leading_v(tag.drop_first())
    } else {
        tag
    }
}

/// The version that a release tag names: the tag without the `v`s that it begins with.
pub fn release_version(tag: &str) -> (r: &str)
    ensures
        r@ == without_leading_v(tag@),
{
    let mut rest = tag;
    proof {
        reveal_strlit("v");
    }
    loop
        invariant
            without_leading_v(rest@) == without_leading_v(tag@),
            "v"@.len() == 1,
            "v"@[0] == 'v',
        decreases rest@.len(),
    {
        match strip_text_prefix(rest, "v") {
            Some(shorter) => {
                proof {
                    assert(rest@.len() > 0 && rest@[0] == 'v');
                    assert(shorter@ =~= rest@.drop_first());
                }
                rest = shorter;
            },
            None => {
                proof {
                    if rest@.len() > 0 && rest@[0] == 'v' {
                        assert("v"@ =~= rest@.subrange(0, 1));
                    }
                }
                return rest;
            },
        }
    }
}

/// Whether the release `latest` is newer than the running version `current`.
pub fn is_newer(current: &str, latest: &str) -> (r: bool)
    ensures
        r == (compared_from(version_parts(current@), version_parts(latest@), 0) < 0),
{
    compare_versions(current, latest) < 0
}

/// How often the program looks for a new release unless it is told otherwise.
pub fn default_self_update_frequency() -> (r: String)
    ensures
        r@ == "always"@,
{
    String::from_str("always")
}

/// The time of the last look for a release, as it is recorded: the number that the text
/// denotes, or 0 where it denotes none.
pub open spec fn recorded_time(last_check: Seq<char>) -> nat {
    match unsigned_of(last_check, u64::MAX as nat) {
        Some(n) => n,
        None => 0,
    }
}

/// Whether it is time to look for a new release. With the frequency `never` it never is.
/// With `daily` it is not while less than a day has gone by since the last look; a time of
/// the last look that lies ahead of `now` counts as no time gone by. With any other
/// frequency it always is.
pub open spec fn check_is_due(
    frequency: Seq<char>,
    last_check: Option<Seq<char>>,
    now: u64,
) -> bool {
    if frequency == "never"@ {
        false
    } else if frequency == "daily"@ && last_check is Some {
        let last = recorded_time(last_check->0);
        !(now - last < 86400)
    } else {
        true
    }
}

/// Whether to look for a new release now, `now` being the seconds since the epoch.
pub fn update_check_due(frequency: &str, last_check: &Option<String>, now: u64) -> (r: bool)
    ensures
        r == check_is_due(frequency@, opt_text(*last_check), now),
{
    if text_eq(frequency, "never") {
        return false;
    }
    if text_eq(frequency, "daily") {
        match last_check {
            Some(last) => {
                let last_ts = match parse_u64(last.as_str()) {
                    Some(n) => n,
                    None => 0,
                };
                let elapsed = if now >= last_ts {
                    now - last_ts
                } else {
                    0
                };
                if elapsed < 86400 {
                    return false;
                }
            },
            None => {},
        }
    }
    true
}

/// Whether the time of a look for a release is to be recorded: only the frequency `daily`
/// goes by it.
pub fn records_check_time(frequency: &str) -> (r: bool)
    ensures
        r == (frequency@ == "daily"@),
{
    text_eq(frequency, "daily")
}

} // verus!
