//! Small `key=value` line records, as the lock and acknowledgement files hold them.
//!
//! A record is read line by line (`str::lines`); for each key the last line that
//! starts with `key` decides its value.

use vstd::prelude::*;
use crate::text::{lines_of, range_eq, range_matches, ranges_match, trim_seq};

verus! {

/// `l` starts with `p` (`str::strip_prefix` succeeds).
pub open spec fn has_prefix(l: Seq<char>, p: Seq<char>) -> bool {
    p.len() <= l.len() && l.take(p.len() as int) == p
}

/// What follows `key` on the last of `lines` that starts with `key`.
pub open spec fn last_value(lines: Seq<Seq<char>>, key: Seq<char>) -> Option<Seq<char>>
    decreases lines.len(),
{
    if lines.len() == 0 {
        None
    } else if has_prefix(lines.last(), key) {
        Some(lines.last().skip(key.len() as int))
    } else {
        last_value(lines.drop_last(), key)
    }
}

/// Like `last_value`, but a line whose value is blank after trimming is passed over.
pub open spec fn last_filled_value(lines: Seq<Seq<char>>, key: Seq<char>) -> Option<Seq<char>>
    decreases lines.len(),
{
    if lines.len() == 0 {
        None
    } else if has_prefix(lines.last(), key) && trim_seq(lines.last().skip(key.len() as int)).len()
        > 0 {
        Some(lines.last().skip(key.len() as int))
    } else {
        last_filled_value(lines.drop_last(), key)
    }
}

/// Whether the line `v[a..b]` starts with `key`.
fn line_has_prefix(v: &Vec<char>, a: usize, b: usize, key: &str) -> (r: bool)
    requires
        a <= b <= v@.len(),
    ensures
        r == has_prefix(v@.subrange(a as int, b as int), key@),
{
    let k = key.unicode_len();
    if b - a < k {
        return false;
    }
    let r = range_eq(v, a, a + k, key);
    assert(v@.subrange(a as int, b as int).take(k as int) =~= v@.subrange(a as int, (a + k) as int));
    r
}

/// The range of `v` that holds `last_value(lines_of(v), key)`.
pub fn last_value_range(v: &Vec<char>, ranges: &Vec<(usize, usize)>, key: &str) -> (r: Option<
    (usize, usize),
>)
    requires
        ranges@.len() == lines_of(v@).len(),
        ranges_match(v@, ranges@, lines_of(v@)),
    ensures
        match r {
            None => last_value(lines_of(v@), key@) is None,
            Some(p) => p.0 <= p.1 <= v@.len() && last_value(lines_of(v@), key@) == Some(
                v@.subrange(p.0 as int, p.1 as int),
            ),
        },
{
    let ghost lines = lines_of(v@);
    let k = key.unicode_len();
    let mut found: Option<(usize, usize)> = None;
    let mut i: usize = 0;
    while i < ranges.len()
        invariant
            lines == lines_of(v@),
            k == key@.len(),
            ranges@.len() == lines.len(),
            ranges_match(v@, ranges@, lines),
            i <= ranges@.len(),
            match found {
                None => last_value(lines.take(i as int), key@) is None,
                Some(p) => p.0 <= p.1 <= v@.len() && last_value(lines.take(i as int), key@)
                    == Some(v@.subrange(p.0 as int, p.1 as int)),
            },
        decreases ranges@.len() - i,
    {
        let (a, b) = ranges[i];
        assert(range_matches(v@, ranges@[i as int], lines[i as int]));
        let ghost pre = lines.take(i + 1);
        assert(pre.drop_last() =~= lines.take(i as int));
        assert(pre.last() == v@.subrange(a as int, b as int));
        if line_has_prefix(v, a, b, key) {
            assert(v@.subrange(a as int, b as int).skip(k as int) =~= v@.subrange(
                (a + k) as int,
                b as int,
            ));
            found = Some((a + k, b));
        }
        i += 1;
    }
    assert(lines.take(ranges@.len() as int) =~= lines);
    found
}

/// The range of `v` that holds `last_filled_value(lines_of(v), key)`.
pub fn last_filled_value_range(v: &Vec<char>, ranges: &Vec<(usize, usize)>, key: &str) -> (r:
    Option<(usize, usize)>)
    requires
        ranges@.len() == lines_of(v@).len(),
        ranges_match(v@, ranges@, lines_of(v@)),
    ensures
        match r {
            None => last_filled_value(lines_of(v@), key@) is None,
            Some(p) => p.0 <= p.1 <= v@.len() && last_filled_value(lines_of(v@), key@) == Some(
                v@.subrange(p.0 as int, p.1 as int),
            ),
        },
{
    let ghost lines = lines_of(v@);
    let k = key.unicode_len();
    let mut found: Option<(usize, usize)> = None;
    let mut i: usize = 0;
    while i < ranges.len()
        invariant
            lines == lines_of(v@),
            k == key@.len(),
            ranges@.len() == lines.len(),
            ranges_match(v@, ranges@, lines),
            i <= ranges@.len(),
            match found {
                None => last_filled_value(lines.take(i as int), key@) is None,
                Some(p) => p.0 <= p.1 <= v@.len() && last_filled_value(lines.take(i as int), key@)
                    == Some(v@.subrange(p.0 as int, p.1 as int)),
            },
        decreases ranges@.len() - i,
    {
        let (a, b) = ranges[i];
        assert(range_matches(v@, ranges@[i as int], lines[i as int]));
        let ghost pre = lines.take(i + 1);
        assert(pre.drop_last() =~= lines.take(i as int));
        assert(pre.last() == v@.subrange(a as int, b as int));
        if line_has_prefix(v, a, b, key) {
            assert(v@.subrange(a as int, b as int).skip(k as int) =~= v@.subrange(
                (a + k) as int,
                b as int,
            ));
            let (x, y) = crate::text::trim_bounds(v, a + k, b);
            if x < y {
                found = Some((a + k, b));
            }
        }
        i += 1;
    }
    assert(lines.take(ranges@.len() as int) =~= lines);
    found
}

} // verus!
