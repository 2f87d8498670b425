use vstd::prelude::*;

use crate::text::{lower_of, lowercase, spec_str_contains, spec_str_prefix, str_contains_chars,
    str_prefix_chars};

verus! {

/// The index `stepClamped` lands on: `current` (absent means 0) plus `delta`,
/// clamped into `[0, len - 1]`.
pub open spec fn spec_step_clamped_index(current: Option<usize>, delta: int, len: int) -> int {
    let base = match current {
        Some(i) => i as int,
        None => 0,
    };
    let moved = base + delta;
    if moved < 0 {
        0
    } else if moved > len - 1 {
        len - 1
    } else {
        moved
    }
}

/// The index `stepWrapped` lands on: `current` (absent means 0) plus `delta`,
/// wrapped modulo `len`.
pub open spec fn spec_step_wrapped_index(current: Option<usize>, delta: int, len: int) -> int {
    let base = match current {
        Some(i) => i as int,
        None => 0,
    };
    (base + delta) % len
}

/// Steps an index by `delta`, clamping into `[0, len - 1]`; `None` iff the
/// collection is empty.  Total: any delta yields a valid index when `len > 0`.
pub fn step_clamped(current: Option<usize>, delta: isize, len: usize) -> (r: Option<usize>)
    ensures
        len == 0 <==> r is None,
        len > 0 ==> r == Some(spec_step_clamped_index(current, delta as int, len as int) as usize),
        r matches Some(i) ==> i < len,
{
    if len == 0 {
        return None;
    }
    let base: i128 = match current {
        Some(i) => i as i128,
        None => 0,
    };
    let moved: i128 = base + delta as i128;
    let limit: i128 = len as i128 - 1;
    let clamped: i128 = if moved < 0 {
        0
    } else if moved > limit {
        limit
    } else {
        moved
    };
    Some(clamped as usize)
}

/// Steps an index by `delta`, wrapping modulo `len`; `None` iff the collection
/// is empty.  Total: any delta yields a valid index when `len > 0`.
pub fn step_wrapped(current: Option<usize>, delta: isize, len: usize) -> (r: Option<usize>)
    ensures
        len == 0 <==> r is None,
        len > 0 ==> r == Some(spec_step_wrapped_index(current, delta as int, len as int) as usize),
        r matches Some(i) ==> i < len,
{
    if len == 0 {
        return None;
    }
    let base: i128 = match current {
        Some(i) => i as i128,
        None => 0,
    };
    let moved: i128 = base + delta as i128;
    let m: u128 = len as u128;
    let wrapped: u128 = if moved >= 0 {
        (moved as u128) % m
    } else {
        let pos: u128 = (-moved) as u128;
        let r: u128 = pos % m;
        if r == 0 {
            0
        } else {
            m - r
        }
    };
    proof {
        let x = moved as int;
        let l = m as int;
        if moved >= 0 {
            assert(wrapped as int == x % l);
        } else {
            let pos = (-moved) as int;
            let r = pos % l;
            vstd::arithmetic::div_mod::lemma_fundamental_div_mod(pos, l);
            let k = pos / l;
            if r == 0 {
                assert(x == (-k) * l + 0) by (nonlinear_arith)
                    requires x == -pos, pos == l * k + r, r == 0;
                vstd::arithmetic::div_mod::lemma_fundamental_div_mod_converse_mod(x, l, -k, 0);
            } else {
                assert(x == (-k - 1) * l + (l - r)) by (nonlinear_arith)
                    requires x == -pos, pos == l * k + r;
                vstd::arithmetic::div_mod::lemma_fundamental_div_mod_converse_mod(
                    x, l, -k - 1, l - r);
            }
        }
        assert(wrapped as int == (base as int + delta as int) % (len as int));
    }
    Some(wrapped as usize)
}

/// Stepping an index forward by one steps its residue forward by one,
/// wrapping to zero at the modulus.
proof fn lemma_mod_succ(i: int, l: int)
    requires
        l > 0,
        0 <= i,
    ensures
        (i + 1) % l == if i % l == l - 1 { 0int } else { i % l + 1 },
{
    vstd::arithmetic::div_mod::lemma_fundamental_div_mod(i, l);
    vstd::arithmetic::div_mod::lemma_mod_bound(i, l);
    let k = i / l;
    let r = i % l;
    if r == l - 1 {
        assert(i + 1 == (k + 1) * l + 0) by (nonlinear_arith)
            requires i == l * k + r, r == l - 1;
        vstd::arithmetic::div_mod::lemma_fundamental_div_mod_converse_mod(i + 1, l, k + 1, 0);
    } else {
        assert(i + 1 == k * l + (r + 1)) by (nonlinear_arith)
            requires i == l * k + r;
        vstd::arithmetic::div_mod::lemma_fundamental_div_mod_converse_mod(i + 1, l, k, r + 1);
    }
}

/// The start offset of the circular scan: just after `start_after`, or 0.
pub open spec fn spec_scan_start(start_after: Option<usize>, len: int) -> int {
    match start_after {
        Some(i) => (i + 1) % len,
        None => 0,
    }
}

/// Case-insensitive: does `items[i]` contain `query` as a substring?
pub open spec fn contains_match(items: Seq<String>, query: Seq<char>, i: int) -> bool {
    spec_str_contains(lower_of(items[i]@), lower_of(query))
}

/// Case-insensitive: does `items[i]` start with `query`?
pub open spec fn prefix_match(items: Seq<String>, query: Seq<char>, i: int) -> bool {
    spec_str_prefix(lower_of(items[i]@), lower_of(query))
}

/// The first index of a substring match in the circular scan order that
/// begins at offset `start` and has already passed `off` items.
pub open spec fn first_contains_from(items: Seq<String>, query: Seq<char>, start: int, off: int)
    -> Option<usize>
    decreases items.len() - off,
{
    if off < 0 || off >= items.len() {
        None
    } else {
        let idx = (start + off) % (items.len() as int);
        if contains_match(items, query, idx) {
            Some(idx as usize)
        } else {
            first_contains_from(items, query, start, off + 1)
        }
    }
}

/// The first index of a prefix match in the circular scan order that begins
/// at offset `start` and has already passed `off` items.
pub open spec fn first_prefix_from(items: Seq<String>, query: Seq<char>, start: int, off: int)
    -> Option<usize>
    decreases items.len() - off,
{
    if off < 0 || off >= items.len() {
        None
    } else {
        let idx = (start + off) % (items.len() as int);
        if prefix_match(items, query, idx) {
            Some(idx as usize)
        } else {
            first_prefix_from(items, query, start, off + 1)
        }
    }
}

/// What `findNextContains` returns: `None` for an empty query or list, else
/// the first circular substring match strictly after `start_after`.
pub open spec fn spec_find_next_contains(items: Seq<String>, query: Seq<char>,
    start_after: Option<usize>) -> Option<usize> {
    if items.len() == 0 || query.len() == 0 {
        None
    } else {
        first_contains_from(items, query, spec_scan_start(start_after, items.len() as int), 0)
    }
}

/// What `findNextPrefix` returns: `None` for an empty query or list, else the
/// first circular prefix match strictly after `start_after`.
pub open spec fn spec_find_next_prefix(items: Seq<String>, query: Seq<char>,
    start_after: Option<usize>) -> Option<usize> {
    if items.len() == 0 || query.len() == 0 {
        None
    } else {
        first_prefix_from(items, query, spec_scan_start(start_after, items.len() as int), 0)
    }
}

/// Case-insensitive substring search, scanning circularly from just after
/// `start_after` (or from index 0 when absent).
pub fn find_next_contains(items: &Vec<String>, query: &str, start_after: Option<usize>)
    -> (r: Option<usize>)
    ensures
        r == spec_find_next_contains(items@, query@, start_after),
        r matches Some(i) ==> i < items@.len() && contains_match(items@, query@, i as int),
{
    let len = items.len();
    if len == 0 || query.is_empty() {
        return None;
    }
    let needle = lowercase(query);
    let start: usize = match start_after {
        Some(i) => {
            let s = i % len;
            if s == len - 1 {
                0
            } else {
                s + 1
            }
        },
        None => 0,
    };
    proof {
        match start_after {
            Some(i) => {
                lemma_mod_succ(i as int, len as int);
            },
            None => {},
        }
        assert(start as int == spec_scan_start(start_after, len as int));
    }
    let ghost gstart = start as int;
    let mut off: usize = 0;
    while off < len
        invariant
            len == items@.len(),
            0 < len,
            query@.len() > 0,
            needle@ == lower_of(query@),
            0 <= off <= len,
            gstart == start as int,
            0 <= gstart < len,
            gstart == spec_scan_start(start_after, len as int),
            first_contains_from(items@, query@, gstart, 0) == first_contains_from(
                items@, query@, gstart, off as int),
        decreases len - off,
    {
        let idx: usize = if off < len - start {
            start + off
        } else {
            off - (len - start)
        };
        proof {
            let l = len as int;
            if off < len - start {
                assert(gstart + off == 0 * l + idx as int) by (nonlinear_arith)
                    requires gstart + off == idx as int;
                vstd::arithmetic::div_mod::lemma_fundamental_div_mod_converse_mod(
                    gstart + off, l, 0, idx as int);
            } else {
                assert(gstart + off == 1 * l + idx as int) by (nonlinear_arith)
                    requires gstart + off == l + idx as int;
                vstd::arithmetic::div_mod::lemma_fundamental_div_mod_converse_mod(
                    gstart + off, l, 1, idx as int);
            }
            assert(idx as int == (gstart + off) % (len as int));
        }
        let lowered = lowercase(items[idx].as_str());
        if str_contains_chars(lowered.as_str(), needle.as_str()) {
            return Some(idx);
        }
        off = off + 1;
    }
    None
}

/// Case-insensitive prefix search, scanning circularly from just after
/// `start_after` (or from index 0 when absent).
pub fn find_next_prefix(items: &Vec<String>, query: &str, start_after: Option<usize>)
    -> (r: Option<usize>)
    ensures
        r == spec_find_next_prefix(items@, query@, start_after),
        r matches Some(i) ==> i < items@.len() && prefix_match(items@, query@, i as int),
{
    let len = items.len();
    if len == 0 || query.is_empty() {
        return None;
    }
    let needle = lowercase(query);
    let start: usize = match start_after {
        Some(i) => {
            let s = i % len;
            if s == len - 1 {
                0
            } else {
                s + 1
            }
        },
        None => 0,
    };
    proof {
        match start_after {
            Some(i) => {
                lemma_mod_succ(i as int, len as int);
            },
            None => {},
        }
        assert(start as int == spec_scan_start(start_after, len as int));
    }
    let ghost gstart = start as int;
    let mut off: usize = 0;
    while off < len
        invariant
            len == items@.len(),
            0 < len,
            query@.len() > 0,
            needle@ == lower_of(query@),
            0 <= off <= len,
            gstart == start as int,
            0 <= gstart < len,
            gstart == spec_scan_start(start_after, len as int),
            first_prefix_from(items@, query@, gstart, 0) == first_prefix_from(
                items@, query@, gstart, off as int),
        decreases len - off,
    {
        let idx: usize = if off < len - start {
            start + off
        } else {
            off - (len - start)
        };
        proof {
            let l = len as int;
            if off < len - start {
                assert(gstart + off == 0 * l + idx as int) by (nonlinear_arith)
                    requires gstart + off == idx as int;
                vstd::arithmetic::div_mod::lemma_fundamental_div_mod_converse_mod(
                    gstart + off, l, 0, idx as int);
            } else {
                assert(gstart + off == 1 * l + idx as int) by (nonlinear_arith)
                    requires gstart + off == l + idx as int;
                vstd::arithmetic::div_mod::lemma_fundamental_div_mod_converse_mod(
                    gstart + off, l, 1, idx as int);
            }
            assert(idx as int == (gstart + off) % (len as int));
        }
        let lowered = lowercase(items[idx].as_str());
        if str_prefix_chars(lowered.as_str(), needle.as_str()) {
            return Some(idx);
        }
        off = off + 1;
    }
    None
}

/// The least index at or after `i` whose item equals `value`.
pub open spec fn spec_position_from(items: Seq<String>, value: Seq<char>, i: int) -> Option<usize>
    decreases items.len() - i,
{
    if i < 0 || i >= items.len() {
        None
    } else if items[i]@ == value {
        Some(i as usize)
    } else {
        spec_position_from(items, value, i + 1)
    }
}

/// The least index whose item equals `value`, if any.
pub open spec fn spec_position(items: Seq<String>, value: Seq<char>) -> Option<usize> {
    spec_position_from(items, value, 0)
}

/// Finds the first item equal to `value`.
pub fn position_of(items: &Vec<String>, value: &str) -> (r: Option<usize>)
    ensures
        r == spec_position(items@, value@),
        (r matches Some(i) ==> i < items@.len() && items@[i as int]@ == value@),
{
    let needle: String = value.to_owned();
    let len = items.len();
    let mut i: usize = 0;
    while i < len
        invariant
            len == items@.len(),
            0 <= i <= len,
            needle@ == value@,
            spec_position(items@, value@) == spec_position_from(items@, value@, i as int),
        decreases len - i,
    {
        if items[i] == needle {
            return Some(i);
        }
        i = i + 1;
    }
    None
}

} // verus!
