//! The text forms the keymap serializer writes: a binding rendered back to
//! its `&action params` form, and key position lists reverse-mapped to the
//! named key groups of this keyboard's layout.

use vstd::prelude::*;

verus! {

use crate::keymap::{Binding, BindingModel};
use crate::text::{spec_join, spec_u32_decimal, join_with, u32_to_decimal};
use vstd::string::{StrSliceExecFns, StringExecFns};

/// The left-hand key positions of the layout.
pub open spec fn spec_keys_l() -> Seq<u8> {
    seq![0u8, 1, 2, 3, 4, 10, 11, 12, 13, 14, 20, 21, 22, 23, 24, 25]
}

/// The right-hand key positions of the layout.
pub open spec fn spec_keys_r() -> Seq<u8> {
    seq![5u8, 6, 7, 8, 9, 15, 16, 17, 18, 19, 26, 27, 28, 29, 30, 31]
}

/// The thumb key positions of the layout.
pub open spec fn spec_thumbs() -> Seq<u8> {
    seq![32u8, 33, 34, 35, 36, 37]
}

fn keys_l() -> (r: Vec<u8>)
    ensures
        r@ == spec_keys_l(),
{
    let r: Vec<u8> = vec![0u8, 1, 2, 3, 4, 10, 11, 12, 13, 14, 20, 21, 22, 23, 24, 25];
    proof {
        assert(r@ =~= spec_keys_l());
    }
    r
}

fn keys_r() -> (r: Vec<u8>)
    ensures
        r@ == spec_keys_r(),
{
    let r: Vec<u8> = vec![5u8, 6, 7, 8, 9, 15, 16, 17, 18, 19, 26, 27, 28, 29, 30, 31];
    proof {
        assert(r@ =~= spec_keys_r());
    }
    r
}

fn thumbs() -> (r: Vec<u8>)
    ensures
        r@ == spec_thumbs(),
{
    let r: Vec<u8> = vec![32u8, 33, 34, 35, 36, 37];
    proof {
        assert(r@ =~= spec_thumbs());
    }
    r
}

/// A binding's text form: the action behind `&`, then the parameters,
/// blank-separated.
pub open spec fn spec_format_binding(b: BindingModel) -> Seq<char> {
    if b.params.len() == 0 {
        "&"@ + b.action
    } else {
        "&"@ + b.action + " "@ + spec_join(b.params, " "@)
    }
}

/// Render a binding back to its `&action params` text form.
pub fn format_binding(binding: &Binding) -> (r: String)
    ensures
        r@ == spec_format_binding(binding@),
{
    let mut out = String::from_str("&");
    out.append(binding.action.as_str());
    if binding.params.len() == 0 {
        return out;
    }
    out.append(" ");
    out.append(join_with(&binding.params, " ").as_str());
    out
}

/// Membership in a byte slice.
fn contains_u8(haystack: &[u8], x: u8) -> (r: bool)
    ensures
        r == haystack@.contains(x),
{
    let n = haystack.len();
    let mut i: usize = 0;
    while i < n
        invariant
            i <= n,
            n == haystack@.len(),
            forall|t: int| 0 <= t < i ==> haystack@[t] != x,
        decreases n - i,
    {
        if haystack[i] == x {
            proof {
                assert(haystack@[i as int] == x);
            }
            return true;
        }
        i = i + 1;
    }
    proof {
        assert(forall|t: int| 0 <= t < haystack@.len() ==> haystack@[t] != x);
    }
    false
}

/// Every needle occurs in the haystack.
pub open spec fn spec_contains_all(haystack: Seq<u8>, needles: Seq<u8>) -> bool {
    forall|i: int| 0 <= i < needles.len() ==> haystack.contains(#[trigger] needles[i])
}

/// Check that every needle occurs in the haystack.
pub fn contains_all(haystack: &[u8], needles: &[u8]) -> (r: bool)
    ensures
        r == spec_contains_all(haystack@, needles@),
{
    let m = needles.len();
    let mut i: usize = 0;
    while i < m
        invariant
            i <= m,
            m == needles@.len(),
            forall|t: int| 0 <= t < i ==> haystack@.contains(#[trigger] needles@[t]),
        decreases m - i,
    {
        if !contains_u8(haystack, needles[i]) {
            return false;
        }
        i = i + 1;
    }
    true
}

/// A position list without the elements of a group, order kept.
pub open spec fn spec_remove_all(s: Seq<u8>, needles: Seq<u8>) -> Seq<u8> {
    s.filter(|h: u8| !needles.contains(h))
}

/// Drop every element that occurs among the needles, keeping the order of
/// the rest.
pub fn remove_all(haystack: &mut Vec<u8>, needles: &[u8])
    ensures
        final(haystack)@ == spec_remove_all(old(haystack)@, needles@),
{
    let ghost orig = haystack@;
    let mut kept: Vec<u8> = Vec::new();
    proof {
        reveal(Seq::filter);
        assert(orig.take(0) =~= Seq::<u8>::empty());
        assert(kept@ =~= spec_remove_all(orig.take(0), needles@));
    }
    let n = haystack.len();
    let mut i: usize = 0;
    while i < n
        invariant
            i <= n,
            n == orig.len(),
            haystack@ == orig,
            kept@ == spec_remove_all(orig.take(i as int), needles@),
        decreases n - i,
    {
        let x = haystack[i];
        proof {
            reveal(Seq::filter);
            assert(orig.take(i as int + 1).drop_last() =~= orig.take(i as int));
            assert(orig.take(i as int + 1).last() == x);
        }
        if !contains_u8(needles, x) {
            kept.push(x);
        }
        i = i + 1;
    }
    proof {
        assert(orig.take(n as int) =~= orig);
    }
    *haystack = kept;
}

/// The text of a position list, with each named group that is wholly present
/// replaced by its name — right hand, then left hand, then thumbs — and the
/// leftover positions written as numbers.
pub open spec fn spec_reverse_key_positions(positions: Seq<u8>) -> Seq<char> {
    let (parts1, r1) = if spec_contains_all(positions, spec_keys_r()) {
        (seq!["KEYS_R"@], spec_remove_all(positions, spec_keys_r()))
    } else {
        (Seq::<Seq<char>>::empty(), positions)
    };
    let (parts2, r2) = if spec_contains_all(r1, spec_keys_l()) {
        (parts1.push("KEYS_L"@), spec_remove_all(r1, spec_keys_l()))
    } else {
        (parts1, r1)
    };
    let (parts3, r3) = if spec_contains_all(r2, spec_thumbs()) {
        (parts2.push("THUMBS"@), spec_remove_all(r2, spec_thumbs()))
    } else {
        (parts2, r2)
    };
    let parts = parts3 + decimal_texts(r3);
    spec_join(parts, " "@)
}

/// The decimal texts of a position list.
pub open spec fn decimal_texts(s: Seq<u8>) -> Seq<Seq<char>> {
    s.map_values(|p: u8| spec_u32_decimal(p as u32))
}

/// Reverse-map a list of key positions to group names where a whole group is
/// present, leaving the rest as numbers.
pub fn reverse_key_positions(positions: &[u8]) -> (r: String)
    ensures
        r@ == spec_reverse_key_positions(positions@),
{
    let mut remaining: Vec<u8> = Vec::new();
    let n = positions.len();
    let mut i: usize = 0;
    while i < n
        invariant
            i <= n,
            n == positions@.len(),
            remaining@ == positions@.take(i as int),
        decreases n - i,
    {
        remaining.push(positions[i]);
        proof {
            assert(positions@.take(i as int + 1) =~= positions@.take(i as int).push(
                positions@[i as int],
            ));
        }
        i = i + 1;
    }
    proof {
        assert(positions@.take(n as int) =~= positions@);
    }
    let mut parts: Vec<String> = Vec::new();
    proof {
        assert(parts.deep_view() =~= Seq::<Seq<char>>::empty());
    }
    let group_r = keys_r();
    if contains_all(remaining.as_slice(), group_r.as_slice()) {
        remove_all(&mut remaining, group_r.as_slice());
        let ghost pre = parts.deep_view();
        parts.push(String::from_str("KEYS_R"));
        proof {
            assert(parts.deep_view() =~= pre.push("KEYS_R"@));
        }
    }
    let group_l = keys_l();
    if contains_all(remaining.as_slice(), group_l.as_slice()) {
        remove_all(&mut remaining, group_l.as_slice());
        let ghost pre = parts.deep_view();
        parts.push(String::from_str("KEYS_L"));
        proof {
            assert(parts.deep_view() =~= pre.push("KEYS_L"@));
        }
    }
    let group_t = thumbs();
    if contains_all(remaining.as_slice(), group_t.as_slice()) {
        remove_all(&mut remaining, group_t.as_slice());
        let ghost pre = parts.deep_view();
        parts.push(String::from_str("THUMBS"));
        proof {
            assert(parts.deep_view() =~= pre.push("THUMBS"@));
        }
    }
    let ghost named = parts.deep_view();
    let ghost left = remaining@;
    let m = remaining.len();
    let mut k: usize = 0;
    while k < m
        invariant
            k <= m,
            m == left.len(),
            remaining@ == left,
            parts.deep_view() == named + decimal_texts(left.take(k as int)),
        decreases m - k,
    {
        let ghost pre = parts.deep_view();
        parts.push(u32_to_decimal(remaining[k] as u32));
        proof {
            assert(left.take(k as int + 1) =~= left.take(k as int).push(left[k as int]));
            assert(decimal_texts(left.take(k as int + 1)) =~= decimal_texts(
                left.take(k as int),
            ).push(spec_u32_decimal(left[k as int] as u32)));
            assert(parts.deep_view() =~= pre.push(spec_u32_decimal(left[k as int] as u32)));
            assert(parts.deep_view() =~= named + decimal_texts(left.take(k as int + 1)));
        }
        k = k + 1;
    }
    proof {
        assert(left.take(m as int) =~= left);
    }
    join_with(&parts, " ")
}

} // verus!
