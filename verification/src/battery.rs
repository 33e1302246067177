//! Battery resolution for BLE-connected split keyboards.
//!
//! A split keyboard exposes one Battery Level characteristic per half, but
//! GATT client libraries deduplicate characteristics by UUID and then report
//! only one half. Three sources are therefore tried in order, first non-empty
//! result winning: the OS power-supply registry (keyed by the device's link
//! address), the Bluetooth daemon's object tree (one object path per
//! characteristic, no deduplication), and last a plain GATT read. The I/O of
//! each tier lives in the surrounding application; the selection rules, the
//! address and output parsing, and the deterministic ordering of the results
//! are here.

use vstd::prelude::*;

verus! {

use crate::text::{
    contains_seq,
    lower_char,
    lower_seq,
    match_at,
    parse_u8,
    parse_u8_seq,
    seq_le,
    split_whitespace_seq,
    str_contains,
    str_eq,
    str_le,
    str_rfind,
    str_split_whitespace,
    str_starts_with,
    str_to_lower,
    str_trim,
    trimmed,
    upper_char,
};
use crate::transport::TransportKind;
use vstd::string::{StrSliceExecFns, StringExecFns};

/// Battery levels of a split keyboard, one per half where known: index 0 of
/// the sorted readings is the primary/left half, index 1 the secondary/right
/// half.
#[derive(Debug, Clone, PartialEq)]
pub struct BatteryLevels {
    pub left: Option<u8>,
    pub right: Option<u8>,
}

/// One character of a link address as it appears in an object path, turned
/// into address notation: underscores become colons, letters lower case.
pub open spec fn mac_char(c: char) -> char {
    if c == '_' {
        ':'
    } else {
        lower_char(c)
    }
}

/// One character of a link address turned into object-path notation: colons
/// become underscores, letters upper case.
pub open spec fn dev_char(c: char) -> char {
    if c == ':' {
        '_'
    } else {
        upper_char(c)
    }
}

/// The characters from `start` up to the first `/` at or after it (or the end
/// of the string), with `i` the scan position.
pub open spec fn part_from(s: Seq<char>, start: int, i: int) -> Seq<char>
    decreases s.len() - i,
{
    if start <= i < s.len() && s[i] != '/' {
        part_from(s, start, i + 1)
    } else {
        s.subrange(start, i)
    }
}

/// The position of the rightmost `dev_` in the path.
pub open spec fn rightmost_dev_at(path: Seq<char>, i: int) -> bool {
    match_at(path, "dev_"@, i) && forall|t: int| t > i ==> !match_at(path, "dev_"@, t)
}

/// The address extracted at a `dev_` position: the path segment after the
/// marker, accepted only at the textual length of a link address.
pub open spec fn spec_mac_from_path_at(path: Seq<char>, i: int) -> Option<Seq<char>> {
    let part = part_from(path, i + 4, i + 4);
    if part.len() == 17 {
        Some(part.map_values(|c: char| mac_char(c)))
    } else {
        None
    }
}

/// Extract a link address from a Bluetooth daemon object path, such as
/// `/org/bluez/hci0/dev_AA_BB_CC_DD_EE_FF` giving `aa:bb:cc:dd:ee:ff`.
pub fn extract_mac_from_dbus_path(path: &str) -> (r: Option<String>)
    ensures
        (match r {
            Some(mac) => exists|i: int|
                rightmost_dev_at(path@, i) && spec_mac_from_path_at(path@, i) == Some(mac@),
            None => (forall|t: int| !match_at(path@, "dev_"@, t)) || (exists|i: int|
                rightmost_dev_at(path@, i) && spec_mac_from_path_at(path@, i) is None),
        }),
{
    proof {
        reveal_strlit("dev_");
    }
    let pos = match str_rfind(path, "dev_") {
        Some(p) => p,
        None => {
            return None;
        },
    };
    let n = path.unicode_len();
    let start = pos + 4;
    let mut j = start;
    while j < n && path.get_char(j) != '/'
        invariant
            start <= j <= n,
            n == path@.len(),
            part_from(path@, start as int, start as int) == part_from(
                path@,
                start as int,
                j as int,
            ),
        decreases n - j,
    {
        j = j + 1;
    }
    let ghost part = part_from(path@, start as int, start as int);
    proof {
        assert(part == path@.subrange(start as int, j as int));
    }
    if j - start != 17 {
        proof {
            assert(rightmost_dev_at(path@, pos as int));
            assert(spec_mac_from_path_at(path@, pos as int) is None);
        }
        return None;
    }
    let mut mac = String::new();
    let mut k = start;
    while k < j
        invariant
            start <= k <= j <= n,
            n == path@.len(),
            part == path@.subrange(start as int, j as int),
            mac@ == part.subrange(0, k - start).map_values(|c: char| mac_char(c)),
        decreases j - k,
    {
        let c = path.get_char(k);
        let mapped = if c == '_' {
            ':'
        } else {
            crate::text::to_lower_char(c)
        };
        mac.push(mapped);
        proof {
            assert(part.subrange(0, k + 1 - start).map_values(|c: char| mac_char(c))
                =~= part.subrange(0, k - start).map_values(|c: char| mac_char(c)).push(
                mac_char(path@[k as int]),
            ));
        }
        k = k + 1;
    }
    proof {
        assert(part.subrange(0, j - start) =~= part);
        assert(rightmost_dev_at(path@, pos as int));
        assert(spec_mac_from_path_at(path@, pos as int) == Some(mac@));
    }
    Some(mac)
}

/// Normalise a peripheral's reported address for the battery lookup: lower
/// case, and the all-zero address — reported when the platform does not know
/// the address — counts as unknown and becomes empty.
pub fn mac_from_address(addr: &str) -> (r: String)
    ensures
        r@ == (if lower_seq(addr@) == "00:00:00:00:00:00"@ {
            Seq::<char>::empty()
        } else {
            lower_seq(addr@)
        }),
{
    let low = str_to_lower(addr);
    if str_eq(low.as_str(), "00:00:00:00:00:00") {
        String::new()
    } else {
        low
    }
}

/// The Bluetooth daemon object path prefix of the device with the given link
/// address.
pub fn dev_path_prefix(mac: &str) -> (r: String)
    ensures
        r@ == "/org/bluez/hci0/dev_"@ + mac@.map_values(|c: char| dev_char(c)),
{
    let mut out = String::from_str("/org/bluez/hci0/dev_");
    let n = mac.unicode_len();
    proof {
        assert(out@ =~= "/org/bluez/hci0/dev_"@ + mac@.subrange(0, 0).map_values(
            |c: char| dev_char(c),
        ));
    }
    let mut i: usize = 0;
    while i < n
        invariant
            i <= n,
            n == mac@.len(),
            out@ == "/org/bluez/hci0/dev_"@ + mac@.subrange(0, i as int).map_values(
                |c: char| dev_char(c),
            ),
        decreases n - i,
    {
        let c = mac.get_char(i);
        let mapped = if c == ':' {
            '_'
        } else {
            crate::text::to_upper_char(c)
        };
        out.push(mapped);
        proof {
            assert(mac@.subrange(0, i as int + 1).map_values(|c: char| dev_char(c))
                =~= mac@.subrange(0, i as int).map_values(|c: char| dev_char(c)).push(
                dev_char(mac@[i as int]),
            ));
        }
        i = i + 1;
    }
    proof {
        assert(mac@.subrange(0, n as int) =~= mac@);
    }
    out
}

/// A line of text with a trailing carriage return stripped, as `str::lines`
/// yields it.
pub open spec fn strip_cr(l: Seq<char>) -> Seq<char> {
    if l.len() > 0 && l.last() == '\r' {
        l.drop_last()
    } else {
        l
    }
}

/// Line splitting at `\n`, folded from the left; a final unterminated line
/// counts, a final terminator does not add an empty line.
pub open spec fn lines_from(s: Seq<char>, i: int, cur: Seq<char>, acc: Seq<Seq<char>>) -> Seq<
    Seq<char>,
>
    decreases s.len() - i,
{
    if i < 0 || i >= s.len() {
        if cur.len() > 0 {
            acc.push(cur)
        } else {
            acc
        }
    } else if s[i] == '\n' {
        lines_from(s, i + 1, Seq::empty(), acc.push(strip_cr(cur)))
    } else {
        lines_from(s, i + 1, cur.push(s[i]), acc)
    }
}

/// The lines of a text, as `str::lines` yields them.
pub open spec fn spec_lines(s: Seq<char>) -> Seq<Seq<char>> {
    lines_from(s, 0, Seq::empty(), Seq::empty())
}

/// A character the tree-drawing output of the introspection tool puts in
/// front of object paths.
pub open spec fn tree_marker(c: char) -> bool {
    c == '\u{251c}' || c == '\u{2514}' || c == '\u{2502}' || c == '\u{2500}' || c == ' '
}

/// Exec test for a tree-drawing character.
pub fn is_tree_marker(c: char) -> (r: bool)
    ensures
        r == tree_marker(c),
{
    c == '\u{251c}' || c == '\u{2514}' || c == '\u{2502}' || c == '\u{2500}' || c == ' '
}

/// A line without its leading tree-drawing characters.
pub open spec fn strip_markers(s: Seq<char>) -> Seq<char>
    decreases s.len(),
{
    if s.len() > 0 && tree_marker(s[0]) {
        strip_markers(s.drop_first())
    } else {
        s
    }
}

/// The object path a tree line shows: the line trimmed and freed of the
/// drawing characters.
pub open spec fn line_path(l: Seq<char>) -> Seq<char> {
    strip_markers(trimmed(l))
}

/// The line's path belongs to the device and names a characteristic object.
pub open spec fn spec_keep_path(p: Seq<char>, prefix: Seq<char>) -> bool {
    prefix.len() <= p.len() && match_at(p, prefix, 0) && contains_seq(p, "/char"@)
}

/// The kept paths of the lines from `i` on, in order, after `acc`.
pub open spec fn collect_paths(
    lines: Seq<Seq<char>>,
    i: int,
    prefix: Seq<char>,
    acc: Seq<Seq<char>>,
) -> Seq<Seq<char>>
    decreases lines.len() - i,
{
    if i < 0 || i >= lines.len() {
        acc
    } else {
        let p = line_path(lines[i]);
        collect_paths(
            lines,
            i + 1,
            prefix,
            if spec_keep_path(p, prefix) {
                acc.push(p)
            } else {
                acc
            },
        )
    }
}

/// The characteristic object paths of one device in the introspection tool's
/// tree output.
pub open spec fn spec_battery_char_paths(tree: Seq<char>, prefix: Seq<char>) -> Seq<Seq<char>> {
    collect_paths(spec_lines(tree), 0, prefix, Seq::empty())
}

fn line_to_path<'a>(line: &'a str) -> (r: &'a str)
    ensures
        r@ == line_path(line@),
{
    let t = str_trim(line);
    let n = t.unicode_len();
    proof {
        assert(t@.skip(0) =~= t@);
    }
    let mut k: usize = 0;
    while k < n && is_tree_marker(t.get_char(k))
        invariant
            k <= n,
            n == t@.len(),
            strip_markers(t@) == strip_markers(t@.skip(k as int)),
        decreases n - k,
    {
        proof {
            assert(t@.skip(k as int).drop_first() =~= t@.skip(k as int + 1));
        }
        k = k + 1;
    }
    proof {
        assert(strip_markers(t@.skip(k as int)) == t@.skip(k as int));
        assert(t@.skip(k as int) =~= t@.subrange(k as int, n as int));
    }
    t.substring_char(k, n)
}

/// Pick, from the introspection tool's tree output, the object paths of the
/// given device's characteristic objects, in output order.
pub fn battery_char_paths(tree: &str, dev_prefix: &str) -> (r: Vec<String>)
    ensures
        r.deep_view() == spec_battery_char_paths(tree@, dev_prefix@),
{
    // First the lines, as `str::lines` yields them.
    let n = tree.unicode_len();
    let mut lines: Vec<String> = Vec::new();
    let mut cur = String::new();
    proof {
        assert(lines.deep_view() =~= Seq::<Seq<char>>::empty());
    }
    let mut i: usize = 0;
    while i < n
        invariant
            i <= n,
            n == tree@.len(),
            lines_from(tree@, i as int, cur@, lines.deep_view()) == spec_lines(tree@),
        decreases n - i,
    {
        let c = tree.get_char(i);
        let ghost pre_cur = cur@;
        let ghost pre_lines = lines.deep_view();
        if c == '\n' {
            let cs = cur.as_str();
            let m = cs.unicode_len();
            let line = if m > 0 && cs.get_char(m - 1) == '\r' {
                String::from_str(cs.substring_char(0, m - 1))
            } else {
                String::from_str(cs)
            };
            proof {
                assert(line@ =~= strip_cr(pre_cur));
            }
            lines.push(line);
            cur = String::new();
            proof {
                assert(lines.deep_view() =~= pre_lines.push(strip_cr(pre_cur)));
            }
        } else {
            cur.push(c);
        }
        i = i + 1;
    }
    if !cur.as_str().is_empty() {
        let ghost pre_lines = lines.deep_view();
        let ghost pre_cur = cur@;
        lines.push(cur);
        proof {
            assert(lines.deep_view() =~= pre_lines.push(pre_cur));
        }
    }
    // Then the kept paths.
    let ghost all_lines = lines.deep_view();
    let mut out: Vec<String> = Vec::new();
    proof {
        assert(out.deep_view() =~= Seq::<Seq<char>>::empty());
    }
    let mut k: usize = 0;
    while k < lines.len()
        invariant
            k <= lines.len(),
            all_lines == lines.deep_view(),
            collect_paths(all_lines, k as int, dev_prefix@, out.deep_view())
                == spec_battery_char_paths(tree@, dev_prefix@),
        decreases lines.len() - k,
    {
        let p = line_to_path(lines[k].as_str());
        proof {
            assert(all_lines[k as int] == lines@[k as int]@);
        }
        if str_starts_with(p, dev_prefix) && str_contains(p, "/char") {
            let ghost pre_out = out.deep_view();
            out.push(String::from_str(p));
            proof {
                assert(out.deep_view() =~= pre_out.push(p@));
            }
        }
        k = k + 1;
    }
    out
}

/// What the introspection tool's byte-array output means: a first word `ay`,
/// a count, and the byte value read third.
pub open spec fn spec_parse_busctl_byte_array(s: Seq<char>) -> Option<u8> {
    let parts = split_whitespace_seq(trimmed(s));
    if parts.len() >= 3 && parts[0] == "ay"@ {
        parse_u8_seq(parts[2])
    } else {
        None
    }
}

/// Parse the introspection tool's byte-array output, such as `ay 1 64`
/// giving 64.
pub fn parse_busctl_byte_array(s: &str) -> (r: Option<u8>)
    ensures
        r == spec_parse_busctl_byte_array(s@),
{
    let t = str_trim(s);
    let parts = str_split_whitespace(t);
    if parts.len() >= 3 {
        proof {
            assert(parts.deep_view()[0] == parts@[0]@);
            assert(parts.deep_view()[2] == parts@[2]@);
        }
        if str_eq(parts[0].as_str(), "ay") {
            return parse_u8(parts[2].as_str());
        }
    }
    None
}

/// The value of a name-and-level pair.
pub open spec fn pairs_model(s: Seq<(String, u8)>) -> Seq<(Seq<char>, u8)> {
    s.map_values(|p: (String, u8)| (p.0@, p.1))
}

/// A pair inserted into a name-sorted run, after every pair whose name does
/// not come after it — the stable position.
pub open spec fn insert_by_name(x: (Seq<char>, u8), s: Seq<(Seq<char>, u8)>) -> Seq<
    (Seq<char>, u8),
>
    decreases s.len(),
{
    if s.len() == 0 {
        seq![x]
    } else if seq_le(s[0].0, x.0) {
        seq![s[0]] + insert_by_name(x, s.drop_first())
    } else {
        seq![x] + s
    }
}

/// The pairs sorted by name: a stable insertion sort, so pairs with equal
/// names keep their order.
pub open spec fn sort_by_name(s: Seq<(Seq<char>, u8)>) -> Seq<(Seq<char>, u8)>
    decreases s.len(),
{
    if s.len() == 0 {
        Seq::empty()
    } else {
        insert_by_name(s.last(), sort_by_name(s.drop_last()))
    }
}

proof fn lemma_insert_by_name_at(x: (Seq<char>, u8), s: Seq<(Seq<char>, u8)>, j: int)
    requires
        0 <= j <= s.len(),
        forall|k: int| 0 <= k < j ==> seq_le(s[k].0, x.0),
        j < s.len() ==> !seq_le(s[j].0, x.0),
    ensures
        insert_by_name(x, s) =~= s.take(j) + seq![x] + s.skip(j),
    decreases j,
{
    if j == 0 {
        if s.len() > 0 {
            assert(!seq_le(s[0].0, x.0));
        }
        assert(insert_by_name(x, s) =~= s.take(0) + seq![x] + s.skip(0));
    } else {
        assert(seq_le(s[0].0, x.0));
        lemma_insert_by_name_at(x, s.drop_first(), j - 1);
        assert(s.drop_first().take(j - 1) =~= s.take(j).drop_first());
        assert(s.drop_first().skip(j - 1) =~= s.skip(j));
        assert(insert_by_name(x, s) =~= s.take(j) + seq![x] + s.skip(j));
    }
}

fn insert_pair_sorted(out: &mut Vec<(String, u8)>, name: String, level: u8)
    ensures
        pairs_model(final(out)@) == insert_by_name((name@, level), pairs_model(old(out)@)),
{
    let ghost pre = pairs_model(out@);
    let mut j: usize = 0;
    while j < out.len() && str_le(out[j].0.as_str(), name.as_str())
        invariant
            j <= out.len(),
            out@ == old(out)@,
            pre == pairs_model(out@),
            forall|k: int| 0 <= k < j ==> seq_le(pre[k].0, name@),
        decreases out.len() - j,
    {
        proof {
            assert(pre[j as int].0 == out@[j as int].0@);
        }
        j = j + 1;
    }
    proof {
        if j < out.len() {
            assert(pre[j as int].0 == out@[j as int].0@);
        }
        lemma_insert_by_name_at((name@, level), pre, j as int);
    }
    out.insert(j, (name, level));
    proof {
        assert(pairs_model(out@) =~= pre.take(j as int) + seq![(name@, level)] + pre.skip(
            j as int,
        ));
    }
}

/// The power-supply entries that belong to the device, by lower-cased name:
/// those whose name carries the link address and whose capacity file parses
/// as a byte.
pub open spec fn kept_entries(
    entries: Seq<(Seq<char>, Seq<char>)>,
    mac: Seq<char>,
    i: int,
    acc: Seq<(Seq<char>, u8)>,
) -> Seq<(Seq<char>, u8)>
    decreases entries.len() - i,
{
    if i < 0 || i >= entries.len() {
        acc
    } else {
        let name = lower_seq(entries[i].0);
        let cap = parse_u8_seq(trimmed(entries[i].1));
        kept_entries(
            entries,
            mac,
            i + 1,
            if contains_seq(name, mac) && cap is Some {
                acc.push((name, cap->Some_0))
            } else {
                acc
            },
        )
    }
}

/// The levels of a sorted run, in order.
pub open spec fn levels_of(s: Seq<(Seq<char>, u8)>) -> Seq<u8> {
    s.map_values(|p: (Seq<char>, u8)| p.1)
}

/// What the power-supply registry tier yields for a device: each entry whose
/// lower-cased name carries the link address and whose capacity text parses,
/// sorted by entry name for a deterministic order — the OS names the primary
/// half before the secondary one — and reduced to the levels.
pub open spec fn spec_power_supply_levels(
    entries: Seq<(Seq<char>, Seq<char>)>,
    mac: Seq<char>,
) -> Seq<u8> {
    levels_of(sort_by_name(kept_entries(entries, mac, 0, Seq::empty())))
}

/// Resolve the power-supply registry tier: `entries` holds each entry's name
/// and the text of its capacity file.
pub fn battery_levels_from_power_supply(entries: &Vec<(String, String)>, mac: &str) -> (r: Vec<u8>)
    ensures
        r@ == spec_power_supply_levels(entries.deep_view(), mac@),
{
    let ghost emodel = entries.deep_view();
    let mut kept: Vec<(String, u8)> = Vec::new();
    proof {
        assert(pairs_model(kept@) =~= Seq::<(Seq<char>, u8)>::empty());
    }
    let mut i: usize = 0;
    while i < entries.len()
        invariant
            i <= entries.len(),
            emodel == entries.deep_view(),
            kept_entries(emodel, mac@, i as int, pairs_model(kept@)) == kept_entries(
                emodel,
                mac@,
                0,
                Seq::empty(),
            ),
        decreases entries.len() - i,
    {
        proof {
            assert(emodel[i as int] == (entries@[i as int].0@, entries@[i as int].1@));
        }
        let name_l = str_to_lower(entries[i].0.as_str());
        let ghost pre_kept = pairs_model(kept@);
        if str_contains(name_l.as_str(), mac) {
            match parse_u8(str_trim(entries[i].1.as_str())) {
                Some(level) => {
                    let ghost nm = name_l@;
                    kept.push((name_l, level));
                    proof {
                        assert(pairs_model(kept@) =~= pre_kept.push((nm, level)));
                    }
                },
                None => {},
            }
        }
        i = i + 1;
    }
    // Sort by name, then keep the levels.
    let ghost kmodel = pairs_model(kept@);
    let mut sorted: Vec<(String, u8)> = Vec::new();
    proof {
        assert(pairs_model(sorted@) =~= Seq::<(Seq<char>, u8)>::empty());
        assert(kmodel.take(0) =~= Seq::<(Seq<char>, u8)>::empty());
        assert(sort_by_name(kmodel.take(0)) =~= Seq::<(Seq<char>, u8)>::empty());
    }
    let mut k: usize = 0;
    while k < kept.len()
        invariant
            k <= kept.len(),
            kmodel == pairs_model(kept@),
            pairs_model(sorted@) == sort_by_name(kmodel.take(k as int)),
        decreases kept.len() - k,
    {
        proof {
            assert(kmodel[k as int] == (kept@[k as int].0@, kept@[k as int].1@));
        }
        let name = kept[k].0.clone();
        let level = kept[k].1;
        insert_pair_sorted(&mut sorted, name, level);
        proof {
            assert(kmodel.take(k as int + 1).drop_last() =~= kmodel.take(k as int));
            assert(kmodel.take(k as int + 1).last() == kmodel[k as int]);
        }
        k = k + 1;
    }
    proof {
        assert(kmodel.take(kept@.len() as int) =~= kmodel);
    }
    let mut levels: Vec<u8> = Vec::new();
    proof {
        assert(levels@ =~= levels_of(pairs_model(sorted@)).take(0));
    }
    let mut t: usize = 0;
    while t < sorted.len()
        invariant
            t <= sorted.len(),
            pairs_model(sorted@) == sort_by_name(kmodel),
            kmodel == kept_entries(emodel, mac@, 0, Seq::empty()),
            emodel == entries.deep_view(),
            levels@ == levels_of(pairs_model(sorted@)).take(t as int),
        decreases sorted.len() - t,
    {
        levels.push(sorted[t].1);
        proof {
            assert(levels_of(pairs_model(sorted@)).take(t as int + 1) =~= levels_of(
                pairs_model(sorted@),
            ).take(t as int).push(pairs_model(sorted@)[t as int].1));
            assert(pairs_model(sorted@)[t as int].1 == sorted@[t as int].1);
        }
        t = t + 1;
    }
    proof {
        assert(levels_of(pairs_model(sorted@)).take(sorted@.len() as int) =~= levels_of(
            pairs_model(sorted@),
        ));
    }
    levels
}

/// Left/right levels from per-characteristic readings: sorted by object path
/// — the primary half's path precedes the secondary's — the first reading is
/// the left half, the second the right.
pub fn battery_levels_from_readings(readings: Vec<(String, u8)>) -> (r: BatteryLevels)
    ensures
        ({
            let sorted = sort_by_name(pairs_model(readings@));
            &&& r.left == (if sorted.len() > 0 {
                Some(sorted[0].1)
            } else {
                None::<u8>
            })
            &&& r.right == (if sorted.len() > 1 {
                Some(sorted[1].1)
            } else {
                None::<u8>
            })
        }),
{
    let ghost rmodel = pairs_model(readings@);
    let mut sorted: Vec<(String, u8)> = Vec::new();
    proof {
        assert(pairs_model(sorted@) =~= Seq::<(Seq<char>, u8)>::empty());
        assert(rmodel.take(0) =~= Seq::<(Seq<char>, u8)>::empty());
        assert(sort_by_name(rmodel.take(0)) =~= Seq::<(Seq<char>, u8)>::empty());
    }
    let mut k: usize = 0;
    while k < readings.len()
        invariant
            k <= readings.len(),
            rmodel == pairs_model(readings@),
            pairs_model(sorted@) == sort_by_name(rmodel.take(k as int)),
        decreases readings.len() - k,
    {
        proof {
            assert(rmodel[k as int] == (readings@[k as int].0@, readings@[k as int].1@));
        }
        let name = readings[k].0.clone();
        let level = readings[k].1;
        insert_pair_sorted(&mut sorted, name, level);
        proof {
            assert(rmodel.take(k as int + 1).drop_last() =~= rmodel.take(k as int));
            assert(rmodel.take(k as int + 1).last() == rmodel[k as int]);
        }
        k = k + 1;
    }
    proof {
        assert(rmodel.take(readings@.len() as int) =~= rmodel);
    }
    let left = if sorted.len() > 0 {
        proof {
            assert(pairs_model(sorted@)[0].1 == sorted@[0].1);
        }
        Some(sorted[0].1)
    } else {
        None
    };
    let right = if sorted.len() > 1 {
        proof {
            assert(pairs_model(sorted@)[1].1 == sorted@[1].1);
        }
        Some(sorted[1].1)
    } else {
        None
    };
    BatteryLevels { left, right }
}

/// The levels the fallback chain settles on: the power-supply registry where
/// the address is known and the registry had entries; else the Bluetooth
/// daemon's per-object reads where the address is known and they found
/// something; else the plain GATT reads.
pub open spec fn spec_battery_resolution(
    mac_known: bool,
    power_supply: Seq<u8>,
    bus_reads: Seq<u8>,
    gatt_reads: Seq<u8>,
) -> Seq<u8> {
    if mac_known && power_supply.len() > 0 {
        power_supply
    } else if mac_known && bus_reads.len() > 0 {
        bus_reads
    } else {
        gatt_reads
    }
}

/// The battery read policy of a transport. Over the serial link battery is
/// not observable and the call always fails with the BLE-only error. Over BLE
/// the first non-empty tier's levels win; when every tier came back empty the
/// result is the empty list, which callers may read as "no battery
/// information".
pub fn battery_outcome(
    kind: TransportKind,
    mac_known: bool,
    power_supply: Vec<u8>,
    bus_reads: Vec<u8>,
    gatt_reads: Vec<u8>,
) -> (r: Result<Vec<u8>, String>)
    ensures
        kind == TransportKind::Usb ==> (r matches Err(e) && e@
            == "Battery monitoring requires BLE connection"@),
        kind == TransportKind::Ble ==> (r matches Ok(levels) && levels@
            == spec_battery_resolution(mac_known, power_supply@, bus_reads@, gatt_reads@)),
{
    match kind {
        TransportKind::Usb => Err(String::from_str("Battery monitoring requires BLE connection")),
        TransportKind::Ble => {
            if mac_known && power_supply.len() > 0 {
                Ok(power_supply)
            } else if mac_known && bus_reads.len() > 0 {
                Ok(bus_reads)
            } else {
                Ok(gatt_reads)
            }
        },
    }
}

/// A managed object is the keyboard itself: the device interface, under the
/// device's advertised name.
pub fn is_target_device(iface: &str, name: &str) -> (r: bool)
    ensures
        r == (iface@ == "org.bluez.Device1"@ && name@ == "TOTEM"@),
{
    str_eq(iface, "org.bluez.Device1") && str_eq(name, "TOTEM")
}

/// A managed object is a Battery Level characteristic of the device at the
/// given object path.
pub fn is_battery_char(path: &str, device_path: &str, iface: &str, uuid: &str) -> (r: bool)
    ensures
        r == (device_path@.len() <= path@.len() && match_at(path@, device_path@, 0) && iface@
            == "org.bluez.GattCharacteristic1"@ && uuid@
            == "00002a19-0000-1000-8000-00805f9b34fb"@),
{
    str_starts_with(path, device_path) && str_eq(iface, "org.bluez.GattCharacteristic1") && str_eq(
        uuid,
        "00002a19-0000-1000-8000-00805f9b34fb",
    )
}

} // verus!
