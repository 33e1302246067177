//! The data model of a keymap file — layers, bindings, combos, behaviors,
//! mouse tuning — and the parsing of single binding strings such as
//! `&kp B` or `&hml LS(LC(LA(LGUI))) W`.

use vstd::prelude::*;

verus! {

use crate::text::{
    parse_u8,
    parse_u8_seq,
    split_whitespace_seq,
    str_eq,
    str_split_whitespace,
    str_trim,
    trimmed,
};
use vstd::string::{StrSliceExecFns, StringExecFns};

/// A whole keymap file.
#[derive(Debug, Clone, PartialEq)]
pub struct Keymap {
    pub layers: Vec<Layer>,
    pub combos: Vec<Combo>,
    pub behaviors: Vec<Behavior>,
    pub mouse_config: MouseConfig,
}

/// Mouse movement and scroll tuning.
#[derive(Debug, Clone, PartialEq)]
pub struct MouseConfig {
    pub move_speed: u32,
    pub scroll_speed: u32,
    pub move_time_to_max_ms: u32,
    pub move_accel_exponent: u32,
    pub scroll_time_to_max_ms: u32,
    pub scroll_accel_exponent: u32,
}

impl Default for MouseConfig {
    /// The firmware's default pointing parameters.
    fn default() -> (r: MouseConfig)
        ensures
            r.move_speed == 1500,
            r.scroll_speed == 20,
            r.move_time_to_max_ms == 300,
            r.move_accel_exponent == 1,
            r.scroll_time_to_max_ms == 300,
            r.scroll_accel_exponent == 0,
    {
        MouseConfig {
            move_speed: 1500,
            scroll_speed: 20,
            move_time_to_max_ms: 300,
            move_accel_exponent: 1,
            scroll_time_to_max_ms: 300,
            scroll_accel_exponent: 0,
        }
    }
}

/// One layer of the keymap: its display name, position, and bindings.
#[derive(Debug, Clone, PartialEq)]
pub struct Layer {
    pub name: String,
    pub index: usize,
    pub bindings: Vec<Binding>,
}

/// One key binding: an action name and its parameters.
#[derive(Debug, Clone, PartialEq)]
pub struct Binding {
    pub action: String,
    pub params: Vec<String>,
}

/// The abstract value of a binding.
#[verifier::ext_equal]
pub struct BindingModel {
    pub action: Seq<char>,
    pub params: Seq<Seq<char>>,
}

impl View for Binding {
    type V = BindingModel;

    open spec fn view(&self) -> BindingModel {
        BindingModel { action: self.action@, params: self.params.deep_view() }
    }
}

/// A combo: keys pressed together producing one binding.
#[derive(Debug, Clone, PartialEq)]
pub struct Combo {
    pub name: String,
    pub positions: Vec<u8>,
    pub binding: Binding,
    pub timeout_ms: u32,
    pub layers: Vec<usize>,
}

/// A behavior node of the keymap file.
#[derive(Debug, Clone, PartialEq)]
pub enum Behavior {
    HoldTap {
        name: String,
        label: String,
        flavor: String,
        tapping_term_ms: u32,
        quick_tap_ms: u32,
        require_prior_idle_ms: Option<u32>,
        hold_trigger_key_positions: Option<Vec<u8>>,
        hold_trigger_on_release: bool,
        hold_bindings: String,
        tap_bindings: String,
    },
    ModMorph { name: String, label: String, normal: Binding, shifted: Binding, mods: String },
    Macro { name: String, label: String, wait_ms: u32, tap_ms: u32, bindings: Vec<Binding> },
}

/// Binding tokenization, folded from the left: split at blanks, but only
/// outside parentheses; `depth` counts open parentheses.
pub open spec fn tokenize_from(
    s: Seq<char>,
    i: int,
    cur: Seq<char>,
    depth: int,
    acc: Seq<Seq<char>>,
) -> Seq<Seq<char>>
    decreases s.len() - i,
{
    if i < 0 || i >= s.len() {
        if cur.len() > 0 {
            acc.push(cur)
        } else {
            acc
        }
    } else {
        let c = s[i];
        if c == '(' {
            tokenize_from(s, i + 1, cur.push(c), depth + 1, acc)
        } else if c == ')' {
            tokenize_from(s, i + 1, cur.push(c), depth - 1, acc)
        } else if (c == ' ' || c == '\t') && depth == 0 {
            tokenize_from(
                s,
                i + 1,
                Seq::empty(),
                0,
                if cur.len() > 0 {
                    acc.push(cur)
                } else {
                    acc
                },
            )
        } else {
            tokenize_from(s, i + 1, cur.push(c), depth, acc)
        }
    }
}

/// The tokens of a binding body.
pub open spec fn tokenize_binding_seq(s: Seq<char>) -> Seq<Seq<char>> {
    tokenize_from(s, 0, Seq::empty(), 0, Seq::empty())
}

/// Tokenize a binding string, splitting at blanks while respecting nested
/// parentheses.
pub fn tokenize_binding(s: &str) -> (r: Vec<String>)
    ensures
        r.deep_view() == tokenize_binding_seq(s@),
{
    let n = s.unicode_len();
    let mut out: Vec<String> = Vec::new();
    let mut cur = String::new();
    let mut depth: i128 = 0;
    proof {
        assert(out.deep_view() =~= Seq::<Seq<char>>::empty());
    }
    let mut i: usize = 0;
    while i < n
        invariant
            i <= n,
            n == s@.len(),
            -(i as int) <= depth <= i as int,
            tokenize_from(s@, i as int, cur@, depth as int, out.deep_view())
                == tokenize_binding_seq(s@),
        decreases n - i,
    {
        let c = s.get_char(i);
        let ghost pre_cur = cur@;
        let ghost pre_out = out.deep_view();
        if c == '(' {
            depth = depth + 1;
            cur.push(c);
        } else if c == ')' {
            depth = depth - 1;
            cur.push(c);
        } else if (c == ' ' || c == '\t') && depth == 0 {
            if !cur.as_str().is_empty() {
                let mut done = String::new();
                core::mem::swap(&mut done, &mut cur);
                out.push(done);
                proof {
                    assert(out.deep_view() =~= pre_out.push(pre_cur));
                }
            } else {
                proof {
                    assert(cur@ =~= Seq::<char>::empty());
                }
            }
        } else {
            cur.push(c);
        }
        i = i + 1;
    }
    if !cur.as_str().is_empty() {
        let ghost pre_out = out.deep_view();
        let ghost pre_cur = cur@;
        out.push(cur);
        proof {
            assert(out.deep_view() =~= pre_out.push(pre_cur));
        }
    }
    out
}

/// The value of a name-to-positions table of key groups.
pub open spec fn key_groups_model(s: Seq<(String, Vec<u8>)>) -> Seq<(Seq<char>, Seq<u8>)> {
    s.map_values(|p: (String, Vec<u8>)| (p.0@, p.1@))
}

/// The first group under the given name, scanning from `i`.
pub open spec fn spec_lookup_group(
    groups: Seq<(Seq<char>, Seq<u8>)>,
    key: Seq<char>,
    i: int,
) -> Option<Seq<u8>>
    decreases groups.len() - i,
{
    if i < 0 || i >= groups.len() {
        None
    } else if groups[i].0 == key {
        Some(groups[i].1)
    } else {
        spec_lookup_group(groups, key, i + 1)
    }
}

/// The positions of a `hold-trigger-key-positions` value, token by token: a
/// known group name contributes its positions, a number contributes itself,
/// anything else contributes nothing.
pub open spec fn expand_from(
    tokens: Seq<Seq<char>>,
    groups: Seq<(Seq<char>, Seq<u8>)>,
    i: int,
    acc: Seq<u8>,
) -> Seq<u8>
    decreases tokens.len() - i,
{
    if i < 0 || i >= tokens.len() {
        acc
    } else {
        let next = match spec_lookup_group(groups, tokens[i], 0) {
            Some(g) => acc + g,
            None => match parse_u8_seq(tokens[i]) {
                Some(v) => acc.push(v),
                None => acc,
            },
        };
        expand_from(tokens, groups, i + 1, next)
    }
}

/// What expanding a key-position value yields under the file's group defines.
pub open spec fn spec_expand_key_positions(
    raw: Seq<char>,
    groups: Seq<(Seq<char>, Seq<u8>)>,
) -> Seq<u8> {
    expand_from(split_whitespace_seq(raw), groups, 0, Seq::empty())
}

fn lookup_group<'a>(groups: &'a Vec<(String, Vec<u8>)>, key: &str) -> (r: Option<&'a Vec<u8>>)
    ensures
        (match r {
            Some(g) => spec_lookup_group(key_groups_model(groups@), key@, 0) == Some(g@),
            None => spec_lookup_group(key_groups_model(groups@), key@, 0) is None,
        }),
{
    let ghost model = key_groups_model(groups@);
    let mut i: usize = 0;
    while i < groups.len()
        invariant
            i <= groups@.len(),
            model == key_groups_model(groups@),
            spec_lookup_group(model, key@, 0) == spec_lookup_group(model, key@, i as int),
        decreases groups@.len() - i,
    {
        proof {
            assert(model[i as int] == (groups@[i as int].0@, groups@[i as int].1@));
        }
        if str_eq(groups[i].0.as_str(), key) {
            return Some(&groups[i].1);
        }
        i = i + 1;
    }
    None
}

/// Expand a `hold-trigger-key-positions` value, replacing each known group
/// name by its positions and keeping plain numbers.
pub fn expand_key_positions(raw: &str, key_groups: &Vec<(String, Vec<u8>)>) -> (r: Vec<u8>)
    ensures
        r@ == spec_expand_key_positions(raw@, key_groups_model(key_groups@)),
{
    let ghost gmodel = key_groups_model(key_groups@);
    let tokens = str_split_whitespace(raw);
    let ghost tmodel = tokens.deep_view();
    let mut positions: Vec<u8> = Vec::new();
    proof {
        assert(positions@ =~= Seq::<u8>::empty());
    }
    let mut i: usize = 0;
    while i < tokens.len()
        invariant
            i <= tokens@.len(),
            gmodel == key_groups_model(key_groups@),
            tmodel == tokens.deep_view(),
            tmodel.len() == tokens@.len(),
            expand_from(tmodel, gmodel, i as int, positions@) == expand_from(
                tmodel,
                gmodel,
                0,
                Seq::empty(),
            ),
        decreases tokens@.len() - i,
    {
        proof {
            assert(tmodel[i as int] == tokens@[i as int]@);
        }
        match lookup_group(key_groups, tokens[i].as_str()) {
            Some(group) => {
                let ghost pre = positions@;
                let m = group.len();
                let mut k: usize = 0;
                while k < m
                    invariant
                        k <= m,
                        m == group@.len(),
                        positions@ == pre + group@.take(k as int),
                    decreases m - k,
                {
                    positions.push(group[k]);
                    proof {
                        assert(pre + group@.take(k as int + 1) =~= (pre + group@.take(
                            k as int,
                        )).push(group@[k as int]));
                    }
                    k = k + 1;
                }
                proof {
                    assert(group@.take(m as int) =~= group@);
                }
            },
            None => {
                match parse_u8(tokens[i].as_str()) {
                    Some(v) => {
                        positions.push(v);
                    },
                    None => {},
                }
            },
        }
        i = i + 1;
    }
    positions
}

/// What parsing one binding string yields: the binding's value, or the exact
/// error text.
pub open spec fn spec_parse_binding(s: Seq<char>) -> Result<BindingModel, Seq<char>> {
    let t = trimmed(s);
    if !(t.len() > 0 && t[0] == '&') {
        Err("Binding doesn't start with &: '"@ + t + "'"@)
    } else {
        let toks = tokenize_binding_seq(t.drop_first());
        if toks.len() == 0 {
            Err("Empty binding"@)
        } else {
            Ok(BindingModel { action: toks[0], params: toks.skip(1) })
        }
    }
}

/// Parse a single binding string such as `&kp B`, `&trans`, or
/// `&hml LS(LC(LA(LGUI))) W`.
pub fn parse_binding(s: &str) -> (r: Result<Binding, String>)
    ensures
        (match r {
            Ok(b) => spec_parse_binding(s@) == Ok::<BindingModel, Seq<char>>(b@),
            Err(e) => spec_parse_binding(s@) == Err::<BindingModel, Seq<char>>(e@),
        }),
{
    let t = str_trim(s);
    let n = t.unicode_len();
    if n == 0 || t.get_char(0) != '&' {
        let mut e = String::from_str("Binding doesn't start with &: '");
        e.append(t);
        e.append("'");
        return Err(e);
    }
    let body = t.substring_char(1, n);
    proof {
        assert(body@ =~= trimmed(s@).drop_first());
    }
    let mut tokens = tokenize_binding(body);
    if tokens.len() == 0 {
        return Err(String::from_str("Empty binding"));
    }
    let ghost toks = tokens.deep_view();
    let action = tokens.remove(0);
    let params = tokens;
    proof {
        assert(action@ == toks[0]);
        assert(params.deep_view() =~= toks.skip(1));
    }
    Ok(Binding { action, params })
}

/// The result of flushing one accumulated segment of a bindings list: blank
/// segments are skipped, anything else is parsed with `&` put back in front.
pub open spec fn spec_flush_segment(cur: Seq<char>, acc: Seq<BindingModel>) -> Result<
    Seq<BindingModel>,
    Seq<char>,
> {
    let t = trimmed(cur);
    if t.len() == 0 {
        Ok(acc)
    } else {
        match spec_parse_binding("&"@ + t) {
            Ok(b) => Ok(acc.push(b)),
            Err(e) => Err(e),
        }
    }
}

/// Parsing a whole `bindings = < ... >` body, folded from the left: a `&` at
/// parenthesis depth zero starts a new binding, line breaks count as blanks.
pub open spec fn bindings_from(
    s: Seq<char>,
    i: int,
    cur: Seq<char>,
    depth: int,
    acc: Seq<BindingModel>,
) -> Result<Seq<BindingModel>, Seq<char>>
    decreases s.len() - i,
{
    if i < 0 || i >= s.len() {
        spec_flush_segment(cur, acc)
    } else {
        let c = s[i];
        if c == '&' && depth == 0 {
            match spec_flush_segment(cur, acc) {
                Ok(acc2) => bindings_from(s, i + 1, Seq::empty(), depth, acc2),
                Err(e) => Err(e),
            }
        } else if c == '(' {
            bindings_from(s, i + 1, cur.push(c), depth + 1, acc)
        } else if c == ')' {
            bindings_from(s, i + 1, cur.push(c), depth - 1, acc)
        } else if c == '\n' || c == '\r' {
            bindings_from(s, i + 1, cur.push(' '), depth, acc)
        } else {
            bindings_from(s, i + 1, cur.push(c), depth, acc)
        }
    }
}

/// What parsing a bindings list yields.
pub open spec fn spec_parse_bindings_list(s: Seq<char>) -> Result<Seq<BindingModel>, Seq<char>> {
    bindings_from(s, 0, Seq::empty(), 0, Seq::empty())
}

/// The models of a vector of bindings.
pub open spec fn bindings_model(v: Seq<Binding>) -> Seq<BindingModel> {
    v.map_values(|b: Binding| b@)
}

fn flush_segment(cur: &str, out: &mut Vec<Binding>) -> (r: Result<(), String>)
    ensures
        (match r {
            Ok(_) => spec_flush_segment(cur@, bindings_model(old(out)@)) == Ok::<
                Seq<BindingModel>,
                Seq<char>,
            >(bindings_model(final(out)@)),
            Err(e) => spec_flush_segment(cur@, bindings_model(old(out)@)) == Err::<
                Seq<BindingModel>,
                Seq<char>,
            >(e@) && final(out)@ == old(out)@,
        }),
{
    let t = str_trim(cur);
    if t.unicode_len() == 0 {
        return Ok(());
    }
    let mut framed = String::from_str("&");
    framed.append(t);
    match parse_binding(framed.as_str()) {
        Ok(b) => {
            let ghost pre = bindings_model(out@);
            let ghost bm = b@;
            out.push(b);
            proof {
                assert(bindings_model(out@) =~= pre.push(bm));
            }
            Ok(())
        },
        Err(e) => Err(e),
    }
}

/// Parse the content between the angle brackets of a `bindings = < ... >;`
/// property into its bindings, in order.
pub fn parse_bindings_list(s: &str) -> (r: Result<Vec<Binding>, String>)
    ensures
        (match r {
            Ok(bs) => spec_parse_bindings_list(s@) == Ok::<Seq<BindingModel>, Seq<char>>(
                bindings_model(bs@),
            ),
            Err(e) => spec_parse_bindings_list(s@) == Err::<Seq<BindingModel>, Seq<char>>(e@),
        }),
{
    let n = s.unicode_len();
    let mut out: Vec<Binding> = Vec::new();
    let mut cur = String::new();
    let mut depth: i128 = 0;
    proof {
        assert(bindings_model(out@) =~= Seq::<BindingModel>::empty());
    }
    let mut i: usize = 0;
    while i < n
        invariant
            i <= n,
            n == s@.len(),
            -(i as int) <= depth <= i as int,
            bindings_from(s@, i as int, cur@, depth as int, bindings_model(out@))
                == spec_parse_bindings_list(s@),
        decreases n - i,
    {
        let c = s.get_char(i);
        let ghost pre_cur = cur@;
        if c == '&' && depth == 0 {
            match flush_segment(cur.as_str(), &mut out) {
                Ok(_) => {},
                Err(e) => {
                    return Err(e);
                },
            }
            cur = String::new();
        } else if c == '(' {
            depth = depth + 1;
            cur.push(c);
        } else if c == ')' {
            depth = depth - 1;
            cur.push(c);
        } else if c == '\n' || c == '\r' {
            cur.push(' ');
        } else {
            cur.push(c);
        }
        i = i + 1;
    }
    match flush_segment(cur.as_str(), &mut out) {
        Ok(_) => Ok(out),
        Err(e) => Err(e),
    }
}

} // verus!
