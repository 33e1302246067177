//! Translation between the text form of bindings and the numeric form the
//! device's live keymap uses: behavior names against the display names the
//! firmware reports, parameter domains, and the resolution of a binding in
//! both directions.

use vstd::prelude::*;

verus! {

broadcast use vstd::string::group_string_axioms;

use crate::hid_usage::{
    hid_to_keycode_with_modifiers,
    parse_keycode_with_modifiers,
    spec_hid_text,
    spec_parse_with_mods,
};
use crate::text::{
    lower_seq,
    match_at,
    parse_u32,
    parse_u32_seq,
    spec_i32_decimal,
    spec_u32_decimal,
    str_eq,
    str_starts_with,
    str_to_lower,
    i32_to_decimal,
    u32_to_decimal,
};
use vstd::string::{StrSliceExecFns, StringExecFns};

/// What a behavior parameter slot means.
#[derive(Debug, Clone, Copy, PartialEq, Eq, Structural)]
pub enum ParamDomain {
    /// The slot is unused.
    Unused,
    /// The slot holds a HID usage code.
    HidUsage,
    /// The slot holds a layer index.
    Layer,
}

/// One value-type tag of a behavior parameter description, as the device's
/// metadata reports it.
#[derive(Debug, Clone, Copy, PartialEq, Eq, Structural)]
pub enum ParamValueKind {
    HidUsage,
    LayerId,
    Nil,
    Other,
}

/// What the device's behavior metadata knows of one behavior: its display
/// name and the domains of its two parameter slots.
#[derive(Debug, Clone, PartialEq)]
pub struct BehaviorMeta {
    pub display_name: String,
    pub param1: ParamDomain,
    pub param2: ParamDomain,
}

/// The value of a behavior metadata record.
#[verifier::ext_equal]
pub struct BehaviorMetaModel {
    pub display_name: Seq<char>,
    pub param1: ParamDomain,
    pub param2: ParamDomain,
}

impl View for BehaviorMeta {
    type V = BehaviorMetaModel;

    open spec fn view(&self) -> BehaviorMetaModel {
        BehaviorMetaModel {
            display_name: self.display_name@,
            param1: self.param1,
            param2: self.param2,
        }
    }
}

/// A text-form binding resolved from the numeric form.
#[derive(Debug, Clone, PartialEq)]
pub struct ResolvedBinding {
    pub action: String,
    pub params: Vec<String>,
}

/// The domain the first recognised tag of a parameter description decides.
pub open spec fn spec_param_domain_from(descs: Seq<ParamValueKind>, i: int) -> ParamDomain
    decreases descs.len() - i,
{
    if i < 0 || i >= descs.len() {
        ParamDomain::Unused
    } else {
        match descs[i] {
            ParamValueKind::HidUsage => ParamDomain::HidUsage,
            ParamValueKind::LayerId => ParamDomain::Layer,
            ParamValueKind::Nil => ParamDomain::Unused,
            ParamValueKind::Other => spec_param_domain_from(descs, i + 1),
        }
    }
}

/// The domain of one parameter slot, read from its value descriptions: the
/// first recognised tag decides, and none recognised means unused.
pub fn extract_param_domain(descs: &Vec<ParamValueKind>) -> (r: ParamDomain)
    ensures
        r == spec_param_domain_from(descs@, 0),
{
    let mut i: usize = 0;
    while i < descs.len()
        invariant
            i <= descs@.len(),
            spec_param_domain_from(descs@, 0) == spec_param_domain_from(descs@, i as int),
        decreases descs@.len() - i,
    {
        match descs[i] {
            ParamValueKind::HidUsage => {
                return ParamDomain::HidUsage;
            },
            ParamValueKind::LayerId => {
                return ParamDomain::Layer;
            },
            ParamValueKind::Nil => {
                return ParamDomain::Unused;
            },
            ParamValueKind::Other => {},
        }
        i = i + 1;
    }
    ParamDomain::Unused
}

/// The text of one parameter value under its domain: nothing for an unused
/// slot, the decimal index for a layer, the keycode text for a HID usage.
pub open spec fn spec_format_param(value: u32, domain: ParamDomain) -> Seq<char> {
    match domain {
        ParamDomain::Unused => Seq::empty(),
        ParamDomain::Layer => spec_u32_decimal(value),
        ParamDomain::HidUsage => spec_hid_text(value),
    }
}

/// Render one parameter value under its domain.
pub fn format_param(value: u32, domain: ParamDomain) -> (r: String)
    ensures
        r@ == spec_format_param(value, domain),
{
    match domain {
        ParamDomain::Unused => {
            let s = String::new();
            s
        },
        ParamDomain::Layer => u32_to_decimal(value),
        ParamDomain::HidUsage => hid_to_keycode_with_modifiers(value),
    }
}

/// The value of a name-to-id table.
pub open spec fn behavior_map_model(s: Seq<(String, i32)>) -> Seq<(Seq<char>, i32)> {
    s.map_values(|p: (String, i32)| (p.0@, p.1))
}

/// The first id under the given key, scanning from `i`.
pub open spec fn spec_lookup_behavior(map: Seq<(Seq<char>, i32)>, key: Seq<char>, i: int) -> Option<
    i32,
>
    decreases map.len() - i,
{
    if i < 0 || i >= map.len() {
        None
    } else if map[i].0 == key {
        Some(map[i].1)
    } else {
        spec_lookup_behavior(map, key, i + 1)
    }
}

/// Look a behavior id up by name in the discovered name-to-id table.
pub fn lookup_behavior(map: &Vec<(String, i32)>, key: &str) -> (r: Option<i32>)
    ensures
        r == spec_lookup_behavior(behavior_map_model(map@), key@, 0),
{
    let ghost model = behavior_map_model(map@);
    let mut i: usize = 0;
    while i < map.len()
        invariant
            i <= map@.len(),
            model == behavior_map_model(map@),
            spec_lookup_behavior(model, key@, 0) == spec_lookup_behavior(model, key@, i as int),
        decreases map@.len() - i,
    {
        proof {
            assert(model[i as int] == (map@[i as int].0@, map@[i as int].1));
        }
        if str_eq(map[i].0.as_str(), key) {
            return Some(map[i].1);
        }
        i = i + 1;
    }
    None
}

/// The value of an id-to-metadata table.
pub open spec fn metas_model(s: Seq<(i32, BehaviorMeta)>) -> Seq<(i32, BehaviorMetaModel)> {
    s.map_values(|p: (i32, BehaviorMeta)| (p.0, p.1@))
}

/// The first metadata under the given id, scanning from `i`.
pub open spec fn spec_lookup_meta(
    map: Seq<(i32, BehaviorMetaModel)>,
    id: i32,
    i: int,
) -> Option<BehaviorMetaModel>
    decreases map.len() - i,
{
    if i < 0 || i >= map.len() {
        None
    } else if map[i].0 == id {
        Some(map[i].1)
    } else {
        spec_lookup_meta(map, id, i + 1)
    }
}

fn lookup_meta<'a>(map: &'a Vec<(i32, BehaviorMeta)>, id: i32) -> (r: Option<&'a BehaviorMeta>)
    ensures
        (match r {
            Some(m) => spec_lookup_meta(metas_model(map@), id, 0) == Some(m@),
            None => spec_lookup_meta(metas_model(map@), id, 0) is None,
        }),
{
    let ghost model = metas_model(map@);
    let mut i: usize = 0;
    while i < map.len()
        invariant
            i <= map@.len(),
            model == metas_model(map@),
            spec_lookup_meta(model, id, 0) == spec_lookup_meta(model, id, i as int),
        decreases map@.len() - i,
    {
        proof {
            assert(model[i as int] == (map@[i as int].0, map@[i as int].1@));
        }
        if map[i].0 == id {
            return Some(&map[i].1);
        }
        i = i + 1;
    }
    None
}

/// The display name the firmware reports for a binding action's behavior.
pub open spec fn spec_action_to_display_name(s: Seq<char>) -> Option<Seq<char>> {
    if s == "kp"@ {
        Some("key press"@)
    } else if s == "mt"@ {
        Some("mod-tap"@)
    } else if s == "lt"@ {
        Some("layer-tap"@)
    } else if s == "mo"@ {
        Some("momentary layer"@)
    } else if s == "to"@ {
        Some("to layer"@)
    } else if s == "tog"@ {
        Some("toggle layer"@)
    } else if s == "sl"@ {
        Some("sticky layer"@)
    } else if s == "sk"@ {
        Some("sticky key"@)
    } else if s == "kt"@ {
        Some("key toggle"@)
    } else if s == "none"@ {
        Some("none"@)
    } else if s == "trans"@ {
        Some("transparent"@)
    } else if s == "gresc"@ {
        Some("grave escape"@)
    } else if s == "caps_word"@ {
        Some("caps word"@)
    } else if s == "key_repeat"@ {
        Some("key repeat"@)
    } else if s == "mkp"@ {
        Some("mouse key press"@)
    } else if s == "mmv"@ {
        Some("mouse_move"@)
    } else if s == "msc"@ {
        Some("mouse_scroll"@)
    } else if s == "bt"@ {
        Some("bluetooth"@)
    } else if s == "out"@ {
        Some("output selection"@)
    } else if s == "soft_off"@ {
        Some("soft off"@)
    } else if s == "bootloader"@ {
        Some("bootloader"@)
    } else if s == "sys_reset"@ {
        Some("reset"@)
    } else if s == "ext_power"@ {
        Some("external power"@)
    } else if s == "studio_unlock"@ {
        Some("studio unlock"@)
    } else if s == "hml"@ {
        Some("home_row_mod_left"@)
    } else if s == "hmr"@ {
        Some("home_row_mod_right"@)
    } else if s == "lt_th"@ {
        Some("layer_tap_thumb"@)
    } else if s == "comma_morph"@ {
        Some("comma_semicolon"@)
    } else if s == "dot_morph"@ {
        Some("dot_colon"@)
    } else if s == "fat_arrow"@ {
        Some("fat_arrow"@)
    } else {
        None
    }
}

/// Exec form of the table.
pub fn action_to_display_name(s: &str) -> (r: Option<&'static str>)
    ensures
        (match r {
            Some(n) => spec_action_to_display_name(s@) == Some(n@),
            None => spec_action_to_display_name(s@) is None,
        }),
{
    if str_eq(s, "kp") {
        Some("key press")
    } else if str_eq(s, "mt") {
        Some("mod-tap")
    } else if str_eq(s, "lt") {
        Some("layer-tap")
    } else if str_eq(s, "mo") {
        Some("momentary layer")
    } else if str_eq(s, "to") {
        Some("to layer")
    } else if str_eq(s, "tog") {
        Some("toggle layer")
    } else if str_eq(s, "sl") {
        Some("sticky layer")
    } else if str_eq(s, "sk") {
        Some("sticky key")
    } else if str_eq(s, "kt") {
        Some("key toggle")
    } else if str_eq(s, "none") {
        Some("none")
    } else if str_eq(s, "trans") {
        Some("transparent")
    } else if str_eq(s, "gresc") {
        Some("grave escape")
    } else if str_eq(s, "caps_word") {
        Some("caps word")
    } else if str_eq(s, "key_repeat") {
        Some("key repeat")
    } else if str_eq(s, "mkp") {
        Some("mouse key press")
    } else if str_eq(s, "mmv") {
        Some("mouse_move")
    } else if str_eq(s, "msc") {
        Some("mouse_scroll")
    } else if str_eq(s, "bt") {
        Some("bluetooth")
    } else if str_eq(s, "out") {
        Some("output selection")
    } else if str_eq(s, "soft_off") {
        Some("soft off")
    } else if str_eq(s, "bootloader") {
        Some("bootloader")
    } else if str_eq(s, "sys_reset") {
        Some("reset")
    } else if str_eq(s, "ext_power") {
        Some("external power")
    } else if str_eq(s, "studio_unlock") {
        Some("studio unlock")
    } else if str_eq(s, "hml") {
        Some("home_row_mod_left")
    } else if str_eq(s, "hmr") {
        Some("home_row_mod_right")
    } else if str_eq(s, "lt_th") {
        Some("layer_tap_thumb")
    } else if str_eq(s, "comma_morph") {
        Some("comma_semicolon")
    } else if str_eq(s, "dot_morph") {
        Some("dot_colon")
    } else if str_eq(s, "fat_arrow") {
        Some("fat_arrow")
    } else {
        None
    }
}

/// The binding action of a behavior display name: the inverse table.
pub open spec fn spec_display_name_to_action(s: Seq<char>) -> Option<Seq<char>> {
    if s == "key press"@ {
        Some("kp"@)
    } else if s == "mod-tap"@ {
        Some("mt"@)
    } else if s == "layer-tap"@ {
        Some("lt"@)
    } else if s == "momentary layer"@ {
        Some("mo"@)
    } else if s == "to layer"@ {
        Some("to"@)
    } else if s == "toggle layer"@ {
        Some("tog"@)
    } else if s == "sticky layer"@ {
        Some("sl"@)
    } else if s == "sticky key"@ {
        Some("sk"@)
    } else if s == "key toggle"@ {
        Some("kt"@)
    } else if s == "none"@ {
        Some("none"@)
    } else if s == "transparent"@ {
        Some("trans"@)
    } else if s == "grave escape"@ {
        Some("gresc"@)
    } else if s == "caps word"@ {
        Some("caps_word"@)
    } else if s == "key repeat"@ {
        Some("key_repeat"@)
    } else if s == "mouse key press"@ {
        Some("mkp"@)
    } else if s == "bluetooth"@ {
        Some("bt"@)
    } else if s == "output selection"@ {
        Some("out"@)
    } else if s == "soft off"@ {
        Some("soft_off"@)
    } else if s == "bootloader"@ {
        Some("bootloader"@)
    } else if s == "reset"@ {
        Some("sys_reset"@)
    } else if s == "external power"@ {
        Some("ext_power"@)
    } else if s == "studio unlock"@ {
        Some("studio_unlock"@)
    } else if s == "home_row_mod_left"@ {
        Some("hml"@)
    } else if s == "home_row_mod_right"@ {
        Some("hmr"@)
    } else if s == "layer_tap_thumb"@ {
        Some("lt_th"@)
    } else if s == "comma_semicolon"@ {
        Some("comma_morph"@)
    } else if s == "dot_colon"@ {
        Some("dot_morph"@)
    } else if s == "fat_arrow"@ {
        Some("fat_arrow"@)
    } else if s == "mouse_move"@ {
        Some("mmv"@)
    } else if s == "mouse_scroll"@ {
        Some("msc"@)
    } else {
        None
    }
}

/// Exec form of the table.
pub fn display_name_to_action(s: &str) -> (r: Option<&'static str>)
    ensures
        (match r {
            Some(n) => spec_display_name_to_action(s@) == Some(n@),
            None => spec_display_name_to_action(s@) is None,
        }),
{
    if str_eq(s, "key press") {
        Some("kp")
    } else if str_eq(s, "mod-tap") {
        Some("mt")
    } else if str_eq(s, "layer-tap") {
        Some("lt")
    } else if str_eq(s, "momentary layer") {
        Some("mo")
    } else if str_eq(s, "to layer") {
        Some("to")
    } else if str_eq(s, "toggle layer") {
        Some("tog")
    } else if str_eq(s, "sticky layer") {
        Some("sl")
    } else if str_eq(s, "sticky key") {
        Some("sk")
    } else if str_eq(s, "key toggle") {
        Some("kt")
    } else if str_eq(s, "none") {
        Some("none")
    } else if str_eq(s, "transparent") {
        Some("trans")
    } else if str_eq(s, "grave escape") {
        Some("gresc")
    } else if str_eq(s, "caps word") {
        Some("caps_word")
    } else if str_eq(s, "key repeat") {
        Some("key_repeat")
    } else if str_eq(s, "mouse key press") {
        Some("mkp")
    } else if str_eq(s, "bluetooth") {
        Some("bt")
    } else if str_eq(s, "output selection") {
        Some("out")
    } else if str_eq(s, "soft off") {
        Some("soft_off")
    } else if str_eq(s, "bootloader") {
        Some("bootloader")
    } else if str_eq(s, "reset") {
        Some("sys_reset")
    } else if str_eq(s, "external power") {
        Some("ext_power")
    } else if str_eq(s, "studio unlock") {
        Some("studio_unlock")
    } else if str_eq(s, "home_row_mod_left") {
        Some("hml")
    } else if str_eq(s, "home_row_mod_right") {
        Some("hmr")
    } else if str_eq(s, "layer_tap_thumb") {
        Some("lt_th")
    } else if str_eq(s, "comma_semicolon") {
        Some("comma_morph")
    } else if str_eq(s, "dot_colon") {
        Some("dot_morph")
    } else if str_eq(s, "fat_arrow") {
        Some("fat_arrow")
    } else if str_eq(s, "mouse_move") {
        Some("mmv")
    } else if str_eq(s, "mouse_scroll") {
        Some("msc")
    } else {
        None
    }
}

/// What reverse resolution yields: the action text and parameter texts of a
/// numeric binding under the discovered metadata.
pub open spec fn spec_unresolve_binding(
    behavior_id: i32,
    param1: u32,
    param2: u32,
    metas: Seq<(i32, BehaviorMetaModel)>,
) -> (Seq<char>, Seq<Seq<char>>) {
    match spec_lookup_meta(metas, behavior_id, 0) {
        None => (seq!['?'] + spec_i32_decimal(behavior_id), Seq::empty()),
        Some(meta) => {
            let display_lower = lower_seq(meta.display_name);
            let action = match spec_display_name_to_action(display_lower) {
                Some(a) => a,
                None => display_lower,
            };
            let p1 = spec_format_param(param1, meta.param1);
            let p2 = spec_format_param(param2, meta.param2);
            let with_p1 = if p1.len() > 0 {
                seq![p1]
            } else {
                Seq::empty()
            };
            let params = if p2.len() > 0 {
                with_p1.push(p2)
            } else {
                with_p1
            };
            (action, params)
        },
    }
}

/// Reverse-resolve a numeric binding to text form using the discovered
/// behavior metadata: a known behavior under its action name with its
/// non-empty parameter texts, an unknown one under a `?`-prefixed id.
pub fn unresolve_binding(
    behavior_id: i32,
    param1: u32,
    param2: u32,
    metas: &Vec<(i32, BehaviorMeta)>,
) -> (r: ResolvedBinding)
    ensures
        ({
            let expect = spec_unresolve_binding(behavior_id, param1, param2, metas_model(metas@));
            r.action@ == expect.0 && r.params.deep_view() == expect.1
        }),
{
    let meta = match lookup_meta(metas, behavior_id) {
        Some(m) => m,
        None => {
            let mut action = String::from_str("?");
            proof {
                reveal_strlit("?");
                assert(action@ =~= seq!['?']);
            }
            action.append(i32_to_decimal(behavior_id).as_str());
            let params: Vec<String> = Vec::new();
            proof {
                assert(params.deep_view() =~= Seq::<Seq<char>>::empty());
            }
            return ResolvedBinding { action, params };
        },
    };
    let display_lower = str_to_lower(meta.display_name.as_str());
    let action = match display_name_to_action(display_lower.as_str()) {
        Some(a) => String::from_str(a),
        None => display_lower,
    };
    let p1 = format_param(param1, meta.param1);
    let p2 = format_param(param2, meta.param2);
    let mut params: Vec<String> = Vec::new();
    proof {
        assert(params.deep_view() =~= Seq::<Seq<char>>::empty());
    }
    if !p1.as_str().is_empty() {
        let ghost pre = params.deep_view();
        let ghost pv = p1@;
        params.push(p1);
        proof {
            assert(params.deep_view() =~= pre.push(pv));
        }
    }
    if !p2.as_str().is_empty() {
        let ghost pre = params.deep_view();
        let ghost pv = p2@;
        params.push(p2);
        proof {
            assert(params.deep_view() =~= pre.push(pv));
        }
    }
    ResolvedBinding { action, params }
}

/// An action that takes no parameters.
pub open spec fn spec_no_param_action(s: Seq<char>) -> bool {
    ||| s == "trans"@
    ||| s == "none"@
    ||| s == "caps_word"@
    ||| s == "key_repeat"@
    ||| s == "gresc"@
    ||| s == "soft_off"@
    ||| s == "bootloader"@
    ||| s == "sys_reset"@
    ||| s == "studio_unlock"@
}

fn is_no_param_action(s: &str) -> (r: bool)
    ensures
        r == spec_no_param_action(s@),
{
    str_eq(s, "trans") || str_eq(s, "none") || str_eq(s, "caps_word") || str_eq(s, "key_repeat")
        || str_eq(s, "gresc") || str_eq(s, "soft_off") || str_eq(s, "bootloader") || str_eq(
        s,
        "sys_reset",
    ) || str_eq(s, "studio_unlock")
}

/// The value of the first parameter of a `bt` action; with no parameter
/// there is nothing to select and the value is zero.
pub open spec fn spec_bt_param(params: Seq<Seq<char>>) -> u32 {
    if params.len() == 0 {
        0u32
    } else {
        spec_bt_sub(params)
    }
}

/// The `bt` selector of a non-empty parameter list.
pub open spec fn spec_bt_sub(params: Seq<Seq<char>>) -> u32
    recommends
        params.len() > 0,
{
    let sub = params[0];
    if sub == "BT_CLR"@ {
        0u32
    } else if sub == "BT_NXT"@ {
        1u32
    } else if sub == "BT_PRV"@ {
        2u32
    } else if sub == "BT_CLR_ALL"@ {
        5u32
    } else if ("BT_SEL"@.len() <= sub.len() && match_at(sub, "BT_SEL"@, 0)) || ("BT_DISC"@.len()
        <= sub.len() && match_at(sub, "BT_DISC"@, 0)) {
        if params.len() > 1 && parse_u32_seq(params[1]) is Some {
            parse_u32_seq(params[1])->Some_0
        } else {
            0u32
        }
    } else {
        0u32
    }
}

/// The value of the first parameter of an `out` action; with no parameter
/// the toggle is selected.
pub open spec fn spec_out_param(params: Seq<Seq<char>>) -> u32 {
    if params.len() == 0 {
        2u32
    } else if params[0] == "OUT_USB"@ {
        0u32
    } else if params[0] == "OUT_BLE"@ {
        1u32
    } else {
        2u32
    }
}

/// What resolving a text binding yields under the discovered name-to-id
/// table: the behavior id with its two numeric parameters, or the exact error
/// text.
pub open spec fn spec_resolve_binding(
    action: Seq<char>,
    params: Seq<Seq<char>>,
    map: Seq<(Seq<char>, i32)>,
) -> Result<(i32, u32, u32), Seq<char>> {
    let action_lower = lower_seq(action);
    let by_display = match spec_action_to_display_name(action_lower) {
        Some(dn) => spec_lookup_behavior(map, dn, 0),
        None => None,
    };
    let id_opt = if by_display is Some {
        by_display
    } else {
        spec_lookup_behavior(map, action_lower, 0)
    };
    match id_opt {
        None => Err("Unknown behavior: "@ + action),
        Some(bid) => {
            if spec_no_param_action(action_lower) {
                Ok((bid, 0u32, 0u32))
            } else if action_lower == "kp"@ || action_lower == "sk"@ || action_lower == "kt"@
                || action_lower == "mkp"@ {
                if params.len() == 0 {
                    Err("Missing keycode parameter"@)
                } else {
                    match spec_parse_with_mods(params[0], 0) {
                        Some(h) => Ok((bid, h, 0u32)),
                        None => Err("Unknown keycode: "@ + params[0]),
                    }
                }
            } else if action_lower == "hml"@ || action_lower == "hmr"@ || action_lower == "mt"@ {
                if params.len() == 0 {
                    Err("Missing hold parameter"@)
                } else if params.len() == 1 {
                    Err("Missing tap parameter"@)
                } else {
                    match spec_parse_with_mods(params[0], 0) {
                        None => Err("Unknown hold keycode: "@ + params[0]),
                        Some(hold) => match spec_parse_with_mods(params[1], 0) {
                            None => Err("Unknown tap keycode: "@ + params[1]),
                            Some(tap) => Ok((bid, hold, tap)),
                        },
                    }
                }
            } else if action_lower == "lt"@ || action_lower == "lt_th"@ {
                if params.len() == 0 {
                    Err("Missing layer parameter"@)
                } else {
                    match parse_u32_seq(params[0]) {
                        None => Err("Invalid layer: "@ + params[0]),
                        Some(layer) => if params.len() == 1 {
                            Err("Missing keycode parameter"@)
                        } else {
                            match spec_parse_with_mods(params[1], 0) {
                                None => Err("Unknown keycode: "@ + params[1]),
                                Some(h) => Ok((bid, layer, h)),
                            }
                        },
                    }
                }
            } else if action_lower == "mo"@ || action_lower == "tog"@ || action_lower == "sl"@
                || action_lower == "to"@ {
                if params.len() == 0 {
                    Err("Missing layer parameter"@)
                } else {
                    match parse_u32_seq(params[0]) {
                        None => Err("Invalid layer: "@ + params[0]),
                        Some(layer) => Ok((bid, layer, 0u32)),
                    }
                }
            } else if action_lower == "bt"@ {
                Ok((bid, spec_bt_param(params), 0u32))
            } else if action_lower == "out"@ {
                Ok((bid, spec_out_param(params), 0u32))
            } else {
                let p1 = if params.len() > 0 && spec_parse_with_mods(params[0], 0) is Some {
                    spec_parse_with_mods(params[0], 0)->Some_0
                } else {
                    0u32
                };
                let p2 = if params.len() > 1 && spec_parse_with_mods(params[1], 0) is Some {
                    spec_parse_with_mods(params[1], 0)->Some_0
                } else {
                    0u32
                };
                Ok((bid, p1, p2))
            }
        },
    }
}

/// Resolve a text binding — an action name and its parameters — to the
/// numeric `(behavior id, param1, param2)` form the device takes, under the
/// discovered name-to-id table. The action is looked up first through its
/// standard display name, then under its own (lower-cased) name.
pub fn resolve_binding(
    action: &str,
    params: &Vec<String>,
    behavior_map: &Vec<(String, i32)>,
) -> (r: Result<(i32, u32, u32), String>)
    ensures
        (match r {
            Ok(t) => spec_resolve_binding(action@, params.deep_view(), behavior_map_model(
                behavior_map@,
            )) == Ok::<(i32, u32, u32), Seq<char>>(t),
            Err(e) => spec_resolve_binding(action@, params.deep_view(), behavior_map_model(
                behavior_map@,
            )) == Err::<(i32, u32, u32), Seq<char>>(e@),
        }),
{
    let action_lower = str_to_lower(action);
    let by_display = match action_to_display_name(action_lower.as_str()) {
        Some(dn) => lookup_behavior(behavior_map, dn),
        None => None,
    };
    let id_opt = if by_display.is_some() {
        by_display
    } else {
        lookup_behavior(behavior_map, action_lower.as_str())
    };
    let bid = match id_opt {
        Some(b) => b,
        None => {
            let mut e = String::from_str("Unknown behavior: ");
            e.append(action);
            return Err(e);
        },
    };
    if is_no_param_action(action_lower.as_str()) {
        return Ok((bid, 0, 0));
    }
    proof {
        assert(params.deep_view().len() == params@.len());
    }
    if str_eq(action_lower.as_str(), "kp") || str_eq(action_lower.as_str(), "sk") || str_eq(
        action_lower.as_str(),
        "kt",
    ) || str_eq(action_lower.as_str(), "mkp") {
        if params.len() == 0 {
            return Err(String::from_str("Missing keycode parameter"));
        }
        proof {
            assert(params.deep_view()[0] == params@[0]@);
        }
        match parse_keycode_with_modifiers(params[0].as_str()) {
            Some(h) => Ok((bid, h, 0)),
            None => {
                let mut e = String::from_str("Unknown keycode: ");
                e.append(params[0].as_str());
                Err(e)
            },
        }
    } else if str_eq(action_lower.as_str(), "hml") || str_eq(action_lower.as_str(), "hmr")
        || str_eq(action_lower.as_str(), "mt") {
        if params.len() == 0 {
            return Err(String::from_str("Missing hold parameter"));
        }
        if params.len() == 1 {
            return Err(String::from_str("Missing tap parameter"));
        }
        proof {
            assert(params.deep_view()[0] == params@[0]@);
            assert(params.deep_view()[1] == params@[1]@);
        }
        let hold = match parse_keycode_with_modifiers(params[0].as_str()) {
            Some(h) => h,
            None => {
                let mut e = String::from_str("Unknown hold keycode: ");
                e.append(params[0].as_str());
                return Err(e);
            },
        };
        let tap = match parse_keycode_with_modifiers(params[1].as_str()) {
            Some(h) => h,
            None => {
                let mut e = String::from_str("Unknown tap keycode: ");
                e.append(params[1].as_str());
                return Err(e);
            },
        };
        Ok((bid, hold, tap))
    } else if str_eq(action_lower.as_str(), "lt") || str_eq(action_lower.as_str(), "lt_th") {
        if params.len() == 0 {
            return Err(String::from_str("Missing layer parameter"));
        }
        proof {
            assert(params.deep_view()[0] == params@[0]@);
        }
        let layer = match parse_u32(params[0].as_str()) {
            Some(l) => l,
            None => {
                let mut e = String::from_str("Invalid layer: ");
                e.append(params[0].as_str());
                return Err(e);
            },
        };
        if params.len() == 1 {
            return Err(String::from_str("Missing keycode parameter"));
        }
        proof {
            assert(params.deep_view()[1] == params@[1]@);
        }
        match parse_keycode_with_modifiers(params[1].as_str()) {
            Some(h) => Ok((bid, layer, h)),
            None => {
                let mut e = String::from_str("Unknown keycode: ");
                e.append(params[1].as_str());
                Err(e)
            },
        }
    } else if str_eq(action_lower.as_str(), "mo") || str_eq(action_lower.as_str(), "tog")
        || str_eq(action_lower.as_str(), "sl") || str_eq(action_lower.as_str(), "to") {
        if params.len() == 0 {
            return Err(String::from_str("Missing layer parameter"));
        }
        proof {
            assert(params.deep_view()[0] == params@[0]@);
        }
        match parse_u32(params[0].as_str()) {
            Some(layer) => Ok((bid, layer, 0)),
            None => {
                let mut e = String::from_str("Invalid layer: ");
                e.append(params[0].as_str());
                Err(e)
            },
        }
    } else if str_eq(action_lower.as_str(), "bt") {
        let val = bt_param(params);
        Ok((bid, val, 0))
    } else if str_eq(action_lower.as_str(), "out") {
        let val = out_param(params);
        Ok((bid, val, 0))
    } else {
        let p1 = if params.len() > 0 {
            proof {
                assert(params.deep_view()[0] == params@[0]@);
            }
            match parse_keycode_with_modifiers(params[0].as_str()) {
                Some(h) => h,
                None => 0,
            }
        } else {
            0
        };
        let p2 = if params.len() > 1 {
            proof {
                assert(params.deep_view()[1] == params@[1]@);
            }
            match parse_keycode_with_modifiers(params[1].as_str()) {
                Some(h) => h,
                None => 0,
            }
        } else {
            0
        };
        Ok((bid, p1, p2))
    }
}

fn bt_param(params: &Vec<String>) -> (r: u32)
    ensures
        r == spec_bt_param(params.deep_view()),
{
    if params.len() == 0 {
        return 0;
    }
    proof {
        assert(params.deep_view()[0] == params@[0]@);
    }
    let sub = params[0].as_str();
    if str_eq(sub, "BT_CLR") {
        0
    } else if str_eq(sub, "BT_NXT") {
        1
    } else if str_eq(sub, "BT_PRV") {
        2
    } else if str_eq(sub, "BT_CLR_ALL") {
        5
    } else if str_starts_with(sub, "BT_SEL") || str_starts_with(sub, "BT_DISC") {
        if params.len() > 1 {
            proof {
                assert(params.deep_view()[1] == params@[1]@);
            }
            match parse_u32(params[1].as_str()) {
                Some(v) => v,
                None => 0,
            }
        } else {
            0
        }
    } else {
        0
    }
}

fn out_param(params: &Vec<String>) -> (r: u32)
    ensures
        r == spec_out_param(params.deep_view()),
{
    if params.len() == 0 {
        return 2;
    }
    proof {
        assert(params.deep_view()[0] == params@[0]@);
    }
    let sub = params[0].as_str();
    if str_eq(sub, "OUT_USB") {
        0
    } else if str_eq(sub, "OUT_BLE") {
        1
    } else {
        2
    }
}

} // verus!
