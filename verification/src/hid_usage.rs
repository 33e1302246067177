//! The table tying ZMK keycode text names to HID usage codes, and the
//! conversions built on it.
//!
//! A usage code packs `(page << 16) | usage_id`; a modifier-wrapped code adds
//! `mod_bits << 24`. The pages used are the keyboard page and the consumer
//! page.

use vstd::prelude::*;

verus! {

use crate::text::{str_eq, str_trim, str_starts_with, trimmed, trim_start_rec, trim_end_rec, match_at};
use vstd::string::{StrSliceExecFns, StringExecFns};

/// HID keyboard usage page.
pub const HID_USAGE_KEY: u32 = 0x07;
/// HID consumer usage page.
pub const HID_USAGE_CONSUMER: u32 = 0x0C;

/// A usage code on the given page.
pub open spec fn spec_hid(page: u32, id: u32) -> u32 {
    (page << 16) | id
}

/// A usage code on the given page.
pub fn hid(page: u32, id: u32) -> (r: u32)
    ensures
        r == spec_hid(page, id),
{
    (page << 16) | id
}

/// A keyboard-page usage code.
pub open spec fn spec_key(id: u32) -> u32 {
    spec_hid(HID_USAGE_KEY, id)
}

/// A keyboard-page usage code.
pub fn key(id: u32) -> (r: u32)
    ensures
        r == spec_key(id),
{
    hid(HID_USAGE_KEY, id)
}

/// A consumer-page usage code.
pub open spec fn spec_consumer(id: u32) -> u32 {
    spec_hid(HID_USAGE_CONSUMER, id)
}

/// A consumer-page usage code.
pub fn consumer(id: u32) -> (r: u32)
    ensures
        r == spec_consumer(id),
{
    hid(HID_USAGE_CONSUMER, id)
}

/// Left-control modifier bit.
pub const MOD_LCTL: u32 = 0x01;
/// Left-shift modifier bit.
pub const MOD_LSFT: u32 = 0x02;
/// Left-alt modifier bit.
pub const MOD_LALT: u32 = 0x04;
/// Left-GUI modifier bit.
pub const MOD_LGUI: u32 = 0x08;
/// Right-control modifier bit.
pub const MOD_RCTL: u32 = 0x10;
/// Right-shift modifier bit.
pub const MOD_RSFT: u32 = 0x20;
/// Right-alt modifier bit.
pub const MOD_RALT: u32 = 0x40;
/// Right-GUI modifier bit.
pub const MOD_RGUI: u32 = 0x80;

/// A usage code with modifier bits applied in the top byte.
pub open spec fn spec_apply_mods(mods: u32, keycode: u32) -> u32 {
    (mods << 24) | keycode
}

/// A usage code with modifier bits applied in the top byte.
pub fn apply_mods(mods: u32, keycode: u32) -> (r: u32)
    ensures
        r == spec_apply_mods(mods, keycode),
{
    (mods << 24) | keycode
}

/// A usage code with left shift applied.
pub open spec fn spec_ls(keycode: u32) -> u32 {
    spec_apply_mods(MOD_LSFT, keycode)
}

/// A usage code with left shift applied.
pub fn ls(keycode: u32) -> (r: u32)
    ensures
        r == spec_ls(keycode),
{
    apply_mods(MOD_LSFT, keycode)
}

/// The letter keys.
pub open spec fn spec_kc_letters(s: Seq<char>) -> Option<u32> {
    if s == "A"@ {
        Some(spec_key(0x04))
    } else if s == "B"@ {
        Some(spec_key(0x05))
    } else if s == "C"@ {
        Some(spec_key(0x06))
    } else if s == "D"@ {
        Some(spec_key(0x07))
    } else if s == "E"@ {
        Some(spec_key(0x08))
    } else if s == "F"@ {
        Some(spec_key(0x09))
    } else if s == "G"@ {
        Some(spec_key(0x0A))
    } else if s == "H"@ {
        Some(spec_key(0x0B))
    } else if s == "I"@ {
        Some(spec_key(0x0C))
    } else if s == "J"@ {
        Some(spec_key(0x0D))
    } else if s == "K"@ {
        Some(spec_key(0x0E))
    } else if s == "L"@ {
        Some(spec_key(0x0F))
    } else if s == "M"@ {
        Some(spec_key(0x10))
    } else if s == "N"@ {
        Some(spec_key(0x11))
    } else if s == "O"@ {
        Some(spec_key(0x12))
    } else if s == "P"@ {
        Some(spec_key(0x13))
    } else if s == "Q"@ {
        Some(spec_key(0x14))
    } else if s == "R"@ {
        Some(spec_key(0x15))
    } else if s == "S"@ {
        Some(spec_key(0x16))
    } else if s == "T"@ {
        Some(spec_key(0x17))
    } else if s == "U"@ {
        Some(spec_key(0x18))
    } else if s == "V"@ {
        Some(spec_key(0x19))
    } else if s == "W"@ {
        Some(spec_key(0x1A))
    } else if s == "X"@ {
        Some(spec_key(0x1B))
    } else if s == "Y"@ {
        Some(spec_key(0x1C))
    } else if s == "Z"@ {
        Some(spec_key(0x1D))
    } else {
        None
    }
}

fn kc_letters(name: &str) -> (r: Option<u32>)
    ensures
        r == spec_kc_letters(name@),
{
    if str_eq(name, "A") {
        Some(key(0x04))
    } else if str_eq(name, "B") {
        Some(key(0x05))
    } else if str_eq(name, "C") {
        Some(key(0x06))
    } else if str_eq(name, "D") {
        Some(key(0x07))
    } else if str_eq(name, "E") {
        Some(key(0x08))
    } else if str_eq(name, "F") {
        Some(key(0x09))
    } else if str_eq(name, "G") {
        Some(key(0x0A))
    } else if str_eq(name, "H") {
        Some(key(0x0B))
    } else if str_eq(name, "I") {
        Some(key(0x0C))
    } else if str_eq(name, "J") {
        Some(key(0x0D))
    } else if str_eq(name, "K") {
        Some(key(0x0E))
    } else if str_eq(name, "L") {
        Some(key(0x0F))
    } else if str_eq(name, "M") {
        Some(key(0x10))
    } else if str_eq(name, "N") {
        Some(key(0x11))
    } else if str_eq(name, "O") {
        Some(key(0x12))
    } else if str_eq(name, "P") {
        Some(key(0x13))
    } else if str_eq(name, "Q") {
        Some(key(0x14))
    } else if str_eq(name, "R") {
        Some(key(0x15))
    } else if str_eq(name, "S") {
        Some(key(0x16))
    } else if str_eq(name, "T") {
        Some(key(0x17))
    } else if str_eq(name, "U") {
        Some(key(0x18))
    } else if str_eq(name, "V") {
        Some(key(0x19))
    } else if str_eq(name, "W") {
        Some(key(0x1A))
    } else if str_eq(name, "X") {
        Some(key(0x1B))
    } else if str_eq(name, "Y") {
        Some(key(0x1C))
    } else if str_eq(name, "Z") {
        Some(key(0x1D))
    } else {
        None
    }
}

/// The number-row keys.
pub open spec fn spec_kc_numbers(s: Seq<char>) -> Option<u32> {
    if s == "N1"@ {
        Some(spec_key(0x1E))
    } else if s == "N2"@ {
        Some(spec_key(0x1F))
    } else if s == "N3"@ {
        Some(spec_key(0x20))
    } else if s == "N4"@ {
        Some(spec_key(0x21))
    } else if s == "N5"@ {
        Some(spec_key(0x22))
    } else if s == "N6"@ {
        Some(spec_key(0x23))
    } else if s == "N7"@ {
        Some(spec_key(0x24))
    } else if s == "N8"@ {
        Some(spec_key(0x25))
    } else if s == "N9"@ {
        Some(spec_key(0x26))
    } else if s == "N0"@ {
        Some(spec_key(0x27))
    } else {
        None
    }
}

fn kc_numbers(name: &str) -> (r: Option<u32>)
    ensures
        r == spec_kc_numbers(name@),
{
    if str_eq(name, "N1") {
        Some(key(0x1E))
    } else if str_eq(name, "N2") {
        Some(key(0x1F))
    } else if str_eq(name, "N3") {
        Some(key(0x20))
    } else if str_eq(name, "N4") {
        Some(key(0x21))
    } else if str_eq(name, "N5") {
        Some(key(0x22))
    } else if str_eq(name, "N6") {
        Some(key(0x23))
    } else if str_eq(name, "N7") {
        Some(key(0x24))
    } else if str_eq(name, "N8") {
        Some(key(0x25))
    } else if str_eq(name, "N9") {
        Some(key(0x26))
    } else if str_eq(name, "N0") {
        Some(key(0x27))
    } else {
        None
    }
}

/// Return, escape, backspace, tab and space.
pub open spec fn spec_kc_control(s: Seq<char>) -> Option<u32> {
    if s == "RET"@ {
        Some(spec_key(0x28))
    } else if s == "RETURN"@ {
        Some(spec_key(0x28))
    } else if s == "ENTER"@ {
        Some(spec_key(0x28))
    } else if s == "ESC"@ {
        Some(spec_key(0x29))
    } else if s == "ESCAPE"@ {
        Some(spec_key(0x29))
    } else if s == "BSPC"@ {
        Some(spec_key(0x2A))
    } else if s == "BACKSPACE"@ {
        Some(spec_key(0x2A))
    } else if s == "TAB"@ {
        Some(spec_key(0x2B))
    } else if s == "SPACE"@ {
        Some(spec_key(0x2C))
    } else {
        None
    }
}

fn kc_control(name: &str) -> (r: Option<u32>)
    ensures
        r == spec_kc_control(name@),
{
    if str_eq(name, "RET") {
        Some(key(0x28))
    } else if str_eq(name, "RETURN") {
        Some(key(0x28))
    } else if str_eq(name, "ENTER") {
        Some(key(0x28))
    } else if str_eq(name, "ESC") {
        Some(key(0x29))
    } else if str_eq(name, "ESCAPE") {
        Some(key(0x29))
    } else if str_eq(name, "BSPC") {
        Some(key(0x2A))
    } else if str_eq(name, "BACKSPACE") {
        Some(key(0x2A))
    } else if str_eq(name, "TAB") {
        Some(key(0x2B))
    } else if str_eq(name, "SPACE") {
        Some(key(0x2C))
    } else {
        None
    }
}

/// The unshifted symbol keys and caps lock.
pub open spec fn spec_kc_symbols(s: Seq<char>) -> Option<u32> {
    if s == "MINUS"@ {
        Some(spec_key(0x2D))
    } else if s == "EQUAL"@ {
        Some(spec_key(0x2E))
    } else if s == "LBKT"@ {
        Some(spec_key(0x2F))
    } else if s == "RBKT"@ {
        Some(spec_key(0x30))
    } else if s == "BSLH"@ {
        Some(spec_key(0x31))
    } else if s == "BACKSLASH"@ {
        Some(spec_key(0x31))
    } else if s == "NON_US_HASH"@ {
        Some(spec_key(0x32))
    } else if s == "NUHS"@ {
        Some(spec_key(0x32))
    } else if s == "SEMI"@ {
        Some(spec_key(0x33))
    } else if s == "SEMICOLON"@ {
        Some(spec_key(0x33))
    } else if s == "SQT"@ {
        Some(spec_key(0x34))
    } else if s == "SINGLE_QUOTE"@ {
        Some(spec_key(0x34))
    } else if s == "APOSTROPHE"@ {
        Some(spec_key(0x34))
    } else if s == "APOS"@ {
        Some(spec_key(0x34))
    } else if s == "GRAVE"@ {
        Some(spec_key(0x35))
    } else if s == "COMMA"@ {
        Some(spec_key(0x36))
    } else if s == "DOT"@ {
        Some(spec_key(0x37))
    } else if s == "PERIOD"@ {
        Some(spec_key(0x37))
    } else if s == "FSLH"@ {
        Some(spec_key(0x38))
    } else if s == "SLASH"@ {
        Some(spec_key(0x38))
    } else if s == "CAPS"@ {
        Some(spec_key(0x39))
    } else if s == "CAPSLOCK"@ {
        Some(spec_key(0x39))
    } else if s == "CLCK"@ {
        Some(spec_key(0x39))
    } else {
        None
    }
}

fn kc_symbols(name: &str) -> (r: Option<u32>)
    ensures
        r == spec_kc_symbols(name@),
{
    if str_eq(name, "MINUS") {
        Some(key(0x2D))
    } else if str_eq(name, "EQUAL") {
        Some(key(0x2E))
    } else if str_eq(name, "LBKT") {
        Some(key(0x2F))
    } else if str_eq(name, "RBKT") {
        Some(key(0x30))
    } else if str_eq(name, "BSLH") {
        Some(key(0x31))
    } else if str_eq(name, "BACKSLASH") {
        Some(key(0x31))
    } else if str_eq(name, "NON_US_HASH") {
        Some(key(0x32))
    } else if str_eq(name, "NUHS") {
        Some(key(0x32))
    } else if str_eq(name, "SEMI") {
        Some(key(0x33))
    } else if str_eq(name, "SEMICOLON") {
        Some(key(0x33))
    } else if str_eq(name, "SQT") {
        Some(key(0x34))
    } else if str_eq(name, "SINGLE_QUOTE") {
        Some(key(0x34))
    } else if str_eq(name, "APOSTROPHE") {
        Some(key(0x34))
    } else if str_eq(name, "APOS") {
        Some(key(0x34))
    } else if str_eq(name, "GRAVE") {
        Some(key(0x35))
    } else if str_eq(name, "COMMA") {
        Some(key(0x36))
    } else if str_eq(name, "DOT") {
        Some(key(0x37))
    } else if str_eq(name, "PERIOD") {
        Some(key(0x37))
    } else if str_eq(name, "FSLH") {
        Some(key(0x38))
    } else if str_eq(name, "SLASH") {
        Some(key(0x38))
    } else if str_eq(name, "CAPS") {
        Some(key(0x39))
    } else if str_eq(name, "CAPSLOCK") {
        Some(key(0x39))
    } else if str_eq(name, "CLCK") {
        Some(key(0x39))
    } else {
        None
    }
}

/// The first function-key row, print screen, scroll lock and pause.
pub open spec fn spec_kc_function_keys(s: Seq<char>) -> Option<u32> {
    if s == "F1"@ {
        Some(spec_key(0x3A))
    } else if s == "F2"@ {
        Some(spec_key(0x3B))
    } else if s == "F3"@ {
        Some(spec_key(0x3C))
    } else if s == "F4"@ {
        Some(spec_key(0x3D))
    } else if s == "F5"@ {
        Some(spec_key(0x3E))
    } else if s == "F6"@ {
        Some(spec_key(0x3F))
    } else if s == "F7"@ {
        Some(spec_key(0x40))
    } else if s == "F8"@ {
        Some(spec_key(0x41))
    } else if s == "F9"@ {
        Some(spec_key(0x42))
    } else if s == "F10"@ {
        Some(spec_key(0x43))
    } else if s == "F11"@ {
        Some(spec_key(0x44))
    } else if s == "F12"@ {
        Some(spec_key(0x45))
    } else if s == "PSCRN"@ {
        Some(spec_key(0x46))
    } else if s == "PRINTSCREEN"@ {
        Some(spec_key(0x46))
    } else if s == "SLCK"@ {
        Some(spec_key(0x47))
    } else if s == "SCROLLLOCK"@ {
        Some(spec_key(0x47))
    } else if s == "PAUSE_BREAK"@ {
        Some(spec_key(0x48))
    } else {
        None
    }
}

fn kc_function_keys(name: &str) -> (r: Option<u32>)
    ensures
        r == spec_kc_function_keys(name@),
{
    if str_eq(name, "F1") {
        Some(key(0x3A))
    } else if str_eq(name, "F2") {
        Some(key(0x3B))
    } else if str_eq(name, "F3") {
        Some(key(0x3C))
    } else if str_eq(name, "F4") {
        Some(key(0x3D))
    } else if str_eq(name, "F5") {
        Some(key(0x3E))
    } else if str_eq(name, "F6") {
        Some(key(0x3F))
    } else if str_eq(name, "F7") {
        Some(key(0x40))
    } else if str_eq(name, "F8") {
        Some(key(0x41))
    } else if str_eq(name, "F9") {
        Some(key(0x42))
    } else if str_eq(name, "F10") {
        Some(key(0x43))
    } else if str_eq(name, "F11") {
        Some(key(0x44))
    } else if str_eq(name, "F12") {
        Some(key(0x45))
    } else if str_eq(name, "PSCRN") {
        Some(key(0x46))
    } else if str_eq(name, "PRINTSCREEN") {
        Some(key(0x46))
    } else if str_eq(name, "SLCK") {
        Some(key(0x47))
    } else if str_eq(name, "SCROLLLOCK") {
        Some(key(0x47))
    } else if str_eq(name, "PAUSE_BREAK") {
        Some(key(0x48))
    } else {
        None
    }
}

/// Insert, delete and the navigation cluster.
pub open spec fn spec_kc_navigation(s: Seq<char>) -> Option<u32> {
    if s == "INS"@ {
        Some(spec_key(0x49))
    } else if s == "INSERT"@ {
        Some(spec_key(0x49))
    } else if s == "HOME"@ {
        Some(spec_key(0x4A))
    } else if s == "PG_UP"@ {
        Some(spec_key(0x4B))
    } else if s == "PAGE_UP"@ {
        Some(spec_key(0x4B))
    } else if s == "DEL"@ {
        Some(spec_key(0x4C))
    } else if s == "DELETE"@ {
        Some(spec_key(0x4C))
    } else if s == "END"@ {
        Some(spec_key(0x4D))
    } else if s == "PG_DN"@ {
        Some(spec_key(0x4E))
    } else if s == "PAGE_DOWN"@ {
        Some(spec_key(0x4E))
    } else if s == "RIGHT"@ {
        Some(spec_key(0x4F))
    } else if s == "LEFT"@ {
        Some(spec_key(0x50))
    } else if s == "DOWN"@ {
        Some(spec_key(0x51))
    } else if s == "UP"@ {
        Some(spec_key(0x52))
    } else {
        None
    }
}

fn kc_navigation(name: &str) -> (r: Option<u32>)
    ensures
        r == spec_kc_navigation(name@),
{
    if str_eq(name, "INS") {
        Some(key(0x49))
    } else if str_eq(name, "INSERT") {
        Some(key(0x49))
    } else if str_eq(name, "HOME") {
        Some(key(0x4A))
    } else if str_eq(name, "PG_UP") {
        Some(key(0x4B))
    } else if str_eq(name, "PAGE_UP") {
        Some(key(0x4B))
    } else if str_eq(name, "DEL") {
        Some(key(0x4C))
    } else if str_eq(name, "DELETE") {
        Some(key(0x4C))
    } else if str_eq(name, "END") {
        Some(key(0x4D))
    } else if str_eq(name, "PG_DN") {
        Some(key(0x4E))
    } else if str_eq(name, "PAGE_DOWN") {
        Some(key(0x4E))
    } else if str_eq(name, "RIGHT") {
        Some(key(0x4F))
    } else if str_eq(name, "LEFT") {
        Some(key(0x50))
    } else if str_eq(name, "DOWN") {
        Some(key(0x51))
    } else if str_eq(name, "UP") {
        Some(key(0x52))
    } else {
        None
    }
}

/// The keypad, the ISO extra key, and the menu key.
pub open spec fn spec_kc_keypad(s: Seq<char>) -> Option<u32> {
    if s == "KP_NLCK"@ {
        Some(spec_key(0x53))
    } else if s == "KP_DIVIDE"@ {
        Some(spec_key(0x54))
    } else if s == "KP_MULTIPLY"@ {
        Some(spec_key(0x55))
    } else if s == "KP_MINUS"@ {
        Some(spec_key(0x56))
    } else if s == "KP_PLUS"@ {
        Some(spec_key(0x57))
    } else if s == "KP_ENTER"@ {
        Some(spec_key(0x58))
    } else if s == "KP_N1"@ {
        Some(spec_key(0x59))
    } else if s == "KP_N2"@ {
        Some(spec_key(0x5A))
    } else if s == "KP_N3"@ {
        Some(spec_key(0x5B))
    } else if s == "KP_N4"@ {
        Some(spec_key(0x5C))
    } else if s == "KP_N5"@ {
        Some(spec_key(0x5D))
    } else if s == "KP_N6"@ {
        Some(spec_key(0x5E))
    } else if s == "KP_N7"@ {
        Some(spec_key(0x5F))
    } else if s == "KP_N8"@ {
        Some(spec_key(0x60))
    } else if s == "KP_N9"@ {
        Some(spec_key(0x61))
    } else if s == "KP_N0"@ {
        Some(spec_key(0x62))
    } else if s == "KP_DOT"@ {
        Some(spec_key(0x63))
    } else if s == "NON_US_BSLH"@ {
        Some(spec_key(0x64))
    } else if s == "NUBS"@ {
        Some(spec_key(0x64))
    } else if s == "K_APP"@ {
        Some(spec_key(0x65))
    } else if s == "K_CMENU"@ {
        Some(spec_key(0x65))
    } else {
        None
    }
}

fn kc_keypad(name: &str) -> (r: Option<u32>)
    ensures
        r == spec_kc_keypad(name@),
{
    if str_eq(name, "KP_NLCK") {
        Some(key(0x53))
    } else if str_eq(name, "KP_DIVIDE") {
        Some(key(0x54))
    } else if str_eq(name, "KP_MULTIPLY") {
        Some(key(0x55))
    } else if str_eq(name, "KP_MINUS") {
        Some(key(0x56))
    } else if str_eq(name, "KP_PLUS") {
        Some(key(0x57))
    } else if str_eq(name, "KP_ENTER") {
        Some(key(0x58))
    } else if str_eq(name, "KP_N1") {
        Some(key(0x59))
    } else if str_eq(name, "KP_N2") {
        Some(key(0x5A))
    } else if str_eq(name, "KP_N3") {
        Some(key(0x5B))
    } else if str_eq(name, "KP_N4") {
        Some(key(0x5C))
    } else if str_eq(name, "KP_N5") {
        Some(key(0x5D))
    } else if str_eq(name, "KP_N6") {
        Some(key(0x5E))
    } else if str_eq(name, "KP_N7") {
        Some(key(0x5F))
    } else if str_eq(name, "KP_N8") {
        Some(key(0x60))
    } else if str_eq(name, "KP_N9") {
        Some(key(0x61))
    } else if str_eq(name, "KP_N0") {
        Some(key(0x62))
    } else if str_eq(name, "KP_DOT") {
        Some(key(0x63))
    } else if str_eq(name, "NON_US_BSLH") {
        Some(key(0x64))
    } else if str_eq(name, "NUBS") {
        Some(key(0x64))
    } else if str_eq(name, "K_APP") {
        Some(key(0x65))
    } else if str_eq(name, "K_CMENU") {
        Some(key(0x65))
    } else {
        None
    }
}

/// The high function keys.
pub open spec fn spec_kc_function_keys_high(s: Seq<char>) -> Option<u32> {
    if s == "F13"@ {
        Some(spec_key(0x68))
    } else if s == "F14"@ {
        Some(spec_key(0x69))
    } else if s == "F15"@ {
        Some(spec_key(0x6A))
    } else if s == "F16"@ {
        Some(spec_key(0x6B))
    } else if s == "F17"@ {
        Some(spec_key(0x6C))
    } else if s == "F18"@ {
        Some(spec_key(0x6D))
    } else if s == "F19"@ {
        Some(spec_key(0x6E))
    } else if s == "F20"@ {
        Some(spec_key(0x6F))
    } else if s == "F21"@ {
        Some(spec_key(0x70))
    } else if s == "F22"@ {
        Some(spec_key(0x71))
    } else if s == "F23"@ {
        Some(spec_key(0x72))
    } else if s == "F24"@ {
        Some(spec_key(0x73))
    } else {
        None
    }
}

fn kc_function_keys_high(name: &str) -> (r: Option<u32>)
    ensures
        r == spec_kc_function_keys_high(name@),
{
    if str_eq(name, "F13") {
        Some(key(0x68))
    } else if str_eq(name, "F14") {
        Some(key(0x69))
    } else if str_eq(name, "F15") {
        Some(key(0x6A))
    } else if str_eq(name, "F16") {
        Some(key(0x6B))
    } else if str_eq(name, "F17") {
        Some(key(0x6C))
    } else if str_eq(name, "F18") {
        Some(key(0x6D))
    } else if str_eq(name, "F19") {
        Some(key(0x6E))
    } else if str_eq(name, "F20") {
        Some(key(0x6F))
    } else if str_eq(name, "F21") {
        Some(key(0x70))
    } else if str_eq(name, "F22") {
        Some(key(0x71))
    } else if str_eq(name, "F23") {
        Some(key(0x72))
    } else if str_eq(name, "F24") {
        Some(key(0x73))
    } else {
        None
    }
}

/// The international and language keys.
pub open spec fn spec_kc_international(s: Seq<char>) -> Option<u32> {
    if s == "INT1"@ {
        Some(spec_key(0x87))
    } else if s == "INT2"@ {
        Some(spec_key(0x88))
    } else if s == "INT3"@ {
        Some(spec_key(0x89))
    } else if s == "INT4"@ {
        Some(spec_key(0x8A))
    } else if s == "INT5"@ {
        Some(spec_key(0x8B))
    } else if s == "INT6"@ {
        Some(spec_key(0x8C))
    } else if s == "INT7"@ {
        Some(spec_key(0x8D))
    } else if s == "INT8"@ {
        Some(spec_key(0x8E))
    } else if s == "INT9"@ {
        Some(spec_key(0x8F))
    } else if s == "LANG1"@ {
        Some(spec_key(0x90))
    } else if s == "LANG2"@ {
        Some(spec_key(0x91))
    } else if s == "LANG3"@ {
        Some(spec_key(0x92))
    } else if s == "LANG4"@ {
        Some(spec_key(0x93))
    } else if s == "LANG5"@ {
        Some(spec_key(0x94))
    } else if s == "LANG6"@ {
        Some(spec_key(0x95))
    } else if s == "LANG7"@ {
        Some(spec_key(0x96))
    } else if s == "LANG8"@ {
        Some(spec_key(0x97))
    } else if s == "LANG9"@ {
        Some(spec_key(0x98))
    } else {
        None
    }
}

fn kc_international(name: &str) -> (r: Option<u32>)
    ensures
        r == spec_kc_international(name@),
{
    if str_eq(name, "INT1") {
        Some(key(0x87))
    } else if str_eq(name, "INT2") {
        Some(key(0x88))
    } else if str_eq(name, "INT3") {
        Some(key(0x89))
    } else if str_eq(name, "INT4") {
        Some(key(0x8A))
    } else if str_eq(name, "INT5") {
        Some(key(0x8B))
    } else if str_eq(name, "INT6") {
        Some(key(0x8C))
    } else if str_eq(name, "INT7") {
        Some(key(0x8D))
    } else if str_eq(name, "INT8") {
        Some(key(0x8E))
    } else if str_eq(name, "INT9") {
        Some(key(0x8F))
    } else if str_eq(name, "LANG1") {
        Some(key(0x90))
    } else if str_eq(name, "LANG2") {
        Some(key(0x91))
    } else if str_eq(name, "LANG3") {
        Some(key(0x92))
    } else if str_eq(name, "LANG4") {
        Some(key(0x93))
    } else if str_eq(name, "LANG5") {
        Some(key(0x94))
    } else if str_eq(name, "LANG6") {
        Some(key(0x95))
    } else if str_eq(name, "LANG7") {
        Some(key(0x96))
    } else if str_eq(name, "LANG8") {
        Some(key(0x97))
    } else if str_eq(name, "LANG9") {
        Some(key(0x98))
    } else {
        None
    }
}

/// The modifier keys under all their aliases.
pub open spec fn spec_kc_modifier_keys(s: Seq<char>) -> Option<u32> {
    if s == "LCTRL"@ {
        Some(spec_key(0xE0))
    } else if s == "LCTL"@ {
        Some(spec_key(0xE0))
    } else if s == "LEFT_CONTROL"@ {
        Some(spec_key(0xE0))
    } else if s == "LSHFT"@ {
        Some(spec_key(0xE1))
    } else if s == "LSHIFT"@ {
        Some(spec_key(0xE1))
    } else if s == "LEFT_SHIFT"@ {
        Some(spec_key(0xE1))
    } else if s == "LALT"@ {
        Some(spec_key(0xE2))
    } else if s == "LEFT_ALT"@ {
        Some(spec_key(0xE2))
    } else if s == "LGUI"@ {
        Some(spec_key(0xE3))
    } else if s == "LEFT_GUI"@ {
        Some(spec_key(0xE3))
    } else if s == "LMETA"@ {
        Some(spec_key(0xE3))
    } else if s == "LWIN"@ {
        Some(spec_key(0xE3))
    } else if s == "LCMD"@ {
        Some(spec_key(0xE3))
    } else if s == "RCTRL"@ {
        Some(spec_key(0xE4))
    } else if s == "RCTL"@ {
        Some(spec_key(0xE4))
    } else if s == "RIGHT_CONTROL"@ {
        Some(spec_key(0xE4))
    } else if s == "RSHFT"@ {
        Some(spec_key(0xE5))
    } else if s == "RSHIFT"@ {
        Some(spec_key(0xE5))
    } else if s == "RIGHT_SHIFT"@ {
        Some(spec_key(0xE5))
    } else if s == "RALT"@ {
        Some(spec_key(0xE6))
    } else if s == "RIGHT_ALT"@ {
        Some(spec_key(0xE6))
    } else if s == "RGUI"@ {
        Some(spec_key(0xE7))
    } else if s == "RIGHT_GUI"@ {
        Some(spec_key(0xE7))
    } else if s == "RMETA"@ {
        Some(spec_key(0xE7))
    } else if s == "RWIN"@ {
        Some(spec_key(0xE7))
    } else if s == "RCMD"@ {
        Some(spec_key(0xE7))
    } else {
        None
    }
}

fn kc_modifier_keys(name: &str) -> (r: Option<u32>)
    ensures
        r == spec_kc_modifier_keys(name@),
{
    if str_eq(name, "LCTRL") {
        Some(key(0xE0))
    } else if str_eq(name, "LCTL") {
        Some(key(0xE0))
    } else if str_eq(name, "LEFT_CONTROL") {
        Some(key(0xE0))
    } else if str_eq(name, "LSHFT") {
        Some(key(0xE1))
    } else if str_eq(name, "LSHIFT") {
        Some(key(0xE1))
    } else if str_eq(name, "LEFT_SHIFT") {
        Some(key(0xE1))
    } else if str_eq(name, "LALT") {
        Some(key(0xE2))
    } else if str_eq(name, "LEFT_ALT") {
        Some(key(0xE2))
    } else if str_eq(name, "LGUI") {
        Some(key(0xE3))
    } else if str_eq(name, "LEFT_GUI") {
        Some(key(0xE3))
    } else if str_eq(name, "LMETA") {
        Some(key(0xE3))
    } else if str_eq(name, "LWIN") {
        Some(key(0xE3))
    } else if str_eq(name, "LCMD") {
        Some(key(0xE3))
    } else if str_eq(name, "RCTRL") {
        Some(key(0xE4))
    } else if str_eq(name, "RCTL") {
        Some(key(0xE4))
    } else if str_eq(name, "RIGHT_CONTROL") {
        Some(key(0xE4))
    } else if str_eq(name, "RSHFT") {
        Some(key(0xE5))
    } else if str_eq(name, "RSHIFT") {
        Some(key(0xE5))
    } else if str_eq(name, "RIGHT_SHIFT") {
        Some(key(0xE5))
    } else if str_eq(name, "RALT") {
        Some(key(0xE6))
    } else if str_eq(name, "RIGHT_ALT") {
        Some(key(0xE6))
    } else if str_eq(name, "RGUI") {
        Some(key(0xE7))
    } else if str_eq(name, "RIGHT_GUI") {
        Some(key(0xE7))
    } else if str_eq(name, "RMETA") {
        Some(key(0xE7))
    } else if str_eq(name, "RWIN") {
        Some(key(0xE7))
    } else if str_eq(name, "RCMD") {
        Some(key(0xE7))
    } else {
        None
    }
}

/// The named shifted symbols, carrying a left-shift bit.
pub open spec fn spec_kc_shifted_symbols(s: Seq<char>) -> Option<u32> {
    if s == "EXCL"@ {
        Some(spec_ls(spec_key(0x1E)))
    } else if s == "EXCLAMATION"@ {
        Some(spec_ls(spec_key(0x1E)))
    } else if s == "AT"@ {
        Some(spec_ls(spec_key(0x1F)))
    } else if s == "AT_SIGN"@ {
        Some(spec_ls(spec_key(0x1F)))
    } else if s == "HASH"@ {
        Some(spec_ls(spec_key(0x20)))
    } else if s == "POUND"@ {
        Some(spec_ls(spec_key(0x20)))
    } else if s == "DLLR"@ {
        Some(spec_ls(spec_key(0x21)))
    } else if s == "DOLLAR"@ {
        Some(spec_ls(spec_key(0x21)))
    } else if s == "PRCNT"@ {
        Some(spec_ls(spec_key(0x22)))
    } else if s == "PERCENT"@ {
        Some(spec_ls(spec_key(0x22)))
    } else if s == "CARET"@ {
        Some(spec_ls(spec_key(0x23)))
    } else if s == "AMPS"@ {
        Some(spec_ls(spec_key(0x24)))
    } else if s == "AMPERSAND"@ {
        Some(spec_ls(spec_key(0x24)))
    } else if s == "STAR"@ {
        Some(spec_ls(spec_key(0x25)))
    } else if s == "ASTERISK"@ {
        Some(spec_ls(spec_key(0x25)))
    } else if s == "ASTRK"@ {
        Some(spec_ls(spec_key(0x25)))
    } else if s == "LPAR"@ {
        Some(spec_ls(spec_key(0x26)))
    } else if s == "LEFT_PARENTHESIS"@ {
        Some(spec_ls(spec_key(0x26)))
    } else if s == "RPAR"@ {
        Some(spec_ls(spec_key(0x27)))
    } else if s == "RIGHT_PARENTHESIS"@ {
        Some(spec_ls(spec_key(0x27)))
    } else if s == "UNDER"@ {
        Some(spec_ls(spec_key(0x2D)))
    } else if s == "UNDERSCORE"@ {
        Some(spec_ls(spec_key(0x2D)))
    } else if s == "PLUS"@ {
        Some(spec_ls(spec_key(0x2E)))
    } else if s == "LBRC"@ {
        Some(spec_ls(spec_key(0x2F)))
    } else if s == "LEFT_BRACE"@ {
        Some(spec_ls(spec_key(0x2F)))
    } else if s == "RBRC"@ {
        Some(spec_ls(spec_key(0x30)))
    } else if s == "RIGHT_BRACE"@ {
        Some(spec_ls(spec_key(0x30)))
    } else if s == "PIPE"@ {
        Some(spec_ls(spec_key(0x31)))
    } else if s == "COLON"@ {
        Some(spec_ls(spec_key(0x33)))
    } else if s == "DQT"@ {
        Some(spec_ls(spec_key(0x34)))
    } else if s == "DOUBLE_QUOTES"@ {
        Some(spec_ls(spec_key(0x34)))
    } else if s == "TILDE"@ {
        Some(spec_ls(spec_key(0x35)))
    } else if s == "LT"@ {
        Some(spec_ls(spec_key(0x36)))
    } else if s == "LESS_THAN"@ {
        Some(spec_ls(spec_key(0x36)))
    } else if s == "GT"@ {
        Some(spec_ls(spec_key(0x37)))
    } else if s == "GREATER_THAN"@ {
        Some(spec_ls(spec_key(0x37)))
    } else if s == "QMARK"@ {
        Some(spec_ls(spec_key(0x38)))
    } else if s == "QUESTION"@ {
        Some(spec_ls(spec_key(0x38)))
    } else {
        None
    }
}

fn kc_shifted_symbols(name: &str) -> (r: Option<u32>)
    ensures
        r == spec_kc_shifted_symbols(name@),
{
    if str_eq(name, "EXCL") {
        Some(ls(key(0x1E)))
    } else if str_eq(name, "EXCLAMATION") {
        Some(ls(key(0x1E)))
    } else if str_eq(name, "AT") {
        Some(ls(key(0x1F)))
    } else if str_eq(name, "AT_SIGN") {
        Some(ls(key(0x1F)))
    } else if str_eq(name, "HASH") {
        Some(ls(key(0x20)))
    } else if str_eq(name, "POUND") {
        Some(ls(key(0x20)))
    } else if str_eq(name, "DLLR") {
        Some(ls(key(0x21)))
    } else if str_eq(name, "DOLLAR") {
        Some(ls(key(0x21)))
    } else if str_eq(name, "PRCNT") {
        Some(ls(key(0x22)))
    } else if str_eq(name, "PERCENT") {
        Some(ls(key(0x22)))
    } else if str_eq(name, "CARET") {
        Some(ls(key(0x23)))
    } else if str_eq(name, "AMPS") {
        Some(ls(key(0x24)))
    } else if str_eq(name, "AMPERSAND") {
        Some(ls(key(0x24)))
    } else if str_eq(name, "STAR") {
        Some(ls(key(0x25)))
    } else if str_eq(name, "ASTERISK") {
        Some(ls(key(0x25)))
    } else if str_eq(name, "ASTRK") {
        Some(ls(key(0x25)))
    } else if str_eq(name, "LPAR") {
        Some(ls(key(0x26)))
    } else if str_eq(name, "LEFT_PARENTHESIS") {
        Some(ls(key(0x26)))
    } else if str_eq(name, "RPAR") {
        Some(ls(key(0x27)))
    } else if str_eq(name, "RIGHT_PARENTHESIS") {
        Some(ls(key(0x27)))
    } else if str_eq(name, "UNDER") {
        Some(ls(key(0x2D)))
    } else if str_eq(name, "UNDERSCORE") {
        Some(ls(key(0x2D)))
    } else if str_eq(name, "PLUS") {
        Some(ls(key(0x2E)))
    } else if str_eq(name, "LBRC") {
        Some(ls(key(0x2F)))
    } else if str_eq(name, "LEFT_BRACE") {
        Some(ls(key(0x2F)))
    } else if str_eq(name, "RBRC") {
        Some(ls(key(0x30)))
    } else if str_eq(name, "RIGHT_BRACE") {
        Some(ls(key(0x30)))
    } else if str_eq(name, "PIPE") {
        Some(ls(key(0x31)))
    } else if str_eq(name, "COLON") {
        Some(ls(key(0x33)))
    } else if str_eq(name, "DQT") {
        Some(ls(key(0x34)))
    } else if str_eq(name, "DOUBLE_QUOTES") {
        Some(ls(key(0x34)))
    } else if str_eq(name, "TILDE") {
        Some(ls(key(0x35)))
    } else if str_eq(name, "LT") {
        Some(ls(key(0x36)))
    } else if str_eq(name, "LESS_THAN") {
        Some(ls(key(0x36)))
    } else if str_eq(name, "GT") {
        Some(ls(key(0x37)))
    } else if str_eq(name, "GREATER_THAN") {
        Some(ls(key(0x37)))
    } else if str_eq(name, "QMARK") {
        Some(ls(key(0x38)))
    } else if str_eq(name, "QUESTION") {
        Some(ls(key(0x38)))
    } else {
        None
    }
}

/// The consumer-page media and system keys.
pub open spec fn spec_kc_consumer(s: Seq<char>) -> Option<u32> {
    if s == "C_POWER"@ {
        Some(spec_consumer(0x30))
    } else if s == "C_SLEEP"@ {
        Some(spec_consumer(0x32))
    } else if s == "C_MENU"@ {
        Some(spec_consumer(0x40))
    } else if s == "C_PLAY"@ {
        Some(spec_consumer(0xB0))
    } else if s == "C_PAUSE"@ {
        Some(spec_consumer(0xB1))
    } else if s == "C_RECORD"@ {
        Some(spec_consumer(0xB2))
    } else if s == "C_FAST_FORWARD"@ {
        Some(spec_consumer(0xB3))
    } else if s == "C_REWIND"@ {
        Some(spec_consumer(0xB4))
    } else if s == "C_NEXT"@ {
        Some(spec_consumer(0xB5))
    } else if s == "C_PREV"@ {
        Some(spec_consumer(0xB6))
    } else if s == "C_PREVIOUS"@ {
        Some(spec_consumer(0xB6))
    } else if s == "C_STOP"@ {
        Some(spec_consumer(0xB7))
    } else if s == "C_EJECT"@ {
        Some(spec_consumer(0xB8))
    } else if s == "C_RW"@ {
        Some(spec_consumer(0xB4))
    } else if s == "C_FF"@ {
        Some(spec_consumer(0xB3))
    } else if s == "C_PP"@ {
        Some(spec_consumer(0xCD))
    } else if s == "C_PLAY_PAUSE"@ {
        Some(spec_consumer(0xCD))
    } else if s == "C_MUTE"@ {
        Some(spec_consumer(0xE2))
    } else if s == "C_VOL_UP"@ {
        Some(spec_consumer(0xE9))
    } else if s == "C_VOLUME_UP"@ {
        Some(spec_consumer(0xE9))
    } else if s == "C_VOL_DN"@ {
        Some(spec_consumer(0xEA))
    } else if s == "C_VOLUME_DOWN"@ {
        Some(spec_consumer(0xEA))
    } else if s == "C_BRI_UP"@ {
        Some(spec_consumer(0x6F))
    } else if s == "C_BRIGHTNESS_INC"@ {
        Some(spec_consumer(0x6F))
    } else if s == "C_BRI_DN"@ {
        Some(spec_consumer(0x70))
    } else if s == "C_BRIGHTNESS_DEC"@ {
        Some(spec_consumer(0x70))
    } else if s == "C_BRI_AUTO"@ {
        Some(spec_consumer(0x71))
    } else if s == "C_AL_CALC"@ {
        Some(spec_consumer(0x192))
    } else if s == "C_AL_WWW"@ {
        Some(spec_consumer(0x196))
    } else if s == "C_AC_SEARCH"@ {
        Some(spec_consumer(0x221))
    } else if s == "C_AC_HOME"@ {
        Some(spec_consumer(0x223))
    } else if s == "C_AC_BACK"@ {
        Some(spec_consumer(0x224))
    } else if s == "C_AC_FORWARD"@ {
        Some(spec_consumer(0x225))
    } else if s == "C_AC_REFRESH"@ {
        Some(spec_consumer(0x227))
    } else if s == "C_AC_BOOKMARKS"@ {
        Some(spec_consumer(0x22A))
    } else {
        None
    }
}

fn kc_consumer(name: &str) -> (r: Option<u32>)
    ensures
        r == spec_kc_consumer(name@),
{
    if str_eq(name, "C_POWER") {
        Some(consumer(0x30))
    } else if str_eq(name, "C_SLEEP") {
        Some(consumer(0x32))
    } else if str_eq(name, "C_MENU") {
        Some(consumer(0x40))
    } else if str_eq(name, "C_PLAY") {
        Some(consumer(0xB0))
    } else if str_eq(name, "C_PAUSE") {
        Some(consumer(0xB1))
    } else if str_eq(name, "C_RECORD") {
        Some(consumer(0xB2))
    } else if str_eq(name, "C_FAST_FORWARD") {
        Some(consumer(0xB3))
    } else if str_eq(name, "C_REWIND") {
        Some(consumer(0xB4))
    } else if str_eq(name, "C_NEXT") {
        Some(consumer(0xB5))
    } else if str_eq(name, "C_PREV") {
        Some(consumer(0xB6))
    } else if str_eq(name, "C_PREVIOUS") {
        Some(consumer(0xB6))
    } else if str_eq(name, "C_STOP") {
        Some(consumer(0xB7))
    } else if str_eq(name, "C_EJECT") {
        Some(consumer(0xB8))
    } else if str_eq(name, "C_RW") {
        Some(consumer(0xB4))
    } else if str_eq(name, "C_FF") {
        Some(consumer(0xB3))
    } else if str_eq(name, "C_PP") {
        Some(consumer(0xCD))
    } else if str_eq(name, "C_PLAY_PAUSE") {
        Some(consumer(0xCD))
    } else if str_eq(name, "C_MUTE") {
        Some(consumer(0xE2))
    } else if str_eq(name, "C_VOL_UP") {
        Some(consumer(0xE9))
    } else if str_eq(name, "C_VOLUME_UP") {
        Some(consumer(0xE9))
    } else if str_eq(name, "C_VOL_DN") {
        Some(consumer(0xEA))
    } else if str_eq(name, "C_VOLUME_DOWN") {
        Some(consumer(0xEA))
    } else if str_eq(name, "C_BRI_UP") {
        Some(consumer(0x6F))
    } else if str_eq(name, "C_BRIGHTNESS_INC") {
        Some(consumer(0x6F))
    } else if str_eq(name, "C_BRI_DN") {
        Some(consumer(0x70))
    } else if str_eq(name, "C_BRIGHTNESS_DEC") {
        Some(consumer(0x70))
    } else if str_eq(name, "C_BRI_AUTO") {
        Some(consumer(0x71))
    } else if str_eq(name, "C_AL_CALC") {
        Some(consumer(0x192))
    } else if str_eq(name, "C_AL_WWW") {
        Some(consumer(0x196))
    } else if str_eq(name, "C_AC_SEARCH") {
        Some(consumer(0x221))
    } else if str_eq(name, "C_AC_HOME") {
        Some(consumer(0x223))
    } else if str_eq(name, "C_AC_BACK") {
        Some(consumer(0x224))
    } else if str_eq(name, "C_AC_FORWARD") {
        Some(consumer(0x225))
    } else if str_eq(name, "C_AC_REFRESH") {
        Some(consumer(0x227))
    } else if str_eq(name, "C_AC_BOOKMARKS") {
        Some(consumer(0x22A))
    } else {
        None
    }
}

/// The full name-to-usage table of the keycode text names.
pub open spec fn spec_keycode_to_hid(s: Seq<char>) -> Option<u32> {
    if spec_kc_letters(s) is Some {
        spec_kc_letters(s)
    } else if spec_kc_numbers(s) is Some {
        spec_kc_numbers(s)
    } else if spec_kc_control(s) is Some {
        spec_kc_control(s)
    } else if spec_kc_symbols(s) is Some {
        spec_kc_symbols(s)
    } else if spec_kc_function_keys(s) is Some {
        spec_kc_function_keys(s)
    } else if spec_kc_navigation(s) is Some {
        spec_kc_navigation(s)
    } else if spec_kc_keypad(s) is Some {
        spec_kc_keypad(s)
    } else if spec_kc_function_keys_high(s) is Some {
        spec_kc_function_keys_high(s)
    } else if spec_kc_international(s) is Some {
        spec_kc_international(s)
    } else if spec_kc_modifier_keys(s) is Some {
        spec_kc_modifier_keys(s)
    } else if spec_kc_shifted_symbols(s) is Some {
        spec_kc_shifted_symbols(s)
    } else if spec_kc_consumer(s) is Some {
        spec_kc_consumer(s)
    } else {
        None
    }
}

/// Look up a keycode name and return its HID usage code.
pub fn keycode_to_hid(name: &str) -> (r: Option<u32>)
    ensures
        r == spec_keycode_to_hid(name@),
{
    let r0 = kc_letters(name);
    if r0.is_some() {
        return r0;
    }
    let r1 = kc_numbers(name);
    if r1.is_some() {
        return r1;
    }
    let r2 = kc_control(name);
    if r2.is_some() {
        return r2;
    }
    let r3 = kc_symbols(name);
    if r3.is_some() {
        return r3;
    }
    let r4 = kc_function_keys(name);
    if r4.is_some() {
        return r4;
    }
    let r5 = kc_navigation(name);
    if r5.is_some() {
        return r5;
    }
    let r6 = kc_keypad(name);
    if r6.is_some() {
        return r6;
    }
    let r7 = kc_function_keys_high(name);
    if r7.is_some() {
        return r7;
    }
    let r8 = kc_international(name);
    if r8.is_some() {
        return r8;
    }
    let r9 = kc_modifier_keys(name);
    if r9.is_some() {
        return r9;
    }
    let r10 = kc_shifted_symbols(name);
    if r10.is_some() {
        return r10;
    }
    let r11 = kc_consumer(name);
    if r11.is_some() {
        return r11;
    }
    None
}

/// The canonical names of the letters codes.
pub open spec fn spec_name_letters(usage: u32) -> Option<Seq<char>> {
    if usage == spec_key(0x04) {
        Some("A"@)
    } else if usage == spec_key(0x05) {
        Some("B"@)
    } else if usage == spec_key(0x06) {
        Some("C"@)
    } else if usage == spec_key(0x07) {
        Some("D"@)
    } else if usage == spec_key(0x08) {
        Some("E"@)
    } else if usage == spec_key(0x09) {
        Some("F"@)
    } else if usage == spec_key(0x0A) {
        Some("G"@)
    } else if usage == spec_key(0x0B) {
        Some("H"@)
    } else if usage == spec_key(0x0C) {
        Some("I"@)
    } else if usage == spec_key(0x0D) {
        Some("J"@)
    } else if usage == spec_key(0x0E) {
        Some("K"@)
    } else if usage == spec_key(0x0F) {
        Some("L"@)
    } else if usage == spec_key(0x10) {
        Some("M"@)
    } else if usage == spec_key(0x11) {
        Some("N"@)
    } else if usage == spec_key(0x12) {
        Some("O"@)
    } else if usage == spec_key(0x13) {
        Some("P"@)
    } else if usage == spec_key(0x14) {
        Some("Q"@)
    } else if usage == spec_key(0x15) {
        Some("R"@)
    } else if usage == spec_key(0x16) {
        Some("S"@)
    } else if usage == spec_key(0x17) {
        Some("T"@)
    } else if usage == spec_key(0x18) {
        Some("U"@)
    } else if usage == spec_key(0x19) {
        Some("V"@)
    } else if usage == spec_key(0x1A) {
        Some("W"@)
    } else if usage == spec_key(0x1B) {
        Some("X"@)
    } else if usage == spec_key(0x1C) {
        Some("Y"@)
    } else if usage == spec_key(0x1D) {
        Some("Z"@)
    } else {
        None
    }
}

fn name_letters(usage: u32) -> (r: Option<&'static str>)
    ensures
        (match r {
            Some(n) => spec_name_letters(usage) == Some(n@),
            None => spec_name_letters(usage) is None,
        }),
{
    if usage == key(0x04) {
        Some("A")
    } else if usage == key(0x05) {
        Some("B")
    } else if usage == key(0x06) {
        Some("C")
    } else if usage == key(0x07) {
        Some("D")
    } else if usage == key(0x08) {
        Some("E")
    } else if usage == key(0x09) {
        Some("F")
    } else if usage == key(0x0A) {
        Some("G")
    } else if usage == key(0x0B) {
        Some("H")
    } else if usage == key(0x0C) {
        Some("I")
    } else if usage == key(0x0D) {
        Some("J")
    } else if usage == key(0x0E) {
        Some("K")
    } else if usage == key(0x0F) {
        Some("L")
    } else if usage == key(0x10) {
        Some("M")
    } else if usage == key(0x11) {
        Some("N")
    } else if usage == key(0x12) {
        Some("O")
    } else if usage == key(0x13) {
        Some("P")
    } else if usage == key(0x14) {
        Some("Q")
    } else if usage == key(0x15) {
        Some("R")
    } else if usage == key(0x16) {
        Some("S")
    } else if usage == key(0x17) {
        Some("T")
    } else if usage == key(0x18) {
        Some("U")
    } else if usage == key(0x19) {
        Some("V")
    } else if usage == key(0x1A) {
        Some("W")
    } else if usage == key(0x1B) {
        Some("X")
    } else if usage == key(0x1C) {
        Some("Y")
    } else if usage == key(0x1D) {
        Some("Z")
    } else {
        None
    }
}

/// The canonical names of the numbers codes.
pub open spec fn spec_name_numbers(usage: u32) -> Option<Seq<char>> {
    if usage == spec_key(0x1E) {
        Some("N1"@)
    } else if usage == spec_key(0x1F) {
        Some("N2"@)
    } else if usage == spec_key(0x20) {
        Some("N3"@)
    } else if usage == spec_key(0x21) {
        Some("N4"@)
    } else if usage == spec_key(0x22) {
        Some("N5"@)
    } else if usage == spec_key(0x23) {
        Some("N6"@)
    } else if usage == spec_key(0x24) {
        Some("N7"@)
    } else if usage == spec_key(0x25) {
        Some("N8"@)
    } else if usage == spec_key(0x26) {
        Some("N9"@)
    } else if usage == spec_key(0x27) {
        Some("N0"@)
    } else {
        None
    }
}

fn name_numbers(usage: u32) -> (r: Option<&'static str>)
    ensures
        (match r {
            Some(n) => spec_name_numbers(usage) == Some(n@),
            None => spec_name_numbers(usage) is None,
        }),
{
    if usage == key(0x1E) {
        Some("N1")
    } else if usage == key(0x1F) {
        Some("N2")
    } else if usage == key(0x20) {
        Some("N3")
    } else if usage == key(0x21) {
        Some("N4")
    } else if usage == key(0x22) {
        Some("N5")
    } else if usage == key(0x23) {
        Some("N6")
    } else if usage == key(0x24) {
        Some("N7")
    } else if usage == key(0x25) {
        Some("N8")
    } else if usage == key(0x26) {
        Some("N9")
    } else if usage == key(0x27) {
        Some("N0")
    } else {
        None
    }
}

/// The canonical names of the control codes.
pub open spec fn spec_name_control(usage: u32) -> Option<Seq<char>> {
    if usage == spec_key(0x28) {
        Some("RET"@)
    } else if usage == spec_key(0x29) {
        Some("ESC"@)
    } else if usage == spec_key(0x2A) {
        Some("BSPC"@)
    } else if usage == spec_key(0x2B) {
        Some("TAB"@)
    } else if usage == spec_key(0x2C) {
        Some("SPACE"@)
    } else {
        None
    }
}

fn name_control(usage: u32) -> (r: Option<&'static str>)
    ensures
        (match r {
            Some(n) => spec_name_control(usage) == Some(n@),
            None => spec_name_control(usage) is None,
        }),
{
    if usage == key(0x28) {
        Some("RET")
    } else if usage == key(0x29) {
        Some("ESC")
    } else if usage == key(0x2A) {
        Some("BSPC")
    } else if usage == key(0x2B) {
        Some("TAB")
    } else if usage == key(0x2C) {
        Some("SPACE")
    } else {
        None
    }
}

/// The canonical names of the symbols codes.
pub open spec fn spec_name_symbols(usage: u32) -> Option<Seq<char>> {
    if usage == spec_key(0x2D) {
        Some("MINUS"@)
    } else if usage == spec_key(0x2E) {
        Some("EQUAL"@)
    } else if usage == spec_key(0x2F) {
        Some("LBKT"@)
    } else if usage == spec_key(0x30) {
        Some("RBKT"@)
    } else if usage == spec_key(0x31) {
        Some("BSLH"@)
    } else if usage == spec_key(0x32) {
        Some("NON_US_HASH"@)
    } else if usage == spec_key(0x33) {
        Some("SEMI"@)
    } else if usage == spec_key(0x34) {
        Some("SQT"@)
    } else if usage == spec_key(0x35) {
        Some("GRAVE"@)
    } else if usage == spec_key(0x36) {
        Some("COMMA"@)
    } else if usage == spec_key(0x37) {
        Some("DOT"@)
    } else if usage == spec_key(0x38) {
        Some("FSLH"@)
    } else if usage == spec_key(0x39) {
        Some("CAPS"@)
    } else {
        None
    }
}

fn name_symbols(usage: u32) -> (r: Option<&'static str>)
    ensures
        (match r {
            Some(n) => spec_name_symbols(usage) == Some(n@),
            None => spec_name_symbols(usage) is None,
        }),
{
    if usage == key(0x2D) {
        Some("MINUS")
    } else if usage == key(0x2E) {
        Some("EQUAL")
    } else if usage == key(0x2F) {
        Some("LBKT")
    } else if usage == key(0x30) {
        Some("RBKT")
    } else if usage == key(0x31) {
        Some("BSLH")
    } else if usage == key(0x32) {
        Some("NON_US_HASH")
    } else if usage == key(0x33) {
        Some("SEMI")
    } else if usage == key(0x34) {
        Some("SQT")
    } else if usage == key(0x35) {
        Some("GRAVE")
    } else if usage == key(0x36) {
        Some("COMMA")
    } else if usage == key(0x37) {
        Some("DOT")
    } else if usage == key(0x38) {
        Some("FSLH")
    } else if usage == key(0x39) {
        Some("CAPS")
    } else {
        None
    }
}

/// The canonical names of the function keys codes.
pub open spec fn spec_name_function_keys(usage: u32) -> Option<Seq<char>> {
    if usage == spec_key(0x3A) {
        Some("F1"@)
    } else if usage == spec_key(0x3B) {
        Some("F2"@)
    } else if usage == spec_key(0x3C) {
        Some("F3"@)
    } else if usage == spec_key(0x3D) {
        Some("F4"@)
    } else if usage == spec_key(0x3E) {
        Some("F5"@)
    } else if usage == spec_key(0x3F) {
        Some("F6"@)
    } else if usage == spec_key(0x40) {
        Some("F7"@)
    } else if usage == spec_key(0x41) {
        Some("F8"@)
    } else if usage == spec_key(0x42) {
        Some("F9"@)
    } else if usage == spec_key(0x43) {
        Some("F10"@)
    } else if usage == spec_key(0x44) {
        Some("F11"@)
    } else if usage == spec_key(0x45) {
        Some("F12"@)
    } else if usage == spec_key(0x46) {
        Some("PSCRN"@)
    } else if usage == spec_key(0x47) {
        Some("SLCK"@)
    } else if usage == spec_key(0x48) {
        Some("PAUSE_BREAK"@)
    } else {
        None
    }
}

fn name_function_keys(usage: u32) -> (r: Option<&'static str>)
    ensures
        (match r {
            Some(n) => spec_name_function_keys(usage) == Some(n@),
            None => spec_name_function_keys(usage) is None,
        }),
{
    if usage == key(0x3A) {
        Some("F1")
    } else if usage == key(0x3B) {
        Some("F2")
    } else if usage == key(0x3C) {
        Some("F3")
    } else if usage == key(0x3D) {
        Some("F4")
    } else if usage == key(0x3E) {
        Some("F5")
    } else if usage == key(0x3F) {
        Some("F6")
    } else if usage == key(0x40) {
        Some("F7")
    } else if usage == key(0x41) {
        Some("F8")
    } else if usage == key(0x42) {
        Some("F9")
    } else if usage == key(0x43) {
        Some("F10")
    } else if usage == key(0x44) {
        Some("F11")
    } else if usage == key(0x45) {
        Some("F12")
    } else if usage == key(0x46) {
        Some("PSCRN")
    } else if usage == key(0x47) {
        Some("SLCK")
    } else if usage == key(0x48) {
        Some("PAUSE_BREAK")
    } else {
        None
    }
}

/// The canonical names of the navigation codes.
pub open spec fn spec_name_navigation(usage: u32) -> Option<Seq<char>> {
    if usage == spec_key(0x49) {
        Some("INS"@)
    } else if usage == spec_key(0x4A) {
        Some("HOME"@)
    } else if usage == spec_key(0x4B) {
        Some("PG_UP"@)
    } else if usage == spec_key(0x4C) {
        Some("DEL"@)
    } else if usage == spec_key(0x4D) {
        Some("END"@)
    } else if usage == spec_key(0x4E) {
        Some("PG_DN"@)
    } else if usage == spec_key(0x4F) {
        Some("RIGHT"@)
    } else if usage == spec_key(0x50) {
        Some("LEFT"@)
    } else if usage == spec_key(0x51) {
        Some("DOWN"@)
    } else if usage == spec_key(0x52) {
        Some("UP"@)
    } else {
        None
    }
}

fn name_navigation(usage: u32) -> (r: Option<&'static str>)
    ensures
        (match r {
            Some(n) => spec_name_navigation(usage) == Some(n@),
            None => spec_name_navigation(usage) is None,
        }),
{
    if usage == key(0x49) {
        Some("INS")
    } else if usage == key(0x4A) {
        Some("HOME")
    } else if usage == key(0x4B) {
        Some("PG_UP")
    } else if usage == key(0x4C) {
        Some("DEL")
    } else if usage == key(0x4D) {
        Some("END")
    } else if usage == key(0x4E) {
        Some("PG_DN")
    } else if usage == key(0x4F) {
        Some("RIGHT")
    } else if usage == key(0x50) {
        Some("LEFT")
    } else if usage == key(0x51) {
        Some("DOWN")
    } else if usage == key(0x52) {
        Some("UP")
    } else {
        None
    }
}

/// The canonical names of the keypad codes.
pub open spec fn spec_name_keypad(usage: u32) -> Option<Seq<char>> {
    if usage == spec_key(0x53) {
        Some("KP_NLCK"@)
    } else if usage == spec_key(0x54) {
        Some("KP_DIVIDE"@)
    } else if usage == spec_key(0x55) {
        Some("KP_MULTIPLY"@)
    } else if usage == spec_key(0x56) {
        Some("KP_MINUS"@)
    } else if usage == spec_key(0x57) {
        Some("KP_PLUS"@)
    } else if usage == spec_key(0x58) {
        Some("KP_ENTER"@)
    } else if usage == spec_key(0x59) {
        Some("KP_N1"@)
    } else if usage == spec_key(0x5A) {
        Some("KP_N2"@)
    } else if usage == spec_key(0x5B) {
        Some("KP_N3"@)
    } else if usage == spec_key(0x5C) {
        Some("KP_N4"@)
    } else if usage == spec_key(0x5D) {
        Some("KP_N5"@)
    } else if usage == spec_key(0x5E) {
        Some("KP_N6"@)
    } else if usage == spec_key(0x5F) {
        Some("KP_N7"@)
    } else if usage == spec_key(0x60) {
        Some("KP_N8"@)
    } else if usage == spec_key(0x61) {
        Some("KP_N9"@)
    } else if usage == spec_key(0x62) {
        Some("KP_N0"@)
    } else if usage == spec_key(0x63) {
        Some("KP_DOT"@)
    } else if usage == spec_key(0x64) {
        Some("NON_US_BSLH"@)
    } else if usage == spec_key(0x65) {
        Some("K_APP"@)
    } else {
        None
    }
}

fn name_keypad(usage: u32) -> (r: Option<&'static str>)
    ensures
        (match r {
            Some(n) => spec_name_keypad(usage) == Some(n@),
            None => spec_name_keypad(usage) is None,
        }),
{
    if usage == key(0x53) {
        Some("KP_NLCK")
    } else if usage == key(0x54) {
        Some("KP_DIVIDE")
    } else if usage == key(0x55) {
        Some("KP_MULTIPLY")
    } else if usage == key(0x56) {
        Some("KP_MINUS")
    } else if usage == key(0x57) {
        Some("KP_PLUS")
    } else if usage == key(0x58) {
        Some("KP_ENTER")
    } else if usage == key(0x59) {
        Some("KP_N1")
    } else if usage == key(0x5A) {
        Some("KP_N2")
    } else if usage == key(0x5B) {
        Some("KP_N3")
    } else if usage == key(0x5C) {
        Some("KP_N4")
    } else if usage == key(0x5D) {
        Some("KP_N5")
    } else if usage == key(0x5E) {
        Some("KP_N6")
    } else if usage == key(0x5F) {
        Some("KP_N7")
    } else if usage == key(0x60) {
        Some("KP_N8")
    } else if usage == key(0x61) {
        Some("KP_N9")
    } else if usage == key(0x62) {
        Some("KP_N0")
    } else if usage == key(0x63) {
        Some("KP_DOT")
    } else if usage == key(0x64) {
        Some("NON_US_BSLH")
    } else if usage == key(0x65) {
        Some("K_APP")
    } else {
        None
    }
}

/// The canonical names of the function keys high codes.
pub open spec fn spec_name_function_keys_high(usage: u32) -> Option<Seq<char>> {
    if usage == spec_key(0x68) {
        Some("F13"@)
    } else if usage == spec_key(0x69) {
        Some("F14"@)
    } else if usage == spec_key(0x6A) {
        Some("F15"@)
    } else if usage == spec_key(0x6B) {
        Some("F16"@)
    } else if usage == spec_key(0x6C) {
        Some("F17"@)
    } else if usage == spec_key(0x6D) {
        Some("F18"@)
    } else if usage == spec_key(0x6E) {
        Some("F19"@)
    } else if usage == spec_key(0x6F) {
        Some("F20"@)
    } else if usage == spec_key(0x70) {
        Some("F21"@)
    } else if usage == spec_key(0x71) {
        Some("F22"@)
    } else if usage == spec_key(0x72) {
        Some("F23"@)
    } else if usage == spec_key(0x73) {
        Some("F24"@)
    } else {
        None
    }
}

fn name_function_keys_high(usage: u32) -> (r: Option<&'static str>)
    ensures
        (match r {
            Some(n) => spec_name_function_keys_high(usage) == Some(n@),
            None => spec_name_function_keys_high(usage) is None,
        }),
{
    if usage == key(0x68) {
        Some("F13")
    } else if usage == key(0x69) {
        Some("F14")
    } else if usage == key(0x6A) {
        Some("F15")
    } else if usage == key(0x6B) {
        Some("F16")
    } else if usage == key(0x6C) {
        Some("F17")
    } else if usage == key(0x6D) {
        Some("F18")
    } else if usage == key(0x6E) {
        Some("F19")
    } else if usage == key(0x6F) {
        Some("F20")
    } else if usage == key(0x70) {
        Some("F21")
    } else if usage == key(0x71) {
        Some("F22")
    } else if usage == key(0x72) {
        Some("F23")
    } else if usage == key(0x73) {
        Some("F24")
    } else {
        None
    }
}

/// The canonical names of the international codes.
pub open spec fn spec_name_international(usage: u32) -> Option<Seq<char>> {
    if usage == spec_key(0x87) {
        Some("INT1"@)
    } else if usage == spec_key(0x88) {
        Some("INT2"@)
    } else if usage == spec_key(0x89) {
        Some("INT3"@)
    } else if usage == spec_key(0x8A) {
        Some("INT4"@)
    } else if usage == spec_key(0x8B) {
        Some("INT5"@)
    } else if usage == spec_key(0x8C) {
        Some("INT6"@)
    } else if usage == spec_key(0x8D) {
        Some("INT7"@)
    } else if usage == spec_key(0x8E) {
        Some("INT8"@)
    } else if usage == spec_key(0x8F) {
        Some("INT9"@)
    } else if usage == spec_key(0x90) {
        Some("LANG1"@)
    } else if usage == spec_key(0x91) {
        Some("LANG2"@)
    } else if usage == spec_key(0x92) {
        Some("LANG3"@)
    } else if usage == spec_key(0x93) {
        Some("LANG4"@)
    } else if usage == spec_key(0x94) {
        Some("LANG5"@)
    } else if usage == spec_key(0x95) {
        Some("LANG6"@)
    } else if usage == spec_key(0x96) {
        Some("LANG7"@)
    } else if usage == spec_key(0x97) {
        Some("LANG8"@)
    } else if usage == spec_key(0x98) {
        Some("LANG9"@)
    } else {
        None
    }
}

fn name_international(usage: u32) -> (r: Option<&'static str>)
    ensures
        (match r {
            Some(n) => spec_name_international(usage) == Some(n@),
            None => spec_name_international(usage) is None,
        }),
{
    if usage == key(0x87) {
        Some("INT1")
    } else if usage == key(0x88) {
        Some("INT2")
    } else if usage == key(0x89) {
        Some("INT3")
    } else if usage == key(0x8A) {
        Some("INT4")
    } else if usage == key(0x8B) {
        Some("INT5")
    } else if usage == key(0x8C) {
        Some("INT6")
    } else if usage == key(0x8D) {
        Some("INT7")
    } else if usage == key(0x8E) {
        Some("INT8")
    } else if usage == key(0x8F) {
        Some("INT9")
    } else if usage == key(0x90) {
        Some("LANG1")
    } else if usage == key(0x91) {
        Some("LANG2")
    } else if usage == key(0x92) {
        Some("LANG3")
    } else if usage == key(0x93) {
        Some("LANG4")
    } else if usage == key(0x94) {
        Some("LANG5")
    } else if usage == key(0x95) {
        Some("LANG6")
    } else if usage == key(0x96) {
        Some("LANG7")
    } else if usage == key(0x97) {
        Some("LANG8")
    } else if usage == key(0x98) {
        Some("LANG9")
    } else {
        None
    }
}

/// The canonical names of the modifier keys codes.
pub open spec fn spec_name_modifier_keys(usage: u32) -> Option<Seq<char>> {
    if usage == spec_key(0xE0) {
        Some("LCTRL"@)
    } else if usage == spec_key(0xE1) {
        Some("LSHFT"@)
    } else if usage == spec_key(0xE2) {
        Some("LALT"@)
    } else if usage == spec_key(0xE3) {
        Some("LGUI"@)
    } else if usage == spec_key(0xE4) {
        Some("RCTRL"@)
    } else if usage == spec_key(0xE5) {
        Some("RSHFT"@)
    } else if usage == spec_key(0xE6) {
        Some("RALT"@)
    } else if usage == spec_key(0xE7) {
        Some("RGUI"@)
    } else {
        None
    }
}

fn name_modifier_keys(usage: u32) -> (r: Option<&'static str>)
    ensures
        (match r {
            Some(n) => spec_name_modifier_keys(usage) == Some(n@),
            None => spec_name_modifier_keys(usage) is None,
        }),
{
    if usage == key(0xE0) {
        Some("LCTRL")
    } else if usage == key(0xE1) {
        Some("LSHFT")
    } else if usage == key(0xE2) {
        Some("LALT")
    } else if usage == key(0xE3) {
        Some("LGUI")
    } else if usage == key(0xE4) {
        Some("RCTRL")
    } else if usage == key(0xE5) {
        Some("RSHFT")
    } else if usage == key(0xE6) {
        Some("RALT")
    } else if usage == key(0xE7) {
        Some("RGUI")
    } else {
        None
    }
}

/// The canonical names of the shifted symbols codes.
pub open spec fn spec_name_shifted_symbols(usage: u32) -> Option<Seq<char>> {
    if usage == spec_ls(spec_key(0x1E)) {
        Some("EXCL"@)
    } else if usage == spec_ls(spec_key(0x1F)) {
        Some("AT"@)
    } else if usage == spec_ls(spec_key(0x20)) {
        Some("HASH"@)
    } else if usage == spec_ls(spec_key(0x21)) {
        Some("DLLR"@)
    } else if usage == spec_ls(spec_key(0x22)) {
        Some("PRCNT"@)
    } else if usage == spec_ls(spec_key(0x23)) {
        Some("CARET"@)
    } else if usage == spec_ls(spec_key(0x24)) {
        Some("AMPS"@)
    } else if usage == spec_ls(spec_key(0x25)) {
        Some("STAR"@)
    } else if usage == spec_ls(spec_key(0x26)) {
        Some("LPAR"@)
    } else if usage == spec_ls(spec_key(0x27)) {
        Some("RPAR"@)
    } else if usage == spec_ls(spec_key(0x2D)) {
        Some("UNDER"@)
    } else if usage == spec_ls(spec_key(0x2E)) {
        Some("PLUS"@)
    } else if usage == spec_ls(spec_key(0x2F)) {
        Some("LBRC"@)
    } else if usage == spec_ls(spec_key(0x30)) {
        Some("RBRC"@)
    } else if usage == spec_ls(spec_key(0x31)) {
        Some("PIPE"@)
    } else if usage == spec_ls(spec_key(0x33)) {
        Some("COLON"@)
    } else if usage == spec_ls(spec_key(0x34)) {
        Some("DQT"@)
    } else if usage == spec_ls(spec_key(0x35)) {
        Some("TILDE"@)
    } else if usage == spec_ls(spec_key(0x36)) {
        Some("LT"@)
    } else if usage == spec_ls(spec_key(0x37)) {
        Some("GT"@)
    } else if usage == spec_ls(spec_key(0x38)) {
        Some("QMARK"@)
    } else {
        None
    }
}

fn name_shifted_symbols(usage: u32) -> (r: Option<&'static str>)
    ensures
        (match r {
            Some(n) => spec_name_shifted_symbols(usage) == Some(n@),
            None => spec_name_shifted_symbols(usage) is None,
        }),
{
    if usage == ls(key(0x1E)) {
        Some("EXCL")
    } else if usage == ls(key(0x1F)) {
        Some("AT")
    } else if usage == ls(key(0x20)) {
        Some("HASH")
    } else if usage == ls(key(0x21)) {
        Some("DLLR")
    } else if usage == ls(key(0x22)) {
        Some("PRCNT")
    } else if usage == ls(key(0x23)) {
        Some("CARET")
    } else if usage == ls(key(0x24)) {
        Some("AMPS")
    } else if usage == ls(key(0x25)) {
        Some("STAR")
    } else if usage == ls(key(0x26)) {
        Some("LPAR")
    } else if usage == ls(key(0x27)) {
        Some("RPAR")
    } else if usage == ls(key(0x2D)) {
        Some("UNDER")
    } else if usage == ls(key(0x2E)) {
        Some("PLUS")
    } else if usage == ls(key(0x2F)) {
        Some("LBRC")
    } else if usage == ls(key(0x30)) {
        Some("RBRC")
    } else if usage == ls(key(0x31)) {
        Some("PIPE")
    } else if usage == ls(key(0x33)) {
        Some("COLON")
    } else if usage == ls(key(0x34)) {
        Some("DQT")
    } else if usage == ls(key(0x35)) {
        Some("TILDE")
    } else if usage == ls(key(0x36)) {
        Some("LT")
    } else if usage == ls(key(0x37)) {
        Some("GT")
    } else if usage == ls(key(0x38)) {
        Some("QMARK")
    } else {
        None
    }
}

/// The canonical names of the consumer codes.
pub open spec fn spec_name_consumer(usage: u32) -> Option<Seq<char>> {
    if usage == spec_consumer(0x30) {
        Some("C_POWER"@)
    } else if usage == spec_consumer(0x32) {
        Some("C_SLEEP"@)
    } else if usage == spec_consumer(0x40) {
        Some("C_MENU"@)
    } else if usage == spec_consumer(0xB0) {
        Some("C_PLAY"@)
    } else if usage == spec_consumer(0xB1) {
        Some("C_PAUSE"@)
    } else if usage == spec_consumer(0xB2) {
        Some("C_RECORD"@)
    } else if usage == spec_consumer(0xB3) {
        Some("C_FAST_FORWARD"@)
    } else if usage == spec_consumer(0xB4) {
        Some("C_REWIND"@)
    } else if usage == spec_consumer(0xB5) {
        Some("C_NEXT"@)
    } else if usage == spec_consumer(0xB6) {
        Some("C_PREV"@)
    } else if usage == spec_consumer(0xB7) {
        Some("C_STOP"@)
    } else if usage == spec_consumer(0xB8) {
        Some("C_EJECT"@)
    } else if usage == spec_consumer(0xCD) {
        Some("C_PP"@)
    } else if usage == spec_consumer(0xE2) {
        Some("C_MUTE"@)
    } else if usage == spec_consumer(0xE9) {
        Some("C_VOL_UP"@)
    } else if usage == spec_consumer(0xEA) {
        Some("C_VOL_DN"@)
    } else if usage == spec_consumer(0x6F) {
        Some("C_BRI_UP"@)
    } else if usage == spec_consumer(0x70) {
        Some("C_BRI_DN"@)
    } else if usage == spec_consumer(0x71) {
        Some("C_BRI_AUTO"@)
    } else if usage == spec_consumer(0x192) {
        Some("C_AL_CALC"@)
    } else if usage == spec_consumer(0x196) {
        Some("C_AL_WWW"@)
    } else if usage == spec_consumer(0x221) {
        Some("C_AC_SEARCH"@)
    } else if usage == spec_consumer(0x223) {
        Some("C_AC_HOME"@)
    } else if usage == spec_consumer(0x224) {
        Some("C_AC_BACK"@)
    } else if usage == spec_consumer(0x225) {
        Some("C_AC_FORWARD"@)
    } else if usage == spec_consumer(0x227) {
        Some("C_AC_REFRESH"@)
    } else if usage == spec_consumer(0x22A) {
        Some("C_AC_BOOKMARKS"@)
    } else {
        None
    }
}

fn name_consumer(usage: u32) -> (r: Option<&'static str>)
    ensures
        (match r {
            Some(n) => spec_name_consumer(usage) == Some(n@),
            None => spec_name_consumer(usage) is None,
        }),
{
    if usage == consumer(0x30) {
        Some("C_POWER")
    } else if usage == consumer(0x32) {
        Some("C_SLEEP")
    } else if usage == consumer(0x40) {
        Some("C_MENU")
    } else if usage == consumer(0xB0) {
        Some("C_PLAY")
    } else if usage == consumer(0xB1) {
        Some("C_PAUSE")
    } else if usage == consumer(0xB2) {
        Some("C_RECORD")
    } else if usage == consumer(0xB3) {
        Some("C_FAST_FORWARD")
    } else if usage == consumer(0xB4) {
        Some("C_REWIND")
    } else if usage == consumer(0xB5) {
        Some("C_NEXT")
    } else if usage == consumer(0xB6) {
        Some("C_PREV")
    } else if usage == consumer(0xB7) {
        Some("C_STOP")
    } else if usage == consumer(0xB8) {
        Some("C_EJECT")
    } else if usage == consumer(0xCD) {
        Some("C_PP")
    } else if usage == consumer(0xE2) {
        Some("C_MUTE")
    } else if usage == consumer(0xE9) {
        Some("C_VOL_UP")
    } else if usage == consumer(0xEA) {
        Some("C_VOL_DN")
    } else if usage == consumer(0x6F) {
        Some("C_BRI_UP")
    } else if usage == consumer(0x70) {
        Some("C_BRI_DN")
    } else if usage == consumer(0x71) {
        Some("C_BRI_AUTO")
    } else if usage == consumer(0x192) {
        Some("C_AL_CALC")
    } else if usage == consumer(0x196) {
        Some("C_AL_WWW")
    } else if usage == consumer(0x221) {
        Some("C_AC_SEARCH")
    } else if usage == consumer(0x223) {
        Some("C_AC_HOME")
    } else if usage == consumer(0x224) {
        Some("C_AC_BACK")
    } else if usage == consumer(0x225) {
        Some("C_AC_FORWARD")
    } else if usage == consumer(0x227) {
        Some("C_AC_REFRESH")
    } else if usage == consumer(0x22A) {
        Some("C_AC_BOOKMARKS")
    } else {
        None
    }
}

/// The usage-to-name direction of the table: the first (canonical) name of a code.
pub open spec fn spec_hid_to_keycode(usage: u32) -> Option<Seq<char>> {
    if spec_name_letters(usage) is Some {
        spec_name_letters(usage)
    } else if spec_name_numbers(usage) is Some {
        spec_name_numbers(usage)
    } else if spec_name_control(usage) is Some {
        spec_name_control(usage)
    } else if spec_name_symbols(usage) is Some {
        spec_name_symbols(usage)
    } else if spec_name_function_keys(usage) is Some {
        spec_name_function_keys(usage)
    } else if spec_name_navigation(usage) is Some {
        spec_name_navigation(usage)
    } else if spec_name_keypad(usage) is Some {
        spec_name_keypad(usage)
    } else if spec_name_function_keys_high(usage) is Some {
        spec_name_function_keys_high(usage)
    } else if spec_name_international(usage) is Some {
        spec_name_international(usage)
    } else if spec_name_modifier_keys(usage) is Some {
        spec_name_modifier_keys(usage)
    } else if spec_name_shifted_symbols(usage) is Some {
        spec_name_shifted_symbols(usage)
    } else if spec_name_consumer(usage) is Some {
        spec_name_consumer(usage)
    } else {
        None
    }
}

/// Reverse lookup: HID usage code to its canonical keycode name.
pub fn hid_to_keycode(usage: u32) -> (r: Option<&'static str>)
    ensures
        (match r {
            Some(n) => spec_hid_to_keycode(usage) == Some(n@),
            None => spec_hid_to_keycode(usage) is None,
        }),
{
    let r0 = name_letters(usage);
    if r0.is_some() {
        proof {
            assert(spec_name_letters(usage) is Some);
        }
        return r0;
    }
    let r1 = name_numbers(usage);
    if r1.is_some() {
        proof {
            assert(spec_name_numbers(usage) is Some);
        }
        return r1;
    }
    let r2 = name_control(usage);
    if r2.is_some() {
        proof {
            assert(spec_name_control(usage) is Some);
        }
        return r2;
    }
    let r3 = name_symbols(usage);
    if r3.is_some() {
        proof {
            assert(spec_name_symbols(usage) is Some);
        }
        return r3;
    }
    let r4 = name_function_keys(usage);
    if r4.is_some() {
        proof {
            assert(spec_name_function_keys(usage) is Some);
        }
        return r4;
    }
    let r5 = name_navigation(usage);
    if r5.is_some() {
        proof {
            assert(spec_name_navigation(usage) is Some);
        }
        return r5;
    }
    let r6 = name_keypad(usage);
    if r6.is_some() {
        proof {
            assert(spec_name_keypad(usage) is Some);
        }
        return r6;
    }
    let r7 = name_function_keys_high(usage);
    if r7.is_some() {
        proof {
            assert(spec_name_function_keys_high(usage) is Some);
        }
        return r7;
    }
    let r8 = name_international(usage);
    if r8.is_some() {
        proof {
            assert(spec_name_international(usage) is Some);
        }
        return r8;
    }
    let r9 = name_modifier_keys(usage);
    if r9.is_some() {
        proof {
            assert(spec_name_modifier_keys(usage) is Some);
        }
        return r9;
    }
    let r10 = name_shifted_symbols(usage);
    if r10.is_some() {
        proof {
            assert(spec_name_shifted_symbols(usage) is Some);
        }
        return r10;
    }
    let r11 = name_consumer(usage);
    if r11.is_some() {
        proof {
            assert(spec_name_consumer(usage) is Some);
        }
        return r11;
    }
    None
}

/// One hexadecimal digit, upper case.
pub open spec fn spec_hex_digit(n: u32) -> char {
    if n == 0 {
        '0'
    } else if n == 1 {
        '1'
    } else if n == 2 {
        '2'
    } else if n == 3 {
        '3'
    } else if n == 4 {
        '4'
    } else if n == 5 {
        '5'
    } else if n == 6 {
        '6'
    } else if n == 7 {
        '7'
    } else if n == 8 {
        '8'
    } else if n == 9 {
        '9'
    } else if n == 10 {
        'A'
    } else if n == 11 {
        'B'
    } else if n == 12 {
        'C'
    } else if n == 13 {
        'D'
    } else if n == 14 {
        'E'
    } else {
        'F'
    }
}

fn hex_digit(n: u32) -> (c: char)
    requires
        n < 16,
    ensures
        c == spec_hex_digit(n),
{
    if n == 0 {
        '0'
    } else if n == 1 {
        '1'
    } else if n == 2 {
        '2'
    } else if n == 3 {
        '3'
    } else if n == 4 {
        '4'
    } else if n == 5 {
        '5'
    } else if n == 6 {
        '6'
    } else if n == 7 {
        '7'
    } else if n == 8 {
        '8'
    } else if n == 9 {
        '9'
    } else if n == 10 {
        'A'
    } else if n == 11 {
        'B'
    } else if n == 12 {
        'C'
    } else if n == 13 {
        'D'
    } else if n == 14 {
        'E'
    } else {
        'F'
    }
}

/// The display form of an unknown usage code: `0x` and eight upper-case hex
/// digits.
pub open spec fn spec_hex_display(v: u32) -> Seq<char> {
    "0x"@ + Seq::new(8, |i: int| spec_hex_digit((v >> ((28 - 4 * i) as u32)) & 0xF))
}

fn hex_display(v: u32) -> (r: String)
    ensures
        r@ == spec_hex_display(v),
{
    let mut out = String::from_str("0x");
    proof {
        assert(out@ =~= "0x"@ + Seq::new(0nat, |k: int| spec_hex_digit((v >> ((28 - 4 * k) as u32)) & 0xF)));
    }
    let mut i: usize = 0;
    while i < 8
        invariant
            i <= 8,
            out@ == "0x"@ + Seq::new(i as nat, |k: int| spec_hex_digit((v >> ((28 - 4 * k) as u32)) & 0xF)),
        decreases 8 - i,
    {
        let sh: u32 = 28 - 4 * (i as u32);
        let d = (v >> sh) & 0xF;
        proof {
            assert((v >> sh) & 0xF < 16) by (bit_vector);
        }
        out.push(hex_digit(d));
        proof {
            assert(out@ =~= "0x"@ + Seq::new((i + 1) as nat, |k: int| spec_hex_digit((v >> ((28 - 4 * k) as u32)) & 0xF)));
        }
        i = i + 1;
    }
    proof {
        assert(out@ =~= spec_hex_display(v));
    }
    out
}

/// One step of modifier wrapping: `PREFIX(inner)` if the bit is set.
pub open spec fn spec_wrap_one(wrap: bool, prefix: Seq<char>, inner: Seq<char>) -> Seq<char> {
    if wrap {
        prefix + "("@ + inner + ")"@
    } else {
        inner
    }
}

/// A base name wrapped in the modifier prefixes of the set bits, innermost
/// first in the fixed order right-hand mods then left-hand mods.
pub open spec fn spec_wrap_mods(mods: u32, base: Seq<char>) -> Seq<char> {
    let r1 = spec_wrap_one(mods & MOD_RSFT != 0, "RS"@, base);
    let r2 = spec_wrap_one(mods & MOD_RCTL != 0, "RC"@, r1);
    let r3 = spec_wrap_one(mods & MOD_RALT != 0, "RA"@, r2);
    let r4 = spec_wrap_one(mods & MOD_RGUI != 0, "RG"@, r3);
    let r5 = spec_wrap_one(mods & MOD_LSFT != 0, "LS"@, r4);
    let r6 = spec_wrap_one(mods & MOD_LCTL != 0, "LC"@, r5);
    let r7 = spec_wrap_one(mods & MOD_LALT != 0, "LA"@, r6);
    spec_wrap_one(mods & MOD_LGUI != 0, "LG"@, r7)
}

fn wrap_one(wrap: bool, prefix: &str, inner: String) -> (r: String)
    ensures
        r@ == spec_wrap_one(wrap, prefix@, inner@),
{
    if wrap {
        let mut t = String::from_str(prefix);
        t.append("(");
        t.append(inner.as_str());
        t.append(")");
        t
    } else {
        inner
    }
}

/// The text form of a usage code that may carry modifier bits: the canonical
/// name where the table has one, a modifier-wrapped base name where only the
/// base is known, and the hexadecimal display form otherwise.
pub open spec fn spec_hid_text(h: u32) -> Seq<char> {
    match spec_hid_to_keycode(h) {
        Some(name) => name,
        None => {
            let mod_bits = (h >> 24) & 0xFF;
            let base = h & 0x00FFFFFF;
            if mod_bits == 0 {
                spec_hex_display(h)
            } else {
                match spec_hid_to_keycode(base) {
                    Some(base_name) => spec_wrap_mods(mod_bits, base_name),
                    None => spec_hex_display(h),
                }
            }
        },
    }
}

/// Reverse lookup that also renders modifier-wrapped codes: the canonical
/// name (`EXCL`) where one exists, a wrapper form (`LS(A)`) for other
/// composites, and a hex form for unknown codes.
pub fn hid_to_keycode_with_modifiers(h: u32) -> (r: String)
    ensures
        r@ == spec_hid_text(h),
{
    if let Some(name) = hid_to_keycode(h) {
        return String::from_str(name);
    }
    let mod_bits = (h >> 24) & 0xFF;
    let base = h & 0x00FFFFFF;
    if mod_bits == 0 {
        return hex_display(h);
    }
    let base_name = match hid_to_keycode(base) {
        Some(n) => String::from_str(n),
        None => {
            return hex_display(h);
        },
    };
    let r1 = wrap_one(mod_bits & MOD_RSFT != 0, "RS", base_name);
    let r2 = wrap_one(mod_bits & MOD_RCTL != 0, "RC", r1);
    let r3 = wrap_one(mod_bits & MOD_RALT != 0, "RA", r2);
    let r4 = wrap_one(mod_bits & MOD_RGUI != 0, "RG", r3);
    let r5 = wrap_one(mod_bits & MOD_LSFT != 0, "LS", r4);
    let r6 = wrap_one(mod_bits & MOD_LCTL != 0, "LC", r5);
    let r7 = wrap_one(mod_bits & MOD_LALT != 0, "LA", r6);
    wrap_one(mod_bits & MOD_LGUI != 0, "LG", r7)
}

/// The trimmed rest of a wrapper argument has the shape `( ... )`.
pub open spec fn wrapper_shape(t: Seq<char>) -> bool {
    let r = trimmed(t.skip(2));
    r.len() >= 2 && r[0] == '(' && r.last() == ')'
}

/// The text begins with the given two-character wrapper prefix and carries a
/// parenthesised argument.
pub open spec fn wrapper_case(t: Seq<char>, prefix: Seq<char>) -> bool {
    prefix.len() <= t.len() && match_at(t, prefix, 0) && wrapper_shape(t)
}

/// The trimmed text inside a wrapper's parentheses.
pub open spec fn wrapper_inner_seq(t: Seq<char>) -> Seq<char> {
    let r = trimmed(t.skip(2));
    trimmed(r.subrange(1, r.len() - 1))
}

proof fn lemma_trim_start_len(s: Seq<char>)
    ensures
        trim_start_rec(s).len() <= s.len(),
    decreases s.len(),
{
    if s.len() > 0 && crate::text::is_space(s[0]) {
        lemma_trim_start_len(s.drop_first());
    }
}

proof fn lemma_trim_end_len(s: Seq<char>)
    ensures
        trim_end_rec(s).len() <= s.len(),
    decreases s.len(),
{
    if s.len() > 0 && crate::text::is_space(s.last()) {
        lemma_trim_end_len(s.drop_last());
    }
}

proof fn lemma_trimmed_len(s: Seq<char>)
    ensures
        trimmed(s).len() <= s.len(),
{
    lemma_trim_start_len(s);
    lemma_trim_end_len(trim_start_rec(s));
}

proof fn lemma_wrapper_inner_shorter(t: Seq<char>)
    requires
        t.len() >= 2,
        wrapper_shape(t),
    ensures
        wrapper_inner_seq(t).len() + 2 <= t.len(),
{
    lemma_trimmed_len(t.skip(2));
    let r = trimmed(t.skip(2));
    lemma_trimmed_len(r.subrange(1, r.len() - 1));
}

/// What `parse_keycode_with_modifiers` accepts, with the modifier bits
/// accumulated so far: a chain of wrapper prefixes around a table name.
pub open spec fn spec_parse_with_mods(s: Seq<char>, mods: u32) -> Option<u32>
    decreases s.len(),
    via spec_parse_with_mods_decreases
{
    let t = trimmed(s);
    if wrapper_case(t, "LS"@) {
        spec_parse_with_mods(wrapper_inner_seq(t), mods | MOD_LSFT)
    } else if wrapper_case(t, "LC"@) {
        spec_parse_with_mods(wrapper_inner_seq(t), mods | MOD_LCTL)
    } else if wrapper_case(t, "LA"@) {
        spec_parse_with_mods(wrapper_inner_seq(t), mods | MOD_LALT)
    } else if wrapper_case(t, "LG"@) {
        spec_parse_with_mods(wrapper_inner_seq(t), mods | MOD_LGUI)
    } else if wrapper_case(t, "RS"@) {
        spec_parse_with_mods(wrapper_inner_seq(t), mods | MOD_RSFT)
    } else if wrapper_case(t, "RC"@) {
        spec_parse_with_mods(wrapper_inner_seq(t), mods | MOD_RCTL)
    } else if wrapper_case(t, "RA"@) {
        spec_parse_with_mods(wrapper_inner_seq(t), mods | MOD_RALT)
    } else if wrapper_case(t, "RG"@) {
        spec_parse_with_mods(wrapper_inner_seq(t), mods | MOD_RGUI)
    } else {
        match spec_keycode_to_hid(t) {
            Some(h) => if mods == 0 {
                Some(h)
            } else {
                Some(spec_apply_mods(mods, h))
            },
            None => None,
        }
    }
}

#[via_fn]
proof fn spec_parse_with_mods_decreases(s: Seq<char>, mods: u32) {
    let t = trimmed(s);
    lemma_trimmed_len(s);
    reveal_strlit("LS");
    reveal_strlit("LC");
    reveal_strlit("LA");
    reveal_strlit("LG");
    reveal_strlit("RS");
    reveal_strlit("RC");
    reveal_strlit("RA");
    reveal_strlit("RG");
    if wrapper_case(t, "LS"@) || wrapper_case(t, "LC"@) || wrapper_case(t, "LA"@)
        || wrapper_case(t, "LG"@) || wrapper_case(t, "RS"@) || wrapper_case(t, "RC"@)
        || wrapper_case(t, "RA"@) || wrapper_case(t, "RG"@) {
        lemma_wrapper_inner_shorter(t);
    }
}

/// The trimmed text inside the parentheses, if the text is a wrapper
/// application of the given two-character prefix.
fn wrapper_inner<'a>(t: &'a str, prefix: &str) -> (r: Option<&'a str>)
    requires
        prefix@.len() == 2,
    ensures
        (match r {
            Some(inner) => wrapper_case(t@, prefix@) && inner@ == wrapper_inner_seq(t@),
            None => !wrapper_case(t@, prefix@),
        }),
{
    if !str_starts_with(t, prefix) {
        return None;
    }
    let n = t.unicode_len();
    let rest = t.substring_char(2, n);
    proof {
        assert(rest@ =~= t@.skip(2));
    }
    let r = str_trim(rest);
    let m = r.unicode_len();
    if m >= 2 && r.get_char(0) == '(' && r.get_char(m - 1) == ')' {
        let body = r.substring_char(1, m - 1);
        Some(str_trim(body))
    } else {
        None
    }
}

fn parse_with_mods(text: &str, mods: u32) -> (r: Option<u32>)
    ensures
        r == spec_parse_with_mods(text@, mods),
    decreases text@.len(),
{
    let t = str_trim(text);
    proof {
        lemma_trimmed_len(text@);
        reveal_strlit("LS");
        reveal_strlit("LC");
        reveal_strlit("LA");
        reveal_strlit("LG");
        reveal_strlit("RS");
        reveal_strlit("RC");
        reveal_strlit("RA");
        reveal_strlit("RG");
    }
    if let Some(inner) = wrapper_inner(t, "LS") {
        proof {
            lemma_wrapper_inner_shorter(t@);
        }
        return parse_with_mods(inner, mods | MOD_LSFT);
    }
    if let Some(inner) = wrapper_inner(t, "LC") {
        proof {
            lemma_wrapper_inner_shorter(t@);
        }
        return parse_with_mods(inner, mods | MOD_LCTL);
    }
    if let Some(inner) = wrapper_inner(t, "LA") {
        proof {
            lemma_wrapper_inner_shorter(t@);
        }
        return parse_with_mods(inner, mods | MOD_LALT);
    }
    if let Some(inner) = wrapper_inner(t, "LG") {
        proof {
            lemma_wrapper_inner_shorter(t@);
        }
        return parse_with_mods(inner, mods | MOD_LGUI);
    }
    if let Some(inner) = wrapper_inner(t, "RS") {
        proof {
            lemma_wrapper_inner_shorter(t@);
        }
        return parse_with_mods(inner, mods | MOD_RSFT);
    }
    if let Some(inner) = wrapper_inner(t, "RC") {
        proof {
            lemma_wrapper_inner_shorter(t@);
        }
        return parse_with_mods(inner, mods | MOD_RCTL);
    }
    if let Some(inner) = wrapper_inner(t, "RA") {
        proof {
            lemma_wrapper_inner_shorter(t@);
        }
        return parse_with_mods(inner, mods | MOD_RALT);
    }
    if let Some(inner) = wrapper_inner(t, "RG") {
        proof {
            lemma_wrapper_inner_shorter(t@);
        }
        return parse_with_mods(inner, mods | MOD_RGUI);
    }
    match keycode_to_hid(t) {
        Some(h) => if mods == 0 {
            Some(h)
        } else {
            Some(apply_mods(mods, h))
        },
        None => None,
    }
}

/// Parse a keycode string that may carry nested modifier wrappers, such as
/// a plain name, `LS(N1)`, or `LC(LS(A))`.
pub fn parse_keycode_with_modifiers(text: &str) -> (r: Option<u32>)
    ensures
        r == spec_parse_with_mods(text@, 0),
{
    parse_with_mods(text, 0)
}

/// The modifier bits of a modifier key name as used in bindings.
pub open spec fn spec_modifier_to_bits(s: Seq<char>) -> Option<u32> {
    if s == "LSHFT"@ || s == "LSHIFT"@ || s == "LEFT_SHIFT"@ {
        Some(MOD_LSFT)
    } else if s == "RSHFT"@ || s == "RSHIFT"@ || s == "RIGHT_SHIFT"@ {
        Some(MOD_RSFT)
    } else if s == "LCTRL"@ || s == "LCTL"@ || s == "LEFT_CONTROL"@ {
        Some(MOD_LCTL)
    } else if s == "RCTRL"@ || s == "RCTL"@ || s == "RIGHT_CONTROL"@ {
        Some(MOD_RCTL)
    } else if s == "LALT"@ || s == "LEFT_ALT"@ {
        Some(MOD_LALT)
    } else if s == "RALT"@ || s == "RIGHT_ALT"@ {
        Some(MOD_RALT)
    } else if s == "LGUI"@ || s == "LEFT_GUI"@ || s == "LMETA"@ || s == "LWIN"@ || s == "LCMD"@ {
        Some(MOD_LGUI)
    } else if s == "RGUI"@ || s == "RIGHT_GUI"@ || s == "RMETA"@ || s == "RWIN"@ || s == "RCMD"@ {
        Some(MOD_RGUI)
    } else {
        None
    }
}

/// Convert a modifier key name to its modifier bits.
pub fn modifier_to_bits(name: &str) -> (r: Option<u32>)
    ensures
        r == spec_modifier_to_bits(name@),
{
    if str_eq(name, "LSHFT") || str_eq(name, "LSHIFT") || str_eq(name, "LEFT_SHIFT") {
        Some(MOD_LSFT)
    } else if str_eq(name, "RSHFT") || str_eq(name, "RSHIFT") || str_eq(name, "RIGHT_SHIFT") {
        Some(MOD_RSFT)
    } else if str_eq(name, "LCTRL") || str_eq(name, "LCTL") || str_eq(name, "LEFT_CONTROL") {
        Some(MOD_LCTL)
    } else if str_eq(name, "RCTRL") || str_eq(name, "RCTL") || str_eq(name, "RIGHT_CONTROL") {
        Some(MOD_RCTL)
    } else if str_eq(name, "LALT") || str_eq(name, "LEFT_ALT") {
        Some(MOD_LALT)
    } else if str_eq(name, "RALT") || str_eq(name, "RIGHT_ALT") {
        Some(MOD_RALT)
    } else if str_eq(name, "LGUI") || str_eq(name, "LEFT_GUI") || str_eq(name, "LMETA") || str_eq(
        name,
        "LWIN",
    ) || str_eq(name, "LCMD") {
        Some(MOD_LGUI)
    } else if str_eq(name, "RGUI") || str_eq(name, "RIGHT_GUI") || str_eq(name, "RMETA") || str_eq(
        name,
        "RWIN",
    ) || str_eq(name, "RCMD") {
        Some(MOD_RGUI)
    } else {
        None
    }
}

} // verus!
