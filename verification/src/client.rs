//! Types the connected client hands to its callers, and the conversions that
//! produce them from decoded device replies.

use vstd::prelude::*;

verus! {

use crate::transport::TransportKind;

/// What a freshly connected device reports about itself.
#[derive(Debug, Clone, PartialEq)]
pub struct ConnectedDeviceInfo {
    pub name: String,
    pub serial_number: String,
    pub transport: TransportKind,
}

/// Battery levels, one per half for split keyboards.
#[derive(Debug, Clone, PartialEq)]
pub struct BatteryInfo {
    pub levels: Vec<u8>,
}

/// One binding of the device's live keymap.
#[derive(Debug, Clone, Copy, PartialEq, Eq, Structural)]
pub struct LiveBinding {
    pub behavior_id: i32,
    pub param1: u32,
    pub param2: u32,
}

/// One layer of the device's live keymap.
#[derive(Debug, Clone, PartialEq)]
pub struct LiveLayer {
    pub id: u32,
    pub name: String,
    pub bindings: Vec<LiveBinding>,
}

/// The device's live keymap in plain form.
#[derive(Debug, Clone, PartialEq)]
pub struct LiveKeymap {
    pub layers: Vec<LiveLayer>,
    pub available_layers: u32,
    pub max_layer_name_length: u32,
}

/// One binding of the keymap message as the wire schema carries it.
#[derive(Debug, Clone, Copy, PartialEq, Eq, Structural)]
pub struct WireBinding {
    pub behavior_id: i32,
    pub param1: u32,
    pub param2: u32,
}

/// One layer of the keymap message as the wire schema carries it.
#[derive(Debug, Clone, PartialEq)]
pub struct WireLayer {
    pub id: u32,
    pub name: String,
    pub bindings: Vec<WireBinding>,
}

/// The keymap message as decoded from the device's reply.
#[derive(Debug, Clone, PartialEq)]
pub struct WireKeymap {
    pub layers: Vec<WireLayer>,
    pub available_layers: u32,
    pub max_layer_name_length: u32,
}

/// A live binding carries exactly the wire binding's fields.
pub open spec fn binding_converted(w: WireBinding, l: LiveBinding) -> bool {
    l.behavior_id == w.behavior_id && l.param1 == w.param1 && l.param2 == w.param2
}

/// A live layer carries exactly the wire layer's id, name and bindings.
pub open spec fn layer_converted(w: WireLayer, l: LiveLayer) -> bool {
    &&& l.id == w.id
    &&& l.name@ == w.name@
    &&& l.bindings@.len() == w.bindings@.len()
    &&& forall|j: int|
        0 <= j < w.bindings@.len() ==> binding_converted(w.bindings@[j], #[trigger] l.bindings@[j])
}

impl LiveKeymap {
    /// Turn a decoded keymap message into the plain form handed to callers,
    /// layer by layer and binding by binding.
    pub fn from_proto(km: WireKeymap) -> (r: LiveKeymap)
        ensures
            r.available_layers == km.available_layers,
            r.max_layer_name_length == km.max_layer_name_length,
            r.layers@.len() == km.layers@.len(),
            forall|i: int|
                0 <= i < km.layers@.len() ==> layer_converted(
                    km.layers@[i],
                    #[trigger] r.layers@[i],
                ),
    {
        let mut layers: Vec<LiveLayer> = Vec::new();
        let mut i: usize = 0;
        while i < km.layers.len()
            invariant
                i <= km.layers@.len(),
                layers@.len() == i,
                forall|t: int|
                    0 <= t < i ==> layer_converted(km.layers@[t], #[trigger] layers@[t]),
            decreases km.layers@.len() - i,
        {
            let mut bindings: Vec<LiveBinding> = Vec::new();
            let mut j: usize = 0;
            while j < km.layers[i].bindings.len()
                invariant
                    i < km.layers@.len(),
                    j <= km.layers@[i as int].bindings@.len(),
                    bindings@.len() == j,
                    forall|t: int|
                        0 <= t < j ==> binding_converted(
                            km.layers@[i as int].bindings@[t],
                            #[trigger] bindings@[t],
                        ),
                decreases km.layers@[i as int].bindings@.len() - j,
            {
                let b = km.layers[i].bindings[j];
                bindings.push(
                    LiveBinding { behavior_id: b.behavior_id, param1: b.param1, param2: b.param2 },
                );
                j = j + 1;
            }
            layers.push(
                LiveLayer { id: km.layers[i].id, name: km.layers[i].name.clone(), bindings },
            );
            i = i + 1;
        }
        LiveKeymap {
            layers,
            available_layers: km.available_layers,
            max_layer_name_length: km.max_layer_name_length,
        }
    }
}

/// One hexadecimal digit, lower case.
pub open spec fn spec_hex_digit_lower(n: u32) -> char {
    if n == 0 {
        '0'
    } else if n == 1 {
        '1'
    } else if n == 2 {
        '2'
    } else if n == 3 {
        '3'
    } else if n == 4 {
        '4'
    } else if n == 5 {
        '5'
    } else if n == 6 {
        '6'
    } else if n == 7 {
        '7'
    } else if n == 8 {
        '8'
    } else if n == 9 {
        '9'
    } else if n == 10 {
        'a'
    } else if n == 11 {
        'b'
    } else if n == 12 {
        'c'
    } else if n == 13 {
        'd'
    } else if n == 14 {
        'e'
    } else {
        'f'
    }
}

fn hex_digit_lower(n: u32) -> (c: char)
    requires
        n < 16,
    ensures
        c == spec_hex_digit_lower(n),
{
    if n == 0 {
        '0'
    } else if n == 1 {
        '1'
    } else if n == 2 {
        '2'
    } else if n == 3 {
        '3'
    } else if n == 4 {
        '4'
    } else if n == 5 {
        '5'
    } else if n == 6 {
        '6'
    } else if n == 7 {
        '7'
    } else if n == 8 {
        '8'
    } else if n == 9 {
        '9'
    } else if n == 10 {
        'a'
    } else if n == 11 {
        'b'
    } else if n == 12 {
        'c'
    } else if n == 13 {
        'd'
    } else if n == 14 {
        'e'
    } else {
        'f'
    }
}

/// The two lower-case hex digits of one byte.
pub open spec fn spec_hex_byte(b: u8) -> Seq<char> {
    seq![
        spec_hex_digit_lower(((b >> 4) & 0xF) as u32),
        spec_hex_digit_lower((b & 0xF) as u32),
    ]
}

/// The hex rendering of the first `i` bytes.
pub open spec fn hex_upto(bs: Seq<u8>, i: int) -> Seq<char>
    decreases i,
{
    if i <= 0 {
        Seq::empty()
    } else {
        hex_upto(bs, i - 1) + spec_hex_byte(bs[i - 1])
    }
}

/// A byte run rendered as lower-case hex, two digits per byte.
pub open spec fn spec_serial_hex(bs: Seq<u8>) -> Seq<char> {
    hex_upto(bs, bs.len() as int)
}

/// Render a device serial number, given as raw bytes, in the display form:
/// two lower-case hex digits per byte.
pub fn serial_number_hex(bytes: &Vec<u8>) -> (r: String)
    ensures
        r@ == spec_serial_hex(bytes@),
{
    let mut out = String::new();
    let mut i: usize = 0;
    while i < bytes.len()
        invariant
            i <= bytes@.len(),
            out@ == hex_upto(bytes@, i as int),
        decreases bytes@.len() - i,
    {
        let b = bytes[i];
        proof {
            assert((b >> 4) & 0xF < 16 && b & 0xF < 16) by (bit_vector);
        }
        out.push(hex_digit_lower(((b >> 4) & 0xF) as u32));
        out.push(hex_digit_lower((b & 0xF) as u32));
        proof {
            assert(out@ =~= hex_upto(bytes@, i as int + 1));
        }
        i = i + 1;
    }
    out
}

} // verus!
