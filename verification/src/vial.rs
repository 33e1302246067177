//! The legacy HID keymap read: recognising the device on the HID bus,
//! building the fixed-size request packets, and decoding the raw buffer the
//! device returns into a layer/row/column table of keycodes. The HID I/O
//! itself lives in the surrounding application.

use vstd::prelude::*;

verus! {

/// The keyboard's USB vendor id on the HID bus.
pub const VIAL_VENDOR_ID: u16 = 0x4C4B;

/// The keyboard's USB product id on the HID bus.
pub const VIAL_PRODUCT_ID: u16 = 0x544D;

/// The vendor-defined HID usage page of the configuration interface.
pub const VIAL_USAGE_PAGE: u16 = 0xFF60;

/// Command byte: read the layer count.
pub const CMD_GET_LAYER_COUNT: u8 = 0x11;

/// Command byte: read a slice of the keymap buffer.
pub const CMD_GET_BUFFER: u8 = 0x12;

/// Bytes per HID packet, excluding the report id.
pub const PACKET_SIZE: usize = 32;

/// Payload bytes one buffer-read request can return: the packet minus the
/// four header bytes (command, offset high, offset low, size).
pub const BUFFER_CHUNK: usize = 28;

/// A keymap read over the legacy HID protocol:
/// `keymap[layer][row][col]` is a two-byte keycode.
#[derive(Debug, Clone, PartialEq)]
pub struct VialKeymap {
    pub rows: usize,
    pub cols: usize,
    pub layers: usize,
    pub keymap: Vec<Vec<Vec<u16>>>,
}

/// A HID device entry is this keyboard's configuration interface.
pub fn is_vial_device(vendor_id: u16, product_id: u16, usage_page: u16) -> (r: bool)
    ensures
        r == (vendor_id == VIAL_VENDOR_ID && product_id == VIAL_PRODUCT_ID && usage_page
            == VIAL_USAGE_PAGE),
{
    vendor_id == VIAL_VENDOR_ID && product_id == VIAL_PRODUCT_ID && usage_page == VIAL_USAGE_PAGE
}

/// The packet asking for the layer count: a zero report id, the command byte,
/// and zero padding up to the packet size.
pub fn layer_count_request() -> (r: Vec<u8>)
    ensures
        r@.len() == PACKET_SIZE + 1,
        r@[0] == 0,
        r@[1] == CMD_GET_LAYER_COUNT,
        forall|i: int| 2 <= i < PACKET_SIZE + 1 ==> r@[i] == 0,
{
    let mut p: Vec<u8> = Vec::new();
    p.push(0);
    p.push(CMD_GET_LAYER_COUNT);
    let mut i: usize = 2;
    while i < PACKET_SIZE + 1
        invariant
            2 <= i <= PACKET_SIZE + 1,
            p@.len() == i,
            p@[0] == 0,
            p@[1] == CMD_GET_LAYER_COUNT,
            forall|t: int| 2 <= t < i ==> p@[t] == 0,
        decreases PACKET_SIZE + 1 - i,
    {
        p.push(0);
        i = i + 1;
    }
    p
}

/// The layer count is plausible: present and within the firmware's bound.
pub fn layer_count_valid(layers: usize) -> (r: bool)
    ensures
        r == (0 < layers <= 32),
{
    layers > 0 && layers <= 32
}

/// The packet asking for one slice of the keymap buffer: a zero report id,
/// the command byte, the offset in big-endian halves, the slice size, and
/// zero padding.
pub fn buffer_request(offset: usize, chunk: usize) -> (r: Vec<u8>)
    ensures
        r@.len() == PACKET_SIZE + 1,
        r@[0] == 0,
        r@[1] == CMD_GET_BUFFER,
        r@[2] == (offset >> 8) as u8,
        r@[3] == offset as u8,
        r@[4] == chunk as u8,
        forall|i: int| 5 <= i < PACKET_SIZE + 1 ==> r@[i] == 0,
{
    let mut p: Vec<u8> = Vec::new();
    p.push(0);
    p.push(CMD_GET_BUFFER);
    p.push((offset >> 8) as u8);
    p.push(offset as u8);
    p.push(chunk as u8);
    let mut i: usize = 5;
    while i < PACKET_SIZE + 1
        invariant
            5 <= i <= PACKET_SIZE + 1,
            p@.len() == i,
            p@[0] == 0,
            p@[1] == CMD_GET_BUFFER,
            p@[2] == (offset >> 8) as u8,
            p@[3] == offset as u8,
            p@[4] == chunk as u8,
            forall|t: int| 5 <= t < i ==> p@[t] == 0,
        decreases PACKET_SIZE + 1 - i,
    {
        p.push(0);
        i = i + 1;
    }
    p
}

/// Where a buffer-read reply's data begins and how many of its bytes count:
/// a reply that echoes the command carries its data after the four header
/// bytes; the usable length is what was read past that start, capped at the
/// requested slice size.
pub fn response_data_range(first_byte: u8, read_len: usize, chunk: usize) -> (r: (usize, usize))
    ensures
        r.0 == (if first_byte == CMD_GET_BUFFER {
            4int
        } else {
            0int
        }),
        r.1 == (if read_len >= r.0 + chunk {
            chunk as int
        } else if read_len >= r.0 {
            read_len - r.0
        } else {
            0int
        }),
{
    let data_start: usize = if first_byte == CMD_GET_BUFFER {
        4
    } else {
        0
    };
    let past_start: usize = if read_len >= data_start {
        read_len - data_start
    } else {
        0
    };
    let available = if past_start < chunk {
        past_start
    } else {
        chunk
    };
    (data_start, available)
}

/// The keycode of one key in the raw keymap buffer: the big-endian two-byte
/// value at its slot, or zero where the buffer is short.
pub open spec fn spec_vial_code(raw: Seq<u8>, rows: int, cols: int, l: int, r: int, c: int) -> u16 {
    let idx = (l * rows * cols + r * cols + c) * 2;
    if idx + 1 < raw.len() {
        (((raw[idx] as u16) << 8) | (raw[idx + 1] as u16)) as u16
    } else {
        0u16
    }
}

proof fn lemma_grid_index(l: int, r: int, c: int, layers: int, rows: int, cols: int)
    by (nonlinear_arith)
    requires
        0 <= l < layers,
        0 <= r < rows,
        0 <= c < cols,
    ensures
        0 <= (l * rows * cols + r * cols + c) * 2 + 1 < layers * rows * cols * 2,
        l * rows <= layers * rows,
        layers * rows <= layers * rows * cols,
        r * cols <= layers * rows * cols,
        l * rows * cols <= layers * rows * cols,
        l * rows * cols + r * cols <= layers * rows * cols,
        l * rows * cols + r * cols + c <= layers * rows * cols,
        layers * rows * cols <= layers * rows * cols * 2,
{
}

/// Decode the raw keymap buffer read from the device into the
/// layer/row/column table of two-byte big-endian keycodes; slots past the end
/// of the buffer read as zero.
pub fn parse_vial_keymap(raw: &Vec<u8>, rows: usize, cols: usize, layers: usize) -> (r: VialKeymap)
    requires
        layers * rows * cols * 2 <= usize::MAX,
    ensures
        r.rows == rows,
        r.cols == cols,
        r.layers == layers,
        r.keymap@.len() == layers,
        forall|l: int| 0 <= l < layers ==> (#[trigger] r.keymap@[l])@.len() == rows,
        forall|l: int, rr: int|
            0 <= l < layers && 0 <= rr < rows ==> (#[trigger] r.keymap@[l]@[rr])@.len() == cols,
        forall|l: int, rr: int, c: int|
            0 <= l < layers && 0 <= rr < rows && 0 <= c < cols ==> #[trigger] r.keymap@[l]@[rr]@[c]
                == spec_vial_code(raw@, rows as int, cols as int, l, rr, c),
{
    let mut keymap: Vec<Vec<Vec<u16>>> = Vec::new();
    let mut l: usize = 0;
    while l < layers
        invariant
            l <= layers,
            layers * rows * cols * 2 <= usize::MAX,
            keymap@.len() == l,
            forall|t: int| 0 <= t < l ==> (#[trigger] keymap@[t])@.len() == rows,
            forall|t: int, rr: int|
                0 <= t < l && 0 <= rr < rows ==> (#[trigger] keymap@[t]@[rr])@.len() == cols,
            forall|t: int, rr: int, c: int|
                0 <= t < l && 0 <= rr < rows && 0 <= c < cols ==> #[trigger] keymap@[t]@[rr]@[c]
                    == spec_vial_code(raw@, rows as int, cols as int, t, rr, c),
        decreases layers - l,
    {
        let mut layer: Vec<Vec<u16>> = Vec::new();
        let mut rr: usize = 0;
        while rr < rows
            invariant
                l < layers,
                rr <= rows,
                layers * rows * cols * 2 <= usize::MAX,
                layer@.len() == rr,
                forall|t: int| 0 <= t < rr ==> (#[trigger] layer@[t])@.len() == cols,
                forall|t: int, c: int|
                    0 <= t < rr && 0 <= c < cols ==> #[trigger] layer@[t]@[c] == spec_vial_code(
                        raw@,
                        rows as int,
                        cols as int,
                        l as int,
                        t,
                        c,
                    ),
            decreases rows - rr,
        {
            let mut row: Vec<u16> = Vec::new();
            let mut c: usize = 0;
            while c < cols
                invariant
                    l < layers,
                    rr < rows,
                    c <= cols,
                    layers * rows * cols * 2 <= usize::MAX,
                    row@.len() == c,
                    forall|t: int|
                        0 <= t < c ==> #[trigger] row@[t] == spec_vial_code(
                            raw@,
                            rows as int,
                            cols as int,
                            l as int,
                            rr as int,
                            t,
                        ),
                decreases cols - c,
            {
                proof {
                    lemma_grid_index(
                        l as int,
                        rr as int,
                        c as int,
                        layers as int,
                        rows as int,
                        cols as int,
                    );
                }
                let idx = (l * rows * cols + rr * cols + c) * 2;
                let code: u16 = if idx + 1 < raw.len() {
                    ((raw[idx] as u16) << 8) | (raw[idx + 1] as u16)
                } else {
                    0
                };
                row.push(code);
                c = c + 1;
            }
            layer.push(row);
            rr = rr + 1;
        }
        keymap.push(layer);
        l = l + 1;
    }
    VialKeymap { rows, cols, layers, keymap }
}

} // verus!
