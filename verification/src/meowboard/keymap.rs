//! The key map of the keyboard: what each key does on the normal layer and on the function layer.

use crate::keycode::{KeyCode, KeyValue};
use vstd::prelude::*;

verus! {

/// Keys of one layer.
pub const LAYER_KEYS: usize = 64;

/// Bytes of a key map: for each of the two layers, a kind for each key and then a value for each key.
pub const MAP_BYTES: usize = 256;

/// What a key does, given the kind byte and the value byte of its slot:
/// kind 1 is a keyboard key, 2 a custom function, 3 a mouse key, 4 a media
/// key, and any other kind nothing.
pub open spec fn value_of(kind: u8, value: u8) -> KeyValue {
    if kind == 1 {
        KeyValue::Keyboard(KeyCode::of_code(value))
    } else if kind == 2 {
        KeyValue::Custom(value)
    } else if kind == 3 {
        KeyValue::Mouse(value)
    } else if kind == 4 {
        KeyValue::Media(value)
    } else {
        KeyValue::Nothing
    }
}

/// The kind byte of what a key does.
pub open spec fn kind_of(value: KeyValue) -> u8 {
    match value {
        KeyValue::Nothing => 0,
        KeyValue::Keyboard(_) => 1,
        KeyValue::Custom(_) => 2,
        KeyValue::Mouse(_) => 3,
        KeyValue::Media(_) => 4,
    }
}

/// The value byte of what a key does.
pub open spec fn byte_of(value: KeyValue) -> u8 {
    match value {
        KeyValue::Nothing => 0,
        KeyValue::Keyboard(k) => k.code(),
        KeyValue::Custom(m) => m,
        KeyValue::Mouse(m) => m,
        KeyValue::Media(m) => m,
    }
}

/// What the keys of layer `layer` do according to the bytes of a key map.
pub open spec fn layer_of(bytes: Seq<u8>, layer: int) -> Seq<KeyValue> {
    Seq::new(
        LAYER_KEYS as nat,
        |i: int| value_of(bytes[128 * layer + i], bytes[128 * layer + 64 + i]),
    )
}

/// The bytes of the key map in which the keys do what the two layers say.
pub open spec fn bytes_of(normal: Seq<KeyValue>, function: Seq<KeyValue>) -> Seq<u8> {
    Seq::new(
        MAP_BYTES as nat,
        |j: int|
            if j < 64 {
                kind_of(normal[j])
            } else if j < 128 {
                byte_of(normal[j - 64])
            } else if j < 192 {
                kind_of(function[j - 128])
            } else {
                byte_of(function[j - 192])
            },
    )
}

/// The layers of a key map are found again from its bytes.
pub proof fn lemma_layers_round_trip(normal: Seq<KeyValue>, function: Seq<KeyValue>)
    requires
        normal.len() == LAYER_KEYS,
        function.len() == LAYER_KEYS,
    ensures
        layer_of(bytes_of(normal, function), 0) == normal,
        layer_of(bytes_of(normal, function), 1) == function,
{
    let bytes = bytes_of(normal, function);
    assert forall|i: int| 0 <= i < 64 implies layer_of(bytes, 0)[i] == normal[i] by {
        if let KeyValue::Keyboard(k) = normal[i] {
            crate::keycode::lemma_key_code_round_trip(k, 0);
        }
    }
    assert forall|i: int| 0 <= i < 64 implies layer_of(bytes, 1)[i] == function[i] by {
        if let KeyValue::Keyboard(k) = function[i] {
            crate::keycode::lemma_key_code_round_trip(k, 0);
        }
    }
    assert(layer_of(bytes, 0) =~= normal);
    assert(layer_of(bytes, 1) =~= function);
}

/// Reads what a key does from the kind byte and the value byte of its slot.
pub fn read_value(kind: u8, value: u8) -> (r: KeyValue)
    ensures
        r == value_of(kind, value),
{
    match kind {
        1 => KeyValue::Keyboard(KeyCode::from_u8(value)),
        2 => KeyValue::Custom(value),
        3 => KeyValue::Mouse(value),
        4 => KeyValue::Media(value),
        _ => KeyValue::Nothing,
    }
}

/// The kind byte and the value byte of what a key does.
pub fn write_value(value: KeyValue) -> (r: (u8, u8))
    ensures
        r.0 == kind_of(value),
        r.1 == byte_of(value),
{
    match value {
        KeyValue::Nothing => (0, 0),
        KeyValue::Keyboard(k) => (1, k.to_u8()),
        KeyValue::Custom(m) => (2, m),
        KeyValue::Mouse(m) => (3, m),
        KeyValue::Media(m) => (4, m),
    }
}

/// The key map as the device stores it.
pub struct KeyMap([u8; 256]);

impl View for KeyMap {
    type V = Seq<u8>;

    closed spec fn view(&self) -> Seq<u8> {
        self.0@
    }
}

/// The bytes of the key map that a keyboard has before it is configured.
pub open spec fn default_bytes() -> Seq<u8> {
    seq![
        1, 1, 1, 1, 1, 1, 1, 1, 1, 1, 1, 1, 1, 1, 1, 1,
        1, 1, 1, 1, 1, 1, 1, 1, 1, 1, 1, 1, 1, 1, 1, 1,
        1, 1, 1, 1, 1, 1, 1, 1, 1, 1, 1, 1, 1, 1, 1, 1,
        1, 1, 1, 1, 1, 1, 1, 1, 1, 1, 1, 1, 2, 1, 1, 1,
        41, 30, 31, 32, 33, 34, 35, 36, 37, 38, 39, 45, 46, 42, 43, 20,
        26, 8, 21, 23, 28, 24, 12, 18, 19, 47, 48, 49, 57, 4, 22, 7,
        9, 10, 11, 13, 14, 15, 51, 52, 40, 225, 29, 27, 6, 25, 5, 17,
        16, 54, 55, 56, 229, 82, 76, 224, 227, 226, 44, 230, 1, 80, 81, 79,
        1, 1, 1, 1, 1, 1, 1, 1, 1, 1, 1, 1, 1, 0, 0, 0,
        0, 0, 0, 0, 0, 0, 0, 0, 1, 1, 1, 0, 0, 0, 0, 0,
        0, 0, 0, 4, 4, 4, 0, 0, 0, 0, 0, 0, 0, 0, 0, 0,
        0, 4, 4, 0, 0, 1, 4, 0, 2, 0, 0, 0, 0, 3, 1, 3,
        53, 58, 59, 60, 61, 62, 63, 64, 65, 66, 67, 68, 69, 0, 0, 0,
        0, 0, 0, 0, 0, 0, 0, 0, 70, 74, 77, 0, 0, 0, 0, 0,
        0, 0, 0, 182, 205, 181, 0, 0, 0, 0, 0, 0, 0, 0, 0, 0,
        0, 234, 233, 0, 0, 75, 226, 0, 2, 0, 0, 0, 0, 1, 78, 2,
    ]
}

impl Default for KeyMap {
    fn default() -> (r: KeyMap)
        ensures
            r@ == default_bytes(),
    {
        let r = KeyMap(
            [
                1, 1, 1, 1, 1, 1, 1, 1, 1, 1, 1, 1, 1, 1, 1, 1,
                1, 1, 1, 1, 1, 1, 1, 1, 1, 1, 1, 1, 1, 1, 1, 1,
                1, 1, 1, 1, 1, 1, 1, 1, 1, 1, 1, 1, 1, 1, 1, 1,
                1, 1, 1, 1, 1, 1, 1, 1, 1, 1, 1, 1, 2, 1, 1, 1,
                41, 30, 31, 32, 33, 34, 35, 36, 37, 38, 39, 45, 46, 42, 43, 20,
                26, 8, 21, 23, 28, 24, 12, 18, 19, 47, 48, 49, 57, 4, 22, 7,
                9, 10, 11, 13, 14, 15, 51, 52, 40, 225, 29, 27, 6, 25, 5, 17,
                16, 54, 55, 56, 229, 82, 76, 224, 227, 226, 44, 230, 1, 80, 81, 79,
                1, 1, 1, 1, 1, 1, 1, 1, 1, 1, 1, 1, 1, 0, 0, 0,
                0, 0, 0, 0, 0, 0, 0, 0, 1, 1, 1, 0, 0, 0, 0, 0,
                0, 0, 0, 4, 4, 4, 0, 0, 0, 0, 0, 0, 0, 0, 0, 0,
                0, 4, 4, 0, 0, 1, 4, 0, 2, 0, 0, 0, 0, 3, 1, 3,
                53, 58, 59, 60, 61, 62, 63, 64, 65, 66, 67, 68, 69, 0, 0, 0,
                0, 0, 0, 0, 0, 0, 0, 0, 70, 74, 77, 0, 0, 0, 0, 0,
                0, 0, 0, 182, 205, 181, 0, 0, 0, 0, 0, 0, 0, 0, 0, 0,
                0, 234, 233, 0, 0, 75, 226, 0, 2, 0, 0, 0, 0, 1, 78, 2,
            ],
        );
        assert(r.0@ =~= default_bytes());
        r
    }
}

impl KeyMap {
    /// The key map with these bytes.
    pub fn from_bytes(value: [u8; 256]) -> (r: KeyMap)
        ensures
            r@ == value@,
    {
        KeyMap(value)
    }

    /// The bytes of the key map.
    pub fn to_bytes(&self) -> (r: [u8; 256])
        ensures
            r@ == self@,
    {
        self.0
    }

    /// What the keys of one layer do: layer 0 is the normal layer, any other the function layer.
    pub fn layer(&self, layer: usize) -> (r: [KeyValue; 64])
        ensures
            r@ == layer_of(
                self@,
                if layer == 0 {
                    0
                } else {
                    1
                },
            ),
    {
        let base: usize = if layer == 0 {
            0
        } else {
            128
        };
        let mut out = [KeyValue::Nothing;64];
        let mut i: usize = 0;
        while i < LAYER_KEYS
            invariant
                i <= LAYER_KEYS,
                base == 0 || base == 128,
                forall|j: int|
                    0 <= j < i ==> out@[j] == value_of(self.0@[base + j], self.0@[base + 64 + j]),
            decreases LAYER_KEYS - i,
        {
            out[i] = read_value(self.0[base + i], self.0[base + 64 + i]);
            i += 1;
        }
        assert(out@ =~= layer_of(self@, if layer == 0 { 0 } else { 1 }));
        out
    }

    /// What the keys do on the normal layer and on the function layer.
    pub fn to_layers(&self) -> (r: [[KeyValue; 64]; 2])
        ensures
            r@[0]@ == layer_of(self@, 0),
            r@[1]@ == layer_of(self@, 1),
    {
        [self.layer(0), self.layer(1)]
    }

    /// The key map in which the keys do what the two layers say.
    pub fn from_layers(value: &[[KeyValue; 64]; 2]) -> (r: KeyMap)
        ensures
            r@ == bytes_of(value@[0]@, value@[1]@),
    {
        let mut combined = [0u8;256];
        let mut i: usize = 0;
        while i < LAYER_KEYS
            invariant
                i <= LAYER_KEYS,
                forall|j: int|
                    0 <= j < 256 && j % 64 < i ==> combined@[j] == bytes_of(
                        value@[0]@,
                        value@[1]@,
                    )[j],
            decreases LAYER_KEYS - i,
        {
            let normal = write_value(value[0][i]);
            let function = write_value(value[1][i]);
            combined[i] = normal.0;
            combined[i + 64] = normal.1;
            combined[i + 128] = function.0;
            combined[i + 192] = function.1;
            i += 1;
        }
        assert(combined@ =~= bytes_of(value@[0]@, value@[1]@));
        KeyMap(combined)
    }
}

} // verus!
