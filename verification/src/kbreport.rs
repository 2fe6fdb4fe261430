//! The key report of a keypad key: a modifier byte and up to six keys.

use crate::keycode::{KeyCode, MODIFIER_FIRST};
use vstd::prelude::*;

verus! {

/// Keys that a report holds beside the modifiers.
pub const REPORT_KEYS: usize = 6;

/// Modifiers that a report is read for: those from the first up to, but
/// not with, the last.
pub const LISTED_MODIFIERS: u8 = 7;

/// Index of the first zero in `keys`, or their number if there is none.
pub open spec fn first_free(keys: Seq<u8>) -> int
    decreases keys.len(),
{
    if keys.len() == 0 {
        0
    } else if keys[0] == 0 {
        0
    } else {
        1 + first_free(keys.drop_first())
    }
}

/// The keys after `code` has been pressed: unchanged if they hold it
/// already or are full, else with the code in the first free slot.
pub open spec fn with_key(keys: Seq<u8>, code: u8) -> Seq<u8> {
    if keys.contains(code) || first_free(keys) >= keys.len() {
        keys
    } else {
        keys.update(first_free(keys), code)
    }
}

/// The first `upto` modifiers whose bit is set in `bits`, in the order of their codes.
pub open spec fn modifier_codes(bits: u8, upto: int) -> Seq<KeyCode>
    decreases upto,
{
    if upto <= 0 {
        Seq::empty()
    } else if bits & (1u8 << ((upto - 1) as u8)) != 0 {
        modifier_codes(bits, upto - 1).push(KeyCode::of_code((MODIFIER_FIRST + upto - 1) as u8))
    } else {
        modifier_codes(bits, upto - 1)
    }
}

/// The keys that the first `upto` bytes stand for, without the "no" key.
pub open spec fn key_codes(keys: Seq<u8>, upto: int) -> Seq<KeyCode>
    decreases upto,
{
    if upto <= 0 {
        Seq::empty()
    } else if KeyCode::of_code(keys[upto - 1]) != KeyCode::No {
        key_codes(keys, upto - 1).push(KeyCode::of_code(keys[upto - 1]))
    } else {
        key_codes(keys, upto - 1)
    }
}

/// The first free slot is the one before which no byte is zero.
pub proof fn lemma_first_free(keys: Seq<u8>, i: int)
    requires
        0 <= i <= keys.len(),
        forall|j: int| 0 <= j < i ==> keys[j] != 0,
        i < keys.len() ==> keys[i] == 0,
    ensures
        first_free(keys) == i,
    decreases i,
{
    if i > 0 {
        let rest = keys.drop_first();
        assert forall|j: int| 0 <= j < i - 1 implies rest[j] != 0 by {
            assert(rest[j] == keys[j + 1]);
        }
        lemma_first_free(rest, i - 1);
    }
}

/// The mathematical value of a report.
pub ghost struct ReportModel {
    pub modifiers: u8,
    pub keys: Seq<u8>,
}

impl ReportModel {
    /// The report after a key has been pressed: the error keys and the
    /// "no" key change nothing, a modifier sets its bit, any other key
    /// takes the first free slot unless it is held already.
    pub open spec fn pressed(self, kc: KeyCode) -> ReportModel {
        if kc.code() <= 3 {
            self
        } else if kc.modifier() {
            ReportModel { modifiers: self.modifiers | kc.modifier_bit(), ..self }
        } else {
            ReportModel { keys: with_key(self.keys, kc.code()), ..self }
        }
    }

    /// The report after the keys that the first `upto` bytes stand for have been pressed in order.
    pub open spec fn pressed_all(self, codes: Seq<u8>, upto: int) -> ReportModel
        decreases upto,
    {
        if upto <= 0 {
            self
        } else {
            self.pressed_all(codes, upto - 1).pressed(KeyCode::of_code(codes[upto - 1]))
        }
    }

    /// The keys of the report: the listed modifiers, then the keys held.
    pub open spec fn codes(self) -> Seq<KeyCode> {
        modifier_codes(self.modifiers, LISTED_MODIFIERS as int) + key_codes(
            self.keys,
            self.keys.len() as int,
        )
    }
}

/// The first `n` of `items`, followed by `pad` where they are fewer.
pub open spec fn padded_to<T>(items: Seq<T>, n: int, pad: T) -> Seq<T> {
    Seq::new(
        n as nat,
        |i: int|
            if i < items.len() {
                items[i]
            } else {
                pad
            },
    )
}

/// A key report: the modifier byte and six key slots, zero where free.
#[derive(Debug, Clone, Copy, PartialEq, Eq)]
pub struct KbReport(u8, [u8; 6]);

impl View for KbReport {
    type V = ReportModel;

    closed spec fn view(&self) -> ReportModel {
        ReportModel { modifiers: self.0, keys: self.1@ }
    }
}

impl Default for KbReport {
    fn default() -> (r: KbReport)
        ensures
            r@ == (ReportModel { modifiers: 0, keys: Seq::new(6, |i: int| 0u8) }),
    {
        let r = KbReport(0, [0u8;6]);
        assert(r.1@ =~= Seq::new(6, |i: int| 0u8));
        r
    }
}

impl KbReport {
    /// Add the given key code to the report. A key that finds no free slot is dropped.
    pub fn pressed(&mut self, kc: KeyCode)
        ensures
            final(self)@ == old(self)@.pressed(kc),
            final(self)@.keys.len() == old(self)@.keys.len(),
    {
        let code = kc.to_u8();
        if code <= 3 {
        } else if kc.is_modifier() {
            self.0 = self.0 | kc.as_modifier_bit();
        } else {
            let mut held = false;
            let mut free: usize = REPORT_KEYS;
            let mut i: usize = 0;
            while i < REPORT_KEYS
                invariant
                    i <= REPORT_KEYS,
                    self.1@ == old(self).1@,
                    held <==> exists|j: int| 0 <= j < i && self.1@[j] == code,
                    free <= REPORT_KEYS,
                    free < REPORT_KEYS ==> free < i && self.1@[free as int] == 0,
                    free == REPORT_KEYS ==> forall|j: int| 0 <= j < i ==> self.1@[j] != 0,
                    forall|j: int| 0 <= j < free && j < i ==> self.1@[j] != 0,
                decreases REPORT_KEYS - i,
            {
                if self.1[i] == code {
                    held = true;
                }
                if free == REPORT_KEYS && self.1[i] == 0 {
                    free = i;
                }
                i += 1;
            }
            proof {
                lemma_first_free(self.1@, free as int);
                if held {
                    let j = choose|j: int| 0 <= j < REPORT_KEYS && self.1@[j] == code;
                    assert(self.1@.contains(code));
                }
            }
            if !held && free < REPORT_KEYS {
                self.1[free] = code;
            }
        }
    }

    /// The listed modifiers whose bit is set, in the order of their codes.
    pub fn get_modifier_codes(&self) -> (r: Vec<KeyCode>)
        ensures
            r@ == modifier_codes(self@.modifiers, LISTED_MODIFIERS as int),
    {
        let bits = self.0;
        let mut out: Vec<KeyCode> = Vec::new();
        let mut k: u8 = 0;
        while k < LISTED_MODIFIERS
            invariant
                k <= LISTED_MODIFIERS,
                out@ == modifier_codes(bits, k as int),
            decreases LISTED_MODIFIERS - k,
        {
            assert(1u8 << k < 256) by (bit_vector)
                requires
                    k < 8,
            ;
            if bits & (1u8 << k) != 0 {
                out.push(KeyCode::from_u8(MODIFIER_FIRST + k));
            }
            k += 1;
        }
        out
    }

    /// The keys of the report: the listed modifiers, then the keys held.
    pub fn codes(&self) -> (r: Vec<KeyCode>)
        ensures
            r@ == self@.codes(),
    {
        let mut out = self.get_modifier_codes();
        let ghost modifiers = out@;
        let mut i: usize = 0;
        while i < REPORT_KEYS
            invariant
                i <= REPORT_KEYS,
                out@ == modifiers + key_codes(self.1@, i as int),
            decreases REPORT_KEYS - i,
        {
            let key = KeyCode::from_u8(self.1[i]);
            if key != KeyCode::No {
                out.push(key);
            }
            assert(out@ =~= modifiers + key_codes(self.1@, i + 1));
            i += 1;
        }
        out
    }

    /// The first six keys of the report, followed by the "no" key where they are fewer.
    pub fn to_keys(&self) -> (r: [KeyCode; 6])
        ensures
            r@ == padded_to(self@.codes(), REPORT_KEYS as int, KeyCode::No),
    {
        let codes = self.codes();
        let mut out = [KeyCode::No;6];
        let mut i: usize = 0;
        while i < REPORT_KEYS
            invariant
                i <= REPORT_KEYS,
                forall|j: int|
                    0 <= j < i ==> out@[j] == padded_to(codes@, REPORT_KEYS as int, KeyCode::No)[j],
                forall|j: int| i <= j < REPORT_KEYS ==> out@[j] == KeyCode::No,
            decreases REPORT_KEYS - i,
        {
            if i < codes.len() {
                out[i] = codes[i];
            }
            i += 1;
        }
        assert(out@ =~= padded_to(codes@, REPORT_KEYS as int, KeyCode::No));
        out
    }

    /// The bytes of the first six keys of the report, followed by zeros where they are fewer.
    pub fn to_bytes(&self) -> (r: [u8; 6])
        ensures
            r@ == padded_to(
                self@.codes().map_values(|k: KeyCode| k.code()),
                REPORT_KEYS as int,
                0u8,
            ),
    {
        let codes = self.codes();
        let ghost bytes = codes@.map_values(|k: KeyCode| k.code());
        let mut out = [0u8;6];
        let mut i: usize = 0;
        while i < REPORT_KEYS
            invariant
                i <= REPORT_KEYS,
                bytes == codes@.map_values(|k: KeyCode| k.code()),
                forall|j: int| 0 <= j < i ==> out@[j] == padded_to(bytes, REPORT_KEYS as int, 0u8)[j],
                forall|j: int| i <= j < REPORT_KEYS ==> out@[j] == 0,
            decreases REPORT_KEYS - i,
        {
            if i < codes.len() {
                out[i] = codes[i].to_u8();
            }
            i += 1;
        }
        assert(out@ =~= padded_to(bytes, REPORT_KEYS as int, 0u8));
        out
    }

    /// The report in which the keys that the bytes stand for have been pressed in order.
    pub fn from_bytes(value: &[u8; 6]) -> (r: KbReport)
        ensures
            r@ == (ReportModel { modifiers: 0, keys: Seq::new(6, |i: int| 0u8) }).pressed_all(
                value@,
                REPORT_KEYS as int,
            ),
    {
        let mut report = KbReport::default();
        let ghost empty = report@;
        let mut i: usize = 0;
        while i < REPORT_KEYS
            invariant
                i <= REPORT_KEYS,
                report@ == empty.pressed_all(value@, i as int),
            decreases REPORT_KEYS - i,
        {
            report.pressed(KeyCode::from_u8(value[i]));
            i += 1;
        }
        report
    }

    /// The report in which the given keys have been pressed in order.
    pub fn from_keys(keys: &[KeyCode; 6]) -> (r: KbReport)
        ensures
            r@ == (ReportModel { modifiers: 0, keys: Seq::new(6, |i: int| 0u8) }).pressed_all(
                keys@.map_values(|k: KeyCode| k.code()),
                REPORT_KEYS as int,
            ),
    {
        let mut report = KbReport::default();
        let ghost empty = report@;
        let ghost codes = keys@.map_values(|k: KeyCode| k.code());
        let mut i: usize = 0;
        while i < REPORT_KEYS
            invariant
                i <= REPORT_KEYS,
                codes == keys@.map_values(|k: KeyCode| k.code()),
                report@ == empty.pressed_all(codes, i as int),
            decreases REPORT_KEYS - i,
        {
            proof {
                crate::keycode::lemma_key_code_round_trip(keys@[i as int], 0);
            }
            report.pressed(keys[i]);
            i += 1;
        }
        report
    }
}

impl KeyCode {
    /// The report in which only this key has been pressed.
    pub fn to_report(self) -> (r: KbReport)
        ensures
            r@ == (ReportModel { modifiers: 0, keys: Seq::new(6, |i: int| 0u8) }).pressed(self),
    {
        let mut r = KbReport::default();
        r.pressed(self);
        r
    }
}

/// The report without any key.
pub open spec fn empty_report() -> ReportModel {
    ReportModel { modifiers: 0, keys: Seq::new(6, |i: int| 0u8) }
}

/// The six keys that a record names by six bytes: the keys that the bytes
/// stand for, pressed in order and read back from the report.
pub open spec fn keys_of_bytes(bytes: Seq<u8>) -> Seq<KeyCode> {
    padded_to(
        empty_report().pressed_all(bytes, REPORT_KEYS as int).codes(),
        REPORT_KEYS as int,
        KeyCode::No,
    )
}

/// The six bytes by which a record names six keys: the keys pressed in
/// order and read back from the report as bytes.
pub open spec fn bytes_of_keys(keys: Seq<KeyCode>) -> Seq<u8> {
    padded_to(
        empty_report().pressed_all(keys.map_values(|k: KeyCode| k.code()), REPORT_KEYS as int).codes().map_values(
            |k: KeyCode| k.code(),
        ),
        REPORT_KEYS as int,
        0u8,
    )
}

/// The six bytes by which a record names one key.
pub open spec fn bytes_of_key(key: KeyCode) -> Seq<u8> {
    padded_to(
        empty_report().pressed(key).codes().map_values(|k: KeyCode| k.code()),
        REPORT_KEYS as int,
        0u8,
    )
}

/// Reads the six keys that a record names by six bytes.
pub fn read_keys(bytes: &[u8; 6]) -> (keys: [KeyCode; 6])
    ensures
        keys@ == keys_of_bytes(bytes@),
{
    KbReport::from_bytes(bytes).to_keys()
}

/// The six bytes by which a record names six keys.
pub fn write_keys(keys: &[KeyCode; 6]) -> (bytes: [u8; 6])
    ensures
        bytes@ == bytes_of_keys(keys@),
{
    KbReport::from_keys(keys).to_bytes()
}

/// The six bytes by which a record names one key.
pub fn write_key(key: KeyCode) -> (bytes: [u8; 6])
    ensures
        bytes@ == bytes_of_key(key),
{
    key.to_report().to_bytes()
}

} // verus!
