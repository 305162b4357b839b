//! The HID boot-keyboard report encoder: byte 0 carries the OR of the
//! pressed modifiers' bits, byte 1 is reserved, and bytes 2 through 7 carry
//! up to six regular-key usage codes in press order.

use vstd::prelude::*;
use crate::key::{ModifierKey, RegularKey, spec_modifier_bit, modifier_bit, spec_usage_code,
    usage_code};

verus! {

/// The OR of the fixed bit values of a list of modifiers.
pub open spec fn modifier_byte(mods: Seq<ModifierKey>) -> u8
    decreases mods.len(),
{
    if mods.len() == 0 {
        0u8
    } else {
        modifier_byte(mods.drop_last()) | spec_modifier_bit(mods.last())
    }
}

/// The byte a report carries at index `i` for the pressed regular keys
/// `keys`: the usage code of the `i - 2`-nd oldest pressed key, or 0 for an
/// unused slot.
pub open spec fn spec_key_slot(keys: Seq<RegularKey>, i: int) -> u8 {
    if 2 <= i < 8 && i - 2 < keys.len() {
        spec_usage_code(keys[i - 2])
    } else {
        0u8
    }
}

/// Whether bit `k` is set in `b`.
pub open spec fn bit_set(b: u8, k: u8) -> bool {
    b & (1u8 << k) != 0
}

/// A bit is set in the modifier byte exactly when some modifier in the list
/// contributes it.
proof fn lemma_modifier_byte_bits(mods: Seq<ModifierKey>, k: u8)
    requires
        k < 8,
    ensures
        bit_set(modifier_byte(mods), k) <==> exists|i: int|
            0 <= i < mods.len() && bit_set(spec_modifier_bit(mods[i]), k),
    decreases mods.len(),
{
    if mods.len() == 0 {
        assert(0u8 & (1u8 << k) == 0) by (bit_vector);
    } else {
        lemma_modifier_byte_bits(mods.drop_last(), k);
        let front = modifier_byte(mods.drop_last());
        let last = spec_modifier_bit(mods.last());
        assert(((front | last) & (1u8 << k) != 0) <==> ((front & (1u8 << k) != 0) || (last & (1u8
            << k) != 0))) by (bit_vector);
        if bit_set(modifier_byte(mods), k) {
            if bit_set(last, k) {
                assert(bit_set(spec_modifier_bit(mods[mods.len() - 1]), k));
            } else {
                let i = choose|i: int|
                    0 <= i < mods.drop_last().len() && bit_set(
                        spec_modifier_bit(mods.drop_last()[i]),
                        k,
                    );
                assert(mods[i] == mods.drop_last()[i]);
            }
        }
        if exists|i: int| 0 <= i < mods.len() && bit_set(spec_modifier_bit(mods[i]), k) {
            let i = choose|i: int| 0 <= i < mods.len() && bit_set(spec_modifier_bit(mods[i]), k);
            if i < mods.len() - 1 {
                assert(mods.drop_last()[i] == mods[i]);
            }
        }
    }
}

/// The modifier byte depends only on which modifiers are in the list: press
/// order and duplicate presses do not change it.
pub proof fn lemma_modifier_byte_set_independent(a: Seq<ModifierKey>, b: Seq<ModifierKey>)
    requires
        a.to_set() == b.to_set(),
    ensures
        modifier_byte(a) == modifier_byte(b),
{
    let x = modifier_byte(a);
    let y = modifier_byte(b);
    assert forall|k: u8| k < 8 implies (bit_set(x, k) <==> bit_set(y, k)) by {
        lemma_modifier_byte_bits(a, k);
        lemma_modifier_byte_bits(b, k);
        if bit_set(x, k) {
            let i = choose|i: int| 0 <= i < a.len() && bit_set(spec_modifier_bit(a[i]), k);
            assert(a.contains(a[i]));
            assert(b.to_set().contains(a[i]));
            assert(b.contains(a[i]));
            let j = choose|j: int| 0 <= j < b.len() && b[j] == a[i];
            assert(bit_set(spec_modifier_bit(b[j]), k));
        }
        if bit_set(y, k) {
            let i = choose|i: int| 0 <= i < b.len() && bit_set(spec_modifier_bit(b[i]), k);
            assert(b.contains(b[i]));
            assert(a.to_set().contains(b[i]));
            assert(a.contains(b[i]));
            let j = choose|j: int| 0 <= j < a.len() && a[j] == b[i];
            assert(bit_set(spec_modifier_bit(a[j]), k));
        }
    }
    assert(bit_set(x, 0) <==> bit_set(y, 0));
    assert(bit_set(x, 1) <==> bit_set(y, 1));
    assert(bit_set(x, 2) <==> bit_set(y, 2));
    assert(bit_set(x, 3) <==> bit_set(y, 3));
    assert(bit_set(x, 4) <==> bit_set(y, 4));
    assert(bit_set(x, 5) <==> bit_set(y, 5));
    assert(bit_set(x, 6) <==> bit_set(y, 6));
    assert(bit_set(x, 7) <==> bit_set(y, 7));
    assert(x == y) by (bit_vector)
        requires
            (x & (1u8 << 0u8) != 0 <==> y & (1u8 << 0u8) != 0),
            (x & (1u8 << 1u8) != 0 <==> y & (1u8 << 1u8) != 0),
            (x & (1u8 << 2u8) != 0 <==> y & (1u8 << 2u8) != 0),
            (x & (1u8 << 3u8) != 0 <==> y & (1u8 << 3u8) != 0),
            (x & (1u8 << 4u8) != 0 <==> y & (1u8 << 4u8) != 0),
            (x & (1u8 << 5u8) != 0 <==> y & (1u8 << 5u8) != 0),
            (x & (1u8 << 6u8) != 0 <==> y & (1u8 << 6u8) != 0),
            (x & (1u8 << 7u8) != 0 <==> y & (1u8 << 7u8) != 0),
    ;
}

/// A snapshot of the pressed key set, ready to be encoded.
pub struct USBKeyEvent {
    pub modifiers: Vec<ModifierKey>,
    pub keys: Vec<RegularKey>,
}

impl USBKeyEvent {
    /// The 8-byte boot-keyboard report: the modifier byte, the reserved
    /// byte, then the usage codes of the up to six oldest pressed regular
    /// keys in press order, with unused slots 0. Keys beyond the sixth are
    /// not encoded.
    pub fn to_report(&self) -> (r: [u8; 8])
        ensures
            r@.len() == 8,
            r@[0] == modifier_byte(self.modifiers@),
            r@[1] == 0,
            forall|i: int| 2 <= i < 8 ==> r@[i] == spec_key_slot(self.keys@, i),
    {
        let mut modifier_bits: u8 = 0;
        let mut i: usize = 0;
        while i < self.modifiers.len()
            invariant
                i <= self.modifiers@.len(),
                modifier_bits == modifier_byte(self.modifiers@.take(i as int)),
            decreases self.modifiers@.len() - i,
        {
            modifier_bits = modifier_bits | modifier_bit(self.modifiers[i]);
            proof {
                assert(self.modifiers@.take(i + 1).drop_last() =~= self.modifiers@.take(i as int));
                assert(self.modifiers@.take(i + 1).last() == self.modifiers@[i as int]);
            }
            i = i + 1;
        }
        proof {
            assert(self.modifiers@.take(self.modifiers@.len() as int) =~= self.modifiers@);
        }
        let slot0 = self.key_slot(0);
        let slot1 = self.key_slot(1);
        let slot2 = self.key_slot(2);
        let slot3 = self.key_slot(3);
        let slot4 = self.key_slot(4);
        let slot5 = self.key_slot(5);
        let r: [u8; 8] = [modifier_bits, 0u8, slot0, slot1, slot2, slot3, slot4, slot5];
        r
    }

    /// The usage code for key slot `n` of the report (0-based among the six
    /// key bytes), or 0 when fewer keys are pressed.
    fn key_slot(&self, n: usize) -> (r: u8)
        requires
            n < 6,
        ensures
            r == spec_key_slot(self.keys@, n + 2),
    {
        if n < self.keys.len() {
            usage_code(self.keys[n])
        } else {
            0u8
        }
    }

    /// Whether keys were dropped from the report: more than six regular
    /// keys are pressed at once. The callers' warning signal.
    pub fn overflowed(&self) -> (r: bool)
        ensures
            r == (self.keys@.len() > 6),
    {
        self.keys.len() > 6
    }
}

} // verus!

