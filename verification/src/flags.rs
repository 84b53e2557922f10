//! The condition-flag register: four independent boolean conditions stored in
//! the top nibble of one byte. The bottom four bits carry no meaning and
//! always read as zero, no matter how the byte was produced.

use vstd::prelude::*;

verus! {

/// One of the four condition flags: Zero (bit 7), Subtraction (bit 6),
/// Half-Carry (bit 5) and Carry (bit 4).
#[derive(Clone, Copy, PartialEq, Eq, Structural, Debug)]
pub enum Condition {
    Zero,
    Subtraction,
    HalfCarry,
    Carry,
}

/// The bit of the flags byte that holds condition `c`, as a one-bit mask.
pub open spec fn condition_mask(c: Condition) -> u8 {
    match c {
        Condition::Zero => 0x80,
        Condition::Subtraction => 0x40,
        Condition::HalfCarry => 0x20,
        Condition::Carry => 0x10,
    }
}

/// Whether the flags byte `bits` has condition `c` set.
pub open spec fn has_condition(bits: u8, c: Condition) -> bool {
    bits & condition_mask(c) != 0
}

/// The flags register. Its view (`@`) is the byte it stores; that byte always
/// has its low nibble clear (see [`lemma_flags_low_nibble_clear`]).
#[derive(Clone, Copy, PartialEq, Eq, Structural, Debug)]
pub struct Flags {
    bits: u8,
}

impl View for Flags {
    type V = u8;

    closed spec fn view(&self) -> u8 {
        self.bits
    }
}

impl Flags {
    /// The stored byte never has a bit of the low nibble set.
    #[verifier::type_invariant]
    spec fn low_nibble_clear(self) -> bool {
        self.bits & 0x0F == 0
    }

    /// A flags value with no condition set: the reset state.
    pub fn empty() -> (r: Flags)
        ensures
            r@ == 0u8,
    {
        proof {
            assert(0u8 & 0x0F == 0) by (bit_vector);
        }
        Flags { bits: 0 }
    }

    /// Builds a flags value from a byte, keeping the top four bits and
    /// discarding the bottom four. Total: every byte is a valid input.
    pub fn from_byte(b: u8) -> (r: Flags)
        ensures
            r@ == b & 0xF0,
    {
        proof {
            assert((b & 0xF0) & 0x0F == 0) by (bit_vector);
        }
        Flags { bits: b & 0xF0 }
    }

    /// The byte form: the four conditions in bits 7 to 4, low nibble zero.
    pub fn to_byte(&self) -> (r: u8)
        ensures
            r == self@,
            r & 0x0F == 0,
    {
        proof {
            use_type_invariant(&*self);
        }
        self.bits
    }

    /// Whether condition `c` is currently set.
    pub fn contains(&self, c: Condition) -> (r: bool)
        ensures
            r == has_condition(self@, c),
    {
        let m: u8 = mask_of(c);
        (self.bits & m) != 0
    }

    /// Sets (`on == true`) or clears (`on == false`) condition `c`. The other
    /// three conditions keep their values.
    pub fn set_condition(&mut self, c: Condition, on: bool)
        ensures
            final(self)@ == (if on {
                old(self)@ | condition_mask(c)
            } else {
                old(self)@ & !condition_mask(c)
            }),
            has_condition(final(self)@, c) == on,
            forall|other: Condition|
                other != c ==> #[trigger] has_condition(final(self)@, other) == has_condition(
                    old(self)@,
                    other,
                ),
    {
        proof {
            use_type_invariant(&*self);
        }
        let m: u8 = mask_of(c);
        let new_bits: u8 = if on {
            self.bits | m
        } else {
            self.bits & !m
        };
        proof {
            let b0: u8 = self.bits;
            assert(m == 0x80 || m == 0x40 || m == 0x20 || m == 0x10);
            assert((b0 | m) & 0x0F == 0 && (b0 & !m) & 0x0F == 0 && (b0 | m) & m != 0 && (b0 & !m)
                & m == 0) by (bit_vector)
                requires
                    b0 & 0x0F == 0,
                    m == 0x80 || m == 0x40 || m == 0x20 || m == 0x10,
            ;
            assert forall|other: Condition| other != c implies #[trigger] has_condition(
                new_bits,
                other,
            ) == has_condition(b0, other) by {
                lemma_condition_independence(b0, c, other, on);
            }
        }
        *self = Flags { bits: new_bits };
    }
}

/// Exec form of [`condition_mask`].
fn mask_of(c: Condition) -> (r: u8)
    ensures
        r == condition_mask(c),
{
    match c {
        Condition::Zero => 0x80,
        Condition::Subtraction => 0x40,
        Condition::HalfCarry => 0x20,
        Condition::Carry => 0x10,
    }
}

/// Flag independence: setting or clearing one condition never changes whether
/// a different condition is set.
pub proof fn lemma_condition_independence(bits: u8, c1: Condition, c2: Condition, on: bool)
    requires
        c1 != c2,
    ensures
        has_condition(
            (if on {
                bits | condition_mask(c1)
            } else {
                bits & !condition_mask(c1)
            }),
            c2,
        ) == has_condition(bits, c2),
{
    let m1: u8 = condition_mask(c1);
    let m2: u8 = condition_mask(c2);
    assert(m1 == 0x80 || m1 == 0x40 || m1 == 0x20 || m1 == 0x10);
    assert(m2 == 0x80 || m2 == 0x40 || m2 == 0x20 || m2 == 0x10);
    assert(m1 != m2);
    assert(((bits | m1) & m2 != 0) == (bits & m2 != 0) && ((bits & !m1) & m2 != 0) == (bits & m2
        != 0)) by (bit_vector)
        requires
            m1 != m2,
            m1 == 0x80 || m1 == 0x40 || m1 == 0x20 || m1 == 0x10,
            m2 == 0x80 || m2 == 0x40 || m2 == 0x20 || m2 == 0x10,
    ;
}

} // verus!
