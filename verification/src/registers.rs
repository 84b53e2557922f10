//! The register file: eight storage cells (seven 8-bit cells and two 16-bit
//! cells) plus the conventions for viewing pairs of 8-bit registers as one
//! 16-bit value. The pairs AF, BC, DE and HL are pure views over the cells,
//! not separate storage; composing or decomposing a pair has no hidden state.

use vstd::prelude::*;
use crate::flags::Flags;

verus! {

/// The 16-bit value a register pair composes to: the high register in bits
/// 15 to 8, the low register in bits 7 to 0.
pub open spec fn pair_value(hi: u8, lo: u8) -> u16 {
    ((hi as u16) << 8) | (lo as u16)
}

/// The high byte of a 16-bit value: what a pair write stores in its high cell.
pub open spec fn high_byte(v: u16) -> u8 {
    (v >> 8) as u8
}

/// The low byte of a 16-bit value: what a pair write stores in its low cell.
pub open spec fn low_byte(v: u16) -> u8 {
    (v & 0xFF) as u8
}

/// The register file of the emulated CPU. Each 8-bit cell is the single
/// source of truth; the pair accessors below are views over two cells each.
pub struct Registers {
    /// Accumulator: most operations take their operand or leave their result here.
    pub a: u8,
    /// Condition flags; pairs with the accumulator to form AF.
    pub f: Flags,
    pub b: u8,
    pub c: u8,
    pub d: u8,
    pub e: u8,
    pub h: u8,
    pub l: u8,
    /// Stack pointer.
    pub sp: u16,
    /// Program counter.
    pub pc: u16,
}

impl Registers {
    /// The AF view: accumulator high, flags byte low.
    pub open spec fn af(self) -> u16 {
        pair_value(self.a, self.f@)
    }

    /// The BC view.
    pub open spec fn bc(self) -> u16 {
        pair_value(self.b, self.c)
    }

    /// The DE view.
    pub open spec fn de(self) -> u16 {
        pair_value(self.d, self.e)
    }

    /// The HL view.
    pub open spec fn hl(self) -> u16 {
        pair_value(self.h, self.l)
    }

    /// The boot state: all 8-bit registers zero, no flag set, stack pointer
    /// 0xFFFE, program counter 0x0100. The only construction path; no
    /// partially initialized state is observable.
    pub fn new() -> (r: Registers)
        ensures
            r.a == 0,
            r.f@ == 0,
            r.b == 0,
            r.c == 0,
            r.d == 0,
            r.e == 0,
            r.h == 0,
            r.l == 0,
            r.sp == 0xFFFE,
            r.pc == 0x0100,
    {
        Registers {
            a: 0,
            f: Flags::empty(),
            b: 0,
            c: 0,
            d: 0,
            e: 0,
            h: 0,
            l: 0,
            sp: 0xFFFE,
            pc: 0x0100,
        }
    }

    /// Reads AF. The low nibble of the result is always zero: the flags
    /// register exposes a cleared low nibble through pair composition too.
    pub fn get_af(&self) -> (r: u16)
        ensures
            r == self.af(),
            r & 0x000F == 0,
    {
        let fb: u8 = self.f.to_byte();
        proof {
            lemma_pair_low_nibble(self.a, fb);
        }
        ((self.a as u16) << 8) | (fb as u16)
    }

    /// Writes AF: the high byte goes to the accumulator; the low byte is
    /// masked to its top four bits and stored as the flags. Bits outside the
    /// four meaningful flag positions are silently discarded, never signalled:
    /// reading AF back gives `(value & 0xFF00) | (value & 0x00F0)`.
    pub fn set_af(&mut self, value: u16)
        ensures
            final(self).a == high_byte(value),
            final(self).f@ == low_byte(value) & 0xF0,
            final(self).af() == (value & 0xFF00) | (value & 0x00F0),
            final(self).b == old(self).b,
            final(self).c == old(self).c,
            final(self).d == old(self).d,
            final(self).e == old(self).e,
            final(self).h == old(self).h,
            final(self).l == old(self).l,
            final(self).sp == old(self).sp,
            final(self).pc == old(self).pc,
    {
        self.a = (value >> 8) as u8;
        self.f = Flags::from_byte((value & 0xFF) as u8);
        proof {
            lemma_af_masking(value);
        }
    }

    /// Reads BC.
    pub fn get_bc(&self) -> (r: u16)
        ensures
            r == self.bc(),
    {
        ((self.b as u16) << 8) | (self.c as u16)
    }

    /// Writes BC: the high byte to B, the low byte to C, losslessly; reading
    /// BC back gives `value` exactly.
    pub fn set_bc(&mut self, value: u16)
        ensures
            final(self).b == high_byte(value),
            final(self).c == low_byte(value),
            final(self).bc() == value,
            final(self).a == old(self).a,
            final(self).f == old(self).f,
            final(self).d == old(self).d,
            final(self).e == old(self).e,
            final(self).h == old(self).h,
            final(self).l == old(self).l,
            final(self).sp == old(self).sp,
            final(self).pc == old(self).pc,
    {
        self.b = (value >> 8) as u8;
        self.c = (value & 0xFF) as u8;
        proof {
            lemma_pair_round_trip(value);
        }
    }

    /// Reads DE.
    pub fn get_de(&self) -> (r: u16)
        ensures
            r == self.de(),
    {
        ((self.d as u16) << 8) | (self.e as u16)
    }

    /// Writes DE: the high byte to D, the low byte to E, losslessly; reading
    /// DE back gives `value` exactly.
    pub fn set_de(&mut self, value: u16)
        ensures
            final(self).d == high_byte(value),
            final(self).e == low_byte(value),
            final(self).de() == value,
            final(self).a == old(self).a,
            final(self).f == old(self).f,
            final(self).b == old(self).b,
            final(self).c == old(self).c,
            final(self).h == old(self).h,
            final(self).l == old(self).l,
            final(self).sp == old(self).sp,
            final(self).pc == old(self).pc,
    {
        self.d = (value >> 8) as u8;
        self.e = (value & 0xFF) as u8;
        proof {
            lemma_pair_round_trip(value);
        }
    }

    /// Reads HL.
    pub fn get_hl(&self) -> (r: u16)
        ensures
            r == self.hl(),
    {
        ((self.h as u16) << 8) | (self.l as u16)
    }

    /// Writes HL: the high byte to H, the low byte to L, losslessly; reading
    /// HL back gives `value` exactly.
    pub fn set_hl(&mut self, value: u16)
        ensures
            final(self).h == high_byte(value),
            final(self).l == low_byte(value),
            final(self).hl() == value,
            final(self).a == old(self).a,
            final(self).f == old(self).f,
            final(self).b == old(self).b,
            final(self).c == old(self).c,
            final(self).d == old(self).d,
            final(self).e == old(self).e,
            final(self).sp == old(self).sp,
            final(self).pc == old(self).pc,
    {
        self.h = (value >> 8) as u8;
        self.l = (value & 0xFF) as u8;
        proof {
            lemma_pair_round_trip(value);
        }
    }
}

/// Round trip: splitting any 16-bit value into its high and low bytes and
/// recomposing them returns the value. With the contracts of the pair
/// accessors this gives, for every `v`: after `set_bc(v)`, `get_bc()` returns
/// exactly `v`, and likewise for DE and HL.
pub proof fn lemma_pair_round_trip(v: u16)
    by (bit_vector)
    ensures
        pair_value(high_byte(v), low_byte(v)) == v,
{
}

/// Flags masking: recomposing the high byte of `v` with its low byte masked
/// to the top nibble gives `(v & 0xFF00) | (v & 0x00F0)`. With the contracts
/// of the AF accessors this gives, for every `v`: after `set_af(v)`,
/// `get_af()` returns `(v & 0xFF00) | (v & 0x00F0)` — the low nibble of the
/// written flags byte is the sole deliberate loss.
pub proof fn lemma_af_masking(v: u16)
    by (bit_vector)
    ensures
        pair_value(high_byte(v), low_byte(v) & 0xF0) == (v & 0xFF00) | (v & 0x00F0),
{
}

/// A pair whose low cell has a clear low nibble composes to a 16-bit value
/// with a clear low nibble: the AF view inherits the flags invariant.
proof fn lemma_pair_low_nibble(hi: u8, lo: u8)
    by (bit_vector)
    requires
        lo & 0x0F == 0,
    ensures
        pair_value(hi, lo) & 0x000F == 0,
{
}

/// Idempotence: each pair view is a function of the stored registers alone,
/// so two reads of the same pair with no write between them — both reads then
/// meet the getter's contract against the same state — return the same value.
pub proof fn lemma_get_pair_idempotent(rf: Registers, first: u16, second: u16)
    ensures
        first == rf.af() && second == rf.af() ==> first == second,
        first == rf.bc() && second == rf.bc() ==> first == second,
        first == rf.de() && second == rf.de() ==> first == second,
        first == rf.hl() && second == rf.hl() ==> first == second,
{
}

} // verus!

