//! Status-flag utilities: width-aware addition with carry, overflow and
//! auxiliary-carry detection, and the routines that fold a result into the
//! packed flags word.
use vstd::prelude::*;

verus! {

/// Carry, bit 0.
pub const FLAG_CF: u16 = 0x0001;

/// Parity, bit 2.
pub const FLAG_PF: u16 = 0x0004;

/// Auxiliary carry, bit 4.
pub const FLAG_AF: u16 = 0x0010;

/// Zero, bit 6.
pub const FLAG_ZF: u16 = 0x0040;

/// Sign, bit 7.
pub const FLAG_SF: u16 = 0x0080;

/// Trap, bit 8.
pub const FLAG_TF: u16 = 0x0100;

/// Interrupt enable, bit 9.
pub const FLAG_IF: u16 = 0x0200;

/// Direction, bit 10.
pub const FLAG_DF: u16 = 0x0400;

/// Overflow, bit 11.
pub const FLAG_OF: u16 = 0x0800;

/// The six bits that an arithmetic instruction rewrites: CF, PF, AF, ZF, SF, OF.
pub const ARITH_FLAGS: u16 = 0x08D5;

/// Operand width of an instruction.
#[derive(Clone, Copy, PartialEq, Eq, Structural, Debug)]
pub enum Width {
    Byte,
    Word,
}

/// A named bit of the flags word.
#[derive(Clone, Copy, PartialEq, Eq, Structural, Debug)]
pub enum Flag {
    Carry,
    Parity,
    AuxCarry,
    Zero,
    Sign,
    Trap,
    Interrupt,
    Direction,
    Overflow,
}

impl Flag {
    /// The bit of the flags word that this flag occupies.
    pub open spec fn spec_mask(self) -> u16 {
        match self {
            Flag::Carry => FLAG_CF,
            Flag::Parity => FLAG_PF,
            Flag::AuxCarry => FLAG_AF,
            Flag::Zero => FLAG_ZF,
            Flag::Sign => FLAG_SF,
            Flag::Trap => FLAG_TF,
            Flag::Interrupt => FLAG_IF,
            Flag::Direction => FLAG_DF,
            Flag::Overflow => FLAG_OF,
        }
    }

    /// The bit of the flags word that this flag occupies.
    pub fn mask(self) -> (m: u16)
        ensures
            m == self.spec_mask(),
    {
        match self {
            Flag::Carry => FLAG_CF,
            Flag::Parity => FLAG_PF,
            Flag::AuxCarry => FLAG_AF,
            Flag::Zero => FLAG_ZF,
            Flag::Sign => FLAG_SF,
            Flag::Trap => FLAG_TF,
            Flag::Interrupt => FLAG_IF,
            Flag::Direction => FLAG_DF,
            Flag::Overflow => FLAG_OF,
        }
    }
}

/// `flags` with the bits of `mask` set when `on`, cleared otherwise.
pub open spec fn with_flag(flags: u16, mask: u16, on: bool) -> u16 {
    if on {
        flags | mask
    } else {
        flags & !mask
    }
}

/// Whether any bit of `mask` is set in `flags`.
pub open spec fn has_flag(flags: u16, mask: u16) -> bool {
    flags & mask != 0
}

/// Reads one flag of a flags word.
pub fn flag_is_set(flags: u16, flag: Flag) -> (r: bool)
    ensures
        r == has_flag(flags, flag.spec_mask()),
{
    flags & flag.mask() != 0
}

/// Sets or clears one flag of a flags word; the other bits are kept.
pub fn write_flag(flags: u16, flag: Flag, on: bool) -> (r: u16)
    ensures
        r == with_flag(flags, flag.spec_mask(), on),
{
    let m = flag.mask();
    if on {
        flags | m
    } else {
        flags & !m
    }
}

/// Number of set bits among bits `0 .. n` of `v`.
pub open spec fn ones_below(v: u16, n: nat) -> nat
    decreases n,
{
    if n == 0 {
        0
    } else {
        ones_below(v, (n - 1) as nat) + if (v >> ((n - 1) as u16)) & 1 == 1 {
            1nat
        } else {
            0nat
        }
    }
}

/// The low byte of `v` holds an even number of set bits.
pub open spec fn even_parity(v: u16) -> bool {
    ones_below(v, 8) % 2 == 0
}

/// `v` seen at width `w`.
pub open spec fn sized(v: u16, w: Width) -> u16 {
    match w {
        Width::Byte => v % 256,
        Width::Word => v,
    }
}

/// The top bit of `v` at width `w`.
pub open spec fn sign_of(v: u16, w: Width) -> bool {
    match w {
        Width::Byte => v % 256 >= 0x80,
        Width::Word => v >= 0x8000,
    }
}

/// ZF, SF and PF rewritten from `v`; every other bit kept.
pub open spec fn result_flags(flags: u16, v: u16, w: Width) -> u16 {
    with_flag(
        with_flag(with_flag(flags, FLAG_ZF, sized(v, w) == 0), FLAG_SF, sign_of(v, w)),
        FLAG_PF,
        even_parity(v),
    )
}

/// The flags word after an arithmetic result: ZF, SF, PF from `v`, and
/// CF, OF, AF from the given booleans.
pub open spec fn arith_flags(flags: u16, v: u16, w: Width, of: bool, cf: bool, af: bool) -> u16 {
    with_flag(
        with_flag(with_flag(result_flags(flags, v, w), FLAG_CF, cf), FLAG_OF, of),
        FLAG_AF,
        af,
    )
}

/// The flags word after a logical result: ZF, SF, PF from `v`, CF and OF
/// cleared, AF kept.
pub open spec fn logic_flags(flags: u16, v: u16, w: Width) -> u16 {
    with_flag(with_flag(result_flags(flags, v, w), FLAG_CF, false), FLAG_OF, false)
}

/// `a` read as a two's-complement byte.
pub open spec fn as_signed8(a: u8) -> int {
    if a < 0x80 {
        a as int
    } else {
        a - 0x100
    }
}

/// `a` read as a two's-complement word.
pub open spec fn as_signed16(a: u16) -> int {
    if a < 0x8000 {
        a as int
    } else {
        a - 0x10000
    }
}

/// The signed sum of `a` and `b` leaves the range of `i8`.
pub open spec fn add_overflows8(a: u8, b: u8) -> bool {
    let s = as_signed8(a) + as_signed8(b);
    s < -0x80 || s > 0x7F
}

/// The signed sum of `a` and `b` leaves the range of `i16`.
pub open spec fn add_overflows16(a: u16, b: u16) -> bool {
    let s = as_signed16(a) + as_signed16(b);
    s < -0x8000 || s > 0x7FFF
}

/// Adds two bytes. Returns the wrapped sum, then whether the signed sum
/// overflows, whether the unsigned sum carries out of bit 7, and whether the
/// low nibbles carry into bit 4.
pub fn add_8bit_complemento_a2(a: u8, b: u8) -> (r: (u8, bool, bool, bool))
    ensures
        r.0 == (a + b) % 0x100,
        r.1 == add_overflows8(a, b),
        r.2 == (a + b > 0xFF),
        r.3 == (a % 16 + b % 16 > 0xF),
        r.0 + (if r.2 {
            0x100int
        } else {
            0
        }) == a + b,
{
    let sum: u16 = a as u16 + b as u16;
    let result: u8 = (sum % 0x100) as u8;
    let carry = sum > 0xFF;
    let a_neg = a >= 0x80;
    let overflow = a_neg == (b >= 0x80) && (result >= 0x80) != a_neg;
    let aux = a % 16 + b % 16 > 0xF;
    (result, overflow, carry, aux)
}

/// Adds two words. Returns the wrapped sum, then whether the signed sum
/// overflows, whether the unsigned sum carries out of bit 15, and whether
/// the low nibbles carry into bit 4.
pub fn add_16bit_complemento_a2(a: u16, b: u16) -> (r: (u16, bool, bool, bool))
    ensures
        r.0 == (a + b) % 0x10000,
        r.1 == add_overflows16(a, b),
        r.2 == (a + b > 0xFFFF),
        r.3 == (a % 16 + b % 16 > 0xF),
        r.0 + (if r.2 {
            0x10000int
        } else {
            0
        }) == a + b,
{
    let sum: u32 = a as u32 + b as u32;
    let result: u16 = (sum % 0x10000) as u16;
    let carry = sum > 0xFFFF;
    let a_neg = a >= 0x8000;
    let overflow = a_neg == (b >= 0x8000) && (result >= 0x8000) != a_neg;
    let aux = a % 16 + b % 16 > 0xF;
    (result, overflow, carry, aux)
}

/// Whether the low byte of `v` holds an even number of set bits.
pub fn parity_even(v: u16) -> (r: bool)
    ensures
        r == even_parity(v),
{
    let mut count: u16 = 0;
    let mut i: u16 = 0;
    while i < 8
        invariant
            i <= 8,
            count <= i,
            count == ones_below(v, i as nat),
        decreases 8 - i,
    {
        if (v >> i) & 1 == 1 {
            count = count + 1;
        }
        i = i + 1;
    }
    count % 2 == 0
}

/// Rewrites ZF, SF and PF of `flags` from `resultado` at width `width`.
pub fn actualizar_flags_resultado(flags: &mut u16, resultado: u16, width: Width)
    ensures
        *final(flags) == result_flags(*old(flags), resultado, width),
{
    let (value, sign) = match width {
        Width::Byte => (resultado % 256, resultado % 256 >= 0x80),
        Width::Word => (resultado, resultado >= 0x8000),
    };
    *flags = write_flag(*flags, Flag::Zero, value == 0);
    *flags = write_flag(*flags, Flag::Sign, sign);
    *flags = write_flag(*flags, Flag::Parity, parity_even(resultado));
}

/// Rewrites the six arithmetic flags after an addition: ZF, SF and PF from
/// `resultado` at width `width`; OF, CF and AF from the booleans given. TF,
/// IF and DF are left as they were.
pub fn actualizar_flags_add(
    flags: &mut u16,
    resultado: u16,
    width: Width,
    overflow: bool,
    carry: bool,
    aux: bool,
)
    ensures
        *final(flags) == arith_flags(*old(flags), resultado, width, overflow, carry, aux),
{
    actualizar_flags_resultado(flags, resultado, width);
    *flags = write_flag(*flags, Flag::Carry, carry);
    *flags = write_flag(*flags, Flag::Overflow, overflow);
    *flags = write_flag(*flags, Flag::AuxCarry, aux);
}

/// Rewrites the flags after a logical operation: ZF, SF and PF from
/// `resultado`, CF and OF cleared, AF left as it was.
pub fn actualizar_flags_and(flags: &mut u16, resultado: u16, width: Width)
    ensures
        *final(flags) == logic_flags(*old(flags), resultado, width),
{
    actualizar_flags_resultado(flags, resultado, width);
    *flags = write_flag(*flags, Flag::Carry, false);
    *flags = write_flag(*flags, Flag::Overflow, false);
}

/// The six-bit rewrite of an arithmetic or logical result, over the values
/// that each rewritten flag takes.
pub open spec fn six_flags(
    flags: u16,
    z: bool,
    s: bool,
    p: bool,
    cf: bool,
    of: bool,
    af: bool,
) -> u16 {
    with_flag(
        with_flag(
            with_flag(with_flag(with_flag(with_flag(flags, FLAG_ZF, z), FLAG_SF, s), FLAG_PF, p), FLAG_CF, cf),
            FLAG_OF,
            of,
        ),
        FLAG_AF,
        af,
    )
}

proof fn lemma_six_flags(flags: u16, z: bool, s: bool, p: bool, cf: bool, of: bool, af: bool)
    by (bit_vector)
    ensures
        (six_flags(flags, z, s, p, cf, of, af) & FLAG_ZF != 0) == z,
        (six_flags(flags, z, s, p, cf, of, af) & FLAG_SF != 0) == s,
        (six_flags(flags, z, s, p, cf, of, af) & FLAG_PF != 0) == p,
        (six_flags(flags, z, s, p, cf, of, af) & FLAG_CF != 0) == cf,
        (six_flags(flags, z, s, p, cf, of, af) & FLAG_OF != 0) == of,
        (six_flags(flags, z, s, p, cf, of, af) & FLAG_AF != 0) == af,
        six_flags(flags, z, s, p, cf, of, af) & !ARITH_FLAGS == flags & !ARITH_FLAGS,
{
}

/// An arithmetic flag update rewrites exactly CF, PF, AF, ZF, SF and OF: ZF
/// tells whether the result is zero, SF gives its top bit at the operation's
/// width, PF the parity of its low byte, and CF, OF, AF the values handed in.
/// Every other bit of the flags word keeps its value.
pub proof fn lemma_arith_flags_exact(flags: u16, v: u16, w: Width, of: bool, cf: bool, af: bool)
    ensures
        has_flag(arith_flags(flags, v, w, of, cf, af), FLAG_CF) == cf,
        has_flag(arith_flags(flags, v, w, of, cf, af), FLAG_OF) == of,
        has_flag(arith_flags(flags, v, w, of, cf, af), FLAG_AF) == af,
        has_flag(arith_flags(flags, v, w, of, cf, af), FLAG_ZF) == (sized(v, w) == 0),
        has_flag(arith_flags(flags, v, w, of, cf, af), FLAG_SF) == sign_of(v, w),
        has_flag(arith_flags(flags, v, w, of, cf, af), FLAG_PF) == even_parity(v),
        arith_flags(flags, v, w, of, cf, af) & !ARITH_FLAGS == flags & !ARITH_FLAGS,
{
    lemma_six_flags(flags, sized(v, w) == 0, sign_of(v, w), even_parity(v), cf, of, af);
}

/// A logical flag update clears CF and OF, sets ZF, SF and PF from the
/// result, and keeps every other bit, AF included.
pub proof fn lemma_logic_flags_exact(flags: u16, v: u16, w: Width)
    ensures
        !has_flag(logic_flags(flags, v, w), FLAG_CF),
        !has_flag(logic_flags(flags, v, w), FLAG_OF),
        has_flag(logic_flags(flags, v, w), FLAG_ZF) == (sized(v, w) == 0),
        has_flag(logic_flags(flags, v, w), FLAG_SF) == sign_of(v, w),
        has_flag(logic_flags(flags, v, w), FLAG_PF) == even_parity(v),
        logic_flags(flags, v, w) & !(ARITH_FLAGS & !FLAG_AF) == flags & !(ARITH_FLAGS & !FLAG_AF),
{
    let z = sized(v, w) == 0;
    let s = sign_of(v, w);
    let p = even_parity(v);
    let r = logic_flags(flags, v, w);
    assert((r & FLAG_ZF != 0) == z && (r & FLAG_SF != 0) == s && (r & FLAG_PF != 0) == p
        && r & FLAG_CF == 0 && r & FLAG_OF == 0
        && r & !(ARITH_FLAGS & !FLAG_AF) == flags & !(ARITH_FLAGS & !FLAG_AF)) by (bit_vector)
        requires
            r == with_flag(
                with_flag(with_flag(with_flag(with_flag(flags, FLAG_ZF, z), FLAG_SF, s), FLAG_PF, p), FLAG_CF, false),
                FLAG_OF,
                false,
            ),
    ;
}

} // verus!
