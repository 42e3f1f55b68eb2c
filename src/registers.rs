//! The register file: word registers, their byte halves, the 3-bit selector
//! encodings of the instruction set, and the addressing-mode base formulas.
use vstd::prelude::*;

use crate::error::EmuError;

verus! {

/// High byte (bits 8..15) of a word.
pub open spec fn high(v: u16) -> u8 {
    (v / 0x100) as u8
}

/// Low byte (bits 0..7) of a word.
pub open spec fn low(v: u16) -> u8 {
    (v % 0x100) as u8
}

/// `v` with its high byte replaced by `b`.
pub open spec fn with_high(v: u16, b: u8) -> u16 {
    (v % 0x100 + b * 0x100) as u16
}

/// `v` with its low byte replaced by `b`.
pub open spec fn with_low(v: u16, b: u8) -> u16 {
    (v / 0x100 * 0x100 + b) as u16
}

/// The power-on register file: SP at the top of its segment, CS, DS and ES
/// at the load segment 0x0700, IP at the program-load offset 0x0100, and
/// only the reserved bit 1 set in the flags.
pub open spec fn power_on() -> Registers {
    Registers {
        ax: 0,
        bx: 0,
        cx: 0,
        dx: 0,
        si: 0,
        di: 0,
        cs: 0x0700,
        ds: 0x0700,
        ss: 0,
        es: 0x0700,
        sp: 0xFFFE,
        bp: 0,
        ip: 0x0100,
        flags: 0x0002,
    }
}

/// The CPU registers.
#[derive(Clone, Copy, PartialEq, Eq, Structural, Debug)]
pub struct Registers {
    /// General-purpose registers; each splits into a high and a low byte.
    pub ax: u16,
    pub bx: u16,
    pub cx: u16,
    pub dx: u16,
    /// Index registers.
    pub si: u16,
    pub di: u16,
    /// Segment registers.
    pub cs: u16,
    pub ds: u16,
    pub ss: u16,
    pub es: u16,
    /// Stack and base pointers.
    pub sp: u16,
    pub bp: u16,
    /// Instruction pointer, an offset within CS.
    pub ip: u16,
    /// The packed flags word.
    pub flags: u16,
}

impl Registers {
    /// The word register that `sel` names: AX, CX, DX, BX, SP, BP, SI, DI
    /// for `0..=7`.
    pub open spec fn word(self, sel: u8) -> u16 {
        match sel {
            0 => self.ax,
            1 => self.cx,
            2 => self.dx,
            3 => self.bx,
            4 => self.sp,
            5 => self.bp,
            6 => self.si,
            _ => self.di,
        }
    }

    /// The byte register that `sel` names: AL, CL, DL, BL, AH, CH, DH, BH for
    /// `0..=7`.
    pub open spec fn byte(self, sel: u8) -> u8 {
        match sel {
            0 => low(self.ax),
            1 => low(self.cx),
            2 => low(self.dx),
            3 => low(self.bx),
            4 => high(self.ax),
            5 => high(self.cx),
            6 => high(self.dx),
            _ => high(self.bx),
        }
    }

    /// The registers after word register `sel` is set to `v`.
    pub open spec fn with_word(self, sel: u8, v: u16) -> Registers {
        match sel {
            0 => Registers { ax: v, ..self },
            1 => Registers { cx: v, ..self },
            2 => Registers { dx: v, ..self },
            3 => Registers { bx: v, ..self },
            4 => Registers { sp: v, ..self },
            5 => Registers { bp: v, ..self },
            6 => Registers { si: v, ..self },
            _ => Registers { di: v, ..self },
        }
    }

    /// The registers after byte register `sel` is set to `v`.
    pub open spec fn with_byte(self, sel: u8, v: u8) -> Registers {
        match sel {
            0 => Registers { ax: with_low(self.ax, v), ..self },
            1 => Registers { cx: with_low(self.cx, v), ..self },
            2 => Registers { dx: with_low(self.dx, v), ..self },
            3 => Registers { bx: with_low(self.bx, v), ..self },
            4 => Registers { ax: with_high(self.ax, v), ..self },
            5 => Registers { cx: with_high(self.cx, v), ..self },
            6 => Registers { dx: with_high(self.dx, v), ..self },
            _ => Registers { bx: with_high(self.bx, v), ..self },
        }
    }

    /// The pre-displacement offset of a memory operand for the addressing
    /// code `code` (`0..=7`): BX+SI, BX+DI, BP+SI, BP+DI, SI, DI, BP, BX,
    /// sums taken modulo 2^16. Code 6 is BP as a base in every mode; the
    /// hardware's direct address for mod 00 is not modelled.
    pub open spec fn base_address(self, code: u8) -> u16 {
        match code {
            0 => ((self.bx + self.si) % 0x10000) as u16,
            1 => ((self.bx + self.di) % 0x10000) as u16,
            2 => ((self.bp + self.si) % 0x10000) as u16,
            3 => ((self.bp + self.di) % 0x10000) as u16,
            4 => self.si,
            5 => self.di,
            6 => self.bp,
            _ => self.bx,
        }
    }

    /// The power-on register file.
    pub fn initialize() -> (r: Self)
        ensures
            r == power_on(),
    {
        Registers {
            ax: 0,
            bx: 0,
            cx: 0,
            dx: 0,
            si: 0,
            di: 0,
            cs: 0x0700,
            ds: 0x0700,
            ss: 0,
            es: 0x0700,
            sp: 0xFFFE,
            bp: 0,
            ip: 0x0100,
            flags: 0x0002,
        }
    }

    /// The high byte of a word.
    pub fn get_high_byte(&self, register: u16) -> (r: u8)
        ensures
            r == high(register),
    {
        (register / 0x100) as u8
    }

    /// The low byte of a word.
    pub fn get_low_byte(&self, register: u16) -> (r: u8)
        ensures
            r == low(register),
    {
        (register % 0x100) as u8
    }

    /// `register` with its high byte replaced by `value`.
    pub fn write_high_byte(&self, register: u16, value: u8) -> (r: u16)
        ensures
            r == with_high(register, value),
    {
        register % 0x100 + value as u16 * 0x100
    }

    /// `register` with its low byte replaced by `value`.
    pub fn write_low_byte(&self, register: u16, value: u8) -> (r: u16)
        ensures
            r == with_low(register, value),
    {
        register / 0x100 * 0x100 + value as u16
    }

    /// Reads the word register that `index` selects.
    pub fn get_register_by_index(&self, index: u8) -> (r: Result<u16, EmuError>)
        ensures
            index < 8 ==> r == Ok::<u16, EmuError>(self.word(index)),
            index >= 8 ==> r == Err::<u16, EmuError>(EmuError::InvalidSelector { selector: index }),
    {
        match index {
            0 => Ok(self.ax),
            1 => Ok(self.cx),
            2 => Ok(self.dx),
            3 => Ok(self.bx),
            4 => Ok(self.sp),
            5 => Ok(self.bp),
            6 => Ok(self.si),
            7 => Ok(self.di),
            _ => Err(EmuError::InvalidSelector { selector: index }),
        }
    }

    /// Reads the byte register that `index` selects.
    pub fn get_register_by_index_byte(&self, index: u8) -> (r: Result<u8, EmuError>)
        ensures
            index < 8 ==> r == Ok::<u8, EmuError>(self.byte(index)),
            index >= 8 ==> r == Err::<u8, EmuError>(EmuError::InvalidSelector { selector: index }),
    {
        match index {
            0 => Ok(self.get_low_byte(self.ax)),
            1 => Ok(self.get_low_byte(self.cx)),
            2 => Ok(self.get_low_byte(self.dx)),
            3 => Ok(self.get_low_byte(self.bx)),
            4 => Ok(self.get_high_byte(self.ax)),
            5 => Ok(self.get_high_byte(self.cx)),
            6 => Ok(self.get_high_byte(self.dx)),
            7 => Ok(self.get_high_byte(self.bx)),
            _ => Err(EmuError::InvalidSelector { selector: index }),
        }
    }

    /// Writes the word register that `index` selects.
    pub fn write_register_by_index(&mut self, index: u8, value: u16) -> (r: Result<(), EmuError>)
        ensures
            index < 8 ==> r == Ok::<(), EmuError>(()) && *final(self) == old(self).with_word(
                index,
                value,
            ),
            index >= 8 ==> r == Err::<(), EmuError>(EmuError::InvalidSelector { selector: index })
                && *final(self) == *old(self),
    {
        match index {
            0 => self.ax = value,
            1 => self.cx = value,
            2 => self.dx = value,
            3 => self.bx = value,
            4 => self.sp = value,
            5 => self.bp = value,
            6 => self.si = value,
            7 => self.di = value,
            _ => return Err(EmuError::InvalidSelector { selector: index }),
        }
        Ok(())
    }

    /// Writes the byte register that `index` selects; the other half of its
    /// word register keeps its value.
    pub fn write_register_by_index_byte(&mut self, index: u8, value: u8) -> (r: Result<(), EmuError>)
        ensures
            index < 8 ==> r == Ok::<(), EmuError>(()) && *final(self) == old(self).with_byte(
                index,
                value,
            ),
            index >= 8 ==> r == Err::<(), EmuError>(EmuError::InvalidSelector { selector: index })
                && *final(self) == *old(self),
    {
        match index {
            0 => self.ax = self.write_low_byte(self.ax, value),
            1 => self.cx = self.write_low_byte(self.cx, value),
            2 => self.dx = self.write_low_byte(self.dx, value),
            3 => self.bx = self.write_low_byte(self.bx, value),
            4 => self.ax = self.write_high_byte(self.ax, value),
            5 => self.cx = self.write_high_byte(self.cx, value),
            6 => self.dx = self.write_high_byte(self.dx, value),
            7 => self.bx = self.write_high_byte(self.bx, value),
            _ => return Err(EmuError::InvalidSelector { selector: index }),
        }
        Ok(())
    }

    /// The pre-displacement offset of a memory operand for addressing code
    /// `code`.
    pub fn get_base_address_from_code(&self, code: u8) -> (r: Result<u16, EmuError>)
        ensures
            code < 8 ==> r == Ok::<u16, EmuError>(self.base_address(code)),
            code >= 8 ==> r == Err::<u16, EmuError>(EmuError::InvalidSelector { selector: code }),
    {
        match code {
            0 => Ok(self.bx.wrapping_add(self.si)),
            1 => Ok(self.bx.wrapping_add(self.di)),
            2 => Ok(self.bp.wrapping_add(self.si)),
            3 => Ok(self.bp.wrapping_add(self.di)),
            4 => Ok(self.si),
            5 => Ok(self.di),
            6 => Ok(self.bp),
            7 => Ok(self.bx),
            _ => Err(EmuError::InvalidSelector { selector: code }),
        }
    }
}

/// Writing a byte register sets that byte and changes nothing else: the
/// other half of its parent word, every other byte register, the index,
/// pointer and segment registers, IP and the flags all keep their values.
pub proof fn lemma_byte_write_isolated(r: Registers, sel: u8, v: u8)
    requires
        sel < 8,
    ensures
        r.with_byte(sel, v).byte(sel) == v,
        forall|s: u8| s < 8 && s != sel ==> #[trigger] r.with_byte(sel, v).byte(s) == r.byte(s),
        forall|s: u8| 4 <= s < 8 ==> #[trigger] r.with_byte(sel, v).word(s) == r.word(s),
        r.with_byte(sel, v).cs == r.cs && r.with_byte(sel, v).ds == r.ds,
        r.with_byte(sel, v).ss == r.ss && r.with_byte(sel, v).es == r.es,
        r.with_byte(sel, v).ip == r.ip && r.with_byte(sel, v).flags == r.flags,
{
    lemma_halves(r.ax, v);
    lemma_halves(r.bx, v);
    lemma_halves(r.cx, v);
    lemma_halves(r.dx, v);
}

/// Replacing one byte of a word leaves the other byte as it was.
pub proof fn lemma_halves(w: u16, v: u8)
    ensures
        low(with_low(w, v)) == v,
        high(with_low(w, v)) == high(w),
        high(with_high(w, v)) == v,
        low(with_high(w, v)) == low(w),
{
}

} // verus!
