//! The instruction semantics as spec functions: how each implemented opcode
//! changes the registers and the memory, what it costs, and which error it
//! reports. The executable core in `emulator` is proved against them.
use vstd::prelude::*;

use crate::error::EmuError;
use crate::flags::{
    add_overflows16, add_overflows8, arith_flags, has_flag, logic_flags, result_flags, with_flag, Width,
    FLAG_AF, FLAG_CF,
};
use crate::registers::{high, low, with_low, Registers};

verus! {

/// Size of the memory buffer: 1 MiB.
pub const MEM_SIZE: usize = 0x100000;

/// Offset within CS at which a program image is loaded and starts.
pub const LOAD_OFFSET: u16 = 0x0100;

/// Linear address at which a program image starts on a freshly reset CPU
/// (CS = 0x0700, offset 0x0100).
pub const COM_START: usize = 0x7100;

/// The return opcode, which a driving loop treats as the end of a program.
pub const RET_OPCODE: u8 = 0xC3;

/// An operand that a ModRM byte selects: a register (by selector) or a
/// memory byte or word at an offset within DS.
#[derive(Clone, Copy, PartialEq, Eq, Structural, Debug)]
pub enum Operand {
    Register(u8),
    Memory(u16),
}

/// The two-operand operations of the ALU families.
#[derive(Clone, Copy, PartialEq, Eq, Structural, Debug)]
pub enum AluOp {
    Add,
    And,
}

/// What an instruction yields when it completes: the new registers, the new
/// memory, and its approximate cost in clock cycles.
pub type Effect = (Registers, Seq<u8>, u64);

/// Real-mode linear address of `seg:off`.
pub open spec fn linear(seg: u16, off: u16) -> int {
    seg * 16 + off
}

/// The error for an access at linear address `address`.
pub open spec fn out_of_bounds(address: int) -> EmuError {
    EmuError::OutOfBounds { address: address as u32 }
}

/// IP after `k` further bytes have been fetched.
pub open spec fn ip_plus(r: Registers, k: int) -> u16 {
    ((r.ip + k) % 0x10000) as u16
}

/// The registers after `k` further bytes have been fetched.
pub open spec fn advance(r: Registers, k: int) -> Registers {
    Registers { ip: ip_plus(r, k), ..r }
}

/// The byte that the `k`-th fetch from CS:IP reads, counting from 0.
pub open spec fn code_byte(r: Registers, mem: Seq<u8>, k: int) -> Result<u8, EmuError> {
    let a = linear(r.cs, ip_plus(r, k));
    if a < mem.len() {
        Ok(mem[a])
    } else {
        Err(out_of_bounds(a))
    }
}

/// The little-endian word that the next two fetches read.
pub open spec fn code_word(r: Registers, mem: Seq<u8>) -> Result<u16, EmuError> {
    match code_byte(r, mem, 0) {
        Err(e) => Err(e),
        Ok(lo) => match code_byte(r, mem, 1) {
            Err(e) => Err(e),
            Ok(hi) => Ok((lo + hi * 0x100) as u16),
        },
    }
}

/// The byte at `seg:off`.
pub open spec fn mem_byte(mem: Seq<u8>, seg: u16, off: u16) -> Result<u8, EmuError> {
    let a = linear(seg, off);
    if a < mem.len() {
        Ok(mem[a])
    } else {
        Err(out_of_bounds(a))
    }
}

/// The little-endian word at `seg:off`: low byte at the linear address,
/// high byte at the next one.
pub open spec fn mem_word(mem: Seq<u8>, seg: u16, off: u16) -> Result<u16, EmuError> {
    let a = linear(seg, off);
    if a >= mem.len() {
        Err(out_of_bounds(a))
    } else if a + 1 >= mem.len() {
        Err(out_of_bounds(a + 1))
    } else {
        Ok((mem[a] + mem[a + 1] * 0x100) as u16)
    }
}

/// Memory after the word `v` is stored at linear address `a`.
pub open spec fn store_word(mem: Seq<u8>, a: int, v: u16) -> Seq<u8> {
    mem.update(a, low(v)).update(a + 1, high(v))
}

/// The `mod` field (bits 7..6) of a ModRM byte.
pub open spec fn mod_of(modrm: u8) -> u8 {
    modrm / 64
}

/// The `reg` field (bits 5..3) of a ModRM byte.
pub open spec fn reg_of(modrm: u8) -> u8 {
    (modrm / 8) % 8
}

/// The `rm` field (bits 2..0) of a ModRM byte.
pub open spec fn rm_of(modrm: u8) -> u8 {
    modrm % 8
}

/// A byte displacement sign-extended to a word.
pub open spec fn sign_extend(b: u8) -> u16 {
    if b < 0x80 {
        b as u16
    } else {
        (b + 0xFF00) as u16
    }
}

/// The r/m operand of a ModRM byte: for mod 11 the register `rm`, else the
/// memory offset base + displacement (modulo 2^16), where the displacement
/// is the sign-extended byte `lo` for mod 01, the word `lo`,`hi` for mod 10,
/// and zero for mod 00.
pub open spec fn rm_operand(r: Registers, modrm: u8, lo: u8, hi: u8) -> Operand {
    let md = mod_of(modrm);
    if md == 3 {
        Operand::Register(rm_of(modrm))
    } else {
        let disp: u16 = if md == 1 {
            sign_extend(lo)
        } else if md == 2 {
            (lo + hi * 0x100) as u16
        } else {
            0
        };
        Operand::Memory(((r.base_address(rm_of(modrm)) + disp) % 0x10000) as u16)
    }
}

/// Fetches a ModRM byte and the displacement bytes its mode asks for:
/// the ModRM byte, the r/m operand, and the number of bytes consumed.
pub open spec fn decode_rm(r: Registers, mem: Seq<u8>) -> Result<(u8, Operand, int), EmuError> {
    match code_byte(r, mem, 0) {
        Err(e) => Err(e),
        Ok(modrm) => {
            let md = mod_of(modrm);
            if md == 1 {
                match code_byte(r, mem, 1) {
                    Err(e) => Err(e),
                    Ok(d) => Ok((modrm, rm_operand(r, modrm, d, 0), 2)),
                }
            } else if md == 2 {
                match code_byte(r, mem, 1) {
                    Err(e) => Err(e),
                    Ok(lo) => match code_byte(r, mem, 2) {
                        Err(e) => Err(e),
                        Ok(hi) => Ok((modrm, rm_operand(r, modrm, lo, hi), 3)),
                    },
                }
            } else {
                Ok((modrm, rm_operand(r, modrm, 0, 0), 1))
            }
        },
    }
}

/// The value of an operand at width `w` (a byte as the low half of the
/// result). Memory operands are read within DS.
pub open spec fn operand_value(r: Registers, mem: Seq<u8>, o: Operand, w: Width) -> Result<
    u16,
    EmuError,
> {
    match o {
        Operand::Register(s) => if s >= 8 {
            Err(EmuError::InvalidSelector { selector: s })
        } else {
            match w {
                Width::Byte => Ok(r.byte(s) as u16),
                Width::Word => Ok(r.word(s)),
            }
        },
        Operand::Memory(off) => match w {
            Width::Byte => match mem_byte(mem, r.ds, off) {
                Err(e) => Err(e),
                Ok(b) => Ok(b as u16),
            },
            Width::Word => mem_word(mem, r.ds, off),
        },
    }
}

/// Registers and memory after `v` is stored into an operand at width `w`
/// (a byte store takes the low half of `v`). A store fails exactly where a
/// read of the same operand fails.
pub open spec fn operand_store(r: Registers, mem: Seq<u8>, o: Operand, w: Width, v: u16) -> Result<
    (Registers, Seq<u8>),
    EmuError,
> {
    match operand_value(r, mem, o, w) {
        Err(e) => Err(e),
        Ok(_) => match o {
            Operand::Register(s) => match w {
                Width::Byte => Ok((r.with_byte(s, low(v)), mem)),
                Width::Word => Ok((r.with_word(s, v), mem)),
            },
            Operand::Memory(off) => match w {
                Width::Byte => Ok((r, mem.update(linear(r.ds, off), low(v)))),
                Width::Word => Ok((r, store_word(mem, linear(r.ds, off), v))),
            },
        },
    }
}

/// Result and flags of an ALU operation on `x` and `y` at width `w`
/// (byte operands lie below 0x100).
pub open spec fn alu_result(op: AluOp, w: Width, x: u16, y: u16, flags: u16) -> (u16, u16) {
    match op {
        AluOp::Add => match w {
            Width::Byte => {
                let s = ((x + y) % 0x100) as u16;
                (
                    s,
                    arith_flags(
                        flags,
                        s,
                        w,
                        add_overflows8(x as u8, y as u8),
                        x + y > 0xFF,
                        x % 16 + y % 16 > 0xF,
                    ),
                )
            },
            Width::Word => {
                let s = ((x + y) % 0x10000) as u16;
                (
                    s,
                    arith_flags(flags, s, w, add_overflows16(x, y), x + y > 0xFFFF, x % 16 + y % 16 > 0xF),
                )
            },
        },
        AluOp::And => (x & y, logic_flags(flags, x & y, w)),
    }
}

/// An ALU instruction of one of the six forms shared by the ADD, ADC and AND
/// families (`form` is the opcode's offset in its family): 0 `r/m8 op= r8`,
/// 1 `r/m16 op= r16`, 2 `r8 op= r/m8`, 3 `r16 op= r/m16`, 4 `AL op= imm8`,
/// 5 `AX op= imm16`.
pub open spec fn alu_instruction(r: Registers, mem: Seq<u8>, op: AluOp, form: u8) -> Result<
    Effect,
    EmuError,
> {
    if form == 4 {
        match code_byte(r, mem, 0) {
            Err(e) => Err(e),
            Ok(imm) => {
                let (v, f) = alu_result(op, Width::Byte, low(r.ax) as u16, imm as u16, r.flags);
                Ok((Registers { ax: with_low(r.ax, low(v)), flags: f, ..advance(r, 1) }, mem, 4))
            },
        }
    } else if form == 5 {
        match code_word(r, mem) {
            Err(e) => Err(e),
            Ok(imm) => {
                let (v, f) = alu_result(op, Width::Word, r.ax, imm, r.flags);
                Ok((Registers { ax: v, flags: f, ..advance(r, 2) }, mem, 4))
            },
        }
    } else {
        match decode_rm(r, mem) {
            Err(e) => Err(e),
            Ok((modrm, o, len)) => {
                let r1 = advance(r, len);
                let w = if form % 2 == 0 {
                    Width::Byte
                } else {
                    Width::Word
                };
                let reg = Operand::Register(reg_of(modrm));
                let dst = if form >= 2 {
                    reg
                } else {
                    o
                };
                let src = if form >= 2 {
                    o
                } else {
                    reg
                };
                let cost: u64 = if o is Register {
                    3
                } else if form >= 2 {
                    9
                } else {
                    16
                };
                match operand_value(r1, mem, dst, w) {
                    Err(e) => Err(e),
                    Ok(x) => match operand_value(r1, mem, src, w) {
                        Err(e) => Err(e),
                        Ok(y) => {
                            let (v, f) = alu_result(op, w, x, y, r1.flags);
                            match operand_store(Registers { flags: f, ..r1 }, mem, dst, w, v) {
                                Err(e) => Err(e),
                                Ok((r2, m2)) => Ok((r2, m2, cost)),
                            }
                        },
                    },
                }
            },
        }
    }
}

/// MOV between a byte register and a byte r/m operand: opcode 0x88 stores
/// `reg` into `r/m`, opcode 0x8A loads `r/m` into `reg`.
pub open spec fn mov_modrm(r: Registers, mem: Seq<u8>, to_reg: bool) -> Result<Effect, EmuError> {
    match decode_rm(r, mem) {
        Err(e) => Err(e),
        Ok((modrm, o, len)) => {
            let r1 = advance(r, len);
            let reg = Operand::Register(reg_of(modrm));
            let dst = if to_reg {
                reg
            } else {
                o
            };
            let src = if to_reg {
                o
            } else {
                reg
            };
            let cost: u64 = if o is Register {
                2
            } else {
                3
            };
            match operand_value(r1, mem, src, Width::Byte) {
                Err(e) => Err(e),
                Ok(v) => match operand_store(r1, mem, dst, Width::Byte, v) {
                    Err(e) => Err(e),
                    Ok((r2, m2)) => Ok((r2, m2, cost)),
                },
            }
        },
    }
}

/// MOV of an immediate into a register: 0xB0..=0xB7 load a byte into the
/// byte register `opcode - 0xB0`, 0xB8..=0xBF a word into the word register
/// `opcode - 0xB8`.
pub open spec fn mov_immediate(r: Registers, mem: Seq<u8>, opcode: u8) -> Result<Effect, EmuError> {
    if opcode < 0xB8 {
        match code_byte(r, mem, 0) {
            Err(e) => Err(e),
            Ok(imm) => Ok((advance(r, 1).with_byte((opcode - 0xB0) as u8, imm), mem, 2)),
        }
    } else {
        match code_word(r, mem) {
            Err(e) => Err(e),
            Ok(imm) => Ok((advance(r, 2).with_word((opcode - 0xB8) as u8, imm), mem, 3)),
        }
    }
}

/// AAA: when the low nibble of AL exceeds 9 or AF is set, AL gains 6 and AH
/// gains 1 (both wrapping) and AF and CF are set; otherwise AF and CF are
/// cleared. AL keeps only its low nibble.
pub open spec fn aaa_effect(r: Registers) -> Registers {
    let al = low(r.ax);
    let ah = high(r.ax);
    let adjust = al % 16 > 9 || has_flag(r.flags, FLAG_AF);
    let new_al = if adjust {
        (al + 6) % 16
    } else {
        (al % 16) as int
    };
    let new_ah = if adjust {
        (ah + 1) % 0x100
    } else {
        ah as int
    };
    Registers {
        ax: (new_ah * 0x100 + new_al) as u16,
        flags: with_flag(with_flag(r.flags, FLAG_AF, adjust), FLAG_CF, adjust),
        ..r
    }
}

/// AAS: when the low nibble of AL exceeds 9 or AF is set, AL loses 6 and AH
/// loses 1 (both wrapping) and AF and CF are set; otherwise AF and CF are
/// cleared. AL keeps only its low nibble.
pub open spec fn aas_effect(r: Registers) -> Registers {
    let al = low(r.ax);
    let ah = high(r.ax);
    let adjust = al % 16 > 9 || has_flag(r.flags, FLAG_AF);
    let new_al = if adjust {
        ((al + 0x100 - 6) % 0x100) % 16
    } else {
        (al % 16) as int
    };
    let new_ah = if adjust {
        (ah + 0x100 - 1) % 0x100
    } else {
        ah as int
    };
    Registers {
        ax: (new_ah * 0x100 + new_al) as u16,
        flags: with_flag(with_flag(r.flags, FLAG_AF, adjust), FLAG_CF, adjust),
        ..r
    }
}

/// AAM: AH takes AL / 10 and AL takes AL % 10; ZF, SF and PF follow the
/// new AL.
pub open spec fn aam_effect(r: Registers) -> Registers {
    let al = low(r.ax);
    let new_al = al % 10;
    Registers {
        ax: ((al / 10) * 0x100 + new_al) as u16,
        flags: result_flags(r.flags, new_al as u16, Width::Byte),
        ..r
    }
}

/// AAD: AL takes AL + AH * 10 (wrapping), AH is cleared; ZF, SF and PF
/// follow the new AL.
pub open spec fn aad_effect(r: Registers) -> Registers {
    let new_al = ((low(r.ax) + high(r.ax) * 10) % 0x100) as u16;
    Registers { ax: new_al, flags: result_flags(r.flags, new_al, Width::Byte), ..r }
}

/// IP of the byte fetched just before CS:IP.
pub open spec fn previous_ip(r: Registers) -> u16 {
    if r.ip == 0 {
        0xFFFF
    } else {
        (r.ip - 1) as u16
    }
}

/// What executing `opcode` does, given the registers and memory as they
/// stand right after the opcode was fetched. ADC shares the shape of ADD;
/// the incoming carry is not added.
pub open spec fn instruction_effect(r: Registers, mem: Seq<u8>, opcode: u8) -> Result<
    Effect,
    EmuError,
> {
    if opcode == 0x37 {
        Ok((aaa_effect(r), mem, 4))
    } else if opcode == 0x3F {
        Ok((aas_effect(r), mem, 4))
    } else if opcode == 0xD4 {
        Ok((aam_effect(r), mem, 83))
    } else if opcode == 0xD5 {
        Ok((aad_effect(r), mem, 60))
    } else if opcode <= 0x05 {
        alu_instruction(r, mem, AluOp::Add, opcode)
    } else if 0x10 <= opcode <= 0x15 {
        alu_instruction(r, mem, AluOp::Add, (opcode - 0x10) as u8)
    } else if 0x20 <= opcode <= 0x25 {
        alu_instruction(r, mem, AluOp::And, (opcode - 0x20) as u8)
    } else if opcode == 0x88 || opcode == 0x8A {
        mov_modrm(r, mem, opcode == 0x8A)
    } else if 0xB0 <= opcode <= 0xBF {
        mov_immediate(r, mem, opcode)
    } else {
        Err(EmuError::UnimplementedOpcode { opcode, cs: r.cs, ip: previous_ip(r) })
    }
}

/// Fetching `j` bytes and then `k` more is fetching `j + k` bytes.
pub proof fn lemma_advance(r: Registers, mem: Seq<u8>, j: int, k: int)
    requires
        0 <= j,
        0 <= k,
    ensures
        advance(advance(r, j), k) == advance(r, j + k),
        code_byte(advance(r, j), mem, k) == code_byte(r, mem, j + k),
{
    assert(((r.ip + j) % 0x10000 + k) % 0x10000 == (r.ip + j + k) % 0x10000) by (nonlinear_arith)
        requires
            0 <= j,
            0 <= k,
            0 <= r.ip,
    {
        vstd::arithmetic::div_mod::lemma_add_mod_noop(r.ip + j, k, 0x10000);
        vstd::arithmetic::div_mod::lemma_mod_twice(k, 0x10000);
        vstd::arithmetic::div_mod::lemma_add_mod_noop((r.ip + j) % 0x10000, k, 0x10000);
    }
}

/// Number of bytes that follow `opcode` in the encoding of an implemented
/// instruction, given `next`, the byte right after the opcode (the ModRM
/// byte where there is one): none for the BCD adjusts, one or two for an
/// immediate, and for a ModRM form the ModRM byte and its displacement.
pub open spec fn operand_bytes(opcode: u8, next: u8) -> int {
    if opcode == 0x37 || opcode == 0x3F || opcode == 0xD4 || opcode == 0xD5 {
        0
    } else if opcode == 0x04 || opcode == 0x14 || opcode == 0x24 || 0xB0 <= opcode <= 0xB7 {
        1
    } else if opcode == 0x05 || opcode == 0x15 || opcode == 0x25 || 0xB8 <= opcode <= 0xBF {
        2
    } else {
        let md = mod_of(next);
        if md == 1 {
            2
        } else if md == 2 {
            3
        } else {
            1
        }
    }
}

/// An instruction that completes leaves IP just past its last encoded byte:
/// each byte that follows the opcode is fetched once and none is skipped.
pub proof fn lemma_ip_after_instruction(r: Registers, mem: Seq<u8>, opcode: u8)
    requires
        instruction_effect(r, mem, opcode) is Ok,
    ensures
        ({
            let next = match code_byte(r, mem, 0) {
                Ok(b) => b,
                Err(_) => 0u8,
            };
            instruction_effect(r, mem, opcode)->Ok_0.0.ip == ip_plus(r, operand_bytes(opcode, next))
        }),
{
    if opcode == 0x37 || opcode == 0x3F || opcode == 0xD4 || opcode == 0xD5 {
    } else if opcode <= 0x05 {
        lemma_alu_ip(r, mem, AluOp::Add, opcode);
    } else if 0x10 <= opcode <= 0x15 {
        lemma_alu_ip(r, mem, AluOp::Add, (opcode - 0x10) as u8);
    } else if 0x20 <= opcode <= 0x25 {
        lemma_alu_ip(r, mem, AluOp::And, (opcode - 0x20) as u8);
    } else if opcode == 0x88 || opcode == 0x8A {
        lemma_mov_modrm_ip(r, mem, opcode == 0x8A);
    }
}

/// Storing into an operand never moves IP.
proof fn lemma_store_keeps_ip(r: Registers, mem: Seq<u8>, o: Operand, w: Width, v: u16)
    requires
        operand_store(r, mem, o, w, v) is Ok,
    ensures
        operand_store(r, mem, o, w, v)->Ok_0.0.ip == r.ip,
{
}

proof fn lemma_alu_ip(r: Registers, mem: Seq<u8>, op: AluOp, form: u8)
    requires
        form < 6,
        alu_instruction(r, mem, op, form) is Ok,
    ensures
        alu_instruction(r, mem, op, form)->Ok_0.0.ip == ip_plus(
            r,
            if form == 4 {
                1
            } else if form == 5 {
                2
            } else {
                decode_rm(r, mem)->Ok_0.2
            },
        ),
        form < 4 ==> decode_rm(r, mem) is Ok,
{
    if form < 4 {
        let (modrm, o, len) = decode_rm(r, mem)->Ok_0;
        let r1 = advance(r, len);
        let w = if form % 2 == 0 {
            Width::Byte
        } else {
            Width::Word
        };
        let reg = Operand::Register(reg_of(modrm));
        let dst = if form >= 2 {
            reg
        } else {
            o
        };
        let src = if form >= 2 {
            o
        } else {
            reg
        };
        let x = operand_value(r1, mem, dst, w)->Ok_0;
        let y = operand_value(r1, mem, src, w)->Ok_0;
        let (v, f) = alu_result(op, w, x, y, r1.flags);
        lemma_store_keeps_ip(Registers { flags: f, ..r1 }, mem, dst, w, v);
    }
}

proof fn lemma_mov_modrm_ip(r: Registers, mem: Seq<u8>, to_reg: bool)
    requires
        mov_modrm(r, mem, to_reg) is Ok,
    ensures
        decode_rm(r, mem) is Ok,
        mov_modrm(r, mem, to_reg)->Ok_0.0.ip == ip_plus(r, decode_rm(r, mem)->Ok_0.2),
{
    let (modrm, o, len) = decode_rm(r, mem)->Ok_0;
    let r1 = advance(r, len);
    let reg = Operand::Register(reg_of(modrm));
    let dst = if to_reg {
        reg
    } else {
        o
    };
    let src = if to_reg {
        o
    } else {
        reg
    };
    let v = operand_value(r1, mem, src, Width::Byte)->Ok_0;
    lemma_store_keeps_ip(r1, mem, dst, Width::Byte, v);
}

/// A cycle counter after `cost` more cycles, held at `u64::MAX`.
pub open spec fn add_cycles(count: u64, cost: u64) -> u64 {
    if count + cost > u64::MAX {
        u64::MAX
    } else {
        (count + cost) as u64
    }
}

} // verus!
