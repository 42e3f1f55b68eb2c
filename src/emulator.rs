//! The CPU: register file, flat memory and cycle counter, with fetch, ModRM
//! decoding and the opcode dispatch.
use vstd::prelude::*;

use crate::error::EmuError;
use crate::flags::{
    actualizar_flags_add, actualizar_flags_and, actualizar_flags_resultado, add_16bit_complemento_a2,
    add_8bit_complemento_a2, flag_is_set, write_flag, Flag, Width,
};
use crate::machine::{
    aaa_effect, aad_effect, aam_effect, aas_effect, add_cycles, advance, alu_instruction, alu_result,
    code_byte, code_word, decode_rm, instruction_effect, lemma_advance, linear, mem_byte, mem_word,
    mod_of, mov_immediate, mov_modrm, operand_store, operand_value, reg_of, rm_of, store_word, AluOp,
    Effect, Operand, LOAD_OFFSET, MEM_SIZE, RET_OPCODE,
};
use crate::registers::{power_on, Registers};

verus! {

/// Real-mode linear address `(segment << 4) + offset`.
pub fn effective_linear(segment: u16, offset: u16) -> (r: u32)
    ensures
        r == linear(segment, offset),
{
    segment as u32 * 16 + offset as u32
}

/// Memory after `image` is copied in from linear address `start` on.
pub open spec fn loaded(mem: Seq<u8>, start: int, image: Seq<u8>) -> Seq<u8> {
    Seq::new(
        mem.len(),
        |j: int|
            if start <= j < start + image.len() {
                image[j - start]
            } else {
                mem[j]
            },
    )
}

/// A handler's result, and the registers and memory it leaves, agree with
/// `effect`; on an error the memory is as it was.
pub open spec fn matches_effect(
    r: Result<u64, EmuError>,
    regs: Registers,
    mem: Seq<u8>,
    old_mem: Seq<u8>,
    effect: Result<Effect, EmuError>,
) -> bool {
    match effect {
        Ok((r2, m2, cost)) => r == Ok::<u64, EmuError>(cost) && regs == r2 && mem == m2,
        Err(e) => r == Err::<u64, EmuError>(e) && mem == old_mem,
    }
}

/// An 8086 CPU: registers, 1 MiB of memory, and an accumulator of the
/// approximate clock cycles that executed instructions cost.
pub struct Emulator8086 {
    pub registers: Registers,
    pub memory: Vec<u8>,
    pub pending_cycles: u64,
}

impl Emulator8086 {
    /// A CPU at power-on: reset registers, zeroed memory, no pending cycles.
    pub fn new() -> (r: Self)
        ensures
            r.registers == power_on(),
            r.memory@ == Seq::new(MEM_SIZE as nat, |i: int| 0u8),
            r.pending_cycles == 0,
    {
        let memory: Vec<u8> = vec![0u8; MEM_SIZE];
        assert(memory@ =~= Seq::new(MEM_SIZE as nat, |i: int| 0u8));
        Emulator8086 { registers: Registers::initialize(), memory, pending_cycles: 0 }
    }

    /// Copies a program image into memory from offset 0x0100 of CS on and
    /// points IP at it. When the image does not fit in the buffer, reports
    /// the linear address where it was to start and changes nothing.
    pub fn load_com(&mut self, image: &[u8]) -> (r: Result<(), EmuError>)
        ensures
            ({
                let start = linear(old(self).registers.cs, LOAD_OFFSET);
                if start + image@.len() <= old(self).memory@.len() {
                    &&& r == Ok::<(), EmuError>(())
                    &&& final(self).memory@ == loaded(old(self).memory@, start, image@)
                    &&& final(self).registers == Registers { ip: LOAD_OFFSET, ..old(self).registers }
                } else {
                    &&& r == Err::<(), EmuError>(EmuError::OutOfBounds { address: start as u32 })
                    &&& final(self).memory@ == old(self).memory@
                    &&& final(self).registers == old(self).registers
                }
            }),
            final(self).pending_cycles == old(self).pending_cycles,
    {
        let start = effective_linear(self.registers.cs, LOAD_OFFSET) as usize;
        if start > self.memory.len() || image.len() > self.memory.len() - start {
            return Err(EmuError::OutOfBounds { address: start as u32 });
        }
        let ghost before = self.memory@;
        let mut i: usize = 0;
        while i < image.len()
            invariant
                i <= image@.len(),
                start + image@.len() <= before.len() <= usize::MAX,
                self.memory@ == loaded(before, start as int, image@.subrange(0, i as int)),
                self.registers == old(self).registers,
                self.pending_cycles == old(self).pending_cycles,
            decreases image@.len() - i,
        {
            self.memory.set(start + i, image[i]);
            i = i + 1;
            assert(self.memory@ =~= loaded(before, start as int, image@.subrange(0, i as int)));
        }
        assert(image@.subrange(0, image@.len() as int) =~= image@);
        self.registers.ip = LOAD_OFFSET;
        Ok(())
    }

    /// Hands over the cycles accumulated since the last call and resets the
    /// counter, for a timing driver to consume.
    pub fn run_pending_cycles(&mut self) -> (r: u64)
        ensures
            r == old(self).pending_cycles,
            final(self).pending_cycles == 0,
            final(self).registers == old(self).registers,
            final(self).memory@ == old(self).memory@,
    {
        let cycles = self.pending_cycles;
        self.pending_cycles = 0;
        cycles
    }

    /// The pre-displacement offset of a memory operand for addressing code
    /// `code`, from the current registers.
    pub fn get_base_address_from_code(&self, code: u8) -> (r: Result<u16, EmuError>)
        ensures
            code < 8 ==> r == Ok::<u16, EmuError>(self.registers.base_address(code)),
            code >= 8 ==> r == Err::<u16, EmuError>(EmuError::InvalidSelector { selector: code }),
    {
        self.registers.get_base_address_from_code(code)
    }

    /// Reads the byte at CS:IP and advances IP by one (modulo 2^16). Every
    /// byte of an instruction is consumed through here.
    pub fn fetch(&mut self) -> (r: Result<u8, EmuError>)
        ensures
            r == code_byte(old(self).registers, old(self).memory@, 0),
            r is Ok ==> final(self).registers == advance(old(self).registers, 1),
            r is Err ==> final(self).registers == old(self).registers,
            final(self).memory@ == old(self).memory@,
            final(self).pending_cycles == old(self).pending_cycles,
    {
        let a = effective_linear(self.registers.cs, self.registers.ip);
        if (a as usize) < self.memory.len() {
            let b = self.memory[a as usize];
            self.registers.ip = self.registers.ip.wrapping_add(1);
            Ok(b)
        } else {
            Err(EmuError::OutOfBounds { address: a })
        }
    }

    /// Fetches a little-endian word: low byte first, then high byte.
    fn fetch_word(&mut self) -> (r: Result<u16, EmuError>)
        ensures
            r == code_word(old(self).registers, old(self).memory@),
            r is Ok ==> final(self).registers == advance(old(self).registers, 2),
            final(self).memory@ == old(self).memory@,
            final(self).pending_cycles == old(self).pending_cycles,
    {
        let lo = self.fetch()?;
        let hi = self.fetch()?;
        Ok(lo as u16 + hi as u16 * 0x100)
    }

    /// The byte at `base:offset`.
    pub fn get_b_from_memory(&self, base: u16, offset: u16) -> (r: Result<u8, EmuError>)
        ensures
            r == mem_byte(self.memory@, base, offset),
    {
        let a = effective_linear(base, offset);
        if (a as usize) < self.memory.len() {
            Ok(self.memory[a as usize])
        } else {
            Err(EmuError::OutOfBounds { address: a })
        }
    }

    /// The little-endian word at `base:offset`.
    pub fn get_w_from_memory(&self, base: u16, offset: u16) -> (r: Result<u16, EmuError>)
        ensures
            r == mem_word(self.memory@, base, offset),
    {
        let a = effective_linear(base, offset);
        if (a as usize) >= self.memory.len() {
            return Err(EmuError::OutOfBounds { address: a });
        }
        if (a as usize) + 1 >= self.memory.len() {
            return Err(EmuError::OutOfBounds { address: a + 1 });
        }
        let low_byte = self.memory[a as usize];
        let high_byte = self.memory[a as usize + 1];
        Ok(low_byte as u16 + high_byte as u16 * 0x100)
    }

    /// Stores a byte at `base:offset`.
    pub fn write_b_to_memory(&mut self, base: u16, offset: u16, value: u8) -> (r: Result<
        (),
        EmuError,
    >)
        ensures
            match mem_byte(old(self).memory@, base, offset) {
                Ok(_) => r == Ok::<(), EmuError>(()) && final(self).memory@ == old(
                    self,
                ).memory@.update(linear(base, offset), value),
                Err(e) => r == Err::<(), EmuError>(e) && final(self).memory@ == old(self).memory@,
            },
            final(self).registers == old(self).registers,
            final(self).pending_cycles == old(self).pending_cycles,
    {
        let a = effective_linear(base, offset);
        if (a as usize) < self.memory.len() {
            self.memory.set(a as usize, value);
            Ok(())
        } else {
            Err(EmuError::OutOfBounds { address: a })
        }
    }

    /// Stores a little-endian word at `base:offset`.
    pub fn write_w_to_memory(&mut self, base: u16, offset: u16, value: u16) -> (r: Result<
        (),
        EmuError,
    >)
        ensures
            match mem_word(old(self).memory@, base, offset) {
                Ok(_) => r == Ok::<(), EmuError>(()) && final(self).memory@ == store_word(
                    old(self).memory@,
                    linear(base, offset),
                    value,
                ),
                Err(e) => r == Err::<(), EmuError>(e) && final(self).memory@ == old(self).memory@,
            },
            final(self).registers == old(self).registers,
            final(self).pending_cycles == old(self).pending_cycles,
    {
        let a = effective_linear(base, offset);
        if (a as usize) >= self.memory.len() {
            return Err(EmuError::OutOfBounds { address: a });
        }
        if (a as usize) + 1 >= self.memory.len() {
            return Err(EmuError::OutOfBounds { address: a + 1 });
        }
        self.memory.set(a as usize, (value % 0x100) as u8);
        self.memory.set(a as usize + 1, (value / 0x100) as u8);
        Ok(())
    }

    /// Splits a ModRM byte into its `mod` (bits 7..6), `reg` (bits 5..3) and
    /// `rm` (bits 2..0) fields.
    pub fn decode_modrm(modrm: u8) -> (r: (u8, u8, u8))
        ensures
            r == (mod_of(modrm), reg_of(modrm), rm_of(modrm)),
            r.0 < 4 && r.1 < 8 && r.2 < 8,
    {
        (modrm / 64, (modrm / 8) % 8, modrm % 8)
    }

    /// Fetches a ModRM byte and the displacement its mode asks for (none,
    /// one sign-extended byte, or a little-endian word). Returns the ModRM
    /// byte and the r/m operand.
    fn fetch_modrm_operand(&mut self) -> (r: Result<(u8, Operand), EmuError>)
        ensures
            match decode_rm(old(self).registers, old(self).memory@) {
                Ok((modrm, o, len)) => r == Ok::<(u8, Operand), EmuError>((modrm, o))
                    && final(self).registers == advance(old(self).registers, len),
                Err(e) => r == Err::<(u8, Operand), EmuError>(e),
            },
            final(self).memory@ == old(self).memory@,
            final(self).pending_cycles == old(self).pending_cycles,
    {
        let ghost r0 = self.registers;
        let modrm = self.fetch()?;
        let (md, _reg, rm) = Self::decode_modrm(modrm);
        let base = self.registers.get_base_address_from_code(rm)?;
        if md == 3 {
            return Ok((modrm, Operand::Register(rm)));
        }
        proof {
            lemma_advance(r0, self.memory@, 1, 0);
            lemma_advance(r0, self.memory@, 1, 1);
            lemma_advance(r0, self.memory@, 1, 2);
        }
        let disp: u16 = if md == 1 {
            let d = self.fetch()?;
            if d < 0x80 {
                d as u16
            } else {
                d as u16 + 0xFF00
            }
        } else if md == 2 {
            self.fetch_word()?
        } else {
            0
        };
        Ok((modrm, Operand::Memory(base.wrapping_add(disp))))
    }

    /// The value of an operand at width `w`; memory operands lie in DS.
    fn read_operand(&self, o: Operand, w: Width) -> (r: Result<u16, EmuError>)
        ensures
            r == operand_value(self.registers, self.memory@, o, w),
    {
        match o {
            Operand::Register(s) => match w {
                Width::Byte => {
                    let b = self.registers.get_register_by_index_byte(s)?;
                    Ok(b as u16)
                },
                Width::Word => self.registers.get_register_by_index(s),
            },
            Operand::Memory(off) => match w {
                Width::Byte => {
                    let b = self.get_b_from_memory(self.registers.ds, off)?;
                    Ok(b as u16)
                },
                Width::Word => self.get_w_from_memory(self.registers.ds, off),
            },
        }
    }

    /// Stores `v` into an operand at width `w` (a byte store keeps the low
    /// half of `v`).
    fn write_operand(&mut self, o: Operand, w: Width, v: u16) -> (r: Result<(), EmuError>)
        ensures
            match operand_store(old(self).registers, old(self).memory@, o, w, v) {
                Ok((r2, m2)) => r == Ok::<(), EmuError>(()) && final(self).registers == r2
                    && final(self).memory@ == m2,
                Err(e) => r == Err::<(), EmuError>(e) && final(self).registers == old(self).registers
                    && final(self).memory@ == old(self).memory@,
            },
            final(self).pending_cycles == old(self).pending_cycles,
    {
        match o {
            Operand::Register(s) => match w {
                Width::Byte => self.registers.write_register_by_index_byte(s, (v % 0x100) as u8),
                Width::Word => self.registers.write_register_by_index(s, v),
            },
            Operand::Memory(off) => match w {
                Width::Byte => self.write_b_to_memory(self.registers.ds, off, (v % 0x100) as u8),
                Width::Word => self.write_w_to_memory(self.registers.ds, off, v),
            },
        }
    }

    /// Result and new flags of an ALU operation at width `w`.
    fn alu(op: AluOp, w: Width, x: u16, y: u16, flags: u16) -> (r: (u16, u16))
        requires
            w == Width::Byte ==> x < 0x100 && y < 0x100,
        ensures
            r == alu_result(op, w, x, y, flags),
    {
        let mut f = flags;
        match op {
            AluOp::Add => match w {
                Width::Byte => {
                    let (s, overflow, carry, aux) = add_8bit_complemento_a2(x as u8, y as u8);
                    actualizar_flags_add(&mut f, s as u16, w, overflow, carry, aux);
                    (s as u16, f)
                },
                Width::Word => {
                    let (s, overflow, carry, aux) = add_16bit_complemento_a2(x, y);
                    actualizar_flags_add(&mut f, s, w, overflow, carry, aux);
                    (s, f)
                },
            },
            AluOp::And => {
                let v = x & y;
                actualizar_flags_and(&mut f, v, w);
                (v, f)
            },
        }
    }

    /// An ALU instruction of forms 0..=3 (register and r/m operands).
    fn alu_modrm(&mut self, op: AluOp, form: u8) -> (r: Result<u64, EmuError>)
        requires
            form < 4,
        ensures
            matches_effect(
                r,
                final(self).registers,
                final(self).memory@,
                old(self).memory@,
                alu_instruction(old(self).registers, old(self).memory@, op, form),
            ),
            final(self).pending_cycles == old(self).pending_cycles,
    {
        let (modrm, o) = self.fetch_modrm_operand()?;
        let (_md, reg, _rm) = Self::decode_modrm(modrm);
        let w = if form % 2 == 0 {
            Width::Byte
        } else {
            Width::Word
        };
        let reg_operand = Operand::Register(reg);
        let (dst, src) = if form >= 2 {
            (reg_operand, o)
        } else {
            (o, reg_operand)
        };
        let x = self.read_operand(dst, w)?;
        let y = self.read_operand(src, w)?;
        let (v, f) = Self::alu(op, w, x, y, self.registers.flags);
        self.registers.flags = f;
        self.write_operand(dst, w, v)?;
        let cost: u64 = match o {
            Operand::Register(_) => 3,
            Operand::Memory(_) => if form >= 2 {
                9
            } else {
                16
            },
        };
        Ok(cost)
    }

    /// An ALU instruction of forms 4 and 5 (accumulator and immediate).
    fn alu_immediate(&mut self, op: AluOp, form: u8) -> (r: Result<u64, EmuError>)
        requires
            form == 4 || form == 5,
        ensures
            matches_effect(
                r,
                final(self).registers,
                final(self).memory@,
                old(self).memory@,
                alu_instruction(old(self).registers, old(self).memory@, op, form),
            ),
            final(self).pending_cycles == old(self).pending_cycles,
    {
        if form == 4 {
            let imm = self.fetch()?;
            let al = self.registers.get_low_byte(self.registers.ax);
            let (v, f) = Self::alu(op, Width::Byte, al as u16, imm as u16, self.registers.flags);
            self.registers.ax = self.registers.write_low_byte(self.registers.ax, (v % 0x100) as u8);
            self.registers.flags = f;
        } else {
            let imm = self.fetch_word()?;
            let (v, f) = Self::alu(op, Width::Word, self.registers.ax, imm, self.registers.flags);
            self.registers.ax = v;
            self.registers.flags = f;
        }
        Ok(4)
    }

    /// ADD, opcodes 0x00..=0x05.
    fn add(&mut self, opcode: u8) -> (r: Result<u64, EmuError>)
        requires
            opcode <= 0x05,
        ensures
            matches_effect(
                r,
                final(self).registers,
                final(self).memory@,
                old(self).memory@,
                alu_instruction(old(self).registers, old(self).memory@, AluOp::Add, opcode),
            ),
            final(self).pending_cycles == old(self).pending_cycles,
    {
        if opcode >= 4 {
            self.alu_immediate(AluOp::Add, opcode)
        } else {
            self.alu_modrm(AluOp::Add, opcode)
        }
    }

    /// ADC, opcodes 0x10..=0x15: decoded and computed as ADD; the incoming
    /// carry is not added.
    fn adc(&mut self, opcode: u8) -> (r: Result<u64, EmuError>)
        requires
            0x10 <= opcode <= 0x15,
        ensures
            matches_effect(
                r,
                final(self).registers,
                final(self).memory@,
                old(self).memory@,
                alu_instruction(
                    old(self).registers,
                    old(self).memory@,
                    AluOp::Add,
                    (opcode - 0x10) as u8,
                ),
            ),
            final(self).pending_cycles == old(self).pending_cycles,
    {
        self.add(opcode - 0x10)
    }

    /// AND, opcodes 0x20..=0x25.
    fn and(&mut self, opcode: u8) -> (r: Result<u64, EmuError>)
        requires
            0x20 <= opcode <= 0x25,
        ensures
            matches_effect(
                r,
                final(self).registers,
                final(self).memory@,
                old(self).memory@,
                alu_instruction(
                    old(self).registers,
                    old(self).memory@,
                    AluOp::And,
                    (opcode - 0x20) as u8,
                ),
            ),
            final(self).pending_cycles == old(self).pending_cycles,
    {
        let form = opcode - 0x20;
        if form >= 4 {
            self.alu_immediate(AluOp::And, form)
        } else {
            self.alu_modrm(AluOp::And, form)
        }
    }

    /// MOV: 0x88 and 0x8A move a byte between a register and an r/m
    /// operand; 0xB0..=0xBF load an immediate into a register.
    fn mov(&mut self, opcode: u8) -> (r: Result<u64, EmuError>)
        requires
            opcode == 0x88 || opcode == 0x8A || 0xB0 <= opcode <= 0xBF,
        ensures
            matches_effect(
                r,
                final(self).registers,
                final(self).memory@,
                old(self).memory@,
                if opcode == 0x88 || opcode == 0x8A {
                    mov_modrm(old(self).registers, old(self).memory@, opcode == 0x8A)
                } else {
                    mov_immediate(old(self).registers, old(self).memory@, opcode)
                },
            ),
            final(self).pending_cycles == old(self).pending_cycles,
    {
        if opcode == 0x88 || opcode == 0x8A {
            let (modrm, o) = self.fetch_modrm_operand()?;
            let (_md, reg, _rm) = Self::decode_modrm(modrm);
            let reg_operand = Operand::Register(reg);
            let (dst, src) = if opcode == 0x8A {
                (reg_operand, o)
            } else {
                (o, reg_operand)
            };
            let v = self.read_operand(src, Width::Byte)?;
            self.write_operand(dst, Width::Byte, v)?;
            let cost: u64 = match o {
                Operand::Register(_) => 2,
                Operand::Memory(_) => 3,
            };
            Ok(cost)
        } else if opcode < 0xB8 {
            let imm = self.fetch()?;
            self.registers.write_register_by_index_byte(opcode - 0xB0, imm)?;
            Ok(2)
        } else {
            let imm = self.fetch_word()?;
            self.registers.write_register_by_index(opcode - 0xB8, imm)?;
            Ok(3)
        }
    }

    /// AAA, ASCII adjust after addition. Returns its cost.
    fn aaa(&mut self) -> (r: u64)
        ensures
            final(self).registers == aaa_effect(old(self).registers),
            final(self).memory@ == old(self).memory@,
            final(self).pending_cycles == old(self).pending_cycles,
            r == 4,
    {
        let al = self.registers.get_low_byte(self.registers.ax);
        let ah = self.registers.get_high_byte(self.registers.ax);
        let adjust = al % 16 > 9 || flag_is_set(self.registers.flags, Flag::AuxCarry);
        let (new_al, new_ah) = if adjust {
            ((al as u16 + 6) % 16, (ah as u16 + 1) % 0x100)
        } else {
            (al as u16 % 16, ah as u16)
        };
        let flags = write_flag(self.registers.flags, Flag::AuxCarry, adjust);
        self.registers.flags = write_flag(flags, Flag::Carry, adjust);
        self.registers.ax = new_ah * 0x100 + new_al;
        4
    }

    /// AAS, ASCII adjust after subtraction. Returns its cost.
    fn aas(&mut self) -> (r: u64)
        ensures
            final(self).registers == aas_effect(old(self).registers),
            final(self).memory@ == old(self).memory@,
            final(self).pending_cycles == old(self).pending_cycles,
            r == 4,
    {
        let al = self.registers.get_low_byte(self.registers.ax);
        let ah = self.registers.get_high_byte(self.registers.ax);
        let adjust = al % 16 > 9 || flag_is_set(self.registers.flags, Flag::AuxCarry);
        let (new_al, new_ah) = if adjust {
            (((al as u16 + 0x100 - 6) % 0x100) % 16, (ah as u16 + 0x100 - 1) % 0x100)
        } else {
            (al as u16 % 16, ah as u16)
        };
        let flags = write_flag(self.registers.flags, Flag::AuxCarry, adjust);
        self.registers.flags = write_flag(flags, Flag::Carry, adjust);
        self.registers.ax = new_ah * 0x100 + new_al;
        4
    }

    /// AAM, ASCII adjust after multiplication. Returns its cost.
    fn aam(&mut self) -> (r: u64)
        ensures
            final(self).registers == aam_effect(old(self).registers),
            final(self).memory@ == old(self).memory@,
            final(self).pending_cycles == old(self).pending_cycles,
            r == 83,
    {
        let al = self.registers.get_low_byte(self.registers.ax);
        let new_ah = al / 10;
        let new_al = al % 10;
        actualizar_flags_resultado(&mut self.registers.flags, new_al as u16, Width::Byte);
        self.registers.ax = new_ah as u16 * 0x100 + new_al as u16;
        83
    }

    /// AAD, ASCII adjust before division. Returns its cost.
    fn aad(&mut self) -> (r: u64)
        ensures
            final(self).registers == aad_effect(old(self).registers),
            final(self).memory@ == old(self).memory@,
            final(self).pending_cycles == old(self).pending_cycles,
            r == 60,
    {
        let al = self.registers.get_low_byte(self.registers.ax);
        let ah = self.registers.get_high_byte(self.registers.ax);
        let new_al = (al as u16 + ah as u16 * 10) % 0x100;
        actualizar_flags_resultado(&mut self.registers.flags, new_al, Width::Byte);
        self.registers.ax = new_al;
        60
    }

    /// Runs the handler of `opcode` and returns the instruction's cost.
    fn execute(&mut self, opcode: u8) -> (r: Result<u64, EmuError>)
        ensures
            matches_effect(
                r,
                final(self).registers,
                final(self).memory@,
                old(self).memory@,
                instruction_effect(old(self).registers, old(self).memory@, opcode),
            ),
            final(self).pending_cycles == old(self).pending_cycles,
    {
        match opcode {
            0x37 => Ok(self.aaa()),
            0x3F => Ok(self.aas()),
            0xD4 => Ok(self.aam()),
            0xD5 => Ok(self.aad()),
            0x00..=0x05 => self.add(opcode),
            0x10..=0x15 => self.adc(opcode),
            0x20..=0x25 => self.and(opcode),
            0x88 | 0x8A | 0xB0..=0xBF => self.mov(opcode),
            _ => {
                let ip = if self.registers.ip == 0 {
                    0xFFFF
                } else {
                    self.registers.ip - 1
                };
                Err(EmuError::UnimplementedOpcode { opcode, cs: self.registers.cs, ip })
            },
        }
    }

    /// Executes one instruction whose opcode byte has just been fetched.
    /// On success the registers and memory are as `instruction_effect`
    /// gives them and the instruction's cost is added to the cycle counter
    /// (held at `u64::MAX`). On an error nothing changes.
    pub fn decode_and_execute(&mut self, opcode: u8) -> (r: Result<(), EmuError>)
        ensures
            match instruction_effect(old(self).registers, old(self).memory@, opcode) {
                Ok((regs, mem, cost)) => {
                    &&& r == Ok::<(), EmuError>(())
                    &&& final(self).registers == regs
                    &&& final(self).memory@ == mem
                    &&& final(self).pending_cycles == add_cycles(old(self).pending_cycles, cost)
                },
                Err(e) => {
                    &&& r == Err::<(), EmuError>(e)
                    &&& final(self).registers == old(self).registers
                    &&& final(self).memory@ == old(self).memory@
                    &&& final(self).pending_cycles == old(self).pending_cycles
                },
            },
    {
        let saved = self.registers;
        match self.execute(opcode) {
            Ok(cost) => {
                self.pending_cycles = self.pending_cycles.saturating_add(cost);
                Ok(())
            },
            Err(e) => {
                self.registers = saved;
                Err(e)
            },
        }
    }

    /// One turn of the fetch loop: fetches an opcode and, unless it is the
    /// return opcode 0xC3 that ends a program, executes it. Returns whether
    /// an instruction was executed.
    pub fn step(&mut self) -> (r: Result<bool, EmuError>)
        ensures
            match code_byte(old(self).registers, old(self).memory@, 0) {
                Err(e) => {
                    &&& r == Err::<bool, EmuError>(e)
                    &&& final(self).registers == old(self).registers
                    &&& final(self).memory@ == old(self).memory@
                    &&& final(self).pending_cycles == old(self).pending_cycles
                },
                Ok(opcode) => if opcode == RET_OPCODE {
                    &&& r == Ok::<bool, EmuError>(false)
                    &&& final(self).registers == advance(old(self).registers, 1)
                    &&& final(self).memory@ == old(self).memory@
                    &&& final(self).pending_cycles == old(self).pending_cycles
                } else {
                    match instruction_effect(
                        advance(old(self).registers, 1),
                        old(self).memory@,
                        opcode,
                    ) {
                        Ok((regs, mem, cost)) => {
                            &&& r == Ok::<bool, EmuError>(true)
                            &&& final(self).registers == regs
                            &&& final(self).memory@ == mem
                            &&& final(self).pending_cycles == add_cycles(
                                old(self).pending_cycles,
                                cost,
                            )
                        },
                        Err(e) => {
                            &&& r == Err::<bool, EmuError>(e)
                            &&& final(self).registers == advance(old(self).registers, 1)
                            &&& final(self).memory@ == old(self).memory@
                            &&& final(self).pending_cycles == old(self).pending_cycles
                        },
                    }
                },
            },
    {
        let opcode = self.fetch()?;
        if opcode == RET_OPCODE {
            return Ok(false);
        }
        self.decode_and_execute(opcode)?;
        Ok(true)
    }
}

} // verus!
