use emulator8086::emulator::{effective_linear, Emulator8086};
use emulator8086::error::EmuError;
use emulator8086::flags::{flag_is_set, Flag, FLAG_AF, FLAG_CF};
use emulator8086::machine::{COM_START, MEM_SIZE};

/// Loads `program` and runs it the way a driver does: fetch, stop at the
/// return opcode, otherwise execute.
fn run_to_return(emulator: &mut Emulator8086, program: &[u8]) {
    emulator.load_com(program).expect("program fits in memory");
    let mut instruction = emulator.fetch().expect("opcode in memory");
    while instruction != 0xc3 {
        emulator.decode_and_execute(instruction).expect("instruction executes");
        instruction = emulator.fetch().expect("opcode in memory");
    }
}

#[test]
fn start_emulator() {
    let emulator = Emulator8086::new();
    assert_eq!(emulator.registers.ax, 0);
    assert_eq!(emulator.registers.bx, 0);
    assert!(emulator.memory.iter().all(|&byte| byte == 0));
    assert_eq!(emulator.pending_cycles, 0);
}

#[test]
fn reset_values() {
    let emulator = Emulator8086::new();
    assert_eq!(emulator.memory.len(), MEM_SIZE);
    assert_eq!(emulator.registers.sp, 0xFFFE);
    assert_eq!(emulator.registers.cs, 0x0700);
    assert_eq!(emulator.registers.ds, 0x0700);
    assert_eq!(emulator.registers.es, 0x0700);
    assert_eq!(emulator.registers.ss, 0x0000);
    assert_eq!(emulator.registers.ip, 0x0100);
    assert_eq!(emulator.registers.flags, 0x0002);
}

#[test]
fn load_com() {
    let mut emulator = Emulator8086::new();
    if let Err(e) = emulator.load_com(&[0x05, 0x0F, 0x00, 0xC3]) {
        panic!("Error al cargar el programa: {:?}", e);
    }
    assert_eq!(emulator.memory[COM_START], 0x05);
    assert_eq!(emulator.memory[COM_START + 1], 0x0F);
    assert_eq!(emulator.memory[COM_START + 2], 0x00);
    assert_eq!(emulator.memory[COM_START + 3], 0xC3);
}

#[test]
fn load_com_rejects_an_image_past_the_end() {
    let mut emulator = Emulator8086::new();
    emulator.registers.cs = 0xFFFF;
    let start = 0xFFFF * 16 + 0x100;
    assert_eq!(
        emulator.load_com(&[0x90]),
        Err(EmuError::OutOfBounds { address: start })
    );
    assert!(emulator.memory.iter().all(|&byte| byte == 0));
}

#[test]
fn test_mov_inm_low() {
    let mut emulator = Emulator8086::new();
    run_to_return(&mut emulator, &[0xB0, 0x11, 0xB3, 0x11, 0xB1, 0x11, 0xB2, 0x11, 0xC3]);
    assert_eq!(emulator.registers.ax, 0x0011);
    assert_eq!(emulator.registers.bx, 0x0011);
    assert_eq!(emulator.registers.cx, 0x0011);
    assert_eq!(emulator.registers.dx, 0x0011);
}

#[test]
fn test_mov_inm_high() {
    let mut emulator = Emulator8086::new();
    run_to_return(&mut emulator, &[0xB4, 0x11, 0xB7, 0x11, 0xB5, 0x11, 0xB6, 0x11, 0xC3]);
    assert_eq!(emulator.registers.ax, 0x1100);
    assert_eq!(emulator.registers.bx, 0x1100);
    assert_eq!(emulator.registers.cx, 0x1100);
    assert_eq!(emulator.registers.dx, 0x1100);
}

#[test]
fn mov_word_immediates() {
    let mut emulator = Emulator8086::new();
    run_to_return(
        &mut emulator,
        &[0xB8, 0x34, 0x12, 0xBC, 0x00, 0x80, 0xBF, 0xCD, 0xAB, 0xC3],
    );
    assert_eq!(emulator.registers.ax, 0x1234);
    assert_eq!(emulator.registers.sp, 0x8000);
    assert_eq!(emulator.registers.di, 0xABCD);
    assert_eq!(emulator.pending_cycles, 9);
}

#[test]
fn four_byte_program_advances_ip_by_bytes_consumed() {
    let mut emulator = Emulator8086::new();
    run_to_return(&mut emulator, &[0x05, 0x0F, 0x00, 0xC3]);
    assert_eq!(emulator.registers.ip, 0x0100 + 4);
    assert_eq!(emulator.registers.ax, 0x000F);
}

#[test]
fn step_stops_at_return() {
    let mut emulator = Emulator8086::new();
    emulator.load_com(&[0x04, 0x01, 0xC3]).unwrap();
    assert_eq!(emulator.step(), Ok(true));
    assert_eq!(emulator.registers.ip, 0x0102);
    assert_eq!(emulator.step(), Ok(false));
    assert_eq!(emulator.registers.ip, 0x0103);
    assert_eq!(emulator.registers.ax, 0x0001);
}

#[test]
fn add_ax_immediate_sets_flags() {
    let mut emulator = Emulator8086::new();
    run_to_return(&mut emulator, &[0x05, 0xFF, 0xFF, 0xC3]);
    assert_eq!(emulator.registers.ax, 0xFFFF);
    assert!(!flag_is_set(emulator.registers.flags, Flag::Carry));
    assert!(!flag_is_set(emulator.registers.flags, Flag::Overflow));
    assert!(!flag_is_set(emulator.registers.flags, Flag::Zero));
    assert!(flag_is_set(emulator.registers.flags, Flag::Sign));

    let mut emulator = Emulator8086::new();
    emulator.registers.ax = 1;
    run_to_return(&mut emulator, &[0x05, 0xFF, 0xFF, 0xC3]);
    assert_eq!(emulator.registers.ax, 0x0000);
    assert!(flag_is_set(emulator.registers.flags, Flag::Carry));
    assert!(flag_is_set(emulator.registers.flags, Flag::Zero));
    assert!(!flag_is_set(emulator.registers.flags, Flag::Overflow));
}

#[test]
fn add_al_immediate_uses_byte_width() {
    let mut emulator = Emulator8086::new();
    emulator.registers.ax = 0x127F;
    run_to_return(&mut emulator, &[0x04, 0x01, 0xC3]);
    assert_eq!(emulator.registers.ax, 0x1280);
    assert!(flag_is_set(emulator.registers.flags, Flag::Sign));
    assert!(flag_is_set(emulator.registers.flags, Flag::Overflow));
    assert!(flag_is_set(emulator.registers.flags, Flag::AuxCarry));
    assert!(!flag_is_set(emulator.registers.flags, Flag::Carry));
    assert_eq!(emulator.pending_cycles, 4);
}

#[test]
fn add_register_forms() {
    // ADD AL, BL (0x02, ModRM 0xC3: mod 11, reg AL, rm BL)
    let mut emulator = Emulator8086::new();
    emulator.registers.ax = 0x1101;
    emulator.registers.bx = 0x2202;
    run_to_return(&mut emulator, &[0x02, 0xC3, 0xC3]);
    assert_eq!(emulator.registers.ax, 0x1103);
    assert_eq!(emulator.registers.bx, 0x2202);
    assert_eq!(emulator.registers.ip, 0x0103);
    assert_eq!(emulator.pending_cycles, 3);

    // ADD BX, AX (0x01, ModRM 0xC3: mod 11, reg AX, rm BX)
    let mut emulator = Emulator8086::new();
    emulator.registers.ax = 0x0101;
    emulator.registers.bx = 0x1000;
    run_to_return(&mut emulator, &[0x01, 0xC3, 0xC3]);
    assert_eq!(emulator.registers.bx, 0x1101);
    assert_eq!(emulator.registers.ax, 0x0101);
}

#[test]
fn add_memory_forms() {
    // ADD AX, [BX+SI] (0x03, ModRM 0x00)
    let mut emulator = Emulator8086::new();
    emulator.registers.bx = 0x0200;
    emulator.registers.si = 0x0010;
    let a = effective_linear(emulator.registers.ds, 0x0210) as usize;
    emulator.memory[a] = 0x34;
    emulator.memory[a + 1] = 0x12;
    emulator.registers.ax = 0x0001;
    run_to_return(&mut emulator, &[0x03, 0x00, 0xC3]);
    assert_eq!(emulator.registers.ax, 0x1235);
    assert_eq!(emulator.pending_cycles, 9);

    // ADD [SI+0x44], AL (0x00, ModRM 0x44: mod 01, reg AL, rm SI, disp 0x04)
    let mut emulator = Emulator8086::new();
    emulator.registers.si = 0x0300;
    emulator.registers.ax = 0x0005;
    let a = effective_linear(emulator.registers.ds, 0x0304) as usize;
    emulator.memory[a] = 0x10;
    run_to_return(&mut emulator, &[0x00, 0x44, 0x04, 0xC3]);
    assert_eq!(emulator.memory[a], 0x15);
    assert_eq!(emulator.registers.ip, 0x0104);
    assert_eq!(emulator.pending_cycles, 16);
}

#[test]
fn byte_displacement_is_sign_extended() {
    // MOV [DI-1], AL (0x88, ModRM 0x45: mod 01, reg AL, rm DI, disp 0xFF)
    let mut emulator = Emulator8086::new();
    emulator.registers.di = 0x0400;
    emulator.registers.ax = 0x00AB;
    run_to_return(&mut emulator, &[0x88, 0x45, 0xFF, 0xC3]);
    let a = effective_linear(emulator.registers.ds, 0x03FF) as usize;
    assert_eq!(emulator.memory[a], 0xAB);
}

#[test]
fn mov_byte_through_memory() {
    // MOV [BX+0x1000], CH (0x88, ModRM 0xAF: mod 10, reg CH, rm BX)
    // then MOV DL, [BX+0x1000] (0x8A, ModRM 0x97)
    let mut emulator = Emulator8086::new();
    emulator.registers.bx = 0x0020;
    emulator.registers.cx = 0x5A00;
    run_to_return(
        &mut emulator,
        &[0x88, 0xAF, 0x00, 0x10, 0x8A, 0x97, 0x00, 0x10, 0xC3],
    );
    let a = effective_linear(emulator.registers.ds, 0x1020) as usize;
    assert_eq!(emulator.memory[a], 0x5A);
    assert_eq!(emulator.registers.dx, 0x005A);
    assert_eq!(emulator.registers.ip, 0x0100 + 9);
    assert_eq!(emulator.pending_cycles, 6);
}

#[test]
fn mov_between_byte_registers() {
    // MOV AH, BL (0x8A, ModRM 0xE3: mod 11, reg AH, rm BL)
    let mut emulator = Emulator8086::new();
    emulator.registers.ax = 0x0011;
    emulator.registers.bx = 0x0077;
    run_to_return(&mut emulator, &[0x8A, 0xE3, 0xC3]);
    assert_eq!(emulator.registers.ax, 0x7711);
    assert_eq!(emulator.pending_cycles, 2);
}

#[test]
fn and_forms() {
    // AND AL, 0x0F
    let mut emulator = Emulator8086::new();
    emulator.registers.ax = 0x12F0;
    emulator.registers.flags = 0x0002 | FLAG_CF | FLAG_AF;
    run_to_return(&mut emulator, &[0x24, 0x0F, 0xC3]);
    assert_eq!(emulator.registers.ax, 0x1200);
    assert!(flag_is_set(emulator.registers.flags, Flag::Zero));
    assert!(!flag_is_set(emulator.registers.flags, Flag::Carry));
    assert!(flag_is_set(emulator.registers.flags, Flag::AuxCarry));

    // AND AX, 0x8001
    let mut emulator = Emulator8086::new();
    emulator.registers.ax = 0xFFFF;
    run_to_return(&mut emulator, &[0x25, 0x01, 0x80, 0xC3]);
    assert_eq!(emulator.registers.ax, 0x8001);
    assert!(flag_is_set(emulator.registers.flags, Flag::Sign));

    // AND CX, DX (0x23, ModRM 0xCA: mod 11, reg CX, rm DX)
    let mut emulator = Emulator8086::new();
    emulator.registers.cx = 0x0FF0;
    emulator.registers.dx = 0x00FF;
    run_to_return(&mut emulator, &[0x23, 0xCA, 0xC3]);
    assert_eq!(emulator.registers.cx, 0x00F0);
}

#[test]
fn adc_computes_as_add() {
    let mut emulator = Emulator8086::new();
    emulator.registers.flags |= FLAG_CF;
    run_to_return(&mut emulator, &[0x14, 0x05, 0xC3]);
    assert_eq!(emulator.registers.ax, 0x0005);
}

#[test]
fn aaa_adjust_and_plain_paths() {
    let mut emulator = Emulator8086::new();
    emulator.registers.ax = 0x000A;
    emulator.decode_and_execute(0x37).unwrap();
    assert_eq!(emulator.registers.ax, 0x0100);
    assert!(flag_is_set(emulator.registers.flags, Flag::AuxCarry));
    assert!(flag_is_set(emulator.registers.flags, Flag::Carry));

    let mut emulator = Emulator8086::new();
    emulator.registers.ax = 0x0005;
    emulator.registers.flags |= FLAG_CF;
    emulator.decode_and_execute(0x37).unwrap();
    assert_eq!(emulator.registers.ax, 0x0005);
    assert!(!flag_is_set(emulator.registers.flags, Flag::AuxCarry));
    assert!(!flag_is_set(emulator.registers.flags, Flag::Carry));
}

#[test]
fn aas_adjust_and_plain_paths() {
    let mut emulator = Emulator8086::new();
    emulator.registers.ax = 0x000A;
    emulator.decode_and_execute(0x3F).unwrap();
    assert_eq!(emulator.registers.ax, 0xFF04);
    assert!(flag_is_set(emulator.registers.flags, Flag::AuxCarry));
    assert!(flag_is_set(emulator.registers.flags, Flag::Carry));

    let mut emulator = Emulator8086::new();
    emulator.registers.ax = 0x0005;
    emulator.decode_and_execute(0x3F).unwrap();
    assert_eq!(emulator.registers.ax, 0x0005);
    assert!(!flag_is_set(emulator.registers.flags, Flag::AuxCarry));
    assert!(!flag_is_set(emulator.registers.flags, Flag::Carry));
}

#[test]
fn aas_uses_aux_carry() {
    let mut emulator = Emulator8086::new();
    emulator.registers.ax = 0x0203;
    emulator.registers.flags |= FLAG_AF;
    emulator.decode_and_execute(0x3F).unwrap();
    assert_eq!(emulator.registers.ax, 0x010D);
}

#[test]
fn aam_splits_al_in_decimal() {
    let mut emulator = Emulator8086::new();
    emulator.registers.ax = 0x0032;
    emulator.decode_and_execute(0xD4).unwrap();
    assert_eq!(emulator.registers.ax, 0x0500);
    assert!(flag_is_set(emulator.registers.flags, Flag::Zero));
    assert!(flag_is_set(emulator.registers.flags, Flag::Parity));
    assert_eq!(emulator.pending_cycles, 83);
}

#[test]
fn aad_joins_decimal_digits() {
    let mut emulator = Emulator8086::new();
    emulator.registers.ax = 0x0503;
    emulator.decode_and_execute(0xD5).unwrap();
    assert_eq!(emulator.registers.ax, 53);
    assert!(!flag_is_set(emulator.registers.flags, Flag::Zero));
    assert_eq!(emulator.pending_cycles, 60);
}

#[test]
fn decode_modrm_fields() {
    assert_eq!(Emulator8086::decode_modrm(0xC3), (3, 0, 3));
    assert_eq!(Emulator8086::decode_modrm(0x44), (1, 0, 4));
    assert_eq!(Emulator8086::decode_modrm(0x97), (2, 2, 7));
}

#[test]
fn modrm_register_mode_fetches_no_displacement() {
    let mut emulator = Emulator8086::new();
    emulator.load_com(&[0x03, 0xC3, 0x77, 0x77]).unwrap();
    let opcode = emulator.fetch().unwrap();
    emulator.decode_and_execute(opcode).unwrap();
    assert_eq!(emulator.registers.ip, 0x0102);
}

#[test]
fn modrm_byte_displacement_fetches_one_byte() {
    let mut emulator = Emulator8086::new();
    emulator.load_com(&[0x03, 0x44, 0x00, 0x77, 0x77]).unwrap();
    let opcode = emulator.fetch().unwrap();
    emulator.decode_and_execute(opcode).unwrap();
    assert_eq!(emulator.registers.ip, 0x0103);
}

#[test]
fn unimplemented_opcode_is_reported() {
    let mut emulator = Emulator8086::new();
    emulator.load_com(&[0xF4, 0xF1]).unwrap();
    let opcode = emulator.fetch().unwrap();
    let before = emulator.registers;
    assert_eq!(
        emulator.decode_and_execute(opcode),
        Err(EmuError::UnimplementedOpcode { opcode: 0xF4, cs: 0x0700, ip: 0x0100 })
    );
    assert_eq!(emulator.registers, before);
    assert_eq!(
        emulator.step(),
        Err(EmuError::UnimplementedOpcode { opcode: 0xF1, cs: 0x0700, ip: 0x0101 })
    );
    assert_eq!(emulator.registers.ip, 0x0102);
}

#[test]
fn out_of_bounds_reads_and_writes() {
    let mut emulator = Emulator8086::new();
    assert_eq!(effective_linear(0xFFFF, 0x0010), 0x100000);
    assert_eq!(
        emulator.get_b_from_memory(0xFFFF, 0x0010),
        Err(EmuError::OutOfBounds { address: 0x100000 })
    );
    assert_eq!(
        emulator.get_w_from_memory(0xFFFF, 0x000F),
        Err(EmuError::OutOfBounds { address: 0x100000 })
    );
    assert_eq!(
        emulator.write_b_to_memory(0xFFFF, 0x0020, 1),
        Err(EmuError::OutOfBounds { address: 0x100010 })
    );
    emulator.registers.cs = 0xFFFF;
    emulator.registers.ip = 0x0010;
    assert_eq!(emulator.fetch(), Err(EmuError::OutOfBounds { address: 0x100000 }));
    assert_eq!(emulator.registers.ip, 0x0010);
}

#[test]
fn memory_operand_out_of_bounds_changes_nothing() {
    // ADD AL, [BX] with DS:BX past the end of memory.
    let mut emulator = Emulator8086::new();
    emulator.load_com(&[0x02, 0x07]).unwrap();
    emulator.registers.ds = 0xFFFF;
    emulator.registers.bx = 0x0100;
    let opcode = emulator.fetch().unwrap();
    let before = emulator.registers;
    assert_eq!(
        emulator.decode_and_execute(opcode),
        Err(EmuError::OutOfBounds { address: 0x1000F0 })
    );
    assert_eq!(emulator.registers, before);
    assert_eq!(emulator.pending_cycles, 0);
}

#[test]
fn word_memory_round_trip() {
    let mut emulator = Emulator8086::new();
    emulator.write_w_to_memory(0x0700, 0x0200, 0xBEEF).unwrap();
    assert_eq!(emulator.get_b_from_memory(0x0700, 0x0200), Ok(0xEF));
    assert_eq!(emulator.get_b_from_memory(0x0700, 0x0201), Ok(0xBE));
    assert_eq!(emulator.get_w_from_memory(0x0700, 0x0200), Ok(0xBEEF));
}

#[test]
fn base_address_formulas() {
    let mut emulator = Emulator8086::new();
    emulator.registers.bx = 0x1000;
    emulator.registers.si = 0x0020;
    emulator.registers.di = 0x0003;
    emulator.registers.bp = 0xFFFF;
    assert_eq!(emulator.get_base_address_from_code(0), Ok(0x1020));
    assert_eq!(emulator.get_base_address_from_code(1), Ok(0x1003));
    assert_eq!(emulator.get_base_address_from_code(2), Ok(0x001F));
    assert_eq!(emulator.get_base_address_from_code(3), Ok(0x0002));
    assert_eq!(emulator.get_base_address_from_code(4), Ok(0x0020));
    assert_eq!(emulator.get_base_address_from_code(5), Ok(0x0003));
    assert_eq!(emulator.get_base_address_from_code(6), Ok(0xFFFF));
    assert_eq!(emulator.get_base_address_from_code(7), Ok(0x1000));
    assert_eq!(
        emulator.get_base_address_from_code(8),
        Err(EmuError::InvalidSelector { selector: 8 })
    );
}

#[test]
fn pending_cycles_are_handed_over() {
    let mut emulator = Emulator8086::new();
    run_to_return(&mut emulator, &[0xB0, 0x01, 0xB8, 0x01, 0x00, 0xC3]);
    assert_eq!(emulator.run_pending_cycles(), 5);
    assert_eq!(emulator.pending_cycles, 0);
}
