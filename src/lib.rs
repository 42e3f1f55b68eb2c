//! An Intel 8086 real-mode instruction-set emulator: registers, flat memory
//! with segment:offset addressing, and a fetch/decode/execute core whose
//! instruction semantics are stated as spec functions and proved.
pub mod emulator;
pub mod error;
pub mod flags;
pub mod machine;
pub mod registers;

pub use emulator::{effective_linear, Emulator8086};
pub use error::EmuError;
pub use flags::{
    actualizar_flags_add, actualizar_flags_and, add_16bit_complemento_a2, add_8bit_complemento_a2,
    flag_is_set, write_flag, Flag, Width,
};
pub use machine::{Operand, COM_START, LOAD_OFFSET, MEM_SIZE, RET_OPCODE};
pub use registers::Registers;
