//! Disassembler core for the Texas Instruments TMS320C64x+ VLIW DSP.
//!
//! The crate decodes 32-byte fetch packets (and single 32-bit words) into
//! structured instruction records: a generic bit-field matcher drives
//! per-family format tables, a packet decoder honours the trailing compact
//! instruction header, and every record renders its mnemonic and operands.

pub mod bits;
pub mod strings;
pub mod register;
pub mod error;
pub mod instruction;
pub mod fphead;
pub mod parser;
pub mod nop;
pub mod invalid;
pub mod moving;
pub mod branching;
pub mod disasm;
