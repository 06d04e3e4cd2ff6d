//! Register and status model of the 6502 processor, and the board, timer and
//! seed bookkeeping of the Video Chess cartridge firmware over its RAM image.

pub mod firmware;
pub mod mos6502;
