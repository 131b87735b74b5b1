//! A cycle-counting core of the Zilog Z80: register file and flags, the
//! memory and port interfaces, and the decoder and execution engine.

pub mod flag_register;
pub mod register;
pub mod z80;
pub mod zx_spectrum;
