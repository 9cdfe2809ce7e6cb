//! Decoder and disassembler for the 32-bit RISC-V base instruction formats.
//!
//! Raw words are split into bit fields (`repr`), decoded into typed records
//! (`instr`), rendered as assembly text, and listed with symbolic labels for
//! in-program branch and jump targets (`listing`).
pub mod repr;
pub mod text;
pub mod instr;
pub mod listing;
pub mod laws;
