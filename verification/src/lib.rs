//! An instruction-set simulator for an 8-bit AVR-class microcontroller.
//!
//! The crate models the decode/execute pipeline of the CPU core: a pure
//! decoder from 16-bit instruction words to a tagged instruction value,
//! an arithmetic-logic unit that applies decoded instructions to a
//! register bank and a memory bank with bit-accurate status flags, and an
//! MCU driver running the fetch-decode-execute-advance loop.

/// Arithmetic-logic unit: executes instructions decoded by `Decoder`.
pub mod alu;
/// Instruction decoder: parses raw 16-bit words into `Instruction` values.
pub mod decoder;
/// Assembly-mnemonic rendering of decoded instructions.
pub mod display_instruction;
/// Decoded instruction representation shared by decoder and ALU.
pub mod instruction;
/// Machine-level properties, proved once and for all from the step model.
pub mod laws;
/// Controller: owns the memory bank and register bank and drives the
/// fetch-decode-execute-advance loop.
pub mod mcu;
/// MCU factory: creates MCUs by target name.
pub mod mcu_factory;
/// Procedural wrappers over the `Mcu` methods, mirroring the flat API
/// surface host applications drive the simulator through.
pub mod mcu_wrapper;
/// Memory bank: data and program memories with address-mask wraparound.
pub mod memory_bank;
/// Register bank: general purpose registers, program counter, stack
/// pointer and status flags.
pub mod register_bank;
