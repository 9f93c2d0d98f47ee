//! A simulator for the RV32I base integer instruction set, with the Zicsr
//! control/status-register extension and the machine-mode trap opcodes
//! recognized.  A program image is placed in a flat memory, and the processor
//! is driven one instruction at a time: fetch, decode, execute.
//!
//! The fetch-decode-execute engine is fully specified: decoding is described
//! by bit-field projections of the instruction word, and execution by a
//! mathematical step function over an abstract processor state.  An inverse
//! instruction encoder is provided, with a proof that decoding an encoded
//! instruction recovers every field.

pub mod bits;
pub mod constants;
pub mod cpu;
pub mod decode;
pub mod elf;
pub mod encode;
pub mod model;

pub use bits::sign_extend;
pub use bits::take_range;
pub use constants::MEMSIZE;
pub use cpu::Core;
pub use cpu::ExecFault;
pub use cpu::StepOutcome;
pub use cpu::eval;
pub use cpu::run;
pub use cpu::step;
pub use cpu::store_mem_32;
pub use elf::ElfError;
pub use elf::SymbolError;
pub use elf::get_riscv_tests_addrs;
pub use elf::load_elf;
