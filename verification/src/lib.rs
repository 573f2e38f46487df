//! A small bytecode virtual machine for numeric expressions.
//!
//! Source text is scanned into tokens, compiled into a chunk of
//! byte-encoded instructions, and executed by a stack machine.
//! Runtime numbers are IEEE-754 double-precision values, carried
//! everywhere as their 64-bit encodings; the arithmetic itself is
//! performed by a software floating-point implementation behind a
//! small set of trusted wrappers.

pub mod chunk;
pub mod compiler;
pub mod opcode;
pub mod tokenizer;
pub mod value;
pub mod vm;

pub use chunk::Chunk;
pub use chunk::TooManyConstants;
pub use compiler::compile;
pub use opcode::CouldNotDecodeOpcode;
pub use opcode::Opcode;
pub use tokenizer::Scanner;
pub use tokenizer::Token;
pub use tokenizer::TokenType;
pub use value::Value;
pub use vm::CompileErr;
pub use vm::Error;
pub use vm::RuntimeErr;
pub use vm::Vm;
