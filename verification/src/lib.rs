//! An ahead-of-time WebAssembly compiler core and execution runtime.
//!
//! The compiler turns a function's operand-stack bytecode into an explicit
//! control-flow graph in SSA form, built through an owned-handle IR arena;
//! the runtime allocates and grows linear memory, fills data segments, and
//! establishes the compartment addressing scheme that compiled code relies
//! on to find its runtime data.

pub mod codegen;
pub mod runtime;
pub mod utils;
pub mod wasm_module;
pub mod wasm_types;
