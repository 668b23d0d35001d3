//! A register-machine execution core: a compact instruction representation
//! purpose-built for fast interpretation, together with the translator rewrite
//! rules that lower a stack-form source instruction set into it and the
//! dispatch loop that executes it.

pub mod correctness;
pub mod executor;
pub mod fbits;
pub mod instr;
pub mod ir;
pub mod simd;
pub mod store;
pub mod translate;
pub mod value;
