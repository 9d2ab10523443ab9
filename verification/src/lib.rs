//! Arithmetic/logic core of an 8-bit, Game Boy style CPU: the register file,
//! the flags register, the operation descriptors and the execution engine,
//! each with a machine-checked contract.

pub mod cpu;
