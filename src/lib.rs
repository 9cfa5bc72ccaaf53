//! Toy arithmetic relations over the BLS12-381 scalar field, laid out as
//! rank-1 constraint systems of caller-controlled size, together with the
//! bookkeeping a proving-system benchmark needs around them.

pub mod field;
pub mod r1cs;
pub mod circuit;
pub mod hadamard_circuit;
pub mod addition_circuit;
pub mod multiple_addition_circuit;
pub mod fibonacci_circuit;
pub mod diagnostics;
pub mod bench;
pub mod laws;
