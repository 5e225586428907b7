//! An abstract computing machine over an unbounded memory tape: a sparse
//! tape addressed by integer position, a cursor that walks it one cell at a
//! time, and a finite-state execution engine driven by a transition table.

pub mod machine;
pub mod program;
pub mod tape;
