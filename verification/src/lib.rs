//! A model of a freestanding program entry: the entry point and the panic
//! terminal handler as a small absorbing state machine, together with the
//! decision logic of a process-duplication demonstration.

pub mod control;
pub mod decimal;
pub mod dup;
