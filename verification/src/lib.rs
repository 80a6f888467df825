//! Fault model of a three-phase signal generator used to study the Clarke
//! (abc to alpha-beta-zero) and Park (alpha-beta to dq) transforms.
//!
//! The transforms themselves work on floating-point samples and live in the
//! application; this library holds the fault catalogue: the names under which
//! faults are offered and selected, and, for each fault, what it does to each
//! of the three phases.

pub mod fault;
