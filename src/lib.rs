//! A four-function calculator engine with immediate, left-to-right evaluation.
//!
//! The engine keeps the edited number, a running accumulator, a pending
//! operator and an optional error. Doubles are carried by their IEEE-754 bit
//! patterns: the engine decides what happens, and the host computes the
//! floating-point parts it asks for (reading the display as a double, one
//! arithmetic operation, fixed twelve-digit formatting) and hands them back.
pub mod ops;
pub mod render;
pub mod engine;
pub mod input;
pub mod laws;
