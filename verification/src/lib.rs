//! Constant-valued scalar types for schema validation.
//!
//! Each wrapper type carries one fixed primitive value — a boolean, a signed
//! or unsigned integer of any width up to 128 bits, or a single character.
//! Emitting a wrapper always produces the fixed value; validating an observed
//! value succeeds exactly when it equals the constant, and otherwise reports
//! a structured mismatch naming what was observed and what was expected.
//!
//! Observed integers are compared across representations: a constant declared
//! as a signed 64-bit value accepts an equal magnitude observed as, say, an
//! unsigned 32-bit value. Negative observations never match an unsigned
//! constant, and unsigned magnitudes beyond the signed range are classified
//! correctly rather than truncated.

pub mod boolean;
pub mod character;
pub mod error;
pub mod integer;
pub mod laws;
pub mod observe;
pub mod render;
pub mod validate;
