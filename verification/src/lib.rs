//! Generation of property-testing support code for user-declared types.
//!
//! Given the structural description of a record or sum type, the library
//! builds the two routines a property-testing harness needs: a constructor
//! that draws a plausible instance from a size-bounded entropy source, and a
//! shrinker that yields a finite sequence of simpler candidate instances for
//! test-case minimization.

pub mod model;
pub mod source;
pub mod construct;
pub mod shrink;
pub mod emit;
pub mod laws;
