//! Reverse-mode automatic differentiation on a tape.
//!
//! Every value built through a [`tape::Tape`] is recorded as a node that
//! names its operands by index; operands always come first, so walking the
//! tape backwards visits every node after all of the nodes that use it.
//! [`tape::Tape::reverse`] seeds one node's gradient with one and applies
//! each node's local derivative rule in that order, accumulating into the
//! operands. Values are 64-bit integers with wrapping arithmetic.
//!
//! [`forward`] holds the tape-free alternative: dual numbers.
use vstd::prelude::*;

pub mod ops;
pub mod tape;
pub mod backward;
pub mod laws;
pub mod forward;

verus! {

} // verus!
