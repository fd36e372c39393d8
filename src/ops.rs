//! The closed set of operator tags that a node of the tape can carry.
use vstd::prelude::*;

verus! {

/// Position of a node on its tape.
pub type Idx = usize;

/// How a node was produced: an input (`Empty`), or a primitive applied to
/// the nodes at the embedded indices.
#[derive(Clone, Copy, Debug, PartialEq, Eq, Structural)]
pub enum ScalarOps {
    Empty,
    Add(Idx, Idx),
    Sub(Idx, Idx),
    Mul(Idx, Idx),
    TanH(Idx),
    ReLU(Idx),
}

impl ScalarOps {
    /// The operand indices embedded in the tag, in order.
    pub open spec fn parents(self) -> Seq<Idx> {
        match self {
            ScalarOps::Empty => seq![],
            ScalarOps::Add(a, b) => seq![a, b],
            ScalarOps::Sub(a, b) => seq![a, b],
            ScalarOps::Mul(a, b) => seq![a, b],
            ScalarOps::TanH(a) => seq![a],
            ScalarOps::ReLU(a) => seq![a],
        }
    }

    /// Every operand index is strictly below `i`.
    pub open spec fn parents_below(self, i: int) -> bool {
        forall|k: int| 0 <= k < self.parents().len() ==> (#[trigger] self.parents()[k]) < i
    }

}

} // verus!
