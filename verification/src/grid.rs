//! The grid: coordinates, their packed keys, direction vectors and the
//! payload that a cell carries.

use vstd::prelude::*;

pub mod data;
mod entropy;
pub mod id;
pub mod navi;
pub mod wire;

pub use data::{Node, NodeData};
pub use id::{FlatID, NodeID};
pub use wire::{de_flat, ser_flat, FlatWireError};

verus! {

/// The most cells of payload that a single node may carry: 16 KiB.
pub const NODE_MAX_SIZE: usize = 16 * 1024;

/// The nine steps to a cell and its neighbours, row by row from the upper
/// left to the lower right, so that the step that stays put is the fifth.
///
/// ```text
/// y
/// ^ 0 1 2
/// | 3 4 5
/// | 6 7 8
/// +------> x
/// ```
pub const INDEXED_NAVI: [(i16, i16); 9] = [
    (-1, 1),
    (0, 1),
    (1, 1),
    (-1, 0),
    (0, 0),
    (1, 0),
    (-1, -1),
    (0, -1),
    (1, -1),
];

/// The four steps that a guest may take: left, right, down and up.
pub const ALLOWED_NAVI: [(i16, i16); 4] = [(-1, 0), (1, 0), (0, -1), (0, 1)];

/// The step with the index `i` among the nine: x grows along a row, y
/// falls from row to row.
pub open spec fn indexed_step(i: int) -> (i16, i16) {
    ((i % 3 - 1) as i16, (1 - i / 3) as i16)
}

/// The nine steps stand row by row, and the middle one stays put.
pub proof fn lemma_indexed_navi_by_rows()
    ensures
        forall|i: int| 0 <= i < 9 ==> #[trigger] INDEXED_NAVI[i] == indexed_step(i),
        INDEXED_NAVI[4] == navi::SITU,
{
}

/// The four allowed steps are the four unit vectors.
pub proof fn lemma_allowed_navi_are_units()
    ensures
        ALLOWED_NAVI@ == seq![navi::LEFT, navi::RIGHT, navi::DOWN, navi::UP],
{
}

} // verus!
