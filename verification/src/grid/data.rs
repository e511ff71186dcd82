//! The payload of a cell, and the cell itself.
//!
//! A payload is a sequence of signed 8-bit cells. Its byte form holds the
//! same bit patterns in the same order, one unsigned byte for each cell:
//! the conversion renames the bits and moves no value along a scale.

use super::entropy::{below, fill, seeded};
use super::id::NodeID;
use super::NODE_MAX_SIZE;
use rand::rngs::SmallRng;
use vstd::prelude::*;

verus! {

/// The unsigned byte with the bit pattern of the cell `v`.
pub open spec fn byte_of(v: i8) -> u8 {
    if v < 0 {
        (v + 256) as u8
    } else {
        v as u8
    }
}

/// The cell with the bit pattern of the unsigned byte `b`.
pub open spec fn cell_of(b: u8) -> i8 {
    if b >= 128 {
        (b - 256) as i8
    } else {
        b as i8
    }
}

/// The byte form of a sequence of cells.
pub open spec fn bytes_of(cells: Seq<i8>) -> Seq<u8> {
    Seq::new(cells.len(), |i: int| byte_of(cells[i]))
}

/// The cells that a sequence of bytes is the byte form of.
pub open spec fn cells_of(bytes: Seq<u8>) -> Seq<i8> {
    Seq::new(bytes.len(), |i: int| cell_of(bytes[i]))
}

/// What reading the cell at `index` gives: the cell, or nothing where the
/// sequence has no such place.
pub open spec fn cell_at(cells: Seq<i8>, index: int) -> Option<i8> {
    if 0 <= index < cells.len() {
        Some(cells[index])
    } else {
        None
    }
}

/// The cells after writing `value` at `index`: one cell changed, or none
/// where the sequence has no such place.
pub open spec fn with_cell(cells: Seq<i8>, index: int, value: i8) -> Seq<i8> {
    if 0 <= index < cells.len() {
        cells.update(index, value)
    } else {
        cells
    }
}

/// The payload of a cell: its view is the sequence of its cells.
#[derive(Debug, Eq)]
pub struct NodeData(Vec<i8>);

impl View for NodeData {
    type V = Seq<i8>;

    closed spec fn view(&self) -> Seq<i8> {
        self.0@
    }
}

impl NodeData {
    /// Whether the payload is within what a node may carry. A payload is
    /// as long as the bytes or cells that it was made from, and no write
    /// makes it longer.
    pub open spec fn within_limit(self) -> bool {
        self@.len() <= NODE_MAX_SIZE
    }

    /// A payload of random length below the limit, filled with random
    /// cells, drawn from the generator `rng`. Which length and which cells
    /// is left to the generator; the payload is made from its bytes as
    /// `from_bytes` makes one.
    pub fn random_from(rng: &mut SmallRng) -> (r: NodeData)
        ensures
            r@.len() < NODE_MAX_SIZE,
    {
        let length = below(rng, NODE_MAX_SIZE);
        let mut bytes: Vec<u8> = vec![0u8; length];
        fill(rng, &mut bytes);
        NodeData::from(bytes.as_slice())
    }

    /// A payload of random length below the limit, filled with random
    /// cells, drawn from a generator that the operating system seeds.
    /// Where the system gives no entropy there is no payload; whether it
    /// does is not for this function to say.
    pub fn random() -> (r: Option<NodeData>)
        ensures
            r matches Some(d) ==> d@.len() < NODE_MAX_SIZE,
    {
        match seeded() {
            Some(mut rng) => Some(NodeData::random_from(&mut rng)),
            None => None,
        }
    }

    /// The payload that holds the cells `cells`.
    pub fn from_cells(cells: Vec<i8>) -> (r: NodeData)
        ensures
            r@ == cells@,
    {
        NodeData(cells)
    }

    /// The cells of the payload.
    pub fn into_cells(self) -> (r: Vec<i8>)
        ensures
            r@ == self@,
    {
        self.0
    }

    /// The cell at `index`, or nothing where the payload is shorter.
    pub fn get(&self, index: usize) -> (r: Option<i8>)
        ensures
            r == cell_at(self@, index as int),
    {
        if index < self.0.len() {
            Some(self.0[index])
        } else {
            None
        }
    }

    /// Writes `value` at `index`. Where the payload is shorter nothing is
    /// written and nothing is returned; the payload never grows.
    pub fn set(&mut self, index: usize, value: i8) -> (r: Option<()>)
        ensures
            final(self)@ == with_cell(old(self)@, index as int, value),
            final(self).within_limit() == old(self).within_limit(),
            r == if index < old(self)@.len() {
                Some(())
            } else {
                None::<()>
            },
    {
        if index < self.0.len() {
            self.0.set(index, value);
            Some(())
        } else {
            None
        }
    }

    /// The byte form of the payload.
    pub fn to_bytes(self) -> (r: Vec<u8>)
        ensures
            r@ == bytes_of(self@),
    {
        let mut bytes: Vec<u8> = Vec::new();
        let mut i: usize = 0;
        while i < self.0.len()
            invariant
                i <= self.0.len(),
                bytes@ == bytes_of(self.0@.take(i as int)),
            decreases self.0.len() - i,
        {
            let v: i8 = self.0[i];
            let b: u8 = if v < 0 {
                (v as i16 + 256) as u8
            } else {
                v as u8
            };
            bytes.push(b);
            i += 1;
            assert(bytes@ =~= bytes_of(self.0@.take(i as int)));
        }
        assert(self.0@.take(i as int) =~= self.0@);
        bytes
    }

    /// The payload whose byte form is `value`.
    pub fn from_bytes(value: &[u8]) -> (r: NodeData)
        ensures
            r@ == cells_of(value@),
            r.within_limit() == (value@.len() <= NODE_MAX_SIZE),
    {
        value.into()
    }
}

impl<'a> From<&'a [u8]> for NodeData {
    /// The payload whose byte form is `value`.
    fn from(value: &'a [u8]) -> (r: NodeData)
        ensures
            r@ == cells_of(value@),
    {
        let mut cells: Vec<i8> = Vec::new();
        let mut i: usize = 0;
        while i < value.len()
            invariant
                i <= value.len(),
                cells@ == cells_of(value@.take(i as int)),
            decreases value.len() - i,
        {
            let b: u8 = value[i];
            let v: i8 = if b >= 128 {
                (b as i16 - 256) as i8
            } else {
                b as i8
            };
            cells.push(v);
            i += 1;
            assert(cells@ =~= cells_of(value@.take(i as int)));
        }
        assert(value@.take(i as int) =~= value@);
        NodeData(cells)
    }
}

impl<'a> vstd::std_specs::convert::FromSpecImpl<&'a [u8]> for NodeData {
    /// Ghost code can name the cells of a payload but not the payload
    /// that holds them, so what `from` returns is stated by its own
    /// contract, over the view.
    open spec fn obeys_from_spec() -> bool {
        false
    }

    open spec fn from_spec(value: &'a [u8]) -> NodeData {
        arbitrary()
    }
}

impl From<NodeData> for Vec<u8> {
    /// The byte form of the payload `value`.
    fn from(value: NodeData) -> (r: Vec<u8>)
        ensures
            r@ == bytes_of(value@),
    {
        value.to_bytes()
    }
}

impl vstd::std_specs::convert::FromSpecImpl<NodeData> for Vec<u8> {
    /// Ghost code can name the bytes of a vector but not the vector that
    /// holds them, so what `from` returns is stated by its own contract,
    /// over the view.
    open spec fn obeys_from_spec() -> bool {
        false
    }

    open spec fn from_spec(value: NodeData) -> Vec<u8> {
        arbitrary()
    }
}

impl Clone for NodeData {
    fn clone(&self) -> (r: NodeData)
        ensures
            r@ == self@,
    {
        NodeData(self.0.clone())
    }
}

impl PartialEq for NodeData {
    fn eq(&self, other: &NodeData) -> (r: bool) {
        if self.0.len() != other.0.len() {
            return false;
        }
        let mut i: usize = 0;
        while i < self.0.len()
            invariant
                i <= self.0.len(),
                self.0.len() == other.0.len(),
                forall|j: int| 0 <= j < i ==> self.0@[j] == other.0@[j],
            decreases self.0.len() - i,
        {
            if self.0[i] != other.0[i] {
                return false;
            }
            i += 1;
        }
        assert(self.0@ =~= other.0@);
        true
    }
}

/// Two payloads are equal when they hold the same cells in the same order.
impl vstd::std_specs::cmp::PartialEqSpecImpl for NodeData {
    open spec fn obeys_eq_spec() -> bool {
        true
    }

    open spec fn eq_spec(&self, other: &NodeData) -> bool {
        self@ == other@
    }
}

/// A cell of the grid: where it lies, and what it carries. The coordinate
/// is what the cell is known by; the payload is changed in place.
#[derive(Debug)]
pub struct Node {
    pub id: NodeID,
    pub data: NodeData,
}

impl Node {
    /// The cell at the coordinate `id` that carries the payload whose byte
    /// form is `data`.
    pub fn new(id: &(i16, i16), data: &[u8]) -> (r: Node)
        ensures
            r.id@ == *id,
            r.data@ == cells_of(data@),
    {
        Node { id: NodeID::from(*id), data: NodeData::from(data) }
    }
}

impl Clone for Node {
    fn clone(&self) -> (r: Node)
        ensures
            r.id@ == self.id@,
            r.data@ == self.data@,
    {
        Node { id: self.id, data: self.data.clone() }
    }
}

/// A byte form stands for one payload only: the cells read from it have
/// that same byte form again.
pub proof fn lemma_bytes_round_trip(bytes: Seq<u8>)
    ensures
        bytes_of(cells_of(bytes)) == bytes,
{
    assert(bytes_of(cells_of(bytes)) =~= bytes);
}

/// A payload comes back from its byte form cell for cell.
pub proof fn lemma_cells_round_trip(cells: Seq<i8>)
    ensures
        cells_of(bytes_of(cells)) == cells,
{
    assert(cells_of(bytes_of(cells)) =~= cells);
}

/// The byte form has one byte for each cell and keeps their order: the
/// byte at a place is the byte of the cell at that place.
pub proof fn lemma_byte_form_keeps_places(cells: Seq<i8>, bytes: Seq<u8>)
    ensures
        bytes_of(cells).len() == cells.len(),
        cells_of(bytes).len() == bytes.len(),
        forall|i: int| 0 <= i < cells.len() ==> #[trigger] bytes_of(cells)[i] == byte_of(cells[i]),
        forall|i: int| 0 <= i < bytes.len() ==> #[trigger] cells_of(bytes)[i] == cell_of(bytes[i]),
{
}

/// Past the end of a payload a read finds nothing and a write changes
/// nothing.
pub proof fn lemma_past_the_end(cells: Seq<i8>, index: int, value: i8)
    requires
        index >= cells.len(),
    ensures
        cell_at(cells, index) is None,
        with_cell(cells, index, value) == cells,
{
}

/// A cell that was written is the cell that is read: within the payload, a
/// write at a place followed by a read at that place gives the value
/// written.
pub proof fn lemma_read_after_write(cells: Seq<i8>, index: int, value: i8)
    requires
        0 <= index < cells.len(),
    ensures
        cell_at(with_cell(cells, index, value), index) == Some(value),
{
}

/// A write changes one place at most: the payload keeps its length, and a
/// read at any other place gives what it gave before.
pub proof fn lemma_write_is_local(cells: Seq<i8>, index: int, value: i8, other: int)
    requires
        other != index,
    ensures
        with_cell(cells, index, value).len() == cells.len(),
        cell_at(with_cell(cells, index, value), other) == cell_at(cells, other),
{
}

} // verus!
