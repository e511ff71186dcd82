//! Coordinates of cells and the flat keys that stand for them.
//!
//! A coordinate is a pair of signed 16-bit components on a plane that wraps
//! on both axes. A flat key packs the pair into one signed 32-bit integer,
//! x in the upper 16 bits and y in the lower 16, each in its own bit
//! pattern. The functions `flat_key` and `coordinates` state the packing on
//! plain values; the executable conversions are proved against them.

use super::navi::{combined, lemma_wrap16_within_a_lap, opposite, wrap16, Direction};
use vstd::prelude::*;

verus! {

/// The 16 bits of `v`, read as an unsigned number.
pub open spec fn low_bits(v: i16) -> int {
    if v < 0 {
        v + 65536
    } else {
        v as int
    }
}

/// The 16 bits of `u`, a number from 0 to 65535, read as a signed number.
pub open spec fn signed16(u: int) -> i16 {
    if u >= 32768 {
        (u - 65536) as i16
    } else {
        u as i16
    }
}

/// The flat key of the coordinate `c`: x scaled into the upper 16 bits,
/// the bits of y below it.
pub open spec fn flat_key(c: (i16, i16)) -> i32 {
    (c.0 * 65536 + low_bits(c.1)) as i32
}

/// The coordinate that the flat key `key` stands for.
pub open spec fn coordinates(key: i32) -> (i16, i16) {
    ((key as int / 65536) as i16, signed16(key as int % 65536))
}

/// Where the step `d` leads from the coordinate `c`: each component moves
/// on its own and wraps at the ends of the 16-bit range.
pub open spec fn translated(c: (i16, i16), d: Direction) -> (i16, i16) {
    (wrap16(c.0 + d.0), wrap16(c.1 + d.1))
}

/// The coordinate of a cell. Every pair of components names a cell.
#[derive(Debug, Clone, Copy, Eq, PartialOrd, Ord, Hash)]
pub struct NodeID((i16, i16));

impl View for NodeID {
    type V = (i16, i16);

    closed spec fn view(&self) -> (i16, i16) {
        self.0
    }
}

/// The key of a cell: its coordinate packed into one integer. Every 32-bit
/// integer is the key of exactly one cell.
#[derive(Debug, Clone, Copy, Eq, Ord, Hash)]
pub struct FlatID(i32);

impl View for FlatID {
    type V = i32;

    closed spec fn view(&self) -> i32 {
        self.0
    }
}

impl NodeID {
    /// The corner with the least x and the greatest y.
    pub fn up_left() -> (r: NodeID)
        ensures
            r@ == (i16::MIN, i16::MAX),
    {
        NodeID((i16::MIN, i16::MAX))
    }

    /// The middle of the edge with the greatest y.
    pub fn up_middle() -> (r: NodeID)
        ensures
            r@ == (0i16, i16::MAX),
    {
        NodeID((0, i16::MAX))
    }

    /// The corner with the greatest x and the greatest y.
    pub fn up_right() -> (r: NodeID)
        ensures
            r@ == (i16::MAX, i16::MAX),
    {
        NodeID((i16::MAX, i16::MAX))
    }

    /// The middle of the edge with the least x.
    pub fn left_middle() -> (r: NodeID)
        ensures
            r@ == (i16::MIN, 0i16),
    {
        NodeID((i16::MIN, 0))
    }

    /// The cell that a guest rests on when it does not move: the origin.
    pub fn situ() -> (r: NodeID)
        ensures
            r@ == (0i16, 0i16),
    {
        NodeID((0, 0))
    }

    /// The cell at the centre of the plane.
    pub fn origin() -> (r: NodeID)
        ensures
            r@ == (0i16, 0i16),
    {
        NodeID((0, 0))
    }

    /// The middle of the edge with the greatest x.
    pub fn right_middle() -> (r: NodeID)
        ensures
            r@ == (i16::MAX, 0i16),
    {
        NodeID((i16::MAX, 0))
    }

    /// The corner with the least x and the least y.
    pub fn down_left() -> (r: NodeID)
        ensures
            r@ == (i16::MIN, i16::MIN),
    {
        NodeID((i16::MIN, i16::MIN))
    }

    /// The middle of the edge with the least y.
    pub fn down_middle() -> (r: NodeID)
        ensures
            r@ == (0i16, i16::MIN),
    {
        NodeID((0, i16::MIN))
    }

    /// The corner with the greatest x and the least y.
    pub fn down_right() -> (r: NodeID)
        ensures
            r@ == (i16::MAX, i16::MIN),
    {
        NodeID((i16::MAX, i16::MIN))
    }

    /// The coordinate that the flat key `value` stands for.
    pub fn from_i32(value: i32) -> (r: NodeID)
        ensures
            r@ == coordinates(value),
    {
        FlatID::from_i32(value).into_node_id()
    }

    /// The coordinate with the components `x` and `y`.
    pub fn from_xy(x: i16, y: i16) -> (r: NodeID)
        ensures
            r@ == (x, y),
    {
        NodeID((x, y))
    }

    /// The components of the coordinate, x first.
    pub fn into_tuple(self) -> (r: (i16, i16))
        ensures
            r == self@,
    {
        self.into()
    }

    /// The flat key of the coordinate, as a bare integer.
    pub fn into_i32(self) -> (r: i32)
        ensures
            r == flat_key(self@),
    {
        self.into_flat().0
    }

    /// The flat key of the coordinate.
    pub fn into_flat(self) -> (r: FlatID)
        ensures
            r@ == flat_key(self@),
    {
        self.into()
    }

    /// Moves the coordinate by the step `to`, wrapping on both axes, and
    /// returns the coordinate moved to.
    pub fn navi_to(&mut self, to: Direction) -> (r: NodeID)
        ensures
            final(self)@ == translated(old(self)@, to),
            r@ == final(self)@,
    {
        proof {
            lemma_wrap16_within_a_lap(self.0.0 + to.0);
            lemma_wrap16_within_a_lap(self.0.1 + to.1);
        }
        self.0.0 = self.0.0.wrapping_add(to.0);
        self.0.1 = self.0.1.wrapping_add(to.1);
        *self
    }
}

impl FlatID {
    /// The coordinate that the key stands for.
    pub fn into_node_id(self) -> (r: NodeID)
        ensures
            r@ == coordinates(self@),
    {
        self.into()
    }

    /// The components of the coordinate that the key stands for, x first.
    pub fn into_tuple(self) -> (r: (i16, i16))
        ensures
            r == coordinates(self@),
    {
        self.into_node_id().into_tuple()
    }

    /// The key that is the integer `value`.
    pub fn from_i32(value: i32) -> (r: FlatID)
        ensures
            r@ == value,
    {
        FlatID::from(value)
    }

    /// The key of the coordinate with the components `x` and `y`.
    pub fn from_xy(x: i16, y: i16) -> (r: FlatID)
        ensures
            r@ == flat_key((x, y)),
    {
        NodeID::from_xy(x, y).into()
    }
}

/// The key of a coordinate stands for that coordinate: unpacking undoes
/// packing.
pub proof fn lemma_coordinates_of_flat_key(c: (i16, i16))
    ensures
        coordinates(flat_key(c)) == c,
{
    let key = flat_key(c);
    assert(key == c.0 * 65536 + low_bits(c.1));
    assert(key as int / 65536 == c.0);
    assert(key as int % 65536 == low_bits(c.1));
}

/// Every 32-bit integer is the key of the coordinate that it stands for:
/// packing undoes unpacking, so no integer is left without a cell.
pub proof fn lemma_flat_key_of_coordinates(key: i32)
    ensures
        flat_key(coordinates(key)) == key,
{
    let high = key as int / 65536;
    let low = key as int % 65536;
    assert(key == high * 65536 + low);
    assert(low_bits(signed16(low)) == low);
}

/// Two coordinates that differ have keys that differ.
pub proof fn lemma_flat_key_injective(a: (i16, i16), b: (i16, i16))
    requires
        a != b,
    ensures
        flat_key(a) != flat_key(b),
{
    lemma_coordinates_of_flat_key(a);
    lemma_coordinates_of_flat_key(b);
}

/// The two bytes of a component, the more significant one first.
pub open spec fn component_bytes(v: i16) -> Seq<u8> {
    seq![(low_bits(v) / 256) as u8, (low_bits(v) % 256) as u8]
}

/// The four bytes of a key, the most significant one first.
pub open spec fn key_bytes(key: i32) -> Seq<u8> {
    let u = if key < 0 {
        key + 0x1_0000_0000
    } else {
        key as int
    };
    seq![
        (u / 0x100_0000) as u8,
        (u / 0x1_0000 % 256) as u8,
        (u / 256 % 256) as u8,
        (u % 256) as u8,
    ]
}

/// The layout of a key: its four bytes, the most significant first, are the
/// two bytes of x followed by the two bytes of y.
pub proof fn lemma_flat_key_layout(c: (i16, i16))
    ensures
        key_bytes(flat_key(c)) == component_bytes(c.0) + component_bytes(c.1),
{
    let x = low_bits(c.0);
    let y = low_bits(c.1);
    let key = flat_key(c);
    let u = if key < 0 {
        key + 0x1_0000_0000
    } else {
        key as int
    };
    assert(u == x * 0x1_0000 + y);
    assert(u / 0x1_0000 == x);
    assert(u / 0x100_0000 == x / 256);
    assert(u / 256 == x * 256 + y / 256);
    assert(u / 256 % 256 == y / 256);
    assert(u % 256 == y % 256);
    assert(key_bytes(key) =~= component_bytes(c.0) + component_bytes(c.1));
}

/// A step is undone by the opposite step, wherever on the plane it is
/// taken and whether or not it wraps.
pub proof fn lemma_translate_back(c: (i16, i16), d: Direction)
    ensures
        translated(translated(c, d), opposite(d)) == c,
{
    lemma_wrap16_within_a_lap(c.0 + d.0);
    lemma_wrap16_within_a_lap(-d.0);
    lemma_wrap16_within_a_lap(wrap16(c.0 + d.0) + wrap16(-d.0));
    lemma_wrap16_within_a_lap(c.1 + d.1);
    lemma_wrap16_within_a_lap(-d.1);
    lemma_wrap16_within_a_lap(wrap16(c.1 + d.1) + wrap16(-d.1));
}

/// Two steps in a row lead where the one combined step leads.
pub proof fn lemma_translate_twice(c: (i16, i16), first: Direction, second: Direction)
    ensures
        translated(translated(c, first), second) == translated(c, combined(first, second)),
{
    lemma_wrap16_within_a_lap(c.0 + first.0);
    lemma_wrap16_within_a_lap(wrap16(c.0 + first.0) + second.0);
    lemma_wrap16_within_a_lap(first.0 + second.0);
    lemma_wrap16_within_a_lap(c.0 + wrap16(first.0 + second.0));
    lemma_wrap16_within_a_lap(c.1 + first.1);
    lemma_wrap16_within_a_lap(wrap16(c.1 + first.1) + second.1);
    lemma_wrap16_within_a_lap(first.1 + second.1);
    lemma_wrap16_within_a_lap(c.1 + wrap16(first.1 + second.1));
}

/// Staying put is a step that leads nowhere else.
pub proof fn lemma_translate_situ(c: (i16, i16))
    ensures
        translated(c, super::navi::SITU) == c,
{
}

impl Default for NodeID {
    /// The origin.
    fn default() -> (r: NodeID)
        ensures
            r@ == (0i16, 0i16),
    {
        NodeID((0, 0))
    }
}

impl core::ops::Deref for NodeID {
    type Target = (i16, i16);

    /// The components of the coordinate, in place.
    fn deref(&self) -> (r: &(i16, i16))
        ensures
            *r == self@,
    {
        &self.0
    }
}

impl PartialEq for NodeID {
    fn eq(&self, other: &NodeID) -> (r: bool) {
        self.0.0 == other.0.0 && self.0.1 == other.0.1
    }
}

/// Two coordinates are equal when their components are.
impl vstd::std_specs::cmp::PartialEqSpecImpl for NodeID {
    open spec fn obeys_eq_spec() -> bool {
        true
    }

    open spec fn eq_spec(&self, other: &NodeID) -> bool {
        self@ == other@
    }
}

impl PartialEq for FlatID {
    fn eq(&self, other: &FlatID) -> (r: bool) {
        self.0 == other.0
    }
}

/// Two keys are equal when they are the same integer.
impl vstd::std_specs::cmp::PartialEqSpecImpl for FlatID {
    open spec fn obeys_eq_spec() -> bool {
        true
    }

    open spec fn eq_spec(&self, other: &FlatID) -> bool {
        self@ == other@
    }
}

impl PartialOrd for FlatID {
    fn partial_cmp(&self, other: &FlatID) -> (r: Option<core::cmp::Ordering>) {
        if self.0 < other.0 {
            Some(core::cmp::Ordering::Less)
        } else if self.0 > other.0 {
            Some(core::cmp::Ordering::Greater)
        } else {
            Some(core::cmp::Ordering::Equal)
        }
    }
}

/// Keys are ordered as the signed integers that they are. The order says
/// nothing of where the cells lie: x fills the upper bits of a key, so
/// neighbours along x are 65536 apart.
impl vstd::std_specs::cmp::PartialOrdSpecImpl for FlatID {
    open spec fn obeys_partial_cmp_spec() -> bool {
        true
    }

    open spec fn partial_cmp_spec(&self, other: &FlatID) -> Option<core::cmp::Ordering> {
        if self@ < other@ {
            Some(core::cmp::Ordering::Less)
        } else if self@ > other@ {
            Some(core::cmp::Ordering::Greater)
        } else {
            Some(core::cmp::Ordering::Equal)
        }
    }
}

impl From<(i16, i16)> for NodeID {
    fn from(value: (i16, i16)) -> (r: NodeID)
        ensures
            r@ == value,
    {
        NodeID((value.0, value.1))
    }
}

impl vstd::std_specs::convert::FromSpecImpl<(i16, i16)> for NodeID {
    open spec fn obeys_from_spec() -> bool {
        true
    }

    closed spec fn from_spec(value: (i16, i16)) -> NodeID {
        NodeID(value)
    }
}

impl From<NodeID> for (i16, i16) {
    fn from(value: NodeID) -> (r: (i16, i16)) {
        value.0
    }
}

impl vstd::std_specs::convert::FromSpecImpl<NodeID> for (i16, i16) {
    open spec fn obeys_from_spec() -> bool {
        true
    }

    open spec fn from_spec(value: NodeID) -> (i16, i16) {
        value@
    }
}

impl From<i32> for FlatID {
    fn from(value: i32) -> (r: FlatID)
        ensures
            r@ == value,
    {
        FlatID(value)
    }
}

impl vstd::std_specs::convert::FromSpecImpl<i32> for FlatID {
    open spec fn obeys_from_spec() -> bool {
        true
    }

    closed spec fn from_spec(value: i32) -> FlatID {
        FlatID(value)
    }
}

impl From<FlatID> for i32 {
    fn from(value: FlatID) -> (r: i32) {
        value.0
    }
}

impl vstd::std_specs::convert::FromSpecImpl<FlatID> for i32 {
    open spec fn obeys_from_spec() -> bool {
        true
    }

    open spec fn from_spec(value: FlatID) -> i32 {
        value@
    }
}

impl From<NodeID> for FlatID {
    /// Packs the coordinate: x into the upper 16 bits, y into the lower.
    fn from(value: NodeID) -> (r: FlatID)
        ensures
            r@ == flat_key(value@),
    {
        let x: i32 = value.0.0 as i32;
        let y: i32 = value.0.1 as i32;
        let key: i32 = (x << 16) | (y & 0xffff);
        assert(key == x * 65536 + (if y < 0 { y + 65536 } else { y as int })) by (bit_vector)
            requires
                key == (x << 16) | (y & 0xffff),
                -32768 <= x < 32768,
                -32768 <= y < 32768,
        ;
        FlatID(key)
    }
}

impl vstd::std_specs::convert::FromSpecImpl<NodeID> for FlatID {
    open spec fn obeys_from_spec() -> bool {
        true
    }

    closed spec fn from_spec(value: NodeID) -> FlatID {
        FlatID(flat_key(value.0))
    }
}

impl From<FlatID> for NodeID {
    /// Unpacks the key: x from the upper 16 bits, y from the lower.
    fn from(value: FlatID) -> (r: NodeID)
        ensures
            r@ == coordinates(value@),
    {
        let key: i32 = value.0;
        let high: i32 = key >> 16;
        let low: i32 = key & 0xffff;
        assert(high == key as int / 65536 && low == key as int % 65536) by (bit_vector)
            requires
                high == key >> 16,
                low == key & 0xffff,
        ;
        let y: i16 = if low >= 32768 {
            (low - 65536) as i16
        } else {
            low as i16
        };
        NodeID((high as i16, y))
    }
}

impl vstd::std_specs::convert::FromSpecImpl<FlatID> for NodeID {
    open spec fn obeys_from_spec() -> bool {
        true
    }

    closed spec fn from_spec(value: FlatID) -> NodeID {
        NodeID(coordinates(value.0))
    }
}

} // verus!
