//! How a flat key travels between programs.
//!
//! In memory a flat key is one integer. On the wire it is a record of the
//! two components of its coordinate, x first, so that it reads like a
//! coordinate. A record with any other number of fields is no flat key.

use super::id::{coordinates, flat_key, FlatID};
use vstd::prelude::*;

verus! {

/// The name that the record of a flat key goes by.
pub const FLAT_WIRE_NAME: &'static str = "FlatID";

/// The number of fields in the record of a flat key.
pub const FLAT_WIRE_FIELDS: usize = 2;

/// Why a record is no flat key.
#[derive(Debug, Clone, Copy, PartialEq, Eq, Structural)]
pub enum FlatWireError {
    /// The record has not exactly two fields. The number tells how many
    /// fields were taken before that showed: all of them where the record
    /// is too short, two where it is too long.
    InvalidLength(usize),
}

/// The fields of the record of the flat key `key`.
pub open spec fn wire_fields(key: i32) -> Seq<i16> {
    seq![coordinates(key).0, coordinates(key).1]
}

/// What a record with the fields `fields` is read as: the flat key of the
/// coordinate that two fields give, and an error for any other number.
pub open spec fn wire_key(fields: Seq<i16>) -> Result<i32, FlatWireError> {
    if fields.len() == 2 {
        Ok(flat_key((fields[0], fields[1])))
    } else if fields.len() < 2 {
        Err(FlatWireError::InvalidLength(fields.len() as usize))
    } else {
        Err(FlatWireError::InvalidLength(2))
    }
}

/// The fields to write for the flat key `id`.
pub fn ser_flat(id: &i32) -> (fields: [i16; 2])
    ensures
        fields@ == wire_fields(*id),
{
    let (x, y) = FlatID::from(*id).into_tuple();
    let fields: [i16; 2] = [x, y];
    assert(fields@ =~= wire_fields(*id));
    fields
}

/// The flat key that the fields read from a record stand for.
pub fn de_flat(fields: &[i16]) -> (r: Result<i32, FlatWireError>)
    ensures
        r == wire_key(fields@),
{
    if fields.len() == 0 {
        return Err(FlatWireError::InvalidLength(0));
    }
    let x: i16 = fields[0];
    if fields.len() == 1 {
        return Err(FlatWireError::InvalidLength(1));
    }
    let y: i16 = fields[1];
    if fields.len() > FLAT_WIRE_FIELDS {
        return Err(FlatWireError::InvalidLength(2));
    }
    Ok(FlatID::from_xy(x, y).into())
}

/// What was written for a key is read as that key.
pub proof fn lemma_wire_round_trip(key: i32)
    ensures
        wire_key(wire_fields(key)) == Ok::<i32, FlatWireError>(key),
{
    super::id::lemma_flat_key_of_coordinates(key);
}

/// A record is read as a key where it has two fields, and nowhere else.
pub proof fn lemma_wire_takes_pairs_only(fields: Seq<i16>)
    ensures
        wire_key(fields) is Ok <==> fields.len() == 2,
{
}

} // verus!
