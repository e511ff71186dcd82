use nodegrid::grid::wire::{FLAT_WIRE_FIELDS, FLAT_WIRE_NAME};
use nodegrid::grid::{de_flat, ser_flat, FlatID, FlatWireError};

#[test]
fn the_record_of_a_flat_key() {
    assert_eq!(FLAT_WIRE_NAME, "FlatID");
    assert_eq!(FLAT_WIRE_FIELDS, 2);
    assert_eq!(ser_flat(&0).len(), FLAT_WIRE_FIELDS);
}

#[test]
fn ser_flat_writes_the_components() {
    assert_eq!(ser_flat(&0), [0, 0]);
    assert_eq!(ser_flat(&-327670), [-5, 10]);
    assert_eq!(ser_flat(&65536), [1, 0]);
    assert_eq!(ser_flat(&65535), [0, -1]);
    assert_eq!(ser_flat(&-1), [-1, -1]);
    assert_eq!(ser_flat(&i32::MIN), [i16::MIN, 0]);
    assert_eq!(ser_flat(&i32::MAX), [i16::MAX, -1]);
    assert_eq!(ser_flat(&0x12345678), [0x1234, 0x5678]);
}

#[test]
fn de_flat_reads_two_fields() {
    assert_eq!(de_flat(&[0, 0]), Ok(0));
    assert_eq!(de_flat(&[-5, 10]), Ok(-327670));
    assert_eq!(de_flat(&[1, 0]), Ok(65536));
    assert_eq!(de_flat(&[0, -1]), Ok(65535));
    assert_eq!(de_flat(&[i16::MIN, 0]), Ok(i32::MIN));
    assert_eq!(de_flat(&[i16::MAX, -1]), Ok(i32::MAX));
}

#[test]
fn de_flat_rejects_three_fields() {
    assert_eq!(de_flat(&[1, 2, 3]), Err(FlatWireError::InvalidLength(2)));
    assert!(de_flat(&[-5, 10, 0]).is_err());
}

#[test]
fn de_flat_rejects_more_than_three_fields() {
    assert_eq!(de_flat(&[1, 2, 3, 4]), Err(FlatWireError::InvalidLength(2)));
    assert_eq!(de_flat(&[0; 100]), Err(FlatWireError::InvalidLength(2)));
}

#[test]
fn de_flat_rejects_fewer_than_two_fields() {
    assert_eq!(de_flat(&[]), Err(FlatWireError::InvalidLength(0)));
    assert_eq!(de_flat(&[7]), Err(FlatWireError::InvalidLength(1)));
}

#[test]
fn de_flat_undoes_ser_flat() {
    let keys = [i32::MIN, -327670, -65536, -1, 0, 1, 65535, 65536, 0x12345678, i32::MAX];
    for key in keys {
        assert_eq!(de_flat(&ser_flat(&key)), Ok(key));
    }
}

#[test]
fn the_record_reads_like_the_coordinate() {
    let flat = FlatID::from_xy(12, -34);
    let key: i32 = flat.into();
    let (x, y) = flat.into_tuple();
    assert_eq!(ser_flat(&key), [x, y]);
    assert_eq!(de_flat(&[12, -34]).map(FlatID::from_i32), Ok(flat));
}

#[test]
fn a_wire_error_is_a_plain_value() {
    let e = FlatWireError::InvalidLength(1);
    let copy = e;
    assert_eq!(copy, e);
    assert_ne!(e, FlatWireError::InvalidLength(2));
    assert_eq!(format!("{:?}", e), "InvalidLength(1)");
}
