use tg::{Point, PointElements, PointField, PointFields, PointFormError};

fn read_map(entries: &[(&str, f64)]) -> Result<Point<f64>, PointFormError> {
    let mut fields = PointFields::new();
    for (k, v) in entries {
        fields.accept(k, *v)?;
    }
    fields.finish()
}

fn read_seq(elements: &[f64]) -> Result<Point<f64>, PointFormError> {
    let mut it = elements.iter().copied();
    let mut read = PointElements::new();
    while read.needs_more() {
        read.accept(it.next())?;
    }
    let trailing = it.next().is_some();
    read.finish(trailing)
}

#[test]
fn field_names() {
    assert_eq!(PointField::X.name(), "x");
    assert_eq!(PointField::Y.name(), "y");
}

#[test]
fn map_with_both_fields() {
    assert_eq!(read_map(&[("x", 1.0), ("y", 2.0)]), Ok(Point::new(1.0, 2.0)));
    assert_eq!(read_map(&[("y", 2.0), ("x", 1.0)]), Ok(Point::new(1.0, 2.0)));
}

#[test]
fn map_later_entry_wins() {
    assert_eq!(
        read_map(&[("x", 1.0), ("y", 2.0), ("x", 5.0)]),
        Ok(Point::new(5.0, 2.0))
    );
    assert_eq!(
        read_map(&[("y", 9.0), ("y", 8.0), ("x", 7.0)]),
        Ok(Point::new(7.0, 8.0))
    );
}

#[test]
fn map_missing_fields() {
    assert_eq!(read_map(&[]), Err(PointFormError::MissingField(PointField::X)));
    assert_eq!(read_map(&[("y", 1.0)]), Err(PointFormError::MissingField(PointField::X)));
    assert_eq!(read_map(&[("x", 1.0)]), Err(PointFormError::MissingField(PointField::Y)));
}

#[test]
fn map_unknown_field_is_named() {
    assert_eq!(
        read_map(&[("x", 1.0), ("z", 2.0), ("w", 3.0)]),
        Err(PointFormError::UnknownField("z".to_string()))
    );
    assert_eq!(
        read_map(&[("X", 1.0)]),
        Err(PointFormError::UnknownField("X".to_string()))
    );
    assert_eq!(
        read_map(&[("xy", 1.0)]),
        Err(PointFormError::UnknownField("xy".to_string()))
    );
}

#[test]
fn unknown_field_leaves_fields_unchanged() {
    let mut fields = PointFields::new();
    fields.accept("x", 1.0f64).unwrap();
    assert!(fields.accept("", 2.0).is_err());
    fields.accept("y", 3.0).unwrap();
    assert_eq!(fields.finish(), Ok(Point::new(1.0, 3.0)));
}

#[test]
fn sequence_of_two() {
    assert_eq!(read_seq(&[1.0, 2.0]), Ok(Point::new(1.0, 2.0)));
}

#[test]
fn sequence_wrong_lengths() {
    assert_eq!(read_seq(&[]), Err(PointFormError::InvalidLength(0)));
    assert_eq!(read_seq(&[1.0]), Err(PointFormError::InvalidLength(1)));
    assert_eq!(read_seq(&[1.0, 2.0, 3.0]), Err(PointFormError::InvalidLength(3)));
    assert_eq!(read_seq(&[1.0, 2.0, 3.0, 4.0]), Err(PointFormError::InvalidLength(3)));
}

#[test]
fn sequence_round_trip() {
    let p = Point::new(-14.0, 22.5);
    assert_eq!(read_seq(&[p.x, p.y]), Ok(p));
}

#[test]
fn elements_needs_more() {
    let mut e = PointElements::new();
    assert!(e.needs_more());
    e.accept(Some(1u8)).unwrap();
    assert!(e.needs_more());
    assert_eq!(e.accept(None), Err(PointFormError::InvalidLength(1)));
    assert!(e.needs_more());
    e.accept(Some(2u8)).unwrap();
    assert!(!e.needs_more());
    assert_eq!(e.finish(false), Ok(Point::new(1u8, 2u8)));
}
