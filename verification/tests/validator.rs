use upower_registry::bounded::{BoundedU32, ValidationError};

#[test]
fn validate_accepts_the_whole_range() {
    assert_eq!(BoundedU32::validate(0).unwrap().get(), 0);
    assert_eq!(BoundedU32::validate(40).unwrap().get(), 40);
    assert_eq!(BoundedU32::validate(100).unwrap().get(), 100);
}

#[test]
fn validate_rejects_just_above_the_range() {
    assert_eq!(BoundedU32::validate(101), Err(ValidationError { value: 101 }));
}

#[test]
fn validate_rejects_the_largest_value() {
    assert_eq!(BoundedU32::validate(4294967295), Err(ValidationError { value: 4294967295 }));
}

#[test]
fn validated_values_are_immutable_copies() {
    let a = BoundedU32::validate(87).unwrap();
    let b = a;
    assert_eq!(a, b);
    assert_eq!(b.get(), 87);
}
