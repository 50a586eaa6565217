use canvas_backend::error::CanvasError;

#[test]
fn serialized_failures_keep_their_description() {
    let e = CanvasError::from_serialized(Some(String::from("boom")));
    assert_eq!(e.message(), "boom");
}

#[test]
fn unserializable_failures_fall_back_to_unknown() {
    let e = CanvasError::from_serialized(None);
    assert_eq!(e.message(), "unknown");
}

#[test]
fn errors_carry_their_message() {
    let e = CanvasError::new(String::from("context lost"));
    assert_eq!(e.message(), "context lost");
}
