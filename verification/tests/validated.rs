use ritual::utils::{NonEmpty, NonEmptyString, NonZero, Validate, ValidationError};

#[test]
fn empty_string_is_refused() {
    let r = NonEmpty::<String>::new_validated(String::new());
    assert!(matches!(r, Err(ValidationError::InvalidValue)));
    let r = NonEmptyString::new_validated("".to_string());
    assert!(matches!(r, Err(ValidationError::InvalidValue)));
}

#[test]
fn one_letter_is_accepted_and_comes_back() {
    let r = NonEmptyString::new_validated("x".to_string());
    match r {
        Ok(v) => assert_eq!(v.inner(), "x"),
        Err(_) => panic!("a non-empty string was refused"),
    }
}

#[test]
fn whitespace_only_is_accepted() {
    let r = NonEmpty::<String>::new_validated("  ".to_string());
    match r {
        Ok(v) => assert_eq!(v.inner(), "  "),
        Err(_) => panic!("a blank but non-empty string was refused"),
    }
}

#[test]
fn zero_is_refused() {
    let r = NonZero::<u32>::new_validated(0);
    assert!(matches!(r, Err(ValidationError::InvalidValue)));
}

#[test]
fn nonzero_is_accepted_and_comes_back() {
    match NonZero::<u32>::new_validated(7) {
        Ok(v) => assert_eq!(v.inner(), 7),
        Err(_) => panic!("a non-zero number was refused"),
    }
    match NonZero::<u32>::new_validated(u32::MAX) {
        Ok(v) => assert_eq!(v.inner(), u32::MAX),
        Err(_) => panic!("a non-zero number was refused"),
    }
}

#[test]
fn validation_error_message() {
    assert_eq!(ValidationError::InvalidValue.message(), "Invalid value provided");
}
