use backend::Error;

#[test]
fn test_custom_error() {
    let error_message = "Something went wrong";
    let error = Error::custom(error_message);

    let Error::Custom(msg) = error;
    assert_eq!(msg, error_message);
}

#[test]
fn test_error_from_str() {
    let error_message = "Error from &str";
    let error: Error = error_message.into();

    let Error::Custom(msg) = error;
    assert_eq!(msg, error_message);
}
