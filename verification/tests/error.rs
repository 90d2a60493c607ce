use discid::{CallOutcome, DiscError};

#[test]
fn error_message_names_reason() {
    let err = DiscError::new("cannot open device `notadevice'".to_string());
    assert_eq!("cannot open device `notadevice'", err.reason());
    assert_eq!("DiscError: cannot open device `notadevice'", err.to_string());
}

#[test]
fn error_of_failed_allocation() {
    let err = DiscError::allocation_failed();
    assert_eq!("discid_new() failed, could not allocate memory", err.reason());
    assert_eq!(
        "DiscError: discid_new() failed, could not allocate memory",
        err.to_string()
    );
}

#[test]
fn error_with_empty_reason() {
    let err = DiscError::new(String::new());
    assert_eq!("DiscError: ", err.to_string());
}

#[test]
fn status_zero_is_failure() {
    assert_eq!(CallOutcome::Failed, CallOutcome::of_status(0));
    assert_eq!(CallOutcome::Succeeded, CallOutcome::of_status(1));
    assert_eq!(CallOutcome::Succeeded, CallOutcome::of_status(-1));
}
