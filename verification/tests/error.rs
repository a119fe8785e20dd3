use sun_moon::error::{DateTimeError, Error};

#[test]
fn messages_are_kept() {
    assert_eq!("no such day", DateTimeError::InvalidDateTime(String::from("no such day")).message());
    assert_eq!("no such zone", DateTimeError::InvalidZone(String::from("no such zone")).message());
    assert_eq!(
        "no such day",
        Error::DateTime(DateTimeError::InvalidDateTime(String::from("no such day"))).message()
    );
    assert_eq!("engine", Error::Function(String::from("engine")).message());
}

#[test]
fn input_errors_convert() {
    let e = Error::from(DateTimeError::InvalidZone(String::from("no such zone")));
    assert!(matches!(e, Error::DateTime(DateTimeError::InvalidZone(_))));
    assert_eq!("no such zone", e.message());
    let e: Error = DateTimeError::InvalidDateTime(String::from("no such day")).into();
    assert!(matches!(e, Error::DateTime(DateTimeError::InvalidDateTime(_))));
}

#[test]
fn status_by_class() {
    assert_eq!(400, Error::DateTime(DateTimeError::InvalidDateTime(String::new())).status_code());
    assert_eq!(400, Error::DateTime(DateTimeError::InvalidZone(String::new())).status_code());
    assert_eq!(500, Error::Function(String::new()).status_code());
}
