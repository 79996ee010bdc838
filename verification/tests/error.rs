use cynthion::error::{Error, GreatError};

/// A Custom ErrorKind
#[derive(Debug, Copy, Clone, Eq, PartialEq, Ord, PartialOrd, Hash)]
pub enum CustomErrorKind {
    One,
    Two,
    Unknown,
}

impl Error for CustomErrorKind {
    type Error = CustomErrorKind;
    fn kind(&self) -> Self::Error {
        *self
    }
}

impl CustomErrorKind {
    fn describe(&self) -> &str {
        match self {
            CustomErrorKind::One => "This is a One error",
            CustomErrorKind::Two => "This is a Two error",
            CustomErrorKind::Unknown => "This is an Unknown error",
        }
    }
}

impl std::fmt::Display for CustomErrorKind {
    fn fmt(&self, f: &mut std::fmt::Formatter<'_>) -> std::fmt::Result {
        f.write_str(self.describe())
    }
}

impl std::error::Error for CustomErrorKind {}

impl std::convert::From<std::num::TryFromIntError> for CustomErrorKind {
    fn from(_error: std::num::TryFromIntError) -> Self {
        CustomErrorKind::One
    }
}

/// returns a `CustomErrorKind`
fn result_custom(n: u32) -> Result<u32, CustomErrorKind> {
    if n % 32 == 0 {
        Ok(n)
    } else {
        Err(CustomErrorKind::Two)
    }
}

/// returns a `&'static (dyn std::error::Error + 'static)`
fn result_core_error(n: u32) -> Result<u32, &'static (dyn std::error::Error)> {
    if n % 32 == 0 {
        Ok(n)
    } else {
        Err(&CustomErrorKind::Unknown)
    }
}

#[test]
fn test_everything() {
    match result_custom(31) {
        Ok(_n) => (),
        Err(CustomErrorKind::Unknown) => {
            println!("Unknown Error");
        }
        Err(e) => {
            println!("Error: {}", e);
        }
    }

    match result_core_error(31) {
        Ok(_n) => (),
        Err(e) => {
            println!("Error: {}", e);
            if e.is::<CustomErrorKind>() {
                println!("  ... which is a custom error");
            }
        }
    }

    match result_custom(31) {
        Ok(_n) => (),
        Err(error) => match error.kind() {
            CustomErrorKind::Unknown => {
                println!("Unknown Error");
            }
            _ => {
                println!("Error: {}", error);
            }
        },
    }
}

#[test]
fn test_error_kinds_are_their_own_kind() {
    assert_eq!(GreatError::GcpClassNotFound.kind(), GreatError::GcpClassNotFound);
    assert_eq!(
        cynthion::smolusb::ErrorKind::FailedConversion.kind(),
        cynthion::smolusb::ErrorKind::FailedConversion
    );
    assert_eq!(cynthion::usb::ErrorKind::Timeout.kind(), cynthion::usb::ErrorKind::Timeout);
    assert_eq!(cynthion::error::ErrorKind::Unknown.kind(), cynthion::error::ErrorKind::Unknown);
}

#[test]
fn test_error_descriptions() {
    assert_eq!(
        cynthion::smolusb::ErrorKind::FailedConversion.description(),
        "Failed to convert packet value"
    );
    assert_eq!(cynthion::usb::ErrorKind::Overflow.description(), "TODO Overflow");
    assert_eq!(cynthion::usb::ErrorKind::Underflow.description(), "TODO Underflow");
    assert_eq!(cynthion::error::ErrorKind::Unknown.description(), "TODO Unknown");
}
