//! The typed failures this tool reports, with their texts and exit codes.

use vstd::prelude::*;
use vstd::string::*;

verus! {

/// `std::io::Error` carries the OS error of a failed open, read, seek or
/// write; it is opaque here and only stored and displayed.
#[verifier::external_type_specification]
#[verifier::external_body]
pub struct ExIoError(std::io::Error);

/// Every failure the tool can end with.
#[derive(Debug)]
pub enum ErrorCode {
    RegistryEntryNotFound,
    RegistryInstallDirNotFound,
    RegistryInstallDirIncorrectType,
    RegistryResolutionWidthNotFound,
    RegistryResolutionHeightNotFound,
    RegistryResolutionWidthIncorrectType,
    RegistryResolutionHeightIncorrectType,
    RegistryResolutionWidthChange,
    RegistryResolutionHeightChange,
    NotFoundBinary(String),
    IncorrectHashOfBinary(String),
    IO(std::io::Error),
    UnknownRatio,
}

/// Relies on `std::io::Error`'s `Debug` implementation for the error text.
#[verifier::external_body]
fn io_error_text(e: &std::io::Error) -> String {
    format!("{:?}", e)
}

impl ErrorCode {
    /// The process exit code reported for this failure.
    pub open spec fn spec_code(self) -> i32 {
        match self {
            ErrorCode::RegistryEntryNotFound => 2,
            ErrorCode::RegistryInstallDirNotFound => 3,
            ErrorCode::RegistryInstallDirIncorrectType => 4,
            ErrorCode::RegistryResolutionWidthNotFound => 5,
            ErrorCode::RegistryResolutionHeightNotFound => 6,
            ErrorCode::RegistryResolutionWidthIncorrectType => 7,
            ErrorCode::RegistryResolutionHeightIncorrectType => 8,
            ErrorCode::RegistryResolutionWidthChange => 9,
            ErrorCode::RegistryResolutionHeightChange => 10,
            ErrorCode::NotFoundBinary(_) => 11,
            ErrorCode::IncorrectHashOfBinary(_) => 12,
            ErrorCode::IO(_) => 13,
            ErrorCode::UnknownRatio => 14,
        }
    }

    pub fn code(&self) -> (r: i32)
        ensures
            r == self.spec_code(),
    {
        match self {
            ErrorCode::RegistryEntryNotFound => 2,
            ErrorCode::RegistryInstallDirNotFound => 3,
            ErrorCode::RegistryInstallDirIncorrectType => 4,
            ErrorCode::RegistryResolutionWidthNotFound => 5,
            ErrorCode::RegistryResolutionHeightNotFound => 6,
            ErrorCode::RegistryResolutionWidthIncorrectType => 7,
            ErrorCode::RegistryResolutionHeightIncorrectType => 8,
            ErrorCode::RegistryResolutionWidthChange => 9,
            ErrorCode::RegistryResolutionHeightChange => 10,
            ErrorCode::NotFoundBinary(_) => 11,
            ErrorCode::IncorrectHashOfBinary(_) => 12,
            ErrorCode::IO(_) => 13,
            ErrorCode::UnknownRatio => 14,
        }
    }

    /// The user-facing text of this failure. The text of an `IO` failure ends
    /// in the OS error's own description and is not pinned down here.
    pub fn message(&self) -> (r: String)
        ensures
            self matches ErrorCode::RegistryEntryNotFound ==> r@ == "Cannot find entry in windows registry. Try to run `eracer.exe` first or reinstall E-Racer."@,
            self matches ErrorCode::RegistryInstallDirNotFound ==> r@ == "Cannot find entry `HOVAPPDATA` in windows registry. Try to run current `eracer.exe` first or reinstall E-Racer."@,
            self matches ErrorCode::RegistryInstallDirIncorrectType ==> r@ == "Incorrect type of the entry `HOVAPPDATA` in windows registry. Try to reinstall E-Racer."@,
            self matches ErrorCode::RegistryResolutionWidthNotFound ==> r@ == "Cannot find entry `PREFERRED WIDTH` in windows registry. Try to run current `eracer.exe` first or reinstall E-Racer.."@,
            self matches ErrorCode::RegistryResolutionHeightNotFound ==> r@ == "Cannot find entry `PREFERRED HEIGHT` in windows registry. Try to run current `eracer.exe` first or reinstall E-Racer."@,
            self matches ErrorCode::RegistryResolutionWidthIncorrectType ==> r@ == "Incorrect type of the entry `PREFERRED WIDTH` in windows registry. Try to reinstall E-Racer."@,
            self matches ErrorCode::RegistryResolutionHeightIncorrectType ==> r@ == "Incorrect type of the entry `PREFERRED HEIGHT` in windows registry. Try to reinstall E-Racer."@,
            self matches ErrorCode::RegistryResolutionWidthChange ==> r@ == "Cannot change the entry `PREFERRED WIDTH` in windows registry."@,
            self matches ErrorCode::RegistryResolutionHeightChange ==> r@ == "Cannot change the entry `PREFERRED HEIGHT` in windows registry."@,
            self matches ErrorCode::NotFoundBinary(s) ==> r@ == "Not found a binary file: `"@ + s@ + "`. You can try to specify a path to `eracer.exe` by passthrough key `--binary-path`."@,
            self matches ErrorCode::IncorrectHashOfBinary(s) ==> r@ == "Incorrect hash of a binary `"@ + s@ + "`. Is path to `eracer.exe` correct?"@,
            self matches ErrorCode::IO(_) ==> r@.len() >= "IO error: "@.len(),
            self matches ErrorCode::UnknownRatio ==> r@ == "Unknown aspect ratio"@,
    {
        match self {
            ErrorCode::RegistryEntryNotFound => String::from_str("Cannot find entry in windows registry. Try to run `eracer.exe` first or reinstall E-Racer."),
            ErrorCode::RegistryInstallDirNotFound => String::from_str("Cannot find entry `HOVAPPDATA` in windows registry. Try to run current `eracer.exe` first or reinstall E-Racer."),
            ErrorCode::RegistryInstallDirIncorrectType => String::from_str("Incorrect type of the entry `HOVAPPDATA` in windows registry. Try to reinstall E-Racer."),
            ErrorCode::RegistryResolutionWidthNotFound => String::from_str("Cannot find entry `PREFERRED WIDTH` in windows registry. Try to run current `eracer.exe` first or reinstall E-Racer.."),
            ErrorCode::RegistryResolutionHeightNotFound => String::from_str("Cannot find entry `PREFERRED HEIGHT` in windows registry. Try to run current `eracer.exe` first or reinstall E-Racer."),
            ErrorCode::RegistryResolutionWidthIncorrectType => String::from_str("Incorrect type of the entry `PREFERRED WIDTH` in windows registry. Try to reinstall E-Racer."),
            ErrorCode::RegistryResolutionHeightIncorrectType => String::from_str("Incorrect type of the entry `PREFERRED HEIGHT` in windows registry. Try to reinstall E-Racer."),
            ErrorCode::RegistryResolutionWidthChange => String::from_str("Cannot change the entry `PREFERRED WIDTH` in windows registry."),
            ErrorCode::RegistryResolutionHeightChange => String::from_str("Cannot change the entry `PREFERRED HEIGHT` in windows registry."),
            ErrorCode::NotFoundBinary(s) => String::from_str("Not found a binary file: `").concat(s.as_str()).concat("`. You can try to specify a path to `eracer.exe` by passthrough key `--binary-path`."),
            ErrorCode::IncorrectHashOfBinary(s) => String::from_str("Incorrect hash of a binary `").concat(s.as_str()).concat("`. Is path to `eracer.exe` correct?"),
            ErrorCode::IO(e) => {
                let prefix = String::from_str("IO error: ");
                let r = prefix.concat(io_error_text(e).as_str());
                proof {
                    assert(r@.len() >= "IO error: "@.len());
                }
                r
            },
            ErrorCode::UnknownRatio => String::from_str("Unknown aspect ratio"),
        }
    }
}

} // verus!
