use cargo_hoist::error::HoistError;

#[test]
fn every_error_says_what_went_wrong() {
    assert_eq!(HoistError::Io.message(), "the file system failed a request");
    assert_eq!(HoistError::BinaryNotFound.message(), "failed to find binary");
    assert_eq!(HoistError::NotExecutable.message(), "the path is not executable");
    assert_eq!(HoistError::CorruptRegistry.message(), "the hoist registry is corrupt");
    assert_eq!(HoistError::InvalidName.message(), "failed to extract binary name");
    assert_eq!(HoistError::Conflict.message(), "several registered binaries share the name");
    assert_eq!(HoistError::SelectionNeeded.message(), "no binaries were selected");
    assert_eq!(HoistError::HookRejected.message(), "cargo hoist installation rejected");
    assert_eq!(HoistError::MissingShellProfile.message(), "the shell profile does not exist");
}
