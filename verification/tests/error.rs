use init_tools::error::CopyError;
use init_tools::error::FileOperation;

#[test]
fn path_errors_name_the_path() {
    assert_eq!(CopyError::NotADirectory("/no/such".to_string()).message(), "Not a directory: '/no/such'");
    assert_eq!(
        CopyError::OutsideSource("/elsewhere/a".to_string()).message(),
        "Failed to strip prefix: '/elsewhere/a'"
    );
}

#[test]
fn io_errors_name_the_operation_and_the_path() {
    let cases = [
        (FileOperation::CreateDirectories, "Failed to create target directory: '/p'"),
        (FileOperation::ReadPermissions, "Failed to read permissions: '/p'"),
        (FileOperation::ReadContent, "Failed to read file content: '/p'"),
        (FileOperation::WriteContent, "Failed to write file content: '/p'"),
        (FileOperation::SetPermissions, "Failed to set permissions: '/p'"),
    ];
    for (operation, expected) in cases {
        assert_eq!(CopyError::Io(operation, "/p".to_string()).message(), expected);
    }
}

#[test]
fn pattern_error_has_a_report() {
    assert_eq!(CopyError::Pattern.message(), "Failed to prepare the token pattern");
}
