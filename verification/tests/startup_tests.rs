use filebridge::errors::IoError;
use filebridge::startup::absolute_startup_path;
use filebridge::startup::initial_payload;

#[test]
fn absolute_argument_stands() {
    assert_eq!(absolute_startup_path("/a/b.md".to_string(), Some("/cwd")), "/a/b.md");
}

#[test]
fn relative_argument_joins_working_directory() {
    assert_eq!(
        absolute_startup_path("notes.md".to_string(), Some("/home/me")),
        "/home/me/notes.md"
    );
}

#[test]
fn relative_argument_without_working_directory_stands() {
    assert_eq!(absolute_startup_path("notes.md".to_string(), None), "notes.md");
}

#[test]
fn payload_present_exactly_when_read_succeeded() {
    let p = initial_payload("/f.md".to_string(), Ok("text".to_string())).unwrap();
    assert_eq!(p.path, "/f.md");
    assert_eq!(p.content, "text");
    assert!(initial_payload("/f.md".to_string(), Err("denied".to_string())).is_none());
}

#[test]
fn io_error_messages_exact() {
    assert_eq!(
        IoError::ReadFile("denied".to_string()).message(),
        "Failed to read file: denied"
    );
    assert_eq!(
        IoError::ReadImage("gone".to_string()).message(),
        "Failed to read image: gone"
    );
}
