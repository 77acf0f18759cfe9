use backend_supervisor::{backend_name, StartupError, BACKEND_URL, MAX_RETRIES, RETRY_DELAY_MS};

#[test]
fn fixed_parameters() {
    assert_eq!(BACKEND_URL, "http://127.0.0.1:8000/");
    assert_eq!(MAX_RETRIES, 20);
    assert_eq!(RETRY_DELAY_MS, 500);
}

#[test]
fn backend_name_depends_on_target() {
    assert_eq!(backend_name(true), "resources/backend.exe");
    assert_eq!(backend_name(false), "resources/backend");
}

#[test]
fn resource_dir_message() {
    let error = StartupError::ResourceDir { reason: "unknown path".to_string() };
    assert_eq!(error.message(), "Failed to get resource directory: unknown path");
}

#[test]
fn not_found_message() {
    let error = StartupError::NotFound { path: "/opt/shell/resources/backend".to_string() };
    assert_eq!(
        error.message(),
        "Backend executable not found at: /opt/shell/resources/backend"
    );
}

#[test]
fn spawn_message() {
    let error = StartupError::Spawn { reason: "Permission denied (os error 13)".to_string() };
    assert_eq!(
        error.message(),
        "Failed to spawn backend process: Permission denied (os error 13)"
    );
}

#[test]
fn timeout_message() {
    let error = StartupError::Timeout { attempts: 20, reason: "Connection refused".to_string() };
    assert_eq!(
        error.message(),
        "Backend failed to start after 20 attempts: Connection refused"
    );
}

#[test]
fn message_with_empty_report() {
    let error = StartupError::Spawn { reason: String::new() };
    assert_eq!(error.message(), "Failed to spawn backend process: ");
}

#[test]
fn message_keeps_non_ascii_report() {
    let error = StartupError::NotFound { path: "C:\\Programme\\Hülle\\backend.exe".to_string() };
    assert_eq!(
        error.message(),
        "Backend executable not found at: C:\\Programme\\Hülle\\backend.exe"
    );
}

#[test]
fn attempts_are_written_in_decimal() {
    let numerals = [
        (0u32, "0"),
        (7, "7"),
        (9, "9"),
        (10, "10"),
        (19, "19"),
        (100, "100"),
        (1005, "1005"),
        (4294967295, "4294967295"),
    ];
    for (attempts, numeral) in numerals {
        let error = StartupError::Timeout { attempts, reason: "x".to_string() };
        assert_eq!(
            error.message(),
            format!("Backend failed to start after {} attempts: x", numeral)
        );
    }
}

#[test]
fn attempts_match_the_standard_numeral() {
    let mut attempts: u32 = 1;
    while attempts < 1_000_000_000 {
        let error = StartupError::Timeout { attempts, reason: String::new() };
        assert_eq!(
            error.message(),
            format!("Backend failed to start after {} attempts: ", attempts)
        );
        attempts = attempts * 3 + 1;
    }
}
