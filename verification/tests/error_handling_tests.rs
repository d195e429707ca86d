use twiggy::error::{Result, TwiggyError};

#[test]
fn test_error_codes() {
    let git_error = TwiggyError::Git {
        message: "Repository not found".to_string(),
        source: git2::Error::from_str("test error"),
    };
    assert_eq!(git_error.error_code(), 1000);

    let io_error = TwiggyError::Io {
        operation: "file read".to_string(),
        source: std::io::Error::new(std::io::ErrorKind::NotFound, "file not found"),
    };
    assert_eq!(io_error.error_code(), 2000);

    let config_error = TwiggyError::Config { message: "Invalid configuration".to_string() };
    assert_eq!(config_error.error_code(), 3000);
}

#[test]
fn test_error_user_messages() {
    let git_error = TwiggyError::Git {
        message: "Repository not found".to_string(),
        source: git2::Error::from_str("test error"),
    };
    assert!(git_error.user_message().contains("Git operation failed"));

    let config_error = TwiggyError::Config { message: "Invalid theme setting".to_string() };
    assert!(config_error.user_message().contains("Configuration issue"));
}

#[test]
fn test_error_recovery() {
    let recoverable_error = TwiggyError::Config { message: "Missing theme setting".to_string() };
    assert!(recoverable_error.is_recoverable());

    let non_recoverable_error = TwiggyError::Git {
        message: "Repository corrupted".to_string(),
        source: git2::Error::from_str("test error"),
    };
    assert!(!non_recoverable_error.is_recoverable());
}

fn inner_function() -> Result<String> {
    Err(TwiggyError::Io {
        operation: "file read".to_string(),
        source: std::io::Error::new(std::io::ErrorKind::NotFound, "file not found"),
    })
}

fn outer_function() -> Result<String> {
    inner_function()?;
    Ok("success".to_string())
}

#[test]
fn test_error_propagation() {
    let result = outer_function();
    assert!(result.is_err());

    if let Err(error) = result {
        assert_eq!(error.error_code(), 2000);
    }
}

#[test]
fn test_error_display_formatting() {
    let error = TwiggyError::Git {
        message: "Failed to fetch".to_string(),
        source: git2::Error::from_str("network error"),
    };

    let display_string = error.to_string();
    assert!(display_string.contains("Git error"));
    assert!(display_string.contains("Failed to fetch"));
}

#[test]
fn test_error_context_preservation() {
    let io_error = std::io::Error::new(std::io::ErrorKind::PermissionDenied, "access denied");
    let twiggy_error = TwiggyError::from(io_error);

    assert_eq!(twiggy_error.error_code(), 2000);
    assert!(twiggy_error.user_message().contains("File operation"));
}

#[test]
fn every_group_has_its_code_message_flag_and_remedy() {
    let cases: Vec<(TwiggyError, u32, &str, bool, &str, &str)> = vec![
        (
            TwiggyError::Git { message: "m".to_string(), source: git2::Error::from_str("s") },
            1000,
            "Git operation failed: m",
            false,
            "Check repository status and try again",
            "Git error: m",
        ),
        (
            TwiggyError::Io {
                operation: "m".to_string(),
                source: std::io::Error::new(std::io::ErrorKind::Other, "s"),
            },
            2000,
            "File operation 'm' failed. Please check file permissions.",
            true,
            "Verify file permissions and disk space",
            "IO error during m",
        ),
        (
            TwiggyError::Config { message: "m".to_string() },
            3000,
            "Configuration issue: m. Using default settings.",
            true,
            "Reset to default configuration",
            "Configuration error: m",
        ),
        (
            TwiggyError::Ui { message: "m".to_string() },
            4000,
            "Interface error: m",
            true,
            "Restart the application",
            "UI error: m",
        ),
        (
            TwiggyError::Application { message: "m".to_string() },
            5000,
            "Application error: m",
            false,
            "Report this issue to support",
            "Application error: m",
        ),
        (
            TwiggyError::FileSystem {
                path: "m".to_string(),
                source: std::io::Error::new(std::io::ErrorKind::Other, "s"),
            },
            7000,
            "Cannot access file: m. Check if the file exists and you have permission.",
            true,
            "Ensure file exists and is accessible",
            "File system error: m",
        ),
        (
            TwiggyError::Network { message: "m".to_string() },
            8000,
            "Network error: m. Check your internet connection.",
            true,
            "Check network connection and retry",
            "Network error: m",
        ),
        (
            TwiggyError::Validation { field: "f".to_string(), message: "m".to_string() },
            9000,
            "Invalid f: m",
            true,
            "Correct the input and try again",
            "Validation error: f - m",
        ),
        (
            TwiggyError::InvalidIdentity {
                message: "m".to_string(),
                source: git2::Error::from_str("s"),
            },
            1000,
            "Git operation failed: m",
            false,
            "Check repository status and try again",
            "Invalid commit identity: m",
        ),
        (
            TwiggyError::PermissionDenied { path: "m".to_string() },
            7000,
            "Cannot access file: m. Check if the file exists and you have permission.",
            true,
            "Ensure file exists and is accessible",
            "Permission denied: m",
        ),
    ];
    for (error, code, message, recoverable, action, line) in cases {
        assert_eq!(error.error_code(), code);
        assert_eq!(error.user_message(), message);
        assert_eq!(error.is_recoverable(), recoverable);
        assert_eq!(error.suggested_action(), Some(action.to_string()));
        assert_eq!(error.to_string(), line);
    }
}

#[test]
fn serialization_errors_are_group_six_thousand() {
    let source = serde_json::from_str::<u32>("not json").unwrap_err();
    let error = TwiggyError::from(source);
    assert_eq!(error.error_code(), 6000);
    assert_eq!(error.user_message(), "Data processing error during JSON processing. Please try again.");
    assert_eq!(error.to_string(), "Serialization error: JSON processing");
}

#[test]
fn git_failures_convert_with_their_message() {
    let error = TwiggyError::from(git2::Error::from_str("object missing"));
    assert!(matches!(&error, TwiggyError::Git { message, .. } if message == "object missing"));
    assert_eq!(error.user_message(), "Git operation failed: object missing");
}
