//! Exit-code behavior across output modes, and the text encodings the JSON
//! renderer rests on.

use am::database::migrations::MigrationFailure;
use am::errors::{
    codes, exit_codes, project_not_initialized, sdk_not_found, AppError, StoreError,
    StoreErrorKind,
};
use am::presentation::encode::{escape_json, i32_to_string, u32_to_string};
use am::presentation::{exit_code_for_mode, OutputMode};

#[test]
fn test_exit_code_parity_user_error() {
    // a registry lookup against a path with no initialization marker exits
    // with code 1, whichever output mode is active
    let err = AppError::Cli(project_not_initialized("/no/marker/here"));
    let interactive = exit_code_for_mode(OutputMode::Interactive, &err);
    let json = exit_code_for_mode(OutputMode::Json, &err);
    assert_eq!(interactive, json);
    assert_eq!(interactive, exit_codes::USER_ERROR);
    assert_eq!(interactive, 1);
}

#[test]
fn test_exit_code_parity_system_error() {
    let err = AppError::Cli(sdk_not_found());
    assert_eq!(
        exit_code_for_mode(OutputMode::Interactive, &err),
        exit_code_for_mode(OutputMode::Json, &err)
    );
    assert_eq!(exit_code_for_mode(OutputMode::Json, &err), exit_codes::SYSTEM_ERROR);

    let unexpected = AppError::unexpected("wat");
    assert_eq!(
        exit_code_for_mode(OutputMode::Interactive, &unexpected),
        exit_code_for_mode(OutputMode::Json, &unexpected)
    );
    assert_eq!(exit_code_for_mode(OutputMode::Json, &unexpected), 2);
}

#[test]
fn test_exit_code_constants() {
    assert_eq!(exit_codes::SUCCESS, 0);
    assert_eq!(exit_codes::USER_ERROR, 1);
    assert_eq!(exit_codes::SYSTEM_ERROR, 2);
}

#[test]
fn test_exit_codes_per_range() {
    let user_codes = [
        codes::ERR_VALIDATION_SCHEMA,
        codes::ERR_ASSET_IN_USE,
        codes::ERR_PROJECT_ALREADY_EXISTS,
        codes::ERR_TEMPLATE_COPY_FAILED,
    ];
    for code in user_codes {
        let err = AppError::Cli(am::errors::CliError::new(code, "w", "y"));
        assert_eq!(exit_code_for_mode(OutputMode::Json, &err), 1);
    }
    let sys = AppError::Cli(am::errors::CliError::new(codes::ERR_SDK_SCHEMA_LOAD_FAILED, "w", "y"));
    assert_eq!(exit_code_for_mode(OutputMode::Json, &sys), 2);
}

#[test]
fn test_migration_failure_names_failed_version() {
    let failure = MigrationFailure {
        version: 3,
        error: StoreError { kind: StoreErrorKind::Other, message: "boom".to_string() },
    };
    assert_eq!(
        failure.into_app_error().message(),
        "Failed to apply migration 3: boom"
    );
}

#[test]
fn test_u32_rendering() {
    assert_eq!(u32_to_string(0), "0");
    assert_eq!(u32_to_string(7), "7");
    assert_eq!(u32_to_string(42), "42");
    assert_eq!(u32_to_string(1000), "1000");
    assert_eq!(u32_to_string(u32::MAX), "4294967295");
}

#[test]
fn test_i32_rendering() {
    assert_eq!(i32_to_string(0), "0");
    assert_eq!(i32_to_string(-1), "-1");
    assert_eq!(i32_to_string(-31001), "-31001");
    assert_eq!(i32_to_string(i32::MAX), "2147483647");
    assert_eq!(i32_to_string(i32::MIN), "-2147483648");
}

#[test]
fn test_escape_json_exact() {
    assert_eq!(escape_json("plain"), "plain");
    assert_eq!(escape_json("a\"b"), "a\\\"b");
    assert_eq!(escape_json("a\\b"), "a\\\\b");
    assert_eq!(escape_json("a\nb\tc\rd"), "a\\nb\\tc\\rd");
    assert_eq!(escape_json("\u{01}"), "\\u0001");
    assert_eq!(escape_json("\u{1f}"), "\\u001f");
}
