//! Unit tests for the error taxonomy and the exit-code mapping.

use am::errors::{
    asset_already_exists, asset_not_found, codes, determine_exit_code, error_suggestion,
    error_type_name, exit_codes, project_already_exists, project_not_initialized,
    project_not_registered, sdk_not_found, validation_error, AppError, CliError,
};

#[test]
fn test_cli_error_basic() {
    let err = CliError::new(codes::ERR_PROJECT_NOT_REGISTERED, "Test what", "Test why");
    assert_eq!(err.code, codes::ERR_PROJECT_NOT_REGISTERED);
    assert_eq!(err.what, "Test what");
    assert_eq!(err.why, "Test why");
}

#[test]
fn test_error_type_ranges() {
    // Ensure codes are in their expected ranges
    assert!((-31999..=-31000).contains(&codes::ERR_VALIDATION_SCHEMA));
    assert!((-30999..=-30000).contains(&codes::ERR_ASSET_NOT_FOUND));
    assert!((-29999..=-29000).contains(&codes::ERR_PROJECT_NOT_REGISTERED));
    assert!((-28999..=-28000).contains(&codes::ERR_SDK_NOT_FOUND));
}

#[test]
fn test_determine_exit_code_sdk_error() {
    // SDK errors should return exit code 2 (system error)
    let err = CliError::new(
        codes::ERR_SDK_NOT_FOUND,
        "SDK not found",
        "AM_SDK_PATH not set",
    );
    let app_err = AppError::Cli(err);
    assert_eq!(determine_exit_code(&app_err), exit_codes::SYSTEM_ERROR);
}

#[test]
fn test_determine_exit_code_project_error() {
    // Project errors should return exit code 1 (user error)
    let err = CliError::new(
        codes::ERR_PROJECT_NOT_REGISTERED,
        "Project not registered",
        "Not in database",
    );
    let app_err = AppError::Cli(err);
    assert_eq!(determine_exit_code(&app_err), exit_codes::USER_ERROR);
}

#[test]
fn test_determine_exit_code_asset_error() {
    // Asset errors should return exit code 1 (user error)
    let err = CliError::new(
        codes::ERR_ASSET_NOT_FOUND,
        "Asset not found",
        "Does not exist",
    );
    let app_err = AppError::Cli(err);
    assert_eq!(determine_exit_code(&app_err), exit_codes::USER_ERROR);
}

#[test]
fn test_determine_exit_code_validation_error() {
    // Validation errors should return exit code 1 (user error)
    let err = CliError::new(
        codes::ERR_VALIDATION_FIELD,
        "Invalid field",
        "Value out of range",
    );
    let app_err = AppError::Cli(err);
    assert_eq!(determine_exit_code(&app_err), exit_codes::USER_ERROR);
}

#[test]
fn test_determine_exit_code_non_cli_error() {
    // Unclassified errors should default to exit code 2 (system error)
    let app_err = AppError::unexpected("Some generic I/O error or other system issue");
    assert_eq!(determine_exit_code(&app_err), exit_codes::SYSTEM_ERROR);
}

#[test]
fn test_error_type_name_specific_codes() {
    assert_eq!(error_type_name(codes::ERR_VALIDATION_SCHEMA), "schema_validation_error");
    assert_eq!(error_type_name(codes::ERR_ASSET_NOT_FOUND), "asset_not_found");
    assert_eq!(error_type_name(codes::ERR_PROJECT_ALREADY_EXISTS), "project_already_exists");
    assert_eq!(error_type_name(codes::ERR_TEMPLATE_COPY_FAILED), "template_copy_failed");
    assert_eq!(error_type_name(codes::ERR_SDK_SCHEMA_LOAD_FAILED), "schema_load_failed");
}

#[test]
fn test_error_type_name_range_fallbacks() {
    assert_eq!(error_type_name(-31500), "validation_error");
    assert_eq!(error_type_name(-30500), "asset_error");
    assert_eq!(error_type_name(-29500), "project_error");
    assert_eq!(error_type_name(-28500), "sdk_error");
    assert_eq!(error_type_name(0), "unknown_error");
    assert_eq!(error_type_name(-27000), "unknown_error");
}

#[test]
fn test_error_suggestion_specific_and_fallback() {
    assert_eq!(
        error_suggestion(codes::ERR_PROJECT_NOT_REGISTERED),
        "Register the project with 'am project register <path>'"
    );
    assert_eq!(
        error_suggestion(codes::ERR_SDK_NOT_FOUND),
        "Set the AM_SDK_PATH environment variable to your SDK installation"
    );
    assert_eq!(error_suggestion(-31500), "Check your input values and try again");
    assert_eq!(error_suggestion(12345), "Check the error message for details");
}

#[test]
fn test_cli_error_default_suggestion_populated() {
    let err = CliError::new(codes::ERR_ASSET_IN_USE, "w", "y");
    assert_eq!(
        err.suggestion,
        "Remove references to this asset from other assets before modifying"
    );
    assert!(err.context.is_none());
}

#[test]
fn test_cli_error_with_suggestion_overrides() {
    let err = CliError::new(codes::ERR_ASSET_IN_USE, "w", "y").with_suggestion("Do this instead");
    assert_eq!(err.suggestion, "Do this instead");
    assert_eq!(err.what, "w");
}

#[test]
fn test_cli_error_with_context_sets_context() {
    let err = CliError::new(codes::ERR_ASSET_IN_USE, "w", "y").with_context("/some/path");
    assert_eq!(err.context.as_deref(), Some("/some/path"));
}

#[test]
fn test_cli_error_message_without_context() {
    let err = CliError::new(codes::ERR_ASSET_IN_USE, "Op failed", "bad input");
    assert_eq!(err.message(), "Op failed: bad input");
}

#[test]
fn test_cli_error_message_with_context() {
    let err = CliError::new(codes::ERR_ASSET_IN_USE, "Op failed", "bad input")
        .with_context("/ctx/path");
    assert_eq!(err.message(), "Op failed: bad input (/ctx/path)");
}

#[test]
fn test_cli_error_type_label() {
    let err = CliError::new(codes::ERR_PROJECT_NOT_INITIALIZED, "w", "y");
    assert_eq!(err.type_label(), "project_not_initialized");
}

#[test]
fn test_convenience_constructors() {
    let e = project_not_registered("myproj");
    assert_eq!(e.code, codes::ERR_PROJECT_NOT_REGISTERED);
    assert_eq!(e.what, "Project 'myproj' is not registered");

    let e = project_already_exists("myproj");
    assert_eq!(e.code, codes::ERR_PROJECT_ALREADY_EXISTS);
    assert_eq!(e.what, "Project 'myproj' already exists");

    let e = project_not_initialized("/p");
    assert_eq!(e.code, codes::ERR_PROJECT_NOT_INITIALIZED);
    assert_eq!(e.context.as_deref(), Some("/p"));

    let e = validation_error("field_a", "must be positive");
    assert_eq!(e.code, codes::ERR_VALIDATION_FIELD);
    assert_eq!(e.what, "Invalid value for field 'field_a'");
    assert_eq!(e.why, "must be positive");

    let e = asset_not_found("Sound", "explosion");
    assert_eq!(e.code, codes::ERR_ASSET_NOT_FOUND);
    assert_eq!(e.what, "Sound 'explosion' not found");

    let e = asset_already_exists("Sound", "explosion");
    assert_eq!(e.code, codes::ERR_ASSET_ALREADY_EXISTS);

    let e = sdk_not_found();
    assert_eq!(e.code, codes::ERR_SDK_NOT_FOUND);
}

#[test]
fn test_app_error_code_and_message() {
    let cli = AppError::Cli(CliError::new(codes::ERR_ASSET_NOT_FOUND, "w", "y"));
    assert_eq!(cli.code(), codes::ERR_ASSET_NOT_FOUND);
    assert_eq!(cli.message(), "w: y");

    let other = AppError::unexpected("boom");
    assert_eq!(other.code(), 0);
    assert_eq!(other.message(), "boom");
}

#[test]
fn test_p0_cli_error_construction_basic() {
    // GIVEN: Error code, what, and why strings
    // WHEN: Creating a new CliError
    let err = CliError::new(
        codes::ERR_PROJECT_NOT_REGISTERED,
        "Project 'test' not found",
        "Not tracked in database",
    );

    // THEN: All fields should be set correctly
    assert_eq!(err.code, codes::ERR_PROJECT_NOT_REGISTERED);
    assert_eq!(err.what, "Project 'test' not found");
    assert_eq!(err.why, "Not tracked in database");
    assert!(err.context.is_none());
}

#[test]
fn test_p0_error_codes_validation_range() {
    assert!((-31999..=-31000).contains(&codes::ERR_VALIDATION_SCHEMA));
    assert!((-31999..=-31000).contains(&codes::ERR_VALIDATION_FIELD));
    assert!((-31999..=-31000).contains(&codes::ERR_VALIDATION_FORMAT));
}

#[test]
fn test_p0_error_codes_asset_range() {
    assert!((-30999..=-30000).contains(&codes::ERR_ASSET_NOT_FOUND));
    assert!((-30999..=-30000).contains(&codes::ERR_ASSET_ALREADY_EXISTS));
    assert!((-30999..=-30000).contains(&codes::ERR_ASSET_IN_USE));
}

#[test]
fn test_p0_error_codes_project_range() {
    assert!((-29999..=-29000).contains(&codes::ERR_PROJECT_NOT_INITIALIZED));
    assert!((-29999..=-29000).contains(&codes::ERR_PROJECT_NOT_REGISTERED));
    assert!((-29999..=-29000).contains(&codes::ERR_PROJECT_ALREADY_EXISTS));
}

#[test]
fn test_p0_error_codes_sdk_range() {
    assert!((-28999..=-28000).contains(&codes::ERR_SDK_NOT_FOUND));
    assert!((-28999..=-28000).contains(&codes::ERR_SDK_SCHEMA_LOAD_FAILED));
}

#[test]
fn test_p1_cli_error_with_context() {
    let err = CliError::new(
        codes::ERR_ASSET_NOT_FOUND,
        "Asset not found",
        "No such asset exists",
    )
    .with_context("/path/to/asset.json");

    assert_eq!(err.context, Some("/path/to/asset.json".to_string()));
}

#[test]
fn test_p1_cli_error_with_custom_suggestion() {
    let err = CliError::new(
        codes::ERR_PROJECT_NOT_INITIALIZED,
        "Not initialized",
        "No .amproject",
    )
    .with_suggestion("Run 'am project init myproject' first");

    assert_eq!(err.suggestion, "Run 'am project init myproject' first");
}

#[test]
fn test_p1_cli_error_builder_chain() {
    let err = CliError::new(codes::ERR_VALIDATION_FIELD, "Field error", "Invalid value")
        .with_suggestion("Use a valid value")
        .with_context("field: name");

    assert_eq!(err.code, codes::ERR_VALIDATION_FIELD);
    assert_eq!(err.suggestion, "Use a valid value");
    assert_eq!(err.context, Some("field: name".to_string()));
}

#[test]
fn test_p1_cli_error_display_without_context() {
    let err = CliError::new(
        codes::ERR_ASSET_NOT_FOUND,
        "Sound 'explosion' not found",
        "Does not exist",
    );

    let display = err.message();

    assert_eq!(display, "Sound 'explosion' not found: Does not exist");
}

#[test]
fn test_p1_cli_error_display_with_context() {
    let err = CliError::new(
        codes::ERR_ASSET_NOT_FOUND,
        "Sound not found",
        "Does not exist",
    )
    .with_context("sources/sounds/explosion.json");

    let display = err.message();

    assert_eq!(
        display,
        "Sound not found: Does not exist (sources/sounds/explosion.json)"
    );
}

#[test]
fn test_p1_cli_error_type_name() {
    let err = CliError::new(codes::ERR_PROJECT_NOT_REGISTERED, "Test", "Test");

    assert_eq!(err.type_label(), "project_not_registered");
}

#[test]
fn test_p1_error_type_name_validation_specific() {
    assert_eq!(
        error_type_name(codes::ERR_VALIDATION_SCHEMA),
        "schema_validation_error"
    );
    assert_eq!(
        error_type_name(codes::ERR_VALIDATION_FIELD),
        "field_validation_error"
    );
    assert_eq!(
        error_type_name(codes::ERR_VALIDATION_FORMAT),
        "format_validation_error"
    );
}

#[test]
fn test_p1_error_type_name_asset_specific() {
    assert_eq!(
        error_type_name(codes::ERR_ASSET_NOT_FOUND),
        "asset_not_found"
    );
    assert_eq!(
        error_type_name(codes::ERR_ASSET_ALREADY_EXISTS),
        "asset_already_exists"
    );
    assert_eq!(error_type_name(codes::ERR_ASSET_IN_USE), "asset_in_use");
}

#[test]
fn test_p1_error_type_name_project_specific() {
    assert_eq!(
        error_type_name(codes::ERR_PROJECT_NOT_INITIALIZED),
        "project_not_initialized"
    );
    assert_eq!(
        error_type_name(codes::ERR_PROJECT_NOT_REGISTERED),
        "project_not_registered"
    );
    assert_eq!(
        error_type_name(codes::ERR_PROJECT_ALREADY_EXISTS),
        "project_already_exists"
    );
}

#[test]
fn test_p1_error_type_name_sdk_specific() {
    assert_eq!(error_type_name(codes::ERR_SDK_NOT_FOUND), "sdk_not_found");
    assert_eq!(
        error_type_name(codes::ERR_SDK_SCHEMA_LOAD_FAILED),
        "schema_load_failed"
    );
}

#[test]
fn test_p1_error_suggestion_project_specific() {
    let suggestion = error_suggestion(codes::ERR_PROJECT_NOT_REGISTERED);
    assert!(suggestion.contains("register") || suggestion.contains("Register"));

    let suggestion = error_suggestion(codes::ERR_PROJECT_NOT_INITIALIZED);
    assert!(suggestion.contains("init") || suggestion.contains("Initialize"));

    let suggestion = error_suggestion(codes::ERR_PROJECT_ALREADY_EXISTS);
    assert!(suggestion.contains("different") || suggestion.contains("remove"));
}

#[test]
fn test_p1_error_suggestion_sdk_specific() {
    let suggestion = error_suggestion(codes::ERR_SDK_NOT_FOUND);
    assert!(suggestion.contains("AM_SDK_PATH"));
}

#[test]
fn test_p1_project_not_registered_helper() {
    let err = project_not_registered("myproject");

    assert_eq!(err.code, codes::ERR_PROJECT_NOT_REGISTERED);
    assert!(err.what.contains("myproject"));
    assert!(err.what.contains("not registered"));
    assert!(!err.why.is_empty());
    assert!(!err.suggestion.is_empty());
}

#[test]
fn test_p1_project_already_exists_helper() {
    let err = project_already_exists("myproject");

    assert_eq!(err.code, codes::ERR_PROJECT_ALREADY_EXISTS);
    assert!(err.what.contains("myproject"));
    assert!(err.what.contains("already exists"));
    assert!(!err.why.is_empty());
    assert!(!err.suggestion.is_empty());
}

#[test]
fn test_p1_validation_error_helper() {
    let err = validation_error("name", "cannot be empty");

    assert_eq!(err.code, codes::ERR_VALIDATION_FIELD);
    assert!(err.what.contains("name"));
    assert!(err.why.contains("cannot be empty"));
}

#[test]
fn test_p2_error_type_name_validation_generic() {
    assert_eq!(error_type_name(-31099), "validation_error");
}

#[test]
fn test_p2_error_type_name_unknown() {
    assert_eq!(error_type_name(0), "unknown_error");
    assert_eq!(error_type_name(-1), "unknown_error");
    assert_eq!(error_type_name(-27000), "unknown_error");
}

#[test]
fn test_p2_error_suggestion_generic_ranges() {
    // Validation range
    let suggestion = error_suggestion(-31050);
    assert!(suggestion.contains("input") || suggestion.contains("Check"));

    // Asset range
    let suggestion = error_suggestion(-30050);
    assert!(suggestion.contains("asset") || suggestion.contains("Asset"));

    // Project range
    let suggestion = error_suggestion(-29050);
    assert!(suggestion.contains("project") || suggestion.contains("Initialize"));

    // SDK range
    let suggestion = error_suggestion(-28050);
    assert!(suggestion.contains("AM_SDK_PATH"));
}

#[test]
fn test_p2_json_output_error_structure() {
    // GIVEN: a CliError wrapped as an application error
    let cli_err = CliError::new(
        codes::ERR_PROJECT_NOT_REGISTERED,
        "Project not registered",
        "The project is not tracked in the database",
    )
    .with_context("test/project")
    .with_suggestion("Run 'am project register'");
    let app_err = AppError::Cli(cli_err);

    // WHEN: building an error response
    let response = am::presentation::json::JsonOutput::build_error_response(
        &app_err,
        codes::ERR_PROJECT_NOT_REGISTERED,
    );

    // THEN: the response should have the correct structure
    assert!(!response.ok);
    let error_details = response.error.unwrap();
    assert_eq!(error_details.code, codes::ERR_PROJECT_NOT_REGISTERED);
    assert_eq!(error_details.type_, "project_not_registered");
    assert_eq!(error_details.message, "Project not registered");
    assert_eq!(
        error_details.why,
        "The project is not tracked in the database"
    );
    assert_eq!(error_details.suggestion, "Run 'am project register'");
    assert_eq!(error_details.context, Some("test/project".to_string()));
}
