//! Unit tests for the project command decision logic.

use am::commands::project::{
    default_project_configuration, existing_directory_decision, init_conflict_decision,
    scaffold_directories, template_is_known, transform_name, validate_name, ConflictDecision,
    DirectoryDecision, NameValidation,
};
use am::database::entities::{Project, Template};

fn is_valid(v: &NameValidation) -> bool {
    matches!(v, NameValidation::Valid)
}

#[test]
fn test_p1_transform_name_converts_to_lowercase() {
    let input = "MyProject";
    let result = transform_name(input);
    assert_eq!(result, "myproject");
}

#[test]
fn test_p1_transform_name_replaces_spaces_with_underscores() {
    let input = "my project name";
    let result = transform_name(input);
    assert_eq!(result, "my_project_name");
}

#[test]
fn test_p1_transform_name_replaces_hyphens_with_underscores() {
    let input = "my-project-name";
    let result = transform_name(input);
    assert_eq!(result, "my_project_name");
}

#[test]
fn test_p1_transform_name_handles_mixed_case_and_separators() {
    let input = "My Cool-Project Name";
    let result = transform_name(input);
    assert_eq!(result, "my_cool_project_name");
}

#[test]
fn test_p2_transform_name_preserves_underscores() {
    let input = "my_existing_project";
    let result = transform_name(input);
    assert_eq!(result, "my_existing_project");
}

#[test]
fn test_p2_transform_name_handles_numbers() {
    let input = "Project123";
    let result = transform_name(input);
    assert_eq!(result, "project123");
}

#[test]
fn test_p1_validate_name_accepts_alphanumeric() {
    let input = "myproject123";
    let result = validate_name(input);
    assert!(is_valid(&result), "Alphanumeric name should be valid");
}

#[test]
fn test_p1_validate_name_accepts_underscores() {
    let input = "my_project_name";
    let result = validate_name(input);
    assert!(is_valid(&result), "Name with underscores should be valid");
}

#[test]
fn test_p1_validate_name_accepts_hyphens() {
    let input = "my-project-name";
    let result = validate_name(input);
    assert!(is_valid(&result), "Name with hyphens should be valid");
}

#[test]
fn test_p1_validate_name_accepts_spaces() {
    let input = "my project name";
    let result = validate_name(input);
    assert!(is_valid(&result), "Name with spaces should be valid");
}

#[test]
fn test_p1_validate_name_rejects_special_characters() {
    let invalid_names = [
        "project@name",
        "project#name",
        "project$name",
        "project%name",
        "project!name",
        "project*name",
        "project/name",
        "project\\name",
        "project.name",
        "project:name",
    ];

    for name in invalid_names {
        let result = validate_name(name);
        assert!(
            !is_valid(&result),
            "Name '{}' with special character should be invalid",
            name
        );
    }
}

#[test]
fn test_p1_validate_name_rejects_empty_string() {
    let input = "";
    let result = validate_name(input);
    assert!(!is_valid(&result), "Empty name should be invalid");
}

#[test]
fn test_p1_validate_name_rejects_whitespace_only() {
    let input = "   ";
    let result = validate_name(input);
    assert!(!is_valid(&result), "Whitespace-only name should be invalid");
}

#[test]
fn test_validate_name_trims_surrounding_whitespace() {
    // leading and trailing whitespace (a tab here) is trimmed before the
    // character check, so it does not make the name invalid
    let result = validate_name("\tabc ");
    assert!(is_valid(&result));
}

#[test]
fn test_validate_name_reports_reason() {
    match validate_name("bad!name") {
        NameValidation::Invalid(m) => assert!(m.contains("alphanumeric")),
        NameValidation::Valid => panic!("expected invalid"),
    }
    match validate_name("") {
        NameValidation::Invalid(m) => assert!(m.contains("required")),
        NameValidation::Valid => panic!("expected invalid"),
    }
}

#[test]
fn test_template_is_known_default_and_registered() {
    let templates = vec![
        Template { id: Some(1), name: "o3de".to_string(), path: "/t/o3de".to_string() },
    ];
    assert!(template_is_known("default", &templates));
    assert!(template_is_known("o3de", &templates));
    assert!(!template_is_known("unreal", &templates));
}

#[test]
fn test_init_conflict_decision() {
    let existing = Project {
        id: Some(1),
        name: "alpha".to_string(),
        path: "/a".to_string(),
        registered_at: None,
    };
    assert!(matches!(init_conflict_decision(None, false), ConflictDecision::Proceed));
    assert!(matches!(init_conflict_decision(Some(&existing), true), ConflictDecision::Replace));
    assert!(matches!(init_conflict_decision(Some(&existing), false), ConflictDecision::Abort));
}

#[test]
fn test_scaffold_directories_layout() {
    let dirs = scaffold_directories();
    assert_eq!(dirs.len(), 13);
    assert_eq!(dirs[0], "sources/attenuators");
    assert_eq!(dirs[7], "sources/sounds");
    assert_eq!(dirs[10], "build");
    assert_eq!(dirs[11], "data");
    assert_eq!(dirs[12], "plugins");
}

#[test]
fn test_default_project_configuration_fields() {
    let config = default_project_configuration("proj");
    assert_eq!(config.name, "proj");
    assert_eq!(config.default_configuration, "pc.config.amconfig");
    assert_eq!(config.sources_dir, "sources");
    assert_eq!(config.data_dir, "data");
    assert_eq!(config.build_dir, "build");
    assert_eq!(config.version, 1);
}

#[test]
fn test_existing_directory_decision() {
    // existing content goes only on explicit, confirmed overwrite
    assert!(matches!(existing_directory_decision(false, false), DirectoryDecision::Fresh));
    assert!(matches!(existing_directory_decision(false, true), DirectoryDecision::Fresh));
    assert!(matches!(existing_directory_decision(true, true), DirectoryDecision::Overwrite));
    assert!(matches!(existing_directory_decision(true, false), DirectoryDecision::Abort));
}
