//! Whole-manifest validation: every structural rule, the dotted field paths
//! of the failures, and the properties the validator promises.

use cargo_x402::schema::{FileRules, Parameter, TemplateMetadata, TemplateSchema};
use cargo_x402::validator::Validator;
use cargo_x402::error::Error;

fn minimal_metadata() -> TemplateMetadata {
    TemplateMetadata {
        name: "test".to_string(),
        description: "test description".to_string(),
        version: "1.0.0".to_string(),
        authors: vec!["test".to_string()],
        repository: "https://github.com/test/test".to_string(),
        tags: vec![],
        min_rust_version: None,
        min_x402_cli_version: None,
    }
}

fn schema_with(metadata: TemplateMetadata) -> TemplateSchema {
    TemplateSchema {
        template: metadata,
        parameters: None,
        files: None,
    }
}

fn field_of(err: Error) -> String {
    match err {
        Error::ValidationError { field, .. } => field,
        other => panic!("expected a validation error, got {:?}", other),
    }
}

#[test]
fn test_validate_schema_missing_name() {
    let mut metadata = minimal_metadata();
    metadata.name = String::new();
    let schema = schema_with(metadata);

    assert!(Validator::validate_schema(&schema).is_err());
}

#[test]
fn test_validate_invalid_repository() {
    let mut metadata = minimal_metadata();
    metadata.repository = "http://github.com/test/test".to_string();
    let schema = schema_with(metadata);

    assert!(Validator::validate_schema(&schema).is_err());
}

#[test]
fn test_validate_minimal_schema_passes() {
    let schema = schema_with(minimal_metadata());
    assert!(Validator::validate_schema(&schema).is_ok());
}

#[test]
fn test_validate_name_too_long() {
    let mut metadata = minimal_metadata();
    metadata.name = "x".repeat(101);
    let err = Validator::validate_schema(&schema_with(metadata)).unwrap_err();
    assert_eq!(field_of(err), "template.name");
}

#[test]
fn test_validate_description_length_bounds() {
    let mut metadata = minimal_metadata();
    metadata.description = "too short".to_string();
    let err = Validator::validate_schema(&schema_with(metadata)).unwrap_err();
    assert_eq!(field_of(err), "template.description");

    let mut metadata = minimal_metadata();
    metadata.description = "d".repeat(201);
    let err = Validator::validate_schema(&schema_with(metadata)).unwrap_err();
    assert_eq!(field_of(err), "template.description");

    let mut metadata = minimal_metadata();
    metadata.description = "d".repeat(200);
    assert!(Validator::validate_schema(&schema_with(metadata)).is_ok());
}

#[test]
fn test_validate_bad_version() {
    let mut metadata = minimal_metadata();
    metadata.version = "not-a-version".to_string();
    let err = Validator::validate_schema(&schema_with(metadata)).unwrap_err();
    assert_eq!(field_of(err), "template.version");
}

#[test]
fn test_validate_requires_an_author() {
    let mut metadata = minimal_metadata();
    metadata.authors = vec![];
    let err = Validator::validate_schema(&schema_with(metadata)).unwrap_err();
    assert_eq!(field_of(err), "template.authors");
}

#[test]
fn test_validate_min_versions_must_parse() {
    let mut metadata = minimal_metadata();
    metadata.min_rust_version = Some("1.70".to_string());
    let err = Validator::validate_schema(&schema_with(metadata)).unwrap_err();
    assert_eq!(field_of(err), "template.min_rust_version");

    let mut metadata = minimal_metadata();
    metadata.min_rust_version = Some("1.70.0".to_string());
    metadata.min_x402_cli_version = Some("zero".to_string());
    let err = Validator::validate_schema(&schema_with(metadata)).unwrap_err();
    assert_eq!(field_of(err), "template.min_x402_cli_version");
}

#[test]
fn test_validate_string_default_against_pattern() {
    // The default satisfies the declared pattern, so the manifest passes.
    let mut schema = schema_with(minimal_metadata());
    schema.parameters = Some(vec![(
        "app_name".to_string(),
        Parameter::String {
            default: "my-app".to_string(),
            pattern: Some("^[a-z][a-z0-9-]*$".to_string()),
            description: None,
        },
    )]);
    assert!(Validator::validate_schema(&schema).is_ok());

    // The same pattern with an upper-case default is rejected, naming the
    // default field.
    let mut schema = schema_with(minimal_metadata());
    schema.parameters = Some(vec![(
        "app_name".to_string(),
        Parameter::String {
            default: "My-App".to_string(),
            pattern: Some("^[a-z][a-z0-9-]*$".to_string()),
            description: None,
        },
    )]);
    let err = Validator::validate_schema(&schema).unwrap_err();
    assert_eq!(field_of(err), "parameters.app_name.default");
}

#[test]
fn test_validate_string_pattern_must_compile() {
    let mut schema = schema_with(minimal_metadata());
    schema.parameters = Some(vec![(
        "app_name".to_string(),
        Parameter::String {
            default: "x".to_string(),
            pattern: Some("[broken".to_string()),
            description: None,
        },
    )]);
    let err = Validator::validate_schema(&schema).unwrap_err();
    assert_eq!(field_of(err), "parameters.app_name.pattern");
}

#[test]
fn test_validate_enum_default_membership() {
    // `mysql` is not among the choices, so the manifest is rejected.
    let mut schema = schema_with(minimal_metadata());
    schema.parameters = Some(vec![(
        "database".to_string(),
        Parameter::Enum {
            choices: vec!["postgres".to_string(), "sqlite".to_string()],
            default: "mysql".to_string(),
            description: None,
        },
    )]);
    let err = Validator::validate_schema(&schema).unwrap_err();
    assert_eq!(field_of(err), "parameters.database.default");

    // A member default passes.
    let mut schema = schema_with(minimal_metadata());
    schema.parameters = Some(vec![(
        "database".to_string(),
        Parameter::Enum {
            choices: vec!["postgres".to_string(), "sqlite".to_string()],
            default: "sqlite".to_string(),
            description: None,
        },
    )]);
    assert!(Validator::validate_schema(&schema).is_ok());
}

#[test]
fn test_validate_enum_needs_choices() {
    let mut schema = schema_with(minimal_metadata());
    schema.parameters = Some(vec![(
        "database".to_string(),
        Parameter::Enum {
            choices: vec![],
            default: "postgres".to_string(),
            description: None,
        },
    )]);
    let err = Validator::validate_schema(&schema).unwrap_err();
    assert_eq!(field_of(err), "parameters.database.enum");
}

#[test]
fn test_validate_glob_patterns_must_be_nonempty() {
    let mut schema = schema_with(minimal_metadata());
    schema.files = Some(FileRules {
        included: vec!["src/**".to_string(), String::new()],
        excluded: vec![],
    });
    let err = Validator::validate_schema(&schema).unwrap_err();
    assert_eq!(field_of(err), "files.included");

    let mut schema = schema_with(minimal_metadata());
    schema.files = Some(FileRules {
        included: vec!["src/**".to_string()],
        excluded: vec!["target".to_string()],
    });
    assert!(Validator::validate_schema(&schema).is_ok());
}

#[test]
fn test_validate_glob_pattern_directly() {
    assert!(Validator::validate_glob_pattern("src/**", "included").is_ok());
    let err = Validator::validate_glob_pattern("", "excluded").unwrap_err();
    assert_eq!(field_of(err), "files.excluded");
}

#[test]
fn test_validation_is_repeatable() {
    // Validating the same manifest twice yields the same outcome with the
    // same field and message.
    let mut schema = schema_with(minimal_metadata());
    schema.parameters = Some(vec![(
        "app_name".to_string(),
        Parameter::String {
            default: "My-App".to_string(),
            pattern: Some("^[a-z][a-z0-9-]*$".to_string()),
            description: None,
        },
    )]);

    let first = Validator::validate_schema(&schema).unwrap_err();
    let second = Validator::validate_schema(&schema).unwrap_err();
    assert_eq!(first.message(), second.message());

    let ok_schema = schema_with(minimal_metadata());
    assert_eq!(
        Validator::validate_schema(&ok_schema).is_ok(),
        Validator::validate_schema(&ok_schema).is_ok()
    );
}

#[test]
fn test_validate_prerelease_versions_are_tolerated() {
    // The semantic-version parser underneath accepts pre-release suffixes.
    let mut metadata = minimal_metadata();
    metadata.version = "1.0.0-alpha".to_string();
    assert!(Validator::validate_schema(&schema_with(metadata)).is_ok());
}
