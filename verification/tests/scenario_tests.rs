//! End-to-end: validate a manifest, collect parameter values from defaults,
//! and render a small template tree.

use cargo_x402::collect::{builtin_values, collect_with_defaults, default_value_of};
use cargo_x402::render::{EntryKind, OutputEntry, Renderer, SourceEntry};
use cargo_x402::schema::{Parameter, TemplateMetadata, TemplateSchema};
use cargo_x402::validator::Validator;

fn scenario_schema() -> TemplateSchema {
    TemplateSchema {
        template: TemplateMetadata {
            name: "scenario".to_string(),
            description: "an end-to-end scenario".to_string(),
            version: "1.0.0".to_string(),
            authors: vec!["someone".to_string()],
            repository: "https://github.com/someone/scenario".to_string(),
            tags: vec![],
            min_rust_version: None,
            min_x402_cli_version: None,
        },
        parameters: Some(vec![
            (
                "project_name".to_string(),
                Parameter::String {
                    default: "x402-app".to_string(),
                    pattern: None,
                    description: None,
                },
            ),
            (
                "use_docker".to_string(),
                Parameter::Boolean {
                    default: true,
                    description: None,
                },
            ),
        ]),
        files: None,
    }
}

#[test]
fn test_e2e_defaults_render_readme_and_dockerfile() {
    let schema = scenario_schema();
    assert!(Validator::validate_schema(&schema).is_ok());

    let builtins = builtin_values("placeholder", "Someone", "0.1.0", "2024-01-15");
    let values = collect_with_defaults(builtins, schema.parameters.as_ref().unwrap());

    let entries = vec![
        SourceEntry {
            path: vec!["README.md".to_string()],
            kind: EntryKind::File(b"# {{ project_name }}\n".to_vec()),
        },
        SourceEntry {
            path: vec!["Dockerfile.template".to_string()],
            kind: EntryKind::File(
                b"{% if use_docker %}FROM rust:latest\n{% endif %}".to_vec(),
            ),
        },
    ];

    let outs = Renderer::render(&entries, &values).unwrap();
    assert_eq!(outs.len(), 2);

    match &outs[0] {
        OutputEntry::Text { text, .. } => assert!(text.contains("x402-app")),
        _ => panic!("README should render as text"),
    }
    match &outs[1] {
        OutputEntry::Text { text, .. } => assert!(!text.is_empty()),
        _ => panic!("Dockerfile.template should render as text"),
    }
}

#[test]
fn test_default_value_of_each_shape() {
    assert_eq!(
        default_value_of(&Parameter::String {
            default: "x".to_string(),
            pattern: None,
            description: None,
        }),
        "x"
    );
    assert_eq!(
        default_value_of(&Parameter::Boolean { default: true, description: None }),
        "true"
    );
    assert_eq!(
        default_value_of(&Parameter::Boolean { default: false, description: None }),
        "false"
    );
    assert_eq!(
        default_value_of(&Parameter::Enum {
            choices: vec!["a".to_string(), "b".to_string()],
            default: "b".to_string(),
            description: None,
        }),
        "b"
    );
}

#[test]
fn test_builtins_come_first_in_fixed_order() {
    let builtins = builtin_values("proj", "me", "1.2.3", "2024-02-29");
    let expected = vec![
        ("project_name", "proj"),
        ("author", "me"),
        ("version", "1.2.3"),
        ("date", "2024-02-29"),
    ];
    assert_eq!(builtins.len(), expected.len());
    for (got, want) in builtins.iter().zip(expected.iter()) {
        assert_eq!(got.0, want.0);
        assert_eq!(got.1, want.1);
    }
}

#[test]
fn test_manifest_parameter_wins_over_builtin_of_same_name() {
    // The merged map keeps both entries, built-ins first; the substitution
    // engine reads the later one, so the manifest value shows in the output.
    let builtins = builtin_values("from-builtin", "me", "1.0.0", "2024-01-01");
    let params = vec![(
        "project_name".to_string(),
        Parameter::String {
            default: "from-manifest".to_string(),
            pattern: None,
            description: None,
        },
    )];
    let values = collect_with_defaults(builtins, &params);
    assert_eq!(values.len(), 5);
    assert_eq!(values[0].1, "from-builtin");
    assert_eq!(values[4].1, "from-manifest");

    let out = Renderer::render_content("{{ project_name }}", &values).unwrap();
    assert_eq!(out, "from-manifest");
}

#[test]
fn test_builtin_substitution_set() {
    let values = builtin_values("my-app", "John Doe", "0.1.0", "2024-01-15");
    let content = "{{ project_name }} by {{ author }} v{{ version }} on {{ date }}";
    let out = Renderer::render_content(content, &values).unwrap();
    assert_eq!(out, "my-app by John Doe v0.1.0 on 2024-01-15");
}
