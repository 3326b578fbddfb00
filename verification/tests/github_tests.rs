//! The discovered-template record: shorthand and tag filtering.

use cargo_x402::discovery::TemplateInfo;

#[test]
fn test_template_info_shorthand() {
    let template = TemplateInfo {
        name: "Test".to_string(),
        description: "test".to_string(),
        url: "https://github.com/user/repo".to_string(),
        owner: "user".to_string(),
        repo: "repo".to_string(),
        stars: 0,
        language: "Rust".to_string(),
        topics: vec![],
    };

    assert_eq!(template.shorthand(), "user/repo");
}

#[test]
fn test_template_matches_tags() {
    let template = TemplateInfo {
        name: "Test".to_string(),
        description: "test".to_string(),
        url: "https://github.com/user/repo".to_string(),
        owner: "user".to_string(),
        repo: "repo".to_string(),
        stars: 0,
        language: "Rust".to_string(),
        topics: vec!["axum".to_string(), "database".to_string()],
    };

    assert!(template.matches_tags(&[]));
    assert!(template.matches_tags(&["axum".to_string()]));
    assert!(!template.matches_tags(&["mongodb".to_string()]));
}

#[test]
fn test_from_repo_record_prefers_description_as_name() {
    let t = TemplateInfo::from_repo_record(
        "x402-template-api".to_string(),
        Some("Basic Axum API template".to_string()),
        "https://github.com/user/x402-template-api".to_string(),
        "user".to_string(),
        42,
        Some("Rust".to_string()),
        vec!["x402-template".to_string()],
    );
    assert_eq!(t.name, "Basic Axum API template");
    assert_eq!(t.repo, "x402-template-api");
    assert_eq!(t.owner, "user");
    assert_eq!(t.stars, 42);
    assert_eq!(t.language, "Rust");
}

#[test]
fn test_from_repo_record_fills_gaps() {
    let t = TemplateInfo::from_repo_record(
        "bare-repo".to_string(),
        None,
        "https://github.com/user/bare-repo".to_string(),
        "user".to_string(),
        0,
        None,
        vec![],
    );
    assert_eq!(t.name, "bare-repo");
    assert_eq!(t.description, "");
    assert_eq!(t.language, "Unknown");
}

#[test]
fn test_find_template_by_repo_or_case_insensitive_name() {
    let templates = vec![
        TemplateInfo {
            name: "API Starter".to_string(),
            description: "api".to_string(),
            url: "https://github.com/a/api-starter".to_string(),
            owner: "a".to_string(),
            repo: "api-starter".to_string(),
            stars: 1,
            language: "Rust".to_string(),
            topics: vec![],
        },
        TemplateInfo {
            name: "CLI Starter".to_string(),
            description: "cli".to_string(),
            url: "https://github.com/b/cli-starter".to_string(),
            owner: "b".to_string(),
            repo: "cli-starter".to_string(),
            stars: 2,
            language: "Rust".to_string(),
            topics: vec![],
        },
    ];

    // Exact repository name.
    assert_eq!(
        cargo_x402::discovery::find_template(&templates, "cli-starter"),
        Some(1)
    );
    // Template name, case-insensitively: this fails if lower-casing were the
    // identity on mixed-case input.
    assert_eq!(
        cargo_x402::discovery::find_template(&templates, "api starter"),
        Some(0)
    );
    assert_eq!(cargo_x402::discovery::find_template(&templates, "nothing"), None);
}

#[test]
fn test_parse_repo_reference() {
    let (owner, repo) =
        cargo_x402::discovery::parse_repo_reference("https://github.com/user/repo").unwrap();
    assert_eq!(owner, "user");
    assert_eq!(repo, "repo");

    let (owner, repo) = cargo_x402::discovery::parse_repo_reference("user/repo").unwrap();
    assert_eq!(owner, "user");
    assert_eq!(repo, "repo");

    assert!(cargo_x402::discovery::parse_repo_reference("https://github.com").is_err());
    assert!(cargo_x402::discovery::parse_repo_reference("a/b/c").is_err());
}
