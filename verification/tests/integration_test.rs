//! Cross-cutting conventions: patterns, versions, URLs and binary
//! classification, plus the library calls behind them.

use cargo_x402::download::{github_to_zipball_url, normalize_github_url};

#[test]
fn test_template_directory_structure() {
    // Template directories carry these well-known files.
    let required_files = vec!["x402.toml", "Cargo.toml", "README.md"];

    for file in required_files {
        assert!(!file.is_empty());
    }
}

#[test]
fn test_parameter_validation() {
    // A string parameter pattern, matched directly.
    let pattern = r"^[a-z0-9][a-z0-9-]*[a-z0-9]$";
    let re = regex::Regex::new(pattern).unwrap();

    assert!(re.is_match("valid-project-name"));
    assert!(re.is_match("v1"));
    assert!(!re.is_match("Invalid-Name")); // uppercase
    assert!(!re.is_match("-invalid")); // starts with dash
    assert!(!re.is_match("invalid-")); // ends with dash
}

#[test]
fn test_liquid_template_rendering() {
    let template_str = "Hello {{ name }}, welcome to {{ project_name }}!";

    assert!(template_str.contains("{{"));
    assert!(template_str.contains("}}"));
}

#[test]
fn test_file_pattern_simple() {
    let filename = "Cargo.toml";
    let pattern = "Cargo.*";

    assert!(matches_pattern(filename, pattern));
}

#[test]
fn test_template_download_url_normalization() {
    // Through the library: normalize a reference, then build its archive URL.
    let test_cases = vec![
        ("user/repo", "https://github.com/user/repo/archive/refs/heads/main.zip"),
        (
            "https://github.com/user/repo",
            "https://github.com/user/repo/archive/refs/heads/main.zip",
        ),
        (
            "https://github.com/user/repo/",
            "https://github.com/user/repo/archive/refs/heads/main.zip",
        ),
    ];

    for (input, expected) in test_cases {
        let normalized = normalize_github_url(input).unwrap();
        let zipball = github_to_zipball_url(&normalized).unwrap();
        assert_eq!(zipball, expected);
    }
}

#[test]
fn test_parameter_validation_patterns() {
    let pattern = r"^[a-z0-9][a-z0-9-]*[a-z0-9]$|^[a-z0-9]$";
    let re = regex::Regex::new(pattern).unwrap();

    assert!(re.is_match("valid-name"));
    assert!(re.is_match("a"));
    assert!(re.is_match("project123"));
}

#[test]
fn test_project_name_validation() {
    let valid_names = vec!["my-project", "my_project", "myproject", "project123"];

    for name in valid_names {
        let pattern = r"^[a-z][a-z0-9_-]*[a-z0-9]$|^[a-z0-9]$";
        let re = regex::Regex::new(pattern).unwrap();
        assert!(re.is_match(name), "Should accept: {}", name);
    }
}

#[test]
fn integration_test_test_binary_file_detection() {
    let binary_extensions = vec!["png", "jpg", "jpeg", "gif", "zip", "tar", "bin"];

    for ext in binary_extensions {
        let filename = format!("file.{}", ext);
        assert!(is_binary_file(&filename));
    }

    let text_files = vec!["txt", "rs", "toml", "json", "md"];
    for ext in text_files {
        let filename = format!("file.{}", ext);
        assert!(!is_binary_file(&filename));
    }
}

#[test]
fn test_version_requirement_checking() {
    let test_cases = vec![
        ("1.70.0", "1.70.0", true),
        ("1.70.0", "1.71.0", true),
        ("1.70.0", "2.0.0", true),
        ("1.70.0", "1.69.0", false),
        ("1.0.0", "1.0.1", true),
    ];

    for (required, actual, should_pass) in test_cases {
        let result = version_check(required, actual);
        assert_eq!(result, should_pass);
    }
}

#[test]
fn test_github_shorthand_parsing() {
    let shorthand = "user/repo";
    let (owner, repo) = parse_github_shorthand(shorthand);

    assert_eq!(owner, "user");
    assert_eq!(repo, "repo");
}

#[test]
fn test_binary_detection() {
    assert!(is_binary_file("image.png"));
    assert!(is_binary_file("archive.zip"));
    assert!(!is_binary_file("main.rs"));
    assert!(!is_binary_file("README.md"));
}

#[test]
fn test_version_comparison() {
    assert!(version_check("1.0.0", "1.0.0"));
    assert!(version_check("1.0.0", "1.0.1"));
    assert!(!version_check("1.1.0", "1.0.0"));
}

#[test]
fn test_pattern_matching() {
    assert!(matches_pattern("Cargo.toml", "Cargo.*"));
    assert!(matches_pattern("main.rs", "*.rs"));
    assert!(!matches_pattern("main.rs", "*.toml"));
}

#[test]
fn test_github_url_normalization() {
    let url = normalize_github_url("user/repo").unwrap();
    let url = github_to_zipball_url(&url).unwrap();
    assert!(url.contains("github.com"));
    assert!(url.ends_with(".zip"));
}

// Helper functions

fn matches_pattern(filename: &str, pattern: &str) -> bool {
    if pattern == "*" {
        return true;
    }

    if pattern.contains("*") {
        let prefix = pattern.split('*').next().unwrap_or("");
        let suffix = pattern.split('*').last().unwrap_or("");

        return filename.starts_with(prefix) && filename.ends_with(suffix);
    }

    filename == pattern
}

fn is_binary_file(filename: &str) -> bool {
    let binary_extensions = ["png", "jpg", "jpeg", "gif", "zip", "tar", "bin", "exe"];
    binary_extensions
        .iter()
        .any(|ext| filename.ends_with(ext))
}

fn version_check(required: &str, actual: &str) -> bool {
    let parse_version = |v: &str| -> (u32, u32, u32) {
        let parts: Vec<&str> = v.split('.').collect();
        (
            parts[0].parse().unwrap_or(0),
            parts[1].parse().unwrap_or(0),
            parts[2].parse().unwrap_or(0),
        )
    };

    let (req_major, req_minor, req_patch) = parse_version(required);
    let (act_major, act_minor, act_patch) = parse_version(actual);

    if act_major > req_major {
        true
    } else if act_major < req_major {
        false
    } else if act_minor > req_minor {
        true
    } else if act_minor < req_minor {
        false
    } else {
        act_patch >= req_patch
    }
}

fn parse_github_shorthand(shorthand: &str) -> (String, String) {
    let parts: Vec<&str> = shorthand.split('/').collect();
    (parts[0].to_string(), parts[1].to_string())
}
