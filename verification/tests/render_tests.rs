//! The rendering engine on in-memory trees: substitution, binary
//! classification, exclusion, and whole-tree rendering.

use cargo_x402::render::{EntryKind, OutputEntry, Renderer, SourceEntry};

fn values(pairs: &[(&str, &str)]) -> Vec<(String, String)> {
    pairs
        .iter()
        .map(|(k, v)| (k.to_string(), v.to_string()))
        .collect()
}

fn path(components: &[&str]) -> Vec<String> {
    components.iter().map(|c| c.to_string()).collect()
}

#[test]
fn test_render_simple_template() {
    let params = values(&[("project_name", "my-app")]);

    let content = "Project: {{ project_name }}";
    let result = Renderer::render_content(content, &params).unwrap();

    assert_eq!(result, "Project: my-app");
}

#[test]
fn test_render_conditional_template() {
    let params = values(&[("enable_docker", "true")]);

    let content = "{% if enable_docker %}Docker enabled{% endif %}";
    let result = Renderer::render_content(content, &params).unwrap();

    assert_eq!(result, "Docker enabled");
}

#[test]
fn test_render_conditional_respects_engine_truthiness() {
    // Values reach the engine as plain string scalars, so its own truthiness
    // rules decide conditionals: every string, even "false", counts as true.
    let params = values(&[("enable_docker", "false")]);

    let content = "{% if enable_docker %}Docker enabled{% endif %}";
    let result = Renderer::render_content(content, &params).unwrap();

    assert_eq!(result, "Docker enabled");
}

#[test]
fn test_is_binary_file() {
    assert!(Renderer::is_binary_file("image.png"));
    assert!(Renderer::is_binary_file("archive.zip"));
    assert!(!Renderer::is_binary_file("main.rs"));
    assert!(!Renderer::is_binary_file("Cargo.toml"));
}

#[test]
fn test_is_binary_file_edge_cases() {
    // Case-insensitive extensions, all nine kinds.
    for name in [
        "a.PNG", "b.Jpg", "c.jpeg", "d.gif", "e.ICO", "f.bin", "g.zip", "h.tar", "i.GZ",
    ] {
        assert!(Renderer::is_binary_file(name), "{} should read binary", name);
    }
    // Hidden files without another dot have no extension.
    assert!(!Renderer::is_binary_file(".gitignore"));
    assert!(!Renderer::is_binary_file("dir.png/file"));
    assert!(Renderer::is_binary_file("archive.tar.gz"));
    assert!(Renderer::is_binary_file("src/assets/logo.png"));
}

#[test]
fn test_should_exclude() {
    assert!(Renderer::should_exclude(".git"));
    assert!(Renderer::should_exclude("x402.toml"));
    assert!(!Renderer::should_exclude(".github"));
    assert!(!Renderer::should_exclude("Cargo.toml"));
}

#[test]
fn test_render_tree_binary_passthrough() {
    // A png's bytes are not valid UTF-8 and hold template markers; they must
    // come through byte-identical all the same.
    let bytes = vec![0x89u8, 0x50, 0x4e, 0x47, 0xff, b'{', b'{', b' ', 0x00];
    let entries = vec![SourceEntry {
        path: path(&["logo.png"]),
        kind: EntryKind::File(bytes.clone()),
    }];
    let params = values(&[("project_name", "my-app")]);

    let outs = Renderer::render(&entries, &params).unwrap();
    assert_eq!(outs.len(), 1);
    match &outs[0] {
        OutputEntry::Binary { path, bytes: out } => {
            assert_eq!(path, &vec!["logo.png".to_string()]);
            assert_eq!(out, &bytes);
        }
        other => panic!("expected a binary copy, got {:?}", kind_of(other)),
    }
}

#[test]
fn test_render_tree_excludes_metadata_and_manifest() {
    let params = values(&[("project_name", "my-app")]);
    let entries = vec![
        SourceEntry {
            path: path(&["x402.toml"]),
            kind: EntryKind::File(b"[template]".to_vec()),
        },
        SourceEntry {
            path: path(&[".git"]),
            kind: EntryKind::Directory,
        },
        SourceEntry {
            path: path(&[".git", "config"]),
            kind: EntryKind::File(b"core".to_vec()),
        },
        SourceEntry {
            path: path(&["README.md"]),
            kind: EntryKind::File(b"# {{ project_name }}".to_vec()),
        },
        SourceEntry {
            path: path(&["src"]),
            kind: EntryKind::Directory,
        },
    ];

    let outs = Renderer::render(&entries, &params).unwrap();
    assert_eq!(outs.len(), 2);
    match &outs[0] {
        OutputEntry::Text { path, text } => {
            assert_eq!(path, &vec!["README.md".to_string()]);
            assert_eq!(text, "# my-app");
        }
        other => panic!("expected rendered text, got {:?}", kind_of(other)),
    }
    match &outs[1] {
        OutputEntry::Directory { path } => assert_eq!(path, &vec!["src".to_string()]),
        other => panic!("expected a directory, got {:?}", kind_of(other)),
    }
}

#[test]
fn test_render_tree_rejects_undecodable_text() {
    // Not a binary extension, not valid UTF-8: the render fails and names
    // the file.
    let entries = vec![SourceEntry {
        path: path(&["data", "blob.dat"]),
        kind: EntryKind::File(vec![0xff, 0xfe, 0x00]),
    }];
    let err = Renderer::render(&entries, &values(&[])).unwrap_err();
    let msg = err.message();
    assert!(msg.contains("Template rendering error"));
    assert!(msg.contains("data/blob.dat"));
}

#[test]
fn test_render_tree_reports_template_errors() {
    let entries = vec![SourceEntry {
        path: path(&["broken.txt"]),
        kind: EntryKind::File(b"{% if %}".to_vec()),
    }];
    let err = Renderer::render(&entries, &values(&[])).unwrap_err();
    assert!(err.message().contains("Template rendering error"));
}

fn kind_of(e: &OutputEntry) -> &'static str {
    match e {
        OutputEntry::Directory { .. } => "directory",
        OutputEntry::Binary { .. } => "binary",
        OutputEntry::Text { .. } => "text",
    }
}
