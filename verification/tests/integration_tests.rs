use file_identify::{tags_from_filename, tags_from_interpreter};

#[test]
fn test_special_filenames() {
    let test_cases = vec![
        ("Dockerfile", vec!["text", "dockerfile"]),
        ("Makefile", vec!["text", "makefile"]),
        ("Cargo.toml", vec!["text", "toml", "cargo"]),
        ("package.json", vec!["text", "json"]),
        (".gitignore", vec!["text", "gitignore"]),
        ("README.md", vec!["text", "markdown", "plain-text"]),
    ];

    for (filename, expected_tags) in test_cases {
        let tags = tags_from_filename(filename);
        for expected in expected_tags {
            assert!(
                tags.contains(expected),
                "File '{}' should contain tag '{}'",
                filename,
                expected
            );
        }
    }
}

#[test]
fn test_interpreter_parsing_edge_cases() {
    let test_cases = vec![
        ("python", vec!["python"]),
        ("python3", vec!["python", "python3"]),
        ("python3.11.2", vec!["python", "python3"]),
        ("/usr/bin/python3.11", vec!["python", "python3"]),
        ("node", vec!["javascript"]),
        ("bash", vec!["shell", "bash"]),
        ("unknown-interpreter", vec![]),
        ("", vec![]),
    ];

    for (interpreter, expected) in test_cases {
        let tags = tags_from_interpreter(interpreter);
        for exp_tag in expected {
            assert!(
                tags.contains(exp_tag),
                "Interpreter '{}' should contain '{}'",
                interpreter,
                exp_tag
            );
        }
    }
}

#[test]
fn test_extension_case_sensitivity() {
    // Extensions should be case-insensitive
    let tags_lower = tags_from_filename("image.jpg");
    let tags_upper = tags_from_filename("image.JPG");
    let tags_mixed = tags_from_filename("image.JpG");

    assert_eq!(tags_lower, tags_upper);
    assert_eq!(tags_lower, tags_mixed);
    assert!(tags_lower.contains("jpeg"));
    assert!(tags_lower.contains("image"));
    assert!(tags_lower.contains("binary"));
}

#[test]
fn test_filename_precedence_over_extension() {
    // Special filenames should take precedence over extension matching
    let tags = tags_from_filename("setup.cfg");
    assert!(tags.contains("ini")); // From the special-name table
    assert!(tags.contains("text"));

    let tags = tags_from_filename("random.cfg");
    assert!(tags.contains("text")); // Just from extension
    assert!(!tags.contains("ini")); // No special name mapping
}

#[test]
fn test_complex_filename_patterns() {
    let test_cases = vec![
        ("docker-compose.yml", vec!["text", "yaml"]),
        ("requirements.txt", vec!["text", "plain-text"]),
        (".pre-commit-config.yaml", vec!["text", "yaml"]),
        ("meson.build", vec!["text", "meson"]),
        ("BUILD.bazel", vec!["text", "bazel"]),
    ];

    for (filename, expected) in test_cases {
        let tags = tags_from_filename(filename);
        for exp_tag in expected {
            assert!(
                tags.contains(exp_tag),
                "File '{}' should contain '{}'",
                filename,
                exp_tag
            );
        }
    }
}
