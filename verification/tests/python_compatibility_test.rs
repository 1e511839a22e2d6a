use file_identify::{ShebangTuple, TagSet, parse_shebang, tags_from_interpreter};

fn st(parts: &[&str]) -> ShebangTuple {
    ShebangTuple::from_vec(parts.iter().map(|s| s.to_string()).collect())
}

fn sorted(tags: &TagSet) -> Vec<String> {
    let mut v = tags.to_vec();
    v.sort();
    v
}

fn strs(parts: &[&str]) -> Vec<String> {
    let mut v: Vec<String> = parts.iter().map(|s| s.to_string()).collect();
    v.sort();
    v
}

#[test]
fn test_tags_from_interpreter_python_compatibility() {
    let test_cases: Vec<(&str, Vec<&str>)> = vec![
        ("python3", vec!["python", "python3"]),
        ("python", vec!["python"]),
        ("/usr/bin/python", vec!["python"]),
        ("/usr/bin/python3", vec!["python", "python3"]),
        ("python3.11", vec!["python", "python3"]),
        ("python3.11.2", vec!["python", "python3"]),
        ("bash", vec!["bash", "shell"]),
        ("/bin/bash", vec!["bash", "shell"]),
        ("sh", vec!["sh", "shell"]),
        ("/bin/sh", vec!["sh", "shell"]),
        ("node", vec!["javascript"]),
        ("nodejs", vec!["javascript"]),
        ("perl", vec!["perl"]),
        ("ruby", vec!["ruby"]),
        ("php", vec!["php"]),
        ("php7", vec!["php", "php7"]),
        ("php8", vec!["php", "php8"]),
        ("unknown-interpreter", vec![]),
        ("", vec![]),
    ];

    for (interpreter, expected_vec) in test_cases {
        let result = tags_from_interpreter(interpreter);
        assert_eq!(
            sorted(&result),
            strs(&expected_vec),
            "Failed for interpreter '{}'",
            interpreter
        );
    }
}

#[test]
fn test_parse_shebang_edge_cases_python_compatibility() {
    let malformed_cases: Vec<&[u8]> = vec![
        b"#! ",                   // Shebang with just space
        b"#!",                    // Shebang with nothing
        b"#!/usr/bin/env\t\t",    // Shebang with tabs
        b"#!/usr/bin/env\n",      // Shebang with immediate newline
        b"#!/usr/bin/\x00binary", // Shebang with a null byte
    ];

    for shebang in malformed_cases {
        let result = parse_shebang(shebang);
        assert!(
            result.is_empty(),
            "Malformed shebang {:?} should give an empty command",
            shebang
        );
    }
}

#[test]
fn test_specific_python_behaviors() {
    // env handling
    let env_cases: Vec<(&[u8], ShebangTuple)> = vec![
        (b"#!/usr/bin/env python3", st(&["python3"])),
        (b"#!/usr/bin/env -S python3 -u", st(&["python3", "-u"])),
        (b"#!/usr/bin/env -S python3", st(&["python3"])),
        (b"#!/usr/bin/env", st(&[])),
        (b"#!/usr/bin/env -S", st(&[])),
    ];

    for (shebang, expected) in env_cases {
        let result = parse_shebang(shebang);
        assert_eq!(result, expected, "env handling failed for {:?}", shebang);
    }

    // interpreter versioning
    let version_cases = vec![
        ("python3", vec!["python", "python3"]),
        ("python3.11", vec!["python", "python3"]),
        ("python3.11.2", vec!["python", "python3"]),
        ("python2", vec!["python", "python2"]),
        ("php7", vec!["php", "php7"]),
        ("php8", vec!["php", "php8"]),
    ];

    for (interpreter, expected_vec) in version_cases {
        let result = tags_from_interpreter(interpreter);
        assert_eq!(
            sorted(&result),
            strs(&expected_vec),
            "Version handling failed for '{}'",
            interpreter
        );
    }

    // path stripping
    let path_cases = vec![
        ("/usr/bin/python", vec!["python"]),
        ("/bin/bash", vec!["bash", "shell"]),
        ("/usr/local/bin/node", vec!["javascript"]),
        ("ruby", vec!["ruby"]),
    ];

    for (interpreter, expected_vec) in path_cases {
        let result = tags_from_interpreter(interpreter);
        assert_eq!(
            sorted(&result),
            strs(&expected_vec),
            "Path stripping failed for '{}'",
            interpreter
        );
    }
}

#[test]
fn test_ascii_printable_requirement() {
    // Only printable ASCII is allowed in shebang lines
    let non_printable_cases: Vec<&[u8]> = vec![
        b"#!/usr/bin/python\x01", // Control character
        b"#!/usr/bin/python\x7f", // DEL character
        b"#!/usr/bin/python\xff", // Non-ASCII
        b"#!/usr/bin/python\x00", // Null
    ];

    for shebang_bytes in non_printable_cases {
        let result = parse_shebang(shebang_bytes);
        assert!(
            result.is_empty(),
            "Non-printable shebang should give an empty command: {:?}",
            shebang_bytes
        );
    }

    // Valid printable ASCII should work
    let result = parse_shebang(b"#!/usr/bin/python");
    assert_eq!(result, st(&["/usr/bin/python"]));
}

#[test]
fn test_comprehensive_real_world_cases() {
    let real_world_cases: Vec<(&[u8], ShebangTuple)> = vec![
        (b"#!/usr/bin/env python3", st(&["python3"])),
        (b"#!/usr/bin/python3", st(&["/usr/bin/python3"])),
        (b"#!/bin/bash", st(&["/bin/bash"])),
        (b"#!/bin/sh", st(&["/bin/sh"])),
        (b"#!/usr/bin/env node", st(&["node"])),
        (b"#!/usr/bin/env ruby", st(&["ruby"])),
        (b"#!/usr/bin/env perl", st(&["perl"])),
        (b"#!/usr/bin/env php", st(&["php"])),
        (b"#!/usr/bin/env -S python3 -u", st(&["python3", "-u"])),
        (b"#!/usr/bin/env -S python3 -O", st(&["python3", "-O"])),
        (
            b"#!/usr/bin/env -S node --experimental-modules",
            st(&["node", "--experimental-modules"]),
        ),
    ];

    for (shebang, expected) in real_world_cases {
        let result = parse_shebang(shebang);
        assert_eq!(result, expected, "Real-world case failed for {:?}", shebang);
    }
}
