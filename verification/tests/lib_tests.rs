use file_identify::tags::{encoding_tags, mode_tags, type_tags};
use file_identify::{ShebangTuple, TagSet, is_text, parse_shebang, tags_from_filename, tags_from_interpreter};

fn st(parts: &[&str]) -> ShebangTuple {
    ShebangTuple::from_vec(parts.iter().map(|s| s.to_string()).collect())
}

fn sorted(tags: &TagSet) -> Vec<String> {
    let mut v = tags.to_vec();
    v.sort();
    v
}

fn strs(parts: &[&str]) -> Vec<String> {
    let mut v: Vec<String> = parts.iter().map(|s| s.to_string()).collect();
    v.sort();
    v
}

// Test tag system completeness
#[test]
fn test_all_basic_tags_exist() {
    assert!(type_tags().contains("file"));
    assert!(type_tags().contains("directory"));
    assert!(mode_tags().contains("executable"));
    assert!(encoding_tags().contains("text"));
}

#[test]
fn test_tag_groups_are_disjoint() {
    assert!(type_tags().is_disjoint(&mode_tags()));
    assert!(type_tags().is_disjoint(&encoding_tags()));
    assert!(mode_tags().is_disjoint(&encoding_tags()));
}

// Test tags_from_filename with various scenarios
#[test]
fn test_tags_from_filename_basic() {
    let tags = tags_from_filename("file.py");
    assert!(tags.contains("text"));
    assert!(tags.contains("python"));
}

#[test]
fn test_tags_from_filename_special_names() {
    let tags = tags_from_filename("Dockerfile");
    assert!(tags.contains("dockerfile"));
    assert!(tags.contains("text"));

    let tags = tags_from_filename("Makefile");
    assert!(tags.contains("makefile"));
    assert!(tags.contains("text"));

    let tags = tags_from_filename("Cargo.toml");
    assert!(tags.contains("toml"));
    assert!(tags.contains("cargo"));
}

#[test]
fn test_tags_from_filename_case_insensitive_extension() {
    let tags = tags_from_filename("image.JPG");
    assert!(tags.contains("binary"));
    assert!(tags.contains("image"));
    assert!(tags.contains("jpeg"));
}

#[test]
fn test_tags_from_filename_precedence() {
    // setup.cfg should match by name, not .cfg extension
    let tags = tags_from_filename("setup.cfg");
    assert!(tags.contains("ini"));
}

#[test]
fn test_tags_from_filename_complex_names() {
    let tags = tags_from_filename("Dockerfile.xenial");
    assert!(tags.contains("dockerfile"));

    let tags = tags_from_filename("README.md");
    assert!(tags.contains("markdown"));
    assert!(tags.contains("plain-text"));
}

#[test]
fn test_tags_from_filename_unrecognized() {
    let tags = tags_from_filename("unknown.xyz");
    assert!(tags.is_empty());

    let tags = tags_from_filename("noextension");
    assert!(tags.is_empty());
}

// Test tags_from_interpreter
#[test]
fn test_tags_from_interpreter_basic() {
    let tags = tags_from_interpreter("python3");
    assert!(tags.contains("python"));
    assert!(tags.contains("python3"));
}

#[test]
fn test_tags_from_interpreter_versioned() {
    let tags = tags_from_interpreter("python3.11.2");
    assert!(tags.contains("python"));
    assert!(tags.contains("python3"));

    let tags = tags_from_interpreter("php8.1");
    assert!(tags.contains("php"));
    assert!(tags.contains("php8"));
}

#[test]
fn test_tags_from_interpreter_with_path() {
    let tags = tags_from_interpreter("/usr/bin/python3");
    assert!(tags.contains("python"));
    assert!(tags.contains("python3"));
}

#[test]
fn test_tags_from_interpreter_unrecognized() {
    let tags = tags_from_interpreter("unknown-interpreter");
    assert!(tags.is_empty());

    let tags = tags_from_interpreter("");
    assert!(tags.is_empty());
}

// Test is_text function
#[test]
fn test_is_text_basic() {
    assert!(is_text(b"hello world"));
    assert!(is_text(b""));
    assert!(!is_text(b"hello\x00world"));
}

#[test]
fn test_is_text_unicode() {
    assert!(is_text("éóñəå  ⊂(◉‿◉)つ(ノ≥∇≤)ノ".as_bytes()));
    assert!(is_text(r"¯\_(ツ)_/¯".as_bytes()));
    assert!(is_text("♪┏(・o･)┛♪┗ ( ･o･) ┓♪".as_bytes()));
}

#[test]
fn test_is_text_binary_data() {
    // ELF header
    assert!(!is_text(&[0x7f, 0x45, 0x4c, 0x46, 0x02, 0x01, 0x01]));
    // Random binary data
    assert!(!is_text(&[0x43, 0x92, 0xd9, 0x0f, 0xaf, 0x32, 0x2c]));
}

// Test parse_shebang function
#[test]
fn test_parse_shebang_basic() {
    let components = parse_shebang(b"#!/usr/bin/python");
    assert_eq!(components, st(&["/usr/bin/python"]));

    let components = parse_shebang(b"#!/usr/bin/env python");
    assert_eq!(components, st(&["python"]));
}

#[test]
fn test_parse_shebang_env_with_flags() {
    let components = parse_shebang(b"#!/usr/bin/env -S python -u");
    assert_eq!(components, st(&["python", "-u"]));
}

#[test]
fn test_parse_shebang_spaces() {
    let components = parse_shebang(b"#! /usr/bin/python");
    assert_eq!(components, st(&["/usr/bin/python"]));

    let components = parse_shebang(b"#!/usr/bin/foo  python");
    assert_eq!(components, st(&["/usr/bin/foo", "python"]));
}

#[test]
fn test_parse_shebang_no_shebang() {
    let components = parse_shebang(b"import sys");
    assert!(components.is_empty());

    let components = parse_shebang(b"");
    assert!(components.is_empty());
}

#[test]
fn test_parse_shebang_invalid_utf8() {
    let components = parse_shebang(&[0x23, 0x21, 0xf9, 0x93, 0x01, 0x42, 0xcd]);
    assert!(components.is_empty());
}

#[test]
fn test_shebang_incomplete() {
    let shebang_incomplete = parse_shebang(b"#!   \n");
    assert!(shebang_incomplete.is_empty());
}

#[test]
fn test_multiple_extensions() {
    let tags = tags_from_filename("backup.tar.gz");
    assert!(tags.contains("binary"));
    assert!(tags.contains("gzip"));
}

// Additional comprehensive tests from the reference behavior
#[test]
fn test_comprehensive_shebang_parsing() {
    let components = parse_shebang(b"");
    assert!(components.is_empty());

    let components = parse_shebang(b"#!/usr/bin/python");
    assert_eq!(components, st(&["/usr/bin/python"]));

    let components = parse_shebang(b"#!/usr/bin/env python");
    assert_eq!(components, st(&["python"]));

    let components = parse_shebang(b"#! /usr/bin/python");
    assert_eq!(components, st(&["/usr/bin/python"]));

    let components = parse_shebang(b"#!/usr/bin/foo  python");
    assert_eq!(components, st(&["/usr/bin/foo", "python"]));

    let components = parse_shebang(b"#!/usr/bin/env -S python -u");
    assert_eq!(components, st(&["python", "-u"]));

    let components = parse_shebang(b"#!/usr/bin/env");
    assert!(
        components.is_empty(),
        "expected empty command for a bare env shebang"
    );

    let components = parse_shebang(b"#!/usr/bin/env -S");
    assert!(
        components.is_empty(),
        "expected empty command for env -S with no interpreter"
    );
}

#[test]
fn test_invalid_utf8_shebang() {
    let invalid_utf8_cases: Vec<&[u8]> = vec![
        &[0xf9, 0x93, 0x01, 0x42, 0xcd][..],
        &[0x23, 0x21, 0xf9, 0x93, 0x01, 0x42, 0xcd][..],
        &[0x23, 0x21, 0x00, 0x00, 0x00, 0x00][..],
    ];

    for input in invalid_utf8_cases {
        let components = parse_shebang(input);
        assert!(components.is_empty());
    }
}

#[test]
fn test_tags_from_interpreter_exact_sets() {
    let tags = tags_from_interpreter("bash");
    assert_eq!(sorted(&tags), strs(&["bash", "shell"]));

    let tags = tags_from_interpreter("node");
    assert_eq!(sorted(&tags), strs(&["javascript"]));
}
