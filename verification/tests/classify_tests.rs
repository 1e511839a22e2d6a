use file_identify::tables::{get_extension_tags, get_extensions_need_binary_check_tags};
use file_identify::tags::{is_encoding_tag, is_mode_tag, is_type_tag, tags_from_array};
use file_identify::{
    EntryKind, FileIdentifier, IdentifyError, ShebangTuple, TagSet, tags_from_entry,
};

fn sorted(tags: &TagSet) -> Vec<String> {
    let mut v = tags.to_vec();
    v.sort();
    v
}

fn strs(parts: &[&str]) -> Vec<String> {
    let mut v: Vec<String> = parts.iter().map(|s| s.to_string()).collect();
    v.sort();
    v
}

#[test]
fn test_classify_directory_exactly() {
    let tags = tags_from_entry(EntryKind::Directory, false, "anything", b"");
    assert_eq!(sorted(&tags), strs(&["directory"]));
}

#[test]
fn test_classify_symlink_exactly() {
    // Metadata is link-aware, so a broken symlink still classifies as a symlink
    let tags = tags_from_entry(EntryKind::Symlink, false, "broken_symlink", b"");
    assert_eq!(sorted(&tags), strs(&["symlink"]));
}

#[test]
fn test_classify_socket_exactly() {
    let tags = tags_from_entry(EntryKind::Socket, false, "test_socket", b"");
    assert_eq!(sorted(&tags), strs(&["socket"]));
}

#[test]
fn test_classify_executable_python_script() {
    // A file written with a python shebang and marked executable
    let content = b"#!/usr/bin/env python3\nprint('hello')";
    let tags = tags_from_entry(EntryKind::Regular, true, "script.py", content);
    assert_eq!(sorted(&tags), strs(&["file", "executable", "python", "text"]));
}

#[test]
fn test_classify_shebang_fallback() {
    // An executable file without a recognized filename falls back to its shebang
    let content = b"#!/usr/bin/env python3\nprint('hello')";
    let tags = tags_from_entry(EntryKind::Regular, true, "script", content);
    assert!(tags.contains("file"));
    assert!(tags.contains("executable"));
    assert!(tags.contains("python"));
    assert!(tags.contains("python3"));
    assert!(tags.contains("text"));
}

#[test]
fn test_classify_non_executable_ignores_shebang() {
    let content = b"#!/usr/bin/env python3\nprint('hello')";
    let tags = tags_from_entry(EntryKind::Regular, false, "script", content);
    assert_eq!(sorted(&tags), strs(&["file", "non-executable", "text"]));
}

#[test]
fn test_classify_regular_binary_file() {
    let tags = tags_from_entry(
        EntryKind::Regular,
        false,
        "binary",
        &[0x7f, 0x45, 0x4c, 0x46, 0x02, 0x01, 0x01],
    );
    assert!(tags.contains("file"));
    assert!(tags.contains("binary"));
    assert!(tags.contains("non-executable"));
}

#[test]
fn test_classify_empty_file_is_text() {
    let tags = tags_from_entry(EntryKind::Regular, false, "empty", b"");
    assert!(tags.contains("file"));
    assert!(tags.contains("text"));
    assert!(tags.contains("non-executable"));
}

#[test]
fn test_classify_binary_check_extension() {
    // A .plist keeps its format tag and takes its encoding from content
    let binary_plist = [
        0x62, 0x70, 0x6c, 0x69, 0x73, 0x74, 0x30, 0x30, 0xd1, 0x01, 0x02, 0x5f, 0x10, 0x0f,
    ];
    let tags = tags_from_entry(EntryKind::Regular, false, "test.plist", &binary_plist);
    assert!(tags.contains("plist"));
    assert!(tags.contains("binary"));

    let text_plist = b"<?xml version=\"1.0\" encoding=\"UTF-8\"?>\n<plist version=\"1.0\">\n</plist>";
    let tags = tags_from_entry(EntryKind::Regular, false, "test.plist", text_plist);
    assert!(tags.contains("plist"));
    assert!(tags.contains("text"));
}

#[test]
fn test_identifier_skip_content_analysis() {
    let identifier = FileIdentifier::new().skip_content_analysis();
    let tags = identifier.classify(EntryKind::Regular, false, "unknown_file", b"some content");
    assert!(tags.contains("file"));
    assert!(tags.contains("non-executable"));
    assert!(!tags.contains("text"));
    assert!(!tags.contains("binary"));
}

#[test]
fn test_identifier_skip_shebang_analysis() {
    let identifier = FileIdentifier::new().skip_shebang_analysis();
    let content = b"#!/usr/bin/env python3\nprint('hello')";
    let tags = identifier.classify(EntryKind::Regular, true, "script", content);
    assert!(tags.contains("file"));
    assert!(tags.contains("executable"));
    assert!(!tags.contains("python"));
}

#[test]
fn test_identifier_custom_extensions() {
    let custom = vec![("myext".to_string(), tags_from_array(&["custom", "text"]))];
    let identifier = FileIdentifier::new().with_custom_extensions(custom);
    let tags = identifier.classify(EntryKind::Regular, false, "test.myext", b"custom content");
    assert!(tags.contains("file"));
    assert!(tags.contains("custom"));
    assert!(tags.contains("text"));
    assert!(tags.contains("non-executable"));
}

#[test]
fn test_custom_extension_precedence() {
    // A custom extension overrides both the special-name table and the
    // built-in extension table
    let custom = vec![("cfg".to_string(), tags_from_array(&["custom-cfg", "text"]))];
    let identifier = FileIdentifier::new().with_custom_extensions(custom);
    let tags = identifier.classify(EntryKind::Regular, false, "setup.cfg", b"[metadata]");
    assert!(tags.contains("custom-cfg"));
    assert!(!tags.contains("ini"));

    let custom = vec![("py".to_string(), tags_from_array(&["frozen", "binary"]))];
    let identifier = FileIdentifier::new().with_custom_extensions(custom);
    let tags = identifier.classify(EntryKind::Regular, false, "prog.py", b"print('x')");
    assert!(tags.contains("frozen"));
    assert!(tags.contains("binary"));
    assert!(!tags.contains("python"));
}

#[test]
fn test_identifier_chaining() {
    let identifier = FileIdentifier::new()
        .skip_content_analysis()
        .skip_shebang_analysis();
    let tags = identifier.classify(EntryKind::Regular, false, "test.unknown", b"content");
    assert!(tags.contains("file"));
    assert!(tags.contains("non-executable"));
    assert!(!tags.contains("text"));
    assert!(!tags.contains("binary"));
}

#[test]
fn test_tag_set_insert_and_contains() {
    let mut tags = TagSet::new();
    assert!(tags.is_empty());
    tags.insert("python");
    tags.insert("text");
    tags.insert("python");
    assert!(!tags.is_empty());
    assert!(tags.contains("python"));
    assert!(tags.contains("text"));
    assert!(!tags.contains("binary"));
    assert_eq!(sorted(&tags), strs(&["python", "text"]));
}

#[test]
fn test_tag_set_union_and_equality() {
    let mut a = tags_from_array(&["text", "python"]);
    let b = tags_from_array(&["python", "text"]);
    assert_eq!(a, b);
    a.union_with(&tags_from_array(&["executable"]));
    assert!(a.contains("executable"));
    assert_ne!(a, b);
    assert!(b.subset_of(&a));
    assert!(!a.subset_of(&b));
}

#[test]
fn test_shebang_tuple_accessors() {
    let t = ShebangTuple::from_vec(vec!["python3".to_string(), "-u".to_string()]);
    assert_eq!(t.len(), 2);
    assert!(!t.is_empty());
    assert_eq!(t.get(0), Some("python3"));
    assert_eq!(t.get(1), Some("-u"));
    assert_eq!(t.get(2), None);
    assert_eq!(t.first(), Some("python3"));
    assert_eq!(t.as_slice().len(), 2);
    let words: Vec<&String> = t.iter().collect();
    assert_eq!(words.len(), 2);
    assert_eq!(words[0], "python3");
    let v = t.into_vec();
    assert_eq!(v, vec!["python3".to_string(), "-u".to_string()]);

    let empty = ShebangTuple::default();
    assert!(empty.is_empty());
    assert_eq!(empty.first(), None);
    assert_eq!(empty, ShebangTuple::new());
}

#[test]
fn test_error_messages() {
    let e = IdentifyError::PathNotFound {
        path: "/missing".to_string(),
    };
    assert_eq!(e.message(), "/missing does not exist.");

    let e = IdentifyError::IoError {
        message: "read failed".to_string(),
    };
    assert_eq!(e.message(), "IO error: read failed");

    let e = IdentifyError::InvalidPath {
        path: "/bad".to_string(),
    };
    assert_eq!(e.message(), "Path contains invalid UTF-8: /bad");

    let e = IdentifyError::InvalidUtf8;
    assert_eq!(e.message(), "File contains invalid UTF-8 content");
}

#[test]
fn test_encoding_discipline_spot_checks() {
    // Built-in extension entries carry exactly one of text/binary
    for ext in ["py", "jpg", "md", "gz", "cfg", "toml", "zip", "sh"] {
        let tags = get_extension_tags(ext);
        let text = tags.contains("text");
        let binary = tags.contains("binary");
        assert!(text != binary, "extension '{}' must carry exactly one encoding tag", ext);
    }
    // Binary-check entries carry neither
    let tags = get_extensions_need_binary_check_tags("plist");
    assert!(!tags.is_empty());
    assert!(!tags.contains("text"));
    assert!(!tags.contains("binary"));
}

#[test]
fn test_tag_predicates() {
    assert!(is_type_tag("file"));
    assert!(is_type_tag("socket"));
    assert!(!is_type_tag("python"));
    assert!(is_mode_tag("executable"));
    assert!(!is_mode_tag("file"));
    assert!(is_encoding_tag("binary"));
    assert!(!is_encoding_tag("executable"));
}

#[test]
fn test_tags_from_filename_is_pure() {
    let a = file_identify::tags_from_filename("script.py");
    let b = file_identify::tags_from_filename("script.py");
    assert_eq!(a, b);
}
