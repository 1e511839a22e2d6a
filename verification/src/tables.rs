//! The built-in lookup tables: extension to tags, binary-check extension to
//! tags, special filename to tags, and interpreter to tags. Each table is a
//! spec-level mapping with a verified executable lookup.

use vstd::prelude::*;

use crate::strutil::str_eq;
use crate::tags::TagSet;

verus! {

fn tag_set1(a: &str) -> (r: TagSet)
    ensures
        r@ == set![a@],
{
    let mut r = TagSet::new();
    r.insert(a);
    proof {
        assert(r@ =~= set![a@]);
    }
    r
}

fn tag_set2(a: &str, b: &str) -> (r: TagSet)
    ensures
        r@ == set![a@, b@],
{
    let mut r = TagSet::new();
    r.insert(a);
    r.insert(b);
    proof {
        assert(r@ =~= set![a@, b@]);
    }
    r
}

fn tag_set3(a: &str, b: &str, c: &str) -> (r: TagSet)
    ensures
        r@ == set![a@, b@, c@],
{
    let mut r = TagSet::new();
    r.insert(a);
    r.insert(b);
    r.insert(c);
    proof {
        assert(r@ =~= set![a@, b@, c@]);
    }
    r
}

/// The built-in extension table: a lowercased extension, without its leading
/// dot, maps to the tags of the format it stands for. Every entry carries
/// exactly one of the `text`/`binary` encoding tags.
pub open spec fn spec_extension_tags(ext: Seq<char>) -> Set<Seq<char>> {
    if ext == "bash"@ {
        set!["text"@, "shell"@, "bash"@]
    } else if ext == "bat"@ {
        set!["text"@, "batch"@]
    } else if ext == "bazel"@ {
        set!["text"@, "bazel"@]
    } else if ext == "c"@ {
        set!["text"@, "c"@]
    } else if ext == "cfg"@ {
        set!["text"@]
    } else if ext == "cpp"@ {
        set!["text"@, "c++"@]
    } else if ext == "css"@ {
        set!["text"@, "css"@]
    } else if ext == "csv"@ {
        set!["text"@, "csv"@]
    } else if ext == "go"@ {
        set!["text"@, "go"@]
    } else if ext == "h"@ {
        set!["text"@, "c"@]
    } else if ext == "html"@ {
        set!["text"@, "html"@]
    } else if ext == "ini"@ {
        set!["text"@, "ini"@]
    } else if ext == "js"@ {
        set!["text"@, "javascript"@]
    } else if ext == "json"@ {
        set!["text"@, "json"@]
    } else if ext == "md"@ {
        set!["text"@, "markdown"@, "plain-text"@]
    } else if ext == "pl"@ {
        set!["text"@, "perl"@]
    } else if ext == "php"@ {
        set!["text"@, "php"@]
    } else if ext == "py"@ {
        set!["text"@, "python"@]
    } else if ext == "rb"@ {
        set!["text"@, "ruby"@]
    } else if ext == "rs"@ {
        set!["text"@, "rust"@]
    } else if ext == "sh"@ {
        set!["text"@, "shell"@, "sh"@]
    } else if ext == "svg"@ {
        set!["text"@, "image"@, "svg"@]
    } else if ext == "toml"@ {
        set!["text"@, "toml"@]
    } else if ext == "ts"@ {
        set!["text"@, "ts"@]
    } else if ext == "txt"@ {
        set!["text"@, "plain-text"@]
    } else if ext == "xml"@ {
        set!["text"@, "xml"@]
    } else if ext == "yaml"@ {
        set!["text"@, "yaml"@]
    } else if ext == "yml"@ {
        set!["text"@, "yaml"@]
    } else if ext == "zsh"@ {
        set!["text"@, "shell"@, "zsh"@]
    } else if ext == "bin"@ {
        set!["binary"@]
    } else if ext == "bmp"@ {
        set!["binary"@, "image"@, "bitmap"@]
    } else if ext == "exe"@ {
        set!["binary"@]
    } else if ext == "gif"@ {
        set!["binary"@, "image"@, "gif"@]
    } else if ext == "gz"@ {
        set!["binary"@, "gzip"@]
    } else if ext == "ico"@ {
        set!["binary"@, "icon"@]
    } else if ext == "jpeg"@ {
        set!["binary"@, "image"@, "jpeg"@]
    } else if ext == "jpg"@ {
        set!["binary"@, "image"@, "jpeg"@]
    } else if ext == "pdf"@ {
        set!["binary"@, "pdf"@]
    } else if ext == "png"@ {
        set!["binary"@, "image"@, "png"@]
    } else if ext == "so"@ {
        set!["binary"@]
    } else if ext == "tar"@ {
        set!["binary"@, "tar"@]
    } else if ext == "zip"@ {
        set!["binary"@, "zip"@]
    } else {
        Set::empty()
    }
}

/// Looks up a lowercased extension in the built-in extension table.
pub fn get_extension_tags(ext: &str) -> (r: TagSet)
    ensures
        r@ == spec_extension_tags(ext@),
{
    if str_eq(ext, "bash") {
        tag_set3("text", "shell", "bash")
    } else if str_eq(ext, "bat") {
        tag_set2("text", "batch")
    } else if str_eq(ext, "bazel") {
        tag_set2("text", "bazel")
    } else if str_eq(ext, "c") {
        tag_set2("text", "c")
    } else if str_eq(ext, "cfg") {
        tag_set1("text")
    } else if str_eq(ext, "cpp") {
        tag_set2("text", "c++")
    } else if str_eq(ext, "css") {
        tag_set2("text", "css")
    } else if str_eq(ext, "csv") {
        tag_set2("text", "csv")
    } else if str_eq(ext, "go") {
        tag_set2("text", "go")
    } else if str_eq(ext, "h") {
        tag_set2("text", "c")
    } else if str_eq(ext, "html") {
        tag_set2("text", "html")
    } else if str_eq(ext, "ini") {
        tag_set2("text", "ini")
    } else if str_eq(ext, "js") {
        tag_set2("text", "javascript")
    } else if str_eq(ext, "json") {
        tag_set2("text", "json")
    } else if str_eq(ext, "md") {
        tag_set3("text", "markdown", "plain-text")
    } else if str_eq(ext, "pl") {
        tag_set2("text", "perl")
    } else if str_eq(ext, "php") {
        tag_set2("text", "php")
    } else if str_eq(ext, "py") {
        tag_set2("text", "python")
    } else if str_eq(ext, "rb") {
        tag_set2("text", "ruby")
    } else if str_eq(ext, "rs") {
        tag_set2("text", "rust")
    } else if str_eq(ext, "sh") {
        tag_set3("text", "shell", "sh")
    } else if str_eq(ext, "svg") {
        tag_set3("text", "image", "svg")
    } else if str_eq(ext, "toml") {
        tag_set2("text", "toml")
    } else if str_eq(ext, "ts") {
        tag_set2("text", "ts")
    } else if str_eq(ext, "txt") {
        tag_set2("text", "plain-text")
    } else if str_eq(ext, "xml") {
        tag_set2("text", "xml")
    } else if str_eq(ext, "yaml") {
        tag_set2("text", "yaml")
    } else if str_eq(ext, "yml") {
        tag_set2("text", "yaml")
    } else if str_eq(ext, "zsh") {
        tag_set3("text", "shell", "zsh")
    } else if str_eq(ext, "bin") {
        tag_set1("binary")
    } else if str_eq(ext, "bmp") {
        tag_set3("binary", "image", "bitmap")
    } else if str_eq(ext, "exe") {
        tag_set1("binary")
    } else if str_eq(ext, "gif") {
        tag_set3("binary", "image", "gif")
    } else if str_eq(ext, "gz") {
        tag_set2("binary", "gzip")
    } else if str_eq(ext, "ico") {
        tag_set2("binary", "icon")
    } else if str_eq(ext, "jpeg") {
        tag_set3("binary", "image", "jpeg")
    } else if str_eq(ext, "jpg") {
        tag_set3("binary", "image", "jpeg")
    } else if str_eq(ext, "pdf") {
        tag_set2("binary", "pdf")
    } else if str_eq(ext, "png") {
        tag_set3("binary", "image", "png")
    } else if str_eq(ext, "so") {
        tag_set1("binary")
    } else if str_eq(ext, "tar") {
        tag_set2("binary", "tar")
    } else if str_eq(ext, "zip") {
        tag_set2("binary", "zip")
    } else {
        TagSet::new()
    }
}

/// The binary-check extension table: formats with both a text and a binary
/// on-disk form. Entries carry neither encoding tag; content sniffing must
/// still decide between `text` and `binary`.
pub open spec fn spec_binary_check_tags(ext: Seq<char>) -> Set<Seq<char>> {
    if ext == "plist"@ {
        set!["plist"@]
    } else {
        Set::empty()
    }
}

/// Looks up a lowercased extension in the binary-check extension table.
pub fn get_extensions_need_binary_check_tags(ext: &str) -> (r: TagSet)
    ensures
        r@ == spec_binary_check_tags(ext@),
{
    if str_eq(ext, "plist") {
        tag_set1("plist")
    } else {
        TagSet::new()
    }
}

/// The special filename table: a whole filename, or one of its dot-separated
/// parts, maps to the tags of the file kind it announces. Every entry
/// carries exactly one of the `text`/`binary` encoding tags.
pub open spec fn spec_name_tags(name: Seq<char>) -> Set<Seq<char>> {
    if name == "BUILD"@ {
        set!["text"@, "bazel"@]
    } else if name == "Cargo.toml"@ {
        set!["text"@, "toml"@, "cargo"@]
    } else if name == "Dockerfile"@ {
        set!["text"@, "dockerfile"@]
    } else if name == "Makefile"@ {
        set!["text"@, "makefile"@]
    } else if name == "meson.build"@ {
        set!["text"@, "meson"@]
    } else if name == "setup.cfg"@ {
        set!["text"@, "ini"@]
    } else if name == ".bashrc"@ {
        set!["text"@, "shell"@, "bash"@]
    } else if name == ".gitignore"@ {
        set!["text"@, "gitignore"@]
    } else if name == ".zshrc"@ {
        set!["text"@, "shell"@, "zsh"@]
    } else {
        Set::empty()
    }
}

/// Looks up a filename or filename part in the special filename table.
pub fn get_name_tags(name: &str) -> (r: TagSet)
    ensures
        r@ == spec_name_tags(name@),
{
    if str_eq(name, "BUILD") {
        tag_set2("text", "bazel")
    } else if str_eq(name, "Cargo.toml") {
        tag_set3("text", "toml", "cargo")
    } else if str_eq(name, "Dockerfile") {
        tag_set2("text", "dockerfile")
    } else if str_eq(name, "Makefile") {
        tag_set2("text", "makefile")
    } else if str_eq(name, "meson.build") {
        tag_set2("text", "meson")
    } else if str_eq(name, "setup.cfg") {
        tag_set2("text", "ini")
    } else if str_eq(name, ".bashrc") {
        tag_set3("text", "shell", "bash")
    } else if str_eq(name, ".gitignore") {
        tag_set2("text", "gitignore")
    } else if str_eq(name, ".zshrc") {
        tag_set3("text", "shell", "zsh")
    } else {
        TagSet::new()
    }
}

/// Encoding discipline of the static tables, for every key:
/// a recognized extension's tag set holds exactly one of `text`/`binary`;
/// a special filename's tag set holds exactly one of `text`/`binary`;
/// a binary-check entry's tag set holds neither; and no key of the
/// binary-check table is also a key of the extension table.
#[verifier::rlimit(100)]
pub proof fn lemma_table_encoding(key: Seq<char>)
    ensures
        spec_extension_tags(key) != Set::<Seq<char>>::empty() ==> (spec_extension_tags(
            key,
        ).contains("text"@) != spec_extension_tags(key).contains("binary"@)),
        spec_name_tags(key) != Set::<Seq<char>>::empty() ==> (spec_name_tags(key).contains("text"@)
            != spec_name_tags(key).contains("binary"@)),
        !spec_binary_check_tags(key).contains("text"@),
        !spec_binary_check_tags(key).contains("binary"@),
        spec_extension_tags(key) != Set::<Seq<char>>::empty() ==> spec_binary_check_tags(key)
            == Set::<Seq<char>>::empty(),
{
    broadcast use vstd::string::group_string_axioms;

    reveal_strlit("text");
    reveal_strlit("binary");
    reveal_strlit("shell");
    reveal_strlit("bash");
    reveal_strlit("batch");
    reveal_strlit("bazel");
    reveal_strlit("c");
    reveal_strlit("c++");
    reveal_strlit("cfg");
    reveal_strlit("cpp");
    reveal_strlit("css");
    reveal_strlit("csv");
    reveal_strlit("go");
    reveal_strlit("h");
    reveal_strlit("html");
    reveal_strlit("ini");
    reveal_strlit("js");
    reveal_strlit("json");
    reveal_strlit("javascript");
    reveal_strlit("markdown");
    reveal_strlit("md");
    reveal_strlit("plain-text");
    reveal_strlit("pl");
    reveal_strlit("perl");
    reveal_strlit("php");
    reveal_strlit("py");
    reveal_strlit("python");
    reveal_strlit("rb");
    reveal_strlit("ruby");
    reveal_strlit("rs");
    reveal_strlit("rust");
    reveal_strlit("sh");
    reveal_strlit("svg");
    reveal_strlit("image");
    reveal_strlit("toml");
    reveal_strlit("ts");
    reveal_strlit("txt");
    reveal_strlit("xml");
    reveal_strlit("yaml");
    reveal_strlit("yml");
    reveal_strlit("zsh");
    reveal_strlit("bin");
    reveal_strlit("bmp");
    reveal_strlit("bitmap");
    reveal_strlit("exe");
    reveal_strlit("gif");
    reveal_strlit("gz");
    reveal_strlit("gzip");
    reveal_strlit("ico");
    reveal_strlit("icon");
    reveal_strlit("jpeg");
    reveal_strlit("jpg");
    reveal_strlit("pdf");
    reveal_strlit("png");
    reveal_strlit("so");
    reveal_strlit("tar");
    reveal_strlit("zip");
    reveal_strlit("plist");
    reveal_strlit("cargo");
    reveal_strlit("dockerfile");
    reveal_strlit("makefile");
    reveal_strlit("meson");
    reveal_strlit("gitignore");
    reveal_strlit("bat");
    reveal_strlit("BUILD");
    reveal_strlit("Cargo.toml");
    reveal_strlit("Dockerfile");
    reveal_strlit("Makefile");
    reveal_strlit("meson.build");
    reveal_strlit("setup.cfg");
    reveal_strlit(".bashrc");
    reveal_strlit(".gitignore");
    reveal_strlit(".zshrc");
    assert("text"@.len() == 4);
    assert("binary"@.len() == 6);
    assert("shell"@.len() == 5);
    assert("bash"@.len() == 4);
    assert("batch"@.len() == 5);
    assert("bazel"@.len() == 5);
    assert("c"@.len() == 1);
    assert("c++"@.len() == 3);
    assert("cfg"@.len() == 3);
    assert("cpp"@.len() == 3);
    assert("css"@.len() == 3);
    assert("csv"@.len() == 3);
    assert("go"@.len() == 2);
    assert("h"@.len() == 1);
    assert("html"@.len() == 4);
    assert("ini"@.len() == 3);
    assert("js"@.len() == 2);
    assert("json"@.len() == 4);
    assert("javascript"@.len() == 10);
    assert("markdown"@.len() == 8);
    assert("md"@.len() == 2);
    assert("plain-text"@.len() == 10);
    assert("pl"@.len() == 2);
    assert("perl"@.len() == 4);
    assert("php"@.len() == 3);
    assert("py"@.len() == 2);
    assert("python"@.len() == 6);
    assert("rb"@.len() == 2);
    assert("ruby"@.len() == 4);
    assert("rs"@.len() == 2);
    assert("rust"@.len() == 4);
    assert("sh"@.len() == 2);
    assert("svg"@.len() == 3);
    assert("image"@.len() == 5);
    assert("toml"@.len() == 4);
    assert("ts"@.len() == 2);
    assert("txt"@.len() == 3);
    assert("xml"@.len() == 3);
    assert("yaml"@.len() == 4);
    assert("yml"@.len() == 3);
    assert("zsh"@.len() == 3);
    assert("bin"@.len() == 3);
    assert("bmp"@.len() == 3);
    assert("bitmap"@.len() == 6);
    assert("exe"@.len() == 3);
    assert("gif"@.len() == 3);
    assert("gz"@.len() == 2);
    assert("gzip"@.len() == 4);
    assert("ico"@.len() == 3);
    assert("icon"@.len() == 4);
    assert("jpeg"@.len() == 4);
    assert("jpg"@.len() == 3);
    assert("pdf"@.len() == 3);
    assert("png"@.len() == 3);
    assert("so"@.len() == 2);
    assert("tar"@.len() == 3);
    assert("zip"@.len() == 3);
    assert("plist"@.len() == 5);
    assert("cargo"@.len() == 5);
    assert("dockerfile"@.len() == 10);
    assert("makefile"@.len() == 8);
    assert("meson"@.len() == 5);
    assert("gitignore"@.len() == 9);
    assert("bat"@.len() == 3);
    assert("BUILD"@.len() == 5);
    assert("Cargo.toml"@.len() == 10);
    assert("Dockerfile"@.len() == 10);
    assert("Makefile"@.len() == 8);
    assert("meson.build"@.len() == 11);
    assert("setup.cfg"@.len() == 9);
    assert(".bashrc"@.len() == 7);
    assert(".gitignore"@.len() == 10);
    assert(".zshrc"@.len() == 6);
    assert("text"@[0] == 't');
    assert("binary"@[0] == 'b');
    assert("shell"@[0] == 's');
    assert("bash"@[0] == 'b');
    assert("batch"@[0] == 'b');
    assert("bazel"@[0] == 'b');
    assert("c"@[0] == 'c');
    assert("c++"@[0] == 'c');
    assert("cfg"@[0] == 'c');
    assert("cpp"@[0] == 'c');
    assert("css"@[0] == 'c');
    assert("csv"@[0] == 'c');
    assert("go"@[0] == 'g');
    assert("h"@[0] == 'h');
    assert("html"@[0] == 'h');
    assert("ini"@[0] == 'i');
    assert("js"@[0] == 'j');
    assert("json"@[0] == 'j');
    assert("javascript"@[0] == 'j');
    assert("markdown"@[0] == 'm');
    assert("md"@[0] == 'm');
    assert("plain-text"@[0] == 'p');
    assert("pl"@[0] == 'p');
    assert("perl"@[0] == 'p');
    assert("php"@[0] == 'p');
    assert("py"@[0] == 'p');
    assert("python"@[0] == 'p');
    assert("rb"@[0] == 'r');
    assert("ruby"@[0] == 'r');
    assert("rs"@[0] == 'r');
    assert("rust"@[0] == 'r');
    assert("sh"@[0] == 's');
    assert("svg"@[0] == 's');
    assert("image"@[0] == 'i');
    assert("toml"@[0] == 't');
    assert("ts"@[0] == 't');
    assert("txt"@[0] == 't');
    assert("xml"@[0] == 'x');
    assert("yaml"@[0] == 'y');
    assert("yml"@[0] == 'y');
    assert("zsh"@[0] == 'z');
    assert("bin"@[0] == 'b');
    assert("bmp"@[0] == 'b');
    assert("bitmap"@[0] == 'b');
    assert("exe"@[0] == 'e');
    assert("gif"@[0] == 'g');
    assert("gz"@[0] == 'g');
    assert("gzip"@[0] == 'g');
    assert("ico"@[0] == 'i');
    assert("icon"@[0] == 'i');
    assert("jpeg"@[0] == 'j');
    assert("jpg"@[0] == 'j');
    assert("pdf"@[0] == 'p');
    assert("png"@[0] == 'p');
    assert("so"@[0] == 's');
    assert("tar"@[0] == 't');
    assert("zip"@[0] == 'z');
    assert("plist"@[0] == 'p');
    assert("cargo"@[0] == 'c');
    assert("dockerfile"@[0] == 'd');
    assert("makefile"@[0] == 'm');
    assert("meson"@[0] == 'm');
    assert("gitignore"@[0] == 'g');
    assert("bat"@[0] == 'b');
    assert("BUILD"@[0] == 'B');
    assert("Cargo.toml"@[0] == 'C');
    assert("Dockerfile"@[0] == 'D');
    assert("Makefile"@[0] == 'M');
    assert("meson.build"@[0] == 'm');
    assert("setup.cfg"@[0] == 's');
    assert(".bashrc"@[0] == '.');
    assert(".gitignore"@[0] == '.');
    assert(".zshrc"@[0] == '.');
    if key == "bash"@ {
        assert(spec_extension_tags(key) == set!["text"@, "shell"@, "bash"@]);
        assert(spec_binary_check_tags(key) == Set::<Seq<char>>::empty());
    } else if key == "bat"@ {
        assert(spec_extension_tags(key) == set!["text"@, "batch"@]);
        assert(spec_binary_check_tags(key) == Set::<Seq<char>>::empty());
    } else if key == "bazel"@ {
        assert(spec_extension_tags(key) == set!["text"@, "bazel"@]);
        assert(spec_binary_check_tags(key) == Set::<Seq<char>>::empty());
    } else if key == "c"@ {
        assert(spec_extension_tags(key) == set!["text"@, "c"@]);
        assert(spec_binary_check_tags(key) == Set::<Seq<char>>::empty());
    } else if key == "cfg"@ {
        assert(spec_extension_tags(key) == set!["text"@]);
        assert(spec_binary_check_tags(key) == Set::<Seq<char>>::empty());
    } else if key == "cpp"@ {
        assert(spec_extension_tags(key) == set!["text"@, "c++"@]);
        assert(spec_binary_check_tags(key) == Set::<Seq<char>>::empty());
    } else if key == "css"@ {
        assert(spec_extension_tags(key) == set!["text"@, "css"@]);
        assert(spec_binary_check_tags(key) == Set::<Seq<char>>::empty());
    } else if key == "csv"@ {
        assert(spec_extension_tags(key) == set!["text"@, "csv"@]);
        assert(spec_binary_check_tags(key) == Set::<Seq<char>>::empty());
    } else if key == "go"@ {
        assert(spec_extension_tags(key) == set!["text"@, "go"@]);
        assert(spec_binary_check_tags(key) == Set::<Seq<char>>::empty());
    } else if key == "h"@ {
        assert(spec_extension_tags(key) == set!["text"@, "c"@]);
        assert(spec_binary_check_tags(key) == Set::<Seq<char>>::empty());
    } else if key == "html"@ {
        assert(spec_extension_tags(key) == set!["text"@, "html"@]);
        assert(spec_binary_check_tags(key) == Set::<Seq<char>>::empty());
    } else if key == "ini"@ {
        assert(spec_extension_tags(key) == set!["text"@, "ini"@]);
        assert(spec_binary_check_tags(key) == Set::<Seq<char>>::empty());
    } else if key == "js"@ {
        assert(spec_extension_tags(key) == set!["text"@, "javascript"@]);
        assert(spec_binary_check_tags(key) == Set::<Seq<char>>::empty());
    } else if key == "json"@ {
        assert(spec_extension_tags(key) == set!["text"@, "json"@]);
        assert(spec_binary_check_tags(key) == Set::<Seq<char>>::empty());
    } else if key == "md"@ {
        assert(spec_extension_tags(key) == set!["text"@, "markdown"@, "plain-text"@]);
        assert(spec_binary_check_tags(key) == Set::<Seq<char>>::empty());
    } else if key == "pl"@ {
        assert(spec_extension_tags(key) == set!["text"@, "perl"@]);
        assert(spec_binary_check_tags(key) == Set::<Seq<char>>::empty());
    } else if key == "php"@ {
        assert(spec_extension_tags(key) == set!["text"@, "php"@]);
        assert(spec_binary_check_tags(key) == Set::<Seq<char>>::empty());
    } else if key == "py"@ {
        assert(spec_extension_tags(key) == set!["text"@, "python"@]);
        assert(spec_binary_check_tags(key) == Set::<Seq<char>>::empty());
    } else if key == "rb"@ {
        assert(spec_extension_tags(key) == set!["text"@, "ruby"@]);
        assert(spec_binary_check_tags(key) == Set::<Seq<char>>::empty());
    } else if key == "rs"@ {
        assert(spec_extension_tags(key) == set!["text"@, "rust"@]);
        assert(spec_binary_check_tags(key) == Set::<Seq<char>>::empty());
    } else if key == "sh"@ {
        assert(spec_extension_tags(key) == set!["text"@, "shell"@, "sh"@]);
        assert(spec_binary_check_tags(key) == Set::<Seq<char>>::empty());
    } else if key == "svg"@ {
        assert(spec_extension_tags(key) == set!["text"@, "image"@, "svg"@]);
        assert(spec_binary_check_tags(key) == Set::<Seq<char>>::empty());
    } else if key == "toml"@ {
        assert(spec_extension_tags(key) == set!["text"@, "toml"@]);
        assert(spec_binary_check_tags(key) == Set::<Seq<char>>::empty());
    } else if key == "ts"@ {
        assert(spec_extension_tags(key) == set!["text"@, "ts"@]);
        assert(spec_binary_check_tags(key) == Set::<Seq<char>>::empty());
    } else if key == "txt"@ {
        assert(spec_extension_tags(key) == set!["text"@, "plain-text"@]);
        assert(spec_binary_check_tags(key) == Set::<Seq<char>>::empty());
    } else if key == "xml"@ {
        assert(spec_extension_tags(key) == set!["text"@, "xml"@]);
        assert(spec_binary_check_tags(key) == Set::<Seq<char>>::empty());
    } else if key == "yaml"@ {
        assert(spec_extension_tags(key) == set!["text"@, "yaml"@]);
        assert(spec_binary_check_tags(key) == Set::<Seq<char>>::empty());
    } else if key == "yml"@ {
        assert(spec_extension_tags(key) == set!["text"@, "yaml"@]);
        assert(spec_binary_check_tags(key) == Set::<Seq<char>>::empty());
    } else if key == "zsh"@ {
        assert(spec_extension_tags(key) == set!["text"@, "shell"@, "zsh"@]);
        assert(spec_binary_check_tags(key) == Set::<Seq<char>>::empty());
    } else if key == "bin"@ {
        assert(spec_extension_tags(key) == set!["binary"@]);
        assert(spec_binary_check_tags(key) == Set::<Seq<char>>::empty());
    } else if key == "bmp"@ {
        assert(spec_extension_tags(key) == set!["binary"@, "image"@, "bitmap"@]);
        assert(spec_binary_check_tags(key) == Set::<Seq<char>>::empty());
    } else if key == "exe"@ {
        assert(spec_extension_tags(key) == set!["binary"@]);
        assert(spec_binary_check_tags(key) == Set::<Seq<char>>::empty());
    } else if key == "gif"@ {
        assert(spec_extension_tags(key) == set!["binary"@, "image"@, "gif"@]);
        assert(spec_binary_check_tags(key) == Set::<Seq<char>>::empty());
    } else if key == "gz"@ {
        assert(spec_extension_tags(key) == set!["binary"@, "gzip"@]);
        assert(spec_binary_check_tags(key) == Set::<Seq<char>>::empty());
    } else if key == "ico"@ {
        assert(spec_extension_tags(key) == set!["binary"@, "icon"@]);
        assert(spec_binary_check_tags(key) == Set::<Seq<char>>::empty());
    } else if key == "jpeg"@ {
        assert(spec_extension_tags(key) == set!["binary"@, "image"@, "jpeg"@]);
        assert(spec_binary_check_tags(key) == Set::<Seq<char>>::empty());
    } else if key == "jpg"@ {
        assert(spec_extension_tags(key) == set!["binary"@, "image"@, "jpeg"@]);
        assert(spec_binary_check_tags(key) == Set::<Seq<char>>::empty());
    } else if key == "pdf"@ {
        assert(spec_extension_tags(key) == set!["binary"@, "pdf"@]);
        assert(spec_binary_check_tags(key) == Set::<Seq<char>>::empty());
    } else if key == "png"@ {
        assert(spec_extension_tags(key) == set!["binary"@, "image"@, "png"@]);
        assert(spec_binary_check_tags(key) == Set::<Seq<char>>::empty());
    } else if key == "so"@ {
        assert(spec_extension_tags(key) == set!["binary"@]);
        assert(spec_binary_check_tags(key) == Set::<Seq<char>>::empty());
    } else if key == "tar"@ {
        assert(spec_extension_tags(key) == set!["binary"@, "tar"@]);
        assert(spec_binary_check_tags(key) == Set::<Seq<char>>::empty());
    } else if key == "zip"@ {
        assert(spec_extension_tags(key) == set!["binary"@, "zip"@]);
        assert(spec_binary_check_tags(key) == Set::<Seq<char>>::empty());
    } else {
        assert(spec_extension_tags(key) == Set::<Seq<char>>::empty());
    }
    if key == "BUILD"@ {
        assert(spec_name_tags(key) == set!["text"@, "bazel"@]);
    } else if key == "Cargo.toml"@ {
        assert(spec_name_tags(key) == set!["text"@, "toml"@, "cargo"@]);
    } else if key == "Dockerfile"@ {
        assert(spec_name_tags(key) == set!["text"@, "dockerfile"@]);
    } else if key == "Makefile"@ {
        assert(spec_name_tags(key) == set!["text"@, "makefile"@]);
    } else if key == "meson.build"@ {
        assert(spec_name_tags(key) == set!["text"@, "meson"@]);
    } else if key == "setup.cfg"@ {
        assert(spec_name_tags(key) == set!["text"@, "ini"@]);
    } else if key == ".bashrc"@ {
        assert(spec_name_tags(key) == set!["text"@, "shell"@, "bash"@]);
    } else if key == ".gitignore"@ {
        assert(spec_name_tags(key) == set!["text"@, "gitignore"@]);
    } else if key == ".zshrc"@ {
        assert(spec_name_tags(key) == set!["text"@, "shell"@, "zsh"@]);
    } else {
        assert(spec_name_tags(key) == Set::<Seq<char>>::empty());
    }
    if key == "plist"@ {
        assert(spec_binary_check_tags(key) == set!["plist"@]);
    } else {
        assert(spec_binary_check_tags(key) == Set::<Seq<char>>::empty());
    }

}

/// A tag set clear of the six reserved type and mode tags.
pub open spec fn reserved_free(s: Set<Seq<char>>) -> bool {
    !s.contains("file"@) && !s.contains("directory"@) && !s.contains("symlink"@) && !s.contains(
        "socket"@,
    ) && !s.contains("executable"@) && !s.contains("non-executable"@)
}

/// No entry of any static table carries a type or mode tag: those six
/// tags come only from the classifier itself.
#[verifier::rlimit(100)]
pub proof fn lemma_table_reserved(key: Seq<char>)
    ensures
        reserved_free(spec_extension_tags(key)),
        reserved_free(spec_binary_check_tags(key)),
        reserved_free(spec_name_tags(key)),
        reserved_free(spec_interpreter_tags(key)),
        !spec_interpreter_tags(key).contains("text"@),
        !spec_interpreter_tags(key).contains("binary"@),
{
    broadcast use vstd::string::group_string_axioms;

    reveal_strlit("file");
    reveal_strlit("directory");
    reveal_strlit("symlink");
    reveal_strlit("socket");
    reveal_strlit("executable");
    reveal_strlit("non-executable");
    reveal_strlit("text");
    reveal_strlit("shell");
    reveal_strlit("bash");
    reveal_strlit("batch");
    reveal_strlit("bazel");
    reveal_strlit("c");
    reveal_strlit("c++");
    reveal_strlit("css");
    reveal_strlit("csv");
    reveal_strlit("go");
    reveal_strlit("html");
    reveal_strlit("ini");
    reveal_strlit("javascript");
    reveal_strlit("json");
    reveal_strlit("markdown");
    reveal_strlit("plain-text");
    reveal_strlit("perl");
    reveal_strlit("php");
    reveal_strlit("python");
    reveal_strlit("ruby");
    reveal_strlit("rust");
    reveal_strlit("sh");
    reveal_strlit("image");
    reveal_strlit("svg");
    reveal_strlit("toml");
    reveal_strlit("ts");
    reveal_strlit("xml");
    reveal_strlit("yaml");
    reveal_strlit("zsh");
    reveal_strlit("binary");
    reveal_strlit("bitmap");
    reveal_strlit("gif");
    reveal_strlit("gzip");
    reveal_strlit("icon");
    reveal_strlit("jpeg");
    reveal_strlit("pdf");
    reveal_strlit("png");
    reveal_strlit("tar");
    reveal_strlit("zip");
    reveal_strlit("cargo");
    reveal_strlit("dockerfile");
    reveal_strlit("makefile");
    reveal_strlit("meson");
    reveal_strlit("gitignore");
    reveal_strlit("ash");
    reveal_strlit("awk");
    reveal_strlit("bats");
    reveal_strlit("cbsd");
    reveal_strlit("csh");
    reveal_strlit("dash");
    reveal_strlit("expect");
    reveal_strlit("ksh");
    reveal_strlit("php7");
    reveal_strlit("php8");
    reveal_strlit("python2");
    reveal_strlit("python3");
    reveal_strlit("tcsh");
    reveal_strlit("plist");
    assert("file"@.len() == 4);
    assert("directory"@.len() == 9);
    assert("symlink"@.len() == 7);
    assert("socket"@.len() == 6);
    assert("executable"@.len() == 10);
    assert("non-executable"@.len() == 14);
    assert("text"@.len() == 4);
    assert("shell"@.len() == 5);
    assert("bash"@.len() == 4);
    assert("batch"@.len() == 5);
    assert("bazel"@.len() == 5);
    assert("c"@.len() == 1);
    assert("c++"@.len() == 3);
    assert("css"@.len() == 3);
    assert("csv"@.len() == 3);
    assert("go"@.len() == 2);
    assert("html"@.len() == 4);
    assert("ini"@.len() == 3);
    assert("javascript"@.len() == 10);
    assert("json"@.len() == 4);
    assert("markdown"@.len() == 8);
    assert("plain-text"@.len() == 10);
    assert("perl"@.len() == 4);
    assert("php"@.len() == 3);
    assert("python"@.len() == 6);
    assert("ruby"@.len() == 4);
    assert("rust"@.len() == 4);
    assert("sh"@.len() == 2);
    assert("image"@.len() == 5);
    assert("svg"@.len() == 3);
    assert("toml"@.len() == 4);
    assert("ts"@.len() == 2);
    assert("xml"@.len() == 3);
    assert("yaml"@.len() == 4);
    assert("zsh"@.len() == 3);
    assert("binary"@.len() == 6);
    assert("bitmap"@.len() == 6);
    assert("gif"@.len() == 3);
    assert("gzip"@.len() == 4);
    assert("icon"@.len() == 4);
    assert("jpeg"@.len() == 4);
    assert("pdf"@.len() == 3);
    assert("png"@.len() == 3);
    assert("tar"@.len() == 3);
    assert("zip"@.len() == 3);
    assert("cargo"@.len() == 5);
    assert("dockerfile"@.len() == 10);
    assert("makefile"@.len() == 8);
    assert("meson"@.len() == 5);
    assert("gitignore"@.len() == 9);
    assert("ash"@.len() == 3);
    assert("awk"@.len() == 3);
    assert("bats"@.len() == 4);
    assert("cbsd"@.len() == 4);
    assert("csh"@.len() == 3);
    assert("dash"@.len() == 4);
    assert("expect"@.len() == 6);
    assert("ksh"@.len() == 3);
    assert("php7"@.len() == 4);
    assert("php8"@.len() == 4);
    assert("python2"@.len() == 7);
    assert("python3"@.len() == 7);
    assert("tcsh"@.len() == 4);
    assert("plist"@.len() == 5);
    assert("file"@[0] == 'f');
    assert("directory"@[0] == 'd');
    assert("symlink"@[0] == 's');
    assert("socket"@[0] == 's');
    assert("executable"@[0] == 'e');
    assert("non-executable"@[0] == 'n');
    assert("text"@[0] == 't');
    assert("shell"@[0] == 's');
    assert("bash"@[0] == 'b');
    assert("batch"@[0] == 'b');
    assert("bazel"@[0] == 'b');
    assert("c"@[0] == 'c');
    assert("c++"@[0] == 'c');
    assert("css"@[0] == 'c');
    assert("csv"@[0] == 'c');
    assert("go"@[0] == 'g');
    assert("html"@[0] == 'h');
    assert("ini"@[0] == 'i');
    assert("javascript"@[0] == 'j');
    assert("json"@[0] == 'j');
    assert("markdown"@[0] == 'm');
    assert("plain-text"@[0] == 'p');
    assert("perl"@[0] == 'p');
    assert("php"@[0] == 'p');
    assert("python"@[0] == 'p');
    assert("ruby"@[0] == 'r');
    assert("rust"@[0] == 'r');
    assert("sh"@[0] == 's');
    assert("image"@[0] == 'i');
    assert("svg"@[0] == 's');
    assert("toml"@[0] == 't');
    assert("ts"@[0] == 't');
    assert("xml"@[0] == 'x');
    assert("yaml"@[0] == 'y');
    assert("zsh"@[0] == 'z');
    assert("binary"@[0] == 'b');
    assert("bitmap"@[0] == 'b');
    assert("gif"@[0] == 'g');
    assert("gzip"@[0] == 'g');
    assert("icon"@[0] == 'i');
    assert("jpeg"@[0] == 'j');
    assert("pdf"@[0] == 'p');
    assert("png"@[0] == 'p');
    assert("tar"@[0] == 't');
    assert("zip"@[0] == 'z');
    assert("cargo"@[0] == 'c');
    assert("dockerfile"@[0] == 'd');
    assert("makefile"@[0] == 'm');
    assert("meson"@[0] == 'm');
    assert("gitignore"@[0] == 'g');
    assert("ash"@[0] == 'a');
    assert("awk"@[0] == 'a');
    assert("bats"@[0] == 'b');
    assert("cbsd"@[0] == 'c');
    assert("csh"@[0] == 'c');
    assert("dash"@[0] == 'd');
    assert("expect"@[0] == 'e');
    assert("ksh"@[0] == 'k');
    assert("php7"@[0] == 'p');
    assert("php8"@[0] == 'p');
    assert("python2"@[0] == 'p');
    assert("python3"@[0] == 'p');
    assert("tcsh"@[0] == 't');
    assert("plist"@[0] == 'p');
    assert("text"@[1] == 'e');
    assert("tcsh"@[1] == 'c');
    if key == "bash"@ {
        assert(spec_extension_tags(key) == set!["text"@, "shell"@, "bash"@]);
    } else if key == "bat"@ {
        assert(spec_extension_tags(key) == set!["text"@, "batch"@]);
    } else if key == "bazel"@ {
        assert(spec_extension_tags(key) == set!["text"@, "bazel"@]);
    } else if key == "c"@ {
        assert(spec_extension_tags(key) == set!["text"@, "c"@]);
    } else if key == "cfg"@ {
        assert(spec_extension_tags(key) == set!["text"@]);
    } else if key == "cpp"@ {
        assert(spec_extension_tags(key) == set!["text"@, "c++"@]);
    } else if key == "css"@ {
        assert(spec_extension_tags(key) == set!["text"@, "css"@]);
    } else if key == "csv"@ {
        assert(spec_extension_tags(key) == set!["text"@, "csv"@]);
    } else if key == "go"@ {
        assert(spec_extension_tags(key) == set!["text"@, "go"@]);
    } else if key == "h"@ {
        assert(spec_extension_tags(key) == set!["text"@, "c"@]);
    } else if key == "html"@ {
        assert(spec_extension_tags(key) == set!["text"@, "html"@]);
    } else if key == "ini"@ {
        assert(spec_extension_tags(key) == set!["text"@, "ini"@]);
    } else if key == "js"@ {
        assert(spec_extension_tags(key) == set!["text"@, "javascript"@]);
    } else if key == "json"@ {
        assert(spec_extension_tags(key) == set!["text"@, "json"@]);
    } else if key == "md"@ {
        assert(spec_extension_tags(key) == set!["text"@, "markdown"@, "plain-text"@]);
    } else if key == "pl"@ {
        assert(spec_extension_tags(key) == set!["text"@, "perl"@]);
    } else if key == "php"@ {
        assert(spec_extension_tags(key) == set!["text"@, "php"@]);
    } else if key == "py"@ {
        assert(spec_extension_tags(key) == set!["text"@, "python"@]);
    } else if key == "rb"@ {
        assert(spec_extension_tags(key) == set!["text"@, "ruby"@]);
    } else if key == "rs"@ {
        assert(spec_extension_tags(key) == set!["text"@, "rust"@]);
    } else if key == "sh"@ {
        assert(spec_extension_tags(key) == set!["text"@, "shell"@, "sh"@]);
    } else if key == "svg"@ {
        assert(spec_extension_tags(key) == set!["text"@, "image"@, "svg"@]);
    } else if key == "toml"@ {
        assert(spec_extension_tags(key) == set!["text"@, "toml"@]);
    } else if key == "ts"@ {
        assert(spec_extension_tags(key) == set!["text"@, "ts"@]);
    } else if key == "txt"@ {
        assert(spec_extension_tags(key) == set!["text"@, "plain-text"@]);
    } else if key == "xml"@ {
        assert(spec_extension_tags(key) == set!["text"@, "xml"@]);
    } else if key == "yaml"@ {
        assert(spec_extension_tags(key) == set!["text"@, "yaml"@]);
    } else if key == "yml"@ {
        assert(spec_extension_tags(key) == set!["text"@, "yaml"@]);
    } else if key == "zsh"@ {
        assert(spec_extension_tags(key) == set!["text"@, "shell"@, "zsh"@]);
    } else if key == "bin"@ {
        assert(spec_extension_tags(key) == set!["binary"@]);
    } else if key == "bmp"@ {
        assert(spec_extension_tags(key) == set!["binary"@, "image"@, "bitmap"@]);
    } else if key == "exe"@ {
        assert(spec_extension_tags(key) == set!["binary"@]);
    } else if key == "gif"@ {
        assert(spec_extension_tags(key) == set!["binary"@, "image"@, "gif"@]);
    } else if key == "gz"@ {
        assert(spec_extension_tags(key) == set!["binary"@, "gzip"@]);
    } else if key == "ico"@ {
        assert(spec_extension_tags(key) == set!["binary"@, "icon"@]);
    } else if key == "jpeg"@ {
        assert(spec_extension_tags(key) == set!["binary"@, "image"@, "jpeg"@]);
    } else if key == "jpg"@ {
        assert(spec_extension_tags(key) == set!["binary"@, "image"@, "jpeg"@]);
    } else if key == "pdf"@ {
        assert(spec_extension_tags(key) == set!["binary"@, "pdf"@]);
    } else if key == "png"@ {
        assert(spec_extension_tags(key) == set!["binary"@, "image"@, "png"@]);
    } else if key == "so"@ {
        assert(spec_extension_tags(key) == set!["binary"@]);
    } else if key == "tar"@ {
        assert(spec_extension_tags(key) == set!["binary"@, "tar"@]);
    } else if key == "zip"@ {
        assert(spec_extension_tags(key) == set!["binary"@, "zip"@]);
    } else {
        assert(spec_extension_tags(key) == Set::<Seq<char>>::empty());
    }
    if key == "BUILD"@ {
        assert(spec_name_tags(key) == set!["text"@, "bazel"@]);
    } else if key == "Cargo.toml"@ {
        assert(spec_name_tags(key) == set!["text"@, "toml"@, "cargo"@]);
    } else if key == "Dockerfile"@ {
        assert(spec_name_tags(key) == set!["text"@, "dockerfile"@]);
    } else if key == "Makefile"@ {
        assert(spec_name_tags(key) == set!["text"@, "makefile"@]);
    } else if key == "meson.build"@ {
        assert(spec_name_tags(key) == set!["text"@, "meson"@]);
    } else if key == "setup.cfg"@ {
        assert(spec_name_tags(key) == set!["text"@, "ini"@]);
    } else if key == ".bashrc"@ {
        assert(spec_name_tags(key) == set!["text"@, "shell"@, "bash"@]);
    } else if key == ".gitignore"@ {
        assert(spec_name_tags(key) == set!["text"@, "gitignore"@]);
    } else if key == ".zshrc"@ {
        assert(spec_name_tags(key) == set!["text"@, "shell"@, "zsh"@]);
    } else {
        assert(spec_name_tags(key) == Set::<Seq<char>>::empty());
    }
    if key == "ash"@ {
        assert(spec_interpreter_tags(key) == set!["shell"@, "ash"@]);
    } else if key == "awk"@ {
        assert(spec_interpreter_tags(key) == set!["awk"@]);
    } else if key == "bash"@ {
        assert(spec_interpreter_tags(key) == set!["shell"@, "bash"@]);
    } else if key == "bats"@ {
        assert(spec_interpreter_tags(key) == set!["shell"@, "bash"@, "bats"@]);
    } else if key == "cbsd"@ {
        assert(spec_interpreter_tags(key) == set!["shell"@, "cbsd"@]);
    } else if key == "csh"@ {
        assert(spec_interpreter_tags(key) == set!["shell"@, "csh"@]);
    } else if key == "dash"@ {
        assert(spec_interpreter_tags(key) == set!["shell"@, "dash"@]);
    } else if key == "expect"@ {
        assert(spec_interpreter_tags(key) == set!["expect"@]);
    } else if key == "ksh"@ {
        assert(spec_interpreter_tags(key) == set!["shell"@, "ksh"@]);
    } else if key == "node"@ {
        assert(spec_interpreter_tags(key) == set!["javascript"@]);
    } else if key == "nodejs"@ {
        assert(spec_interpreter_tags(key) == set!["javascript"@]);
    } else if key == "perl"@ {
        assert(spec_interpreter_tags(key) == set!["perl"@]);
    } else if key == "php"@ {
        assert(spec_interpreter_tags(key) == set!["php"@]);
    } else if key == "php7"@ {
        assert(spec_interpreter_tags(key) == set!["php"@, "php7"@]);
    } else if key == "php8"@ {
        assert(spec_interpreter_tags(key) == set!["php"@, "php8"@]);
    } else if key == "python"@ {
        assert(spec_interpreter_tags(key) == set!["python"@]);
    } else if key == "python2"@ {
        assert(spec_interpreter_tags(key) == set!["python"@, "python2"@]);
    } else if key == "python3"@ {
        assert(spec_interpreter_tags(key) == set!["python"@, "python3"@]);
    } else if key == "ruby"@ {
        assert(spec_interpreter_tags(key) == set!["ruby"@]);
    } else if key == "sh"@ {
        assert(spec_interpreter_tags(key) == set!["shell"@, "sh"@]);
    } else if key == "tcsh"@ {
        assert(spec_interpreter_tags(key) == set!["shell"@, "tcsh"@]);
    } else if key == "zsh"@ {
        assert(spec_interpreter_tags(key) == set!["shell"@, "zsh"@]);
    } else {
        assert(spec_interpreter_tags(key) == Set::<Seq<char>>::empty());
    }
    if key == "plist"@ {
        assert(spec_binary_check_tags(key) == set!["plist"@]);
    } else {
        assert(spec_binary_check_tags(key) == Set::<Seq<char>>::empty());
    }
}


/// The interpreter table: the basename of a shebang interpreter, possibly
/// already stripped of a version suffix, maps to the tags of its language.
pub open spec fn spec_interpreter_tags(interp: Seq<char>) -> Set<Seq<char>> {
    if interp == "ash"@ {
        set!["shell"@, "ash"@]
    } else if interp == "awk"@ {
        set!["awk"@]
    } else if interp == "bash"@ {
        set!["shell"@, "bash"@]
    } else if interp == "bats"@ {
        set!["shell"@, "bash"@, "bats"@]
    } else if interp == "cbsd"@ {
        set!["shell"@, "cbsd"@]
    } else if interp == "csh"@ {
        set!["shell"@, "csh"@]
    } else if interp == "dash"@ {
        set!["shell"@, "dash"@]
    } else if interp == "expect"@ {
        set!["expect"@]
    } else if interp == "ksh"@ {
        set!["shell"@, "ksh"@]
    } else if interp == "node"@ {
        set!["javascript"@]
    } else if interp == "nodejs"@ {
        set!["javascript"@]
    } else if interp == "perl"@ {
        set!["perl"@]
    } else if interp == "php"@ {
        set!["php"@]
    } else if interp == "php7"@ {
        set!["php"@, "php7"@]
    } else if interp == "php8"@ {
        set!["php"@, "php8"@]
    } else if interp == "python"@ {
        set!["python"@]
    } else if interp == "python2"@ {
        set!["python"@, "python2"@]
    } else if interp == "python3"@ {
        set!["python"@, "python3"@]
    } else if interp == "ruby"@ {
        set!["ruby"@]
    } else if interp == "sh"@ {
        set!["shell"@, "sh"@]
    } else if interp == "tcsh"@ {
        set!["shell"@, "tcsh"@]
    } else if interp == "zsh"@ {
        set!["shell"@, "zsh"@]
    } else {
        Set::empty()
    }
}

/// Looks up an interpreter name in the interpreter table.
pub fn get_interpreter_tags(interp: &str) -> (r: TagSet)
    ensures
        r@ == spec_interpreter_tags(interp@),
{
    if str_eq(interp, "ash") {
        tag_set2("shell", "ash")
    } else if str_eq(interp, "awk") {
        tag_set1("awk")
    } else if str_eq(interp, "bash") {
        tag_set2("shell", "bash")
    } else if str_eq(interp, "bats") {
        tag_set3("shell", "bash", "bats")
    } else if str_eq(interp, "cbsd") {
        tag_set2("shell", "cbsd")
    } else if str_eq(interp, "csh") {
        tag_set2("shell", "csh")
    } else if str_eq(interp, "dash") {
        tag_set2("shell", "dash")
    } else if str_eq(interp, "expect") {
        tag_set1("expect")
    } else if str_eq(interp, "ksh") {
        tag_set2("shell", "ksh")
    } else if str_eq(interp, "node") {
        tag_set1("javascript")
    } else if str_eq(interp, "nodejs") {
        tag_set1("javascript")
    } else if str_eq(interp, "perl") {
        tag_set1("perl")
    } else if str_eq(interp, "php") {
        tag_set1("php")
    } else if str_eq(interp, "php7") {
        tag_set2("php", "php7")
    } else if str_eq(interp, "php8") {
        tag_set2("php", "php8")
    } else if str_eq(interp, "python") {
        tag_set1("python")
    } else if str_eq(interp, "python2") {
        tag_set2("python", "python2")
    } else if str_eq(interp, "python3") {
        tag_set2("python", "python3")
    } else if str_eq(interp, "ruby") {
        tag_set1("ruby")
    } else if str_eq(interp, "sh") {
        tag_set2("shell", "sh")
    } else if str_eq(interp, "tcsh") {
        tag_set2("shell", "tcsh")
    } else if str_eq(interp, "zsh") {
        tag_set2("shell", "zsh")
    } else {
        TagSet::new()
    }
}

} // verus!
