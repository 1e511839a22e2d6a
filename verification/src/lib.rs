//! Classifies a filesystem entry, a bare filename, or an interpreter token
//! into a set of descriptive tags (`python`, `shell`, `text`, `binary`,
//! `executable`, ...) by combining static lookup tables with an executable-bit
//! check, a text/binary content heuristic, and a shebang-line parser.

use vstd::prelude::*;

pub mod classify;
pub mod error;
pub mod filename;
pub mod resolve;
pub mod shebang;
pub mod strutil;
pub mod tables;
pub mod tags;

pub use classify::EntryKind;
pub use classify::FileIdentifier;
pub use classify::tags_from_entry;
pub use error::IdentifyError;
pub use filename::tags_from_filename;
pub use resolve::tags_from_interpreter;
pub use shebang::ShebangTuple;
pub use shebang::parse_shebang;
pub use tags::TagSet;

verus! {

/// A byte that may appear in text content: the tolerated control codes
/// (bell, backspace, tab, line feed, vertical tab, form feed, carriage
/// return, escape), printable ASCII, or any extended byte.
pub open spec fn is_text_byte(b: u8) -> bool {
    b == 7 || b == 8 || b == 9 || b == 10 || b == 11 || b == 12 || b == 13 || b == 27 || (0x20 <= b
        && b < 0x7f) || 0x80 <= b
}

/// How many leading bytes of a source take part in content sniffing.
pub open spec fn spec_sniff_len(data: Seq<u8>) -> int {
    if data.len() <= 1024 {
        data.len() as int
    } else {
        1024
    }
}

/// Whether a byte source counts as text: every byte in its bounded prefix
/// belongs to the text byte set. An empty source is text.
pub open spec fn spec_is_text(data: Seq<u8>) -> bool {
    forall|i: int| 0 <= i < spec_sniff_len(data) ==> is_text_byte(#[trigger] data[i])
}

/// Classifies a byte source as text or binary by inspecting at most its
/// first 1024 bytes.
pub fn is_text(data: &[u8]) -> (r: bool)
    ensures
        r == spec_is_text(data@),
{
    let n: usize = if data.len() <= 1024 {
        data.len()
    } else {
        1024
    };
    let mut i: usize = 0;
    while i < n
        invariant
            0 <= i <= n,
            n == spec_sniff_len(data@),
            n <= data.len(),
            forall|k: int| 0 <= k < i ==> is_text_byte(#[trigger] data@[k]),
        decreases n - i,
    {
        if !byte_is_text(data[i]) {
            return false;
        }
        i += 1;
    }
    true
}

/// Whether one byte belongs to the text byte set.
pub fn byte_is_text(b: u8) -> (r: bool)
    ensures
        r == is_text_byte(b),
{
    b == 7 || b == 8 || b == 9 || b == 10 || b == 11 || b == 12 || b == 13 || b == 27 || (0x20 <= b
        && b < 0x7f) || 0x80 <= b
}

} // verus!
