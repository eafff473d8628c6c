//! Paths, and deciding whether one is longer than the limit.

use vstd::prelude::*;
use vstd::string::StrSliceExecFns;

verus! {

/// A path as a mathematical value.
pub struct PathView {
    /// The bytes of the path, as the file system holds it.
    pub bytes: Seq<u8>,
    /// The text that shows the path to a reader.
    pub text: Seq<char>,
}

/// A path as the file system gave it.
///
/// A name in a file system need not be valid text. The bytes are the path
/// itself: they are measured, and they are what names a directory to list.
/// The text is for reading, and may stand for the bytes only loosely.
#[derive(Debug)]
pub struct ScanPath {
    /// The bytes of the path.
    pub bytes: Vec<u8>,
    /// The text that shows the path.
    pub text: String,
}

impl View for ScanPath {
    type V = PathView;

    open spec fn view(&self) -> PathView {
        PathView { bytes: self.bytes@, text: self.text@ }
    }
}

impl ScanPath {
    /// The path with these bytes, shown as `text`.
    pub fn new(bytes: Vec<u8>, text: String) -> (path: ScanPath)
        ensures
            path@ == (PathView { bytes: bytes@, text: text@ }),
    {
        ScanPath { bytes, text }
    }

    /// The path that `text` writes: its bytes are those of the text in
    /// UTF-8.
    pub fn from_text(text: String) -> (path: ScanPath)
        ensures
            path@ == written(text@),
    {
        let bytes = text.as_str().as_bytes_vec();
        ScanPath { bytes, text }
    }
}

impl Clone for ScanPath {
    /// A copy with the same bytes and the same text.
    fn clone(&self) -> (copy: ScanPath)
        ensures
            copy@ == self@,
    {
        let bytes = self.bytes.clone();
        assert(bytes@ =~= self.bytes@);
        ScanPath { bytes, text: self.text.clone() }
    }
}

/// The path that `text` writes.
pub open spec fn written(text: Seq<char>) -> PathView {
    PathView { bytes: vstd::utf8::encode_utf8(text), text }
}

/// The length of a path: the number of its bytes.
pub open spec fn path_length(path: PathView) -> nat {
    path.bytes.len()
}

/// Whether a path is over `limit`: strictly longer than it.
pub open spec fn is_over_limit(path: PathView, limit: nat) -> bool {
    path_length(path) > limit
}

/// What the classifier found out about one path.
#[derive(Clone, Copy, Debug, PartialEq, Eq, Structural)]
pub struct Classification {
    /// Length of the path in bytes.
    pub length: usize,
    /// Whether that length is strictly greater than the limit.
    pub over_limit: bool,
}

/// Measures `path` and compares its length with `limit`.
///
/// A path whose length equals the limit is not over it.
pub fn classify(path: &ScanPath, limit: usize) -> (result: Classification)
    ensures
        result.length == path_length(path@),
        result.over_limit == is_over_limit(path@, limit as nat),
{
    let length: usize = path.bytes.len();
    Classification { length, over_limit: length > limit }
}

/// A path's text with the path's length, as a mathematical value.
pub struct LongPath {
    pub path: Seq<char>,
    pub size: nat,
}

/// The text of `path` with the length of `path`.
pub open spec fn measured(path: PathView) -> LongPath {
    LongPath { path: path.text, size: path_length(path) }
}

/// An entry whose path was found to be over the limit.
#[derive(Debug)]
pub struct OverLimit {
    /// The full path, as text.
    pub path: String,
    /// The length of that path in bytes.
    pub size: u64,
}

impl View for OverLimit {
    type V = LongPath;

    open spec fn view(&self) -> LongPath {
        LongPath { path: self.path@, size: self.size as nat }
    }
}

impl DeepView for OverLimit {
    type V = LongPath;

    open spec fn deep_view(&self) -> LongPath {
        self@
    }
}

impl OverLimit {
    /// An entry for `path` with the given length.
    pub fn new(path: String, size: u64) -> (entry: OverLimit)
        ensures
            entry@ == (LongPath { path: path@, size: size as nat }),
    {
        OverLimit { path, size }
    }
}

impl Clone for OverLimit {
    /// A copy with the same path and the same length.
    fn clone(&self) -> (copy: OverLimit)
        ensures
            copy@ == self@,
    {
        OverLimit { path: self.path.clone(), size: self.size }
    }
}

/// The views of a sequence of entries, in the same order.
pub open spec fn long_paths(entries: Seq<OverLimit>) -> Seq<LongPath> {
    entries.map_values(|e: OverLimit| e@)
}

/// The views of a sequence of paths, in the same order.
pub open spec fn paths(list: Seq<ScanPath>) -> Seq<PathView> {
    list.map_values(|p: ScanPath| p@)
}

} // verus!
