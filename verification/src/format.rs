//! Source kinds and their detection from a path's extension.
//!
//! Detection reads nothing but the path's text. The file name is what
//! follows the last separator (`/` or `\`, so that one path names one kind on
//! every platform); its extension is what follows its last `.`, unless that
//! dot opens the file name. The extension is compared without regard to
//! ASCII case.

use vstd::prelude::*;
use crate::error::ErrorKind;
use crate::text::{chars_of, spells};

verus! {

/// The kinds of source that the service distinguishes.
///
/// Detection yields `Csv`, `Tsv`, `JsonLines`, `Parquet` or `Xlsx` only; the
/// other two are for callers that describe a source themselves, and are read
/// as their nearest detectable kind (see [`SourceKind::resolved`]).
#[derive(Clone, Copy, Debug, PartialEq, Eq, Structural)]
pub enum SourceKind {
    Csv,
    Tsv,
    Json,
    JsonLines,
    Parquet,
    Xlsx,
    UnknownDefaultsToCsv,
}

impl SourceKind {
    /// The kind as which a source of this kind is read.
    pub open spec fn spec_resolved(self) -> SourceKind {
        match self {
            SourceKind::Json => SourceKind::JsonLines,
            SourceKind::UnknownDefaultsToCsv => SourceKind::Csv,
            other => other,
        }
    }

    /// Whether detection can yield this kind.
    pub open spec fn is_detectable(self) -> bool {
        self != SourceKind::Json && self != SourceKind::UnknownDefaultsToCsv
    }

    /// Whether SQL over the source's own columns is meaningful. A workbook
    /// is reported by its dimensions only.
    pub open spec fn spec_supports_full_query(self) -> bool {
        self != SourceKind::Xlsx
    }

    /// The tag under which the kind appears in a response.
    pub open spec fn spec_tag(self) -> Seq<char> {
        match self {
            SourceKind::Csv => "CSV"@,
            SourceKind::Tsv => "TSV"@,
            SourceKind::Json => "JSON"@,
            SourceKind::JsonLines => "JSONL"@,
            SourceKind::Parquet => "PARQUET"@,
            SourceKind::Xlsx => "XLSX"@,
            SourceKind::UnknownDefaultsToCsv => "CSV"@,
        }
    }

    #[verifier::when_used_as_spec(spec_resolved)]
    pub fn resolved(self) -> (kind: SourceKind)
        ensures
            kind == self.spec_resolved(),
            kind.is_detectable(),
    {
        match self {
            SourceKind::Json => SourceKind::JsonLines,
            SourceKind::UnknownDefaultsToCsv => SourceKind::Csv,
            other => other,
        }
    }

    #[verifier::when_used_as_spec(spec_supports_full_query)]
    pub fn supports_full_query(self) -> (b: bool)
        ensures
            b == self.spec_supports_full_query(),
    {
        !matches!(self, SourceKind::Xlsx)
    }

    /// Answers a request for the source's own rows: granted, or refused
    /// as unsupported for a kind that is reported by its dimensions only.
    pub fn require_full_query(self) -> (granted: Result<(), ErrorKind>)
        ensures
            granted == if self.spec_supports_full_query() {
                Ok::<(), ErrorKind>(())
            } else {
                Err::<(), ErrorKind>(ErrorKind::UnsupportedFormat)
            },
    {
        if self.supports_full_query() {
            Ok(())
        } else {
            Err(ErrorKind::UnsupportedFormat)
        }
    }

    pub fn tag(self) -> (t: &'static str)
        ensures
            t@ == self.spec_tag(),
    {
        match self {
            SourceKind::Csv => "CSV",
            SourceKind::Tsv => "TSV",
            SourceKind::Json => "JSON",
            SourceKind::JsonLines => "JSONL",
            SourceKind::Parquet => "PARQUET",
            SourceKind::Xlsx => "XLSX",
            SourceKind::UnknownDefaultsToCsv => "CSV",
        }
    }
}

pub open spec fn is_separator(c: char) -> bool {
    c == '/' || c == '\\'
}

/// The lower-case form of an ASCII capital; any other character itself.
pub open spec fn ascii_lower(c: char) -> char {
    if 'A' <= c <= 'Z' {
        ((c as u8) + 32) as char
    } else {
        c
    }
}

pub open spec fn lowered(s: Seq<char>) -> Seq<char> {
    s.map_values(|c: char| ascii_lower(c))
}

/// Where the file name starts in `path`: behind its last separator, or at 0.
pub open spec fn file_name_start(path: Seq<char>) -> int
    decreases path.len(),
{
    if path.len() == 0 {
        0
    } else if is_separator(path.last()) {
        path.len() as int
    } else {
        file_name_start(path.drop_last())
    }
}

pub open spec fn file_name(path: Seq<char>) -> Seq<char> {
    path.skip(file_name_start(path))
}

/// The position of the last `.` in `name`, if it holds one.
pub open spec fn last_dot(name: Seq<char>) -> Option<int>
    decreases name.len(),
{
    if name.len() == 0 {
        None
    } else if name.last() == '.' {
        Some(name.len() - 1)
    } else {
        last_dot(name.drop_last())
    }
}

/// The extension of the file that `path` names: what follows the file
/// name's last dot. A file name without a dot, or whose only dot is its
/// first character, has none.
pub open spec fn extension(path: Seq<char>) -> Option<Seq<char>> {
    let name = file_name(path);
    match last_dot(name) {
        Some(dot) => if dot > 0 {
            Some(name.skip(dot + 1))
        } else {
            None
        },
        None => None,
    }
}

/// The kind that an extension stands for. Anything unrecognised, and a
/// missing extension, is read as delimited text.
pub open spec fn kind_of_extension(ext: Option<Seq<char>>) -> SourceKind {
    match ext {
        None => SourceKind::Csv,
        Some(e) => {
            let word = lowered(e);
            if word == "csv"@ {
                SourceKind::Csv
            } else if word == "tsv"@ {
                SourceKind::Tsv
            } else if word == "json"@ || word == "jsonl"@ {
                SourceKind::JsonLines
            } else if word == "parquet"@ {
                SourceKind::Parquet
            } else if word == "xlsx"@ {
                SourceKind::Xlsx
            } else {
                SourceKind::Csv
            }
        },
    }
}

pub open spec fn detected_kind(path: Seq<char>) -> SourceKind {
    kind_of_extension(extension(path))
}

fn lower(c: char) -> (r: char)
    ensures
        r == ascii_lower(c),
{
    if 'A' <= c && c <= 'Z' {
        let b: u8 = c as u8;
        (b + 32) as char
    } else {
        c
    }
}

fn name_start_of(chars: &Vec<char>) -> (start: usize)
    ensures
        start == file_name_start(chars@),
        start <= chars@.len(),
{
    let mut start: usize = 0;
    let mut i: usize = 0;
    while i < chars.len()
        invariant
            i <= chars@.len(),
            start <= i,
            start == file_name_start(chars@.take(i as int)),
        decreases chars@.len() - i,
    {
        proof {
            assert(chars@.take(i + 1).drop_last() =~= chars@.take(i as int));
        }
        let c = chars[i];
        if c == '/' || c == '\\' {
            start = i + 1;
        }
        i += 1;
    }
    proof {
        assert(chars@.take(i as int) =~= chars@);
    }
    start
}

/// The position in `chars` of the last dot at or behind `start`.
fn last_dot_from(chars: &Vec<char>, start: usize) -> (dot: Option<usize>)
    requires
        start <= chars@.len(),
    ensures
        match dot {
            Some(d) => start <= d < chars@.len() && last_dot(chars@.skip(start as int)) == Some(
                d - start,
            ),
            None => last_dot(chars@.skip(start as int)) is None,
        },
{
    let mut dot: Option<usize> = None;
    let mut i: usize = start;
    while i < chars.len()
        invariant
            start <= i <= chars@.len(),
            match dot {
                Some(d) => start <= d < i && last_dot(chars@.subrange(start as int, i as int))
                    == Some(d - start),
                None => last_dot(chars@.subrange(start as int, i as int)) is None,
            },
        decreases chars@.len() - i,
    {
        proof {
            assert(chars@.subrange(start as int, i + 1).drop_last() =~= chars@.subrange(
                start as int,
                i as int,
            ));
        }
        if chars[i] == '.' {
            dot = Some(i);
        }
        i += 1;
    }
    proof {
        assert(chars@.subrange(start as int, i as int) =~= chars@.skip(start as int));
    }
    dot
}

/// The lowered characters of `chars` from `from` on.
fn lowered_tail(chars: &Vec<char>, from: usize) -> (tail: Vec<char>)
    requires
        from <= chars@.len(),
    ensures
        tail@ == lowered(chars@.skip(from as int)),
{
    let mut tail: Vec<char> = Vec::new();
    let mut i: usize = from;
    while i < chars.len()
        invariant
            from <= i <= chars@.len(),
            tail@ == lowered(chars@.subrange(from as int, i as int)),
        decreases chars@.len() - i,
    {
        tail.push(lower(chars[i]));
        proof {
            assert(tail@ =~= lowered(chars@.subrange(from as int, i + 1)));
        }
        i += 1;
    }
    proof {
        assert(chars@.subrange(from as int, i as int) =~= chars@.skip(from as int));
    }
    tail
}

fn kind_of_word(word: &Vec<char>) -> (kind: SourceKind)
    ensures
        forall|e: Seq<char>| lowered(e) == word@ ==> kind == kind_of_extension(Some(e)),
{
    if spells(word, "csv") {
        SourceKind::Csv
    } else if spells(word, "tsv") {
        SourceKind::Tsv
    } else if spells(word, "json") || spells(word, "jsonl") {
        SourceKind::JsonLines
    } else if spells(word, "parquet") {
        SourceKind::Parquet
    } else if spells(word, "xlsx") {
        SourceKind::Xlsx
    } else {
        SourceKind::Csv
    }
}

/// Detects the kind of the source that `path` names, from its extension
/// alone. Nothing is read, and every path has a kind.
pub fn detect(path: &str) -> (kind: SourceKind)
    ensures
        kind == detected_kind(path@),
        kind.is_detectable(),
{
    let chars = chars_of(path);
    let start = name_start_of(&chars);
    match last_dot_from(&chars, start) {
        Some(dot) => {
            if dot > start {
                assert(dot < chars.len());
                let word = lowered_tail(&chars, dot + 1);
                proof {
                    let name = file_name(path@);
                    assert(name.skip(dot - start + 1) =~= chars@.skip(dot + 1));
                }
                kind_of_word(&word)
            } else {
                SourceKind::Csv
            }
        },
        None => SourceKind::Csv,
    }
}

/// Detection looks at the extension only, and at that without regard to
/// ASCII case: two paths whose extensions are both missing, or both present
/// and equal once lowered, are of the same kind.
pub proof fn lemma_kind_depends_on_extension_only(a: Seq<char>, b: Seq<char>)
    requires
        extension(a) is Some <==> extension(b) is Some,
        extension(a) is Some ==> lowered(extension(a)->0) == lowered(extension(b)->0),
    ensures
        detected_kind(a) == detected_kind(b),
{
}

/// A source to load: its path and the kind detected from it.
pub struct SourceDescriptor {
    path: String,
    detected_kind: SourceKind,
}

impl SourceDescriptor {
    #[verifier::type_invariant]
    spec fn consistent(self) -> bool {
        self.detected_kind == detected_kind(self.path@)
    }

    pub closed spec fn spec_path(self) -> Seq<char> {
        self.path@
    }

    pub closed spec fn spec_kind(self) -> SourceKind {
        self.detected_kind
    }

    /// Describes the source at `path`; its kind is detected here, once.
    pub fn new(path: String) -> (descriptor: SourceDescriptor)
        ensures
            descriptor.spec_path() == path@,
            descriptor.spec_kind() == detected_kind(path@),
    {
        let detected_kind = detect(path.as_str());
        SourceDescriptor { path, detected_kind }
    }

    pub fn path(&self) -> (path: &str)
        ensures
            path@ == self.spec_path(),
    {
        self.path.as_str()
    }

    pub fn kind(&self) -> (kind: SourceKind)
        ensures
            kind == self.spec_kind(),
            kind == detected_kind(self.spec_path()),
            kind.is_detectable(),
    {
        proof {
            use_type_invariant(self);
        }
        self.detected_kind
    }
}

} // verus!
