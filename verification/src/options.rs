//! How a source is read: the options a caller may set, and the reader that
//! a kind and its options select.

use vstd::prelude::*;
use crate::format::SourceKind;

verus! {

/// Options for reading a source. `infer_schema_depth` is the number of
/// records sampled to infer column types; `None` scans the whole source.
#[derive(Clone, Copy, Debug)]
pub struct LoadOptions {
    pub has_header: bool,
    pub delimiter: u8,
    pub infer_schema_depth: Option<usize>,
}

pub const COMMA: u8 = 44;

pub const TAB: u8 = 9;

impl LoadOptions {
    /// The defaults for a kind: a header row, a comma between fields (a tab
    /// for tab-separated text), types inferred from the whole source.
    pub open spec fn spec_for_kind(kind: SourceKind) -> LoadOptions {
        LoadOptions {
            has_header: true,
            delimiter: if kind == SourceKind::Tsv {
                TAB
            } else {
                COMMA
            },
            infer_schema_depth: None,
        }
    }

    #[verifier::when_used_as_spec(spec_for_kind)]
    pub fn for_kind(kind: SourceKind) -> (options: LoadOptions)
        ensures
            options == Self::spec_for_kind(kind),
    {
        let delimiter: u8 = match kind {
            SourceKind::Tsv => TAB,
            _ => COMMA,
        };
        LoadOptions { has_header: true, delimiter, infer_schema_depth: None }
    }
}

impl Default for LoadOptions {
    fn default() -> (options: LoadOptions)
        ensures
            options == LoadOptions::spec_for_kind(SourceKind::Csv),
    {
        LoadOptions::for_kind(SourceKind::Csv)
    }
}

/// A deferred scan: how a source is read once its plan is materialized.
#[derive(Clone, Copy, Debug)]
pub enum Scan {
    /// Delimited text.
    Delimited { has_header: bool, delimiter: u8, infer_schema_depth: Option<usize> },
    /// Line-delimited JSON. A depth, where there is one, is at least 1.
    JsonLines { infer_schema_depth: Option<usize> },
    /// A columnar file; its own schema gives the types.
    Parquet,
}

/// How a source is reached.
#[derive(Clone, Copy, Debug)]
pub enum Reader {
    /// By a scan that is only described now.
    Deferred(Scan),
    /// A workbook: it is opened at once and reported by the dimensions of
    /// its first sheet.
    Workbook,
}

/// The reader that `kind` and `options` select. Line-delimited JSON cannot
/// be sampled to a depth of 0 and is then scanned whole.
pub open spec fn spec_reader_for(kind: SourceKind, options: LoadOptions) -> Reader {
    match kind.spec_resolved() {
        SourceKind::JsonLines => Reader::Deferred(
            Scan::JsonLines {
                infer_schema_depth: if options.infer_schema_depth == Some(0usize) {
                    None
                } else {
                    options.infer_schema_depth
                },
            },
        ),
        SourceKind::Parquet => Reader::Deferred(Scan::Parquet),
        SourceKind::Xlsx => Reader::Workbook,
        _ => Reader::Deferred(
            Scan::Delimited {
                has_header: options.has_header,
                delimiter: options.delimiter,
                infer_schema_depth: options.infer_schema_depth,
            },
        ),
    }
}

#[verifier::when_used_as_spec(spec_reader_for)]
pub fn reader_for(kind: SourceKind, options: LoadOptions) -> (reader: Reader)
    ensures
        reader == spec_reader_for(kind, options),
        reader is Deferred <==> kind.spec_resolved().spec_supports_full_query(),
{
    match kind.resolved() {
        SourceKind::JsonLines => {
            let infer_schema_depth = match options.infer_schema_depth {
                Some(depth) => if depth == 0 {
                    None
                } else {
                    Some(depth)
                },
                None => None,
            };
            Reader::Deferred(Scan::JsonLines { infer_schema_depth })
        },
        SourceKind::Parquet => Reader::Deferred(Scan::Parquet),
        SourceKind::Xlsx => Reader::Workbook,
        _ => Reader::Deferred(
            Scan::Delimited {
                has_header: options.has_header,
                delimiter: options.delimiter,
                infer_schema_depth: options.infer_schema_depth,
            },
        ),
    }
}

} // verus!
