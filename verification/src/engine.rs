//! The table engine: tables of this crate handed to `polars`, and what
//! comes back turned into text.
//!
//! Only work on tables that are in memory is done here. Scans of files and
//! the evaluation of SQL over them belong to the driver.
//!
//! The engine lays a table out by what it finds in the process's
//! environment, and it stops the process where `POLARS_TABLE_WIDTH` holds
//! what is no number up to 65535. Nothing here can rule that out.

use vstd::prelude::*;
use vstd::utf8::encode_utf8;
use polars::prelude::{Column, DataFrame, PolarsError};
use crate::error::{LoadError, LoadErrorModel};
use crate::plan::{spec_failure, SourceProbe};
use crate::respond::{engine_report, spec_engine_report};
use crate::table::{
    models_of, sample_model, well_formed, ColumnModel, ColumnValues, MaterializedTable,
    ValuesModel,
};

verus! {

/// `polars::prelude::Column`, carried through as it is: nothing inside it
/// is read here.
#[verifier::external_type_specification]
#[verifier::external_body]
pub struct ExColumn(Column);

/// `polars::prelude::DataFrame`, carried through as it is.
#[verifier::external_type_specification]
#[verifier::external_body]
pub struct ExDataFrame(DataFrame);

/// `polars::prelude::PolarsError`, carried through as it is.
#[verifier::external_type_specification]
#[verifier::external_body]
pub struct ExPolarsError(PolarsError);

/// What a column of the engine holds: its name and its values.
pub uninterp spec fn column_model(column: Column) -> ColumnModel;

/// The columns that a frame of the engine holds, in order.
pub uninterp spec fn frame_columns(frame: DataFrame) -> Seq<ColumnModel>;

/// Whether `text` is a rendering by the engine of a frame that holds
/// `columns`. One frame has more than one rendering: the layout follows the
/// process's environment.
pub uninterp spec fn renders_as(columns: Seq<ColumnModel>, text: Seq<char>) -> bool;

/// Whether an error of the engine is its report of the operating system
/// failing to open or read.
pub uninterp spec fn io_failure(error: PolarsError) -> bool;

/// What each of `columns` holds, in order.
pub open spec fn held(columns: Seq<Column>) -> Seq<ColumnModel> {
    columns.map_values(|c: Column| column_model(c))
}

/// The engine counts the rows of a column in 32 bits and keeps the largest
/// number for itself; the bytes of one text value it counts in 32 bits too.
pub const ENGINE_LIMIT: usize = 4294967295;

/// A text value that is handed to the engine: of no more bytes than the
/// limit.
pub open spec fn text_fits(text: Seq<char>) -> bool {
    encode_utf8(text).len() <= ENGINE_LIMIT
}

pub open spec fn texts_fit(texts: Seq<String>) -> bool {
    forall|k: int| 0 <= k < texts.len() ==> text_fits(#[trigger] texts[k]@)
}

/// Values that are handed to the engine as a column: fewer than the limit,
/// and each text value of no more bytes than the limit.
pub open spec fn values_fit(values: ValuesModel) -> bool {
    &&& values.len() < ENGINE_LIMIT
    &&& values matches ValuesModel::Text(texts) ==> forall|k: int|
        0 <= k < texts.len() ==> text_fits(#[trigger] texts[k])
}

/// A table that is handed to the engine: each of its columns fits.
pub open spec fn fits_engine(table: Seq<ColumnModel>) -> bool {
    forall|i: int| 0 <= i < table.len() ==> values_fit(#[trigger] table[i].values)
}

/// The diagnostic for a table that is not handed to the engine.
pub open spec fn too_large() -> Seq<char> {
    "the table is too large for the engine"@
}

/// `Column::new` on a name and text values. Trusted: the column holds that
/// name and those values. The engine stops the process on more values than
/// it can count and on a value of more bytes than it can count, so both are
/// left out.
#[verifier::external_body]
fn text_column(name: &str, values: &Vec<String>) -> (column: Column)
    requires
        values@.len() < ENGINE_LIMIT,
        texts_fit(values@),
    ensures
        column_model(column) == (ColumnModel {
            name: name@,
            values: ValuesModel::Text(values@.map_values(|s: String| s@)),
        }),
{
    Column::new(name.into(), values)
}

/// `Column::new` on a name and 32-bit integers. Trusted: the column holds
/// that name and those values. The engine stops the process on more values
/// than it can count, so those are left out.
#[verifier::external_body]
fn int32_column(name: &str, values: &Vec<i32>) -> (column: Column)
    requires
        values@.len() < ENGINE_LIMIT,
    ensures
        column_model(column) == (ColumnModel { name: name@, values: ValuesModel::Int32(values@) }),
{
    Column::new(name.into(), values)
}

/// `Column::new` on a name and unsigned 32-bit integers. Trusted: the
/// column holds that name and those values. The engine stops the process on
/// more values than it can count, so those are left out.
#[verifier::external_body]
fn uint32_column(name: &str, values: &Vec<u32>) -> (column: Column)
    requires
        values@.len() < ENGINE_LIMIT,
    ensures
        column_model(column) == (ColumnModel { name: name@, values: ValuesModel::UInt32(values@) }),
{
    Column::new(name.into(), values)
}

/// `Column::new` on a name and truth values. Trusted: the column holds that
/// name and those values.
#[verifier::external_body]
fn bool_column(name: &str, values: &Vec<bool>) -> (column: Column)
    ensures
        column_model(column) == (ColumnModel { name: name@, values: ValuesModel::Bool(values@) }),
{
    Column::new(name.into(), values)
}

/// `DataFrame::new` on `columns`. Trusted: columns of one length, no two of
/// one name, are accepted; and a frame that is made holds the columns as
/// they were given.
#[verifier::external_body]
fn engine_frame(columns: Vec<Column>) -> (result: Result<DataFrame, PolarsError>)
    ensures
        well_formed(held(columns@)) ==> result is Ok,
        result matches Ok(frame) ==> frame_columns(frame) == held(columns@),
{
    DataFrame::new(columns)
}

/// The `Debug` rendering of a `DataFrame`, which is its table. Trusted: the
/// text is a rendering of the frame's columns, and no more than that, since
/// the layout follows the process's environment. The engine stops the
/// process where `POLARS_TABLE_WIDTH` holds what is no number up to 65535;
/// no condition on the arguments can leave that out.
#[verifier::external_body]
fn frame_text(frame: &DataFrame) -> (text: String)
    ensures
        renders_as(frame_columns(*frame), text@),
{
    format!("{:?}", frame)
}

/// The `Display` rendering of a `PolarsError`: its diagnostic. Nothing is
/// claimed of the text.
#[verifier::external_body]
fn error_text(error: &PolarsError) -> String {
    format!("{}", error)
}

/// Whether a `PolarsError` is its `IO` variant. Trusted: the answer is that
/// of the error itself.
#[verifier::external_body]
fn is_io_error(error: &PolarsError) -> (b: bool)
    ensures
        b == io_failure(*error),
{
    matches!(error, PolarsError::IO { .. })
}

fn texts_fit_engine(texts: &Vec<String>) -> (b: bool)
    ensures
        b == texts_fit(texts@),
{
    let mut k: usize = 0;
    while k < texts.len()
        invariant
            k <= texts@.len(),
            forall|j: int| 0 <= j < k ==> text_fits(#[trigger] texts@[j]@),
        decreases texts@.len() - k,
    {
        let bytes = texts[k].as_str().as_bytes();
        if bytes.len() > ENGINE_LIMIT {
            assert(!text_fits(texts@[k as int]@));
            return false;
        }
        k += 1;
    }
    true
}

fn values_fit_engine(values: &ColumnValues) -> (b: bool)
    ensures
        b == values_fit(values@),
{
    if values.len() >= ENGINE_LIMIT {
        return false;
    }
    match values {
        ColumnValues::Text(texts) => {
            let b = texts_fit_engine(texts);
            proof {
                let models = texts@.map_values(|s: String| s@);
                if b {
                    assert forall|k: int| 0 <= k < models.len() implies text_fits(
                        #[trigger] models[k],
                    ) by {
                        assert(models[k] == texts@[k]@);
                    }
                } else {
                    let k = choose|k: int| 0 <= k < texts@.len() && !text_fits(#[trigger] texts@[k]@);
                    assert(models[k] == texts@[k]@);
                }
            }
            b
        },
        _ => true,
    }
}

/// Whether `table` is handed to the engine: it has fewer rows than the
/// engine can count, and each text value is of no more bytes than the
/// engine can count.
pub fn fits(table: &MaterializedTable) -> (b: bool)
    ensures
        b == fits_engine(table@),
{
    let columns = table.columns();
    let mut i: usize = 0;
    while i < columns.len()
        invariant
            i <= columns@.len(),
            models_of(columns@) == table@,
            forall|j: int| 0 <= j < i ==> values_fit(#[trigger] table@[j].values),
        decreases columns@.len() - i,
    {
        if !values_fit_engine(&columns[i].values) {
            assert(table@[i as int].values == columns@[i as int].values@);
            return false;
        }
        assert(table@[i as int].values == columns@[i as int].values@);
        i += 1;
    }
    true
}

/// Hands `table` to the engine: each column with its name and values, in
/// order, then all of them to be made a frame. A table that fits is
/// accepted, and the frame holds its columns. One that does not fit is not
/// handed over.
pub fn to_frame(table: &MaterializedTable) -> (result: Result<DataFrame, LoadError>)
    ensures
        match result {
            Ok(frame) => fits_engine(table@) && frame_columns(frame) == table@,
            Err(e) => !fits_engine(table@) && e@ == LoadErrorModel::Compute(too_large()),
        },
{
    if !fits(table) {
        return Err(LoadError::Compute(String::from_str("the table is too large for the engine")));
    }
    let columns = table.columns();
    let mut handed: Vec<Column> = Vec::new();
    let mut i: usize = 0;
    while i < columns.len()
        invariant
            i <= columns@.len(),
            handed@.len() == i,
            fits_engine(models_of(columns@)),
            forall|j: int| 0 <= j < i ==> column_model(#[trigger] handed@[j]) == columns@[j]@,
        decreases columns@.len() - i,
    {
        let name = columns[i].name.as_str();
        proof {
            let model = models_of(columns@);
            assert(model[i as int].values == columns@[i as int].values@);
            assert(values_fit(columns@[i as int].values@));
        }
        let column = match &columns[i].values {
            ColumnValues::Text(values) => {
                proof {
                    let models = values@.map_values(|s: String| s@);
                    assert forall|k: int| 0 <= k < values@.len() implies text_fits(
                        #[trigger] values@[k]@,
                    ) by {
                        assert(models[k] == values@[k]@);
                    }
                }
                text_column(name, values)
            },
            ColumnValues::Int32(values) => int32_column(name, values),
            ColumnValues::UInt32(values) => uint32_column(name, values),
            ColumnValues::Bool(values) => bool_column(name, values),
        };
        handed.push(column);
        i += 1;
    }
    proof {
        assert(held(handed@) =~= models_of(columns@));
    }
    match engine_frame(handed) {
        Ok(frame) => Ok(frame),
        Err(error) => Err(LoadError::Compute(error_text(&error))),
    }
}

/// Renders `table` as the engine lays it out: a rendering of the table's
/// columns for a table that fits, the diagnostic for one that does not.
/// The engine stops the process where `POLARS_TABLE_WIDTH` holds what is no
/// number up to 65535.
pub fn render_table(table: &MaterializedTable) -> (result: Result<String, String>)
    ensures
        match result {
            Ok(text) => fits_engine(table@) && renders_as(table@, text@),
            Err(m) => !fits_engine(table@) && m@ == too_large(),
        },
{
    match to_frame(table) {
        Ok(frame) => Ok(frame_text(&frame)),
        Err(e) => Err(String::from_str(e.message())),
    }
}

/// The sample table fits the engine.
pub proof fn lemma_sample_fits()
    ensures
        fits_engine(sample_model()),
{
    broadcast use vstd::utf8::is_ascii_chars_encode_utf8;

    reveal_strlit("Data Agent");
    reveal_strlit("Rust");
    reveal_strlit("Tauri");
    let table = sample_model();
    let texts = seq!["Data Agent"@, "Rust"@, "Tauri"@];
    assert(vstd::utf8::is_ascii_chars(texts[0]));
    assert(vstd::utf8::is_ascii_chars(texts[1]));
    assert(vstd::utf8::is_ascii_chars(texts[2]));
    assert(values_fit(table[0].values));
    assert(values_fit(table[1].values));
    assert(values_fit(table[2].values));
}

/// Shows that the engine can be reached: builds the sample table, has the
/// engine render it, and reports. The report is the words for a running
/// engine, an empty line and a rendering of the sample. The engine stops
/// the process where `POLARS_TABLE_WIDTH` holds what is no number up to
/// 65535.
pub fn check_engine() -> (report: String)
    ensures
        exists|rendering: Seq<char>|
            renders_as(sample_model(), rendering) && report@ == spec_engine_report(
                Ok::<Seq<char>, Seq<char>>(rendering),
            ),
{
    proof {
        lemma_sample_fits();
    }
    let outcome = render_table(&MaterializedTable::sample());
    let report = engine_report(&outcome);
    proof {
        let rendering = outcome->Ok_0@;
        assert(renders_as(sample_model(), rendering) && report@ == spec_engine_report(
            Ok::<Seq<char>, Seq<char>>(rendering),
        ));
    }
    report
}

/// What the failure of a scan says of the source: unreadable, where the
/// failure is the engine's own report of the operating system failing to
/// open or read; malformed otherwise. The diagnostic is the engine's.
pub fn scan_failure(error: &PolarsError) -> (probe: SourceProbe)
    ensures
        exists|diagnostic: Seq<char>| probe@ == spec_failure(io_failure(*error), diagnostic),
{
    let unreadable = is_io_error(error);
    let diagnostic = error_text(error);
    let probe = SourceProbe::failure(unreadable, diagnostic);
    assert(probe@ == spec_failure(io_failure(*error), diagnostic@));
    probe
}

} // verus!
