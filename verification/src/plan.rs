//! Deferred plans: what to read and how, described and not yet run.

use vstd::prelude::*;
use crate::error::{LoadError, LoadErrorModel};
use crate::format::{SourceDescriptor, SourceKind};
use crate::options::{reader_for, spec_reader_for, LoadOptions, Reader, Scan};
use crate::table::{summary_model, MaterializedTable, TableModel};

verus! {

/// What was found when the source was opened. The first attempt is the only
/// one: nothing is tried again.
#[derive(Debug)]
pub enum SourceProbe {
    /// The source is missing or cannot be read; the diagnostic.
    Unreadable(String),
    /// The content does not match the declared format; the diagnostic.
    Malformed(String),
    /// The source was opened. `first_sheet` gives the rows and columns of
    /// the first worksheet, where the source is a workbook that has one.
    Opened { first_sheet: Option<(usize, usize)> },
}

pub enum ProbeModel {
    Unreadable(Seq<char>),
    Malformed(Seq<char>),
    Opened { first_sheet: Option<(usize, usize)> },
}

impl View for SourceProbe {
    type V = ProbeModel;

    open spec fn view(&self) -> ProbeModel {
        match self {
            SourceProbe::Unreadable(m) => ProbeModel::Unreadable(m@),
            SourceProbe::Malformed(m) => ProbeModel::Malformed(m@),
            SourceProbe::Opened { first_sheet } => ProbeModel::Opened { first_sheet: *first_sheet },
        }
    }
}

/// What a failed attempt to open a source says of it: that it is unreadable,
/// or that its content is malformed; the diagnostic either way.
pub open spec fn spec_failure(unreadable: bool, diagnostic: Seq<char>) -> ProbeModel {
    if unreadable {
        ProbeModel::Unreadable(diagnostic)
    } else {
        ProbeModel::Malformed(diagnostic)
    }
}

impl SourceProbe {
    /// The probe for a failed attempt to open a source.
    pub fn failure(unreadable: bool, diagnostic: String) -> (probe: SourceProbe)
        ensures
            probe@ == spec_failure(unreadable, diagnostic@),
    {
        if unreadable {
            SourceProbe::Unreadable(diagnostic)
        } else {
            SourceProbe::Malformed(diagnostic)
        }
    }
}

/// A description of a table that is computed only when it is materialized:
/// a scan of a source, or a table that is there already.
#[derive(Debug)]
pub enum DeferredPlan {
    Scan { path: String, scan: Scan },
    Table(MaterializedTable),
}

pub enum PlanModel {
    Scan { path: Seq<char>, scan: Scan },
    Table(TableModel),
}

impl View for DeferredPlan {
    type V = PlanModel;

    open spec fn view(&self) -> PlanModel {
        match self {
            DeferredPlan::Scan { path, scan } => PlanModel::Scan { path: path@, scan: *scan },
            DeferredPlan::Table(table) => PlanModel::Table(table@),
        }
    }
}

/// The diagnostic for a workbook that has no first worksheet.
pub open spec fn no_first_sheet() -> Seq<char> {
    "could not read the first sheet"@
}

/// The plan for the source at `path` of kind `kind`, read under `options`,
/// given what opening it found.
///
/// A source that could not be opened or read gives the failure with its
/// diagnostic unchanged. Text, JSON lines and columnar files give a scan
/// that is only described. A workbook gives the summary of its first sheet
/// as a table that is there already, or a failure where it has no sheet.
pub open spec fn spec_build(
    path: Seq<char>,
    kind: SourceKind,
    options: LoadOptions,
    probe: ProbeModel,
) -> Result<PlanModel, LoadErrorModel> {
    match probe {
        ProbeModel::Unreadable(m) => Err(LoadErrorModel::Open(m)),
        ProbeModel::Malformed(m) => Err(LoadErrorModel::Parse(m)),
        ProbeModel::Opened { first_sheet } => match spec_reader_for(kind, options) {
            Reader::Deferred(scan) => Ok(PlanModel::Scan { path, scan }),
            Reader::Workbook => match first_sheet {
                Some(size) => Ok(PlanModel::Table(summary_model(size.0, size.1))),
                None => Err(LoadErrorModel::Compute(no_first_sheet())),
            },
        },
    }
}

/// Builds the plan for `descriptor` under `options`, given what opening the
/// source found.
pub fn build(descriptor: &SourceDescriptor, options: LoadOptions, probe: SourceProbe) -> (result:
    Result<DeferredPlan, LoadError>)
    ensures
        match result {
            Ok(plan) => spec_build(
                descriptor.spec_path(),
                descriptor.spec_kind(),
                options,
                probe@,
            ) == Ok::<PlanModel, LoadErrorModel>(plan@),
            Err(error) => spec_build(
                descriptor.spec_path(),
                descriptor.spec_kind(),
                options,
                probe@,
            ) == Err::<PlanModel, LoadErrorModel>(error@),
        },
{
    match probe {
        SourceProbe::Unreadable(m) => Err(LoadError::Open(m)),
        SourceProbe::Malformed(m) => Err(LoadError::Parse(m)),
        SourceProbe::Opened { first_sheet } => match reader_for(descriptor.kind(), options) {
            Reader::Deferred(scan) => Ok(
                DeferredPlan::Scan { path: String::from_str(descriptor.path()), scan },
            ),
            Reader::Workbook => match first_sheet {
                Some(size) => Ok(
                    DeferredPlan::Table(MaterializedTable::workbook_summary(size.0, size.1)),
                ),
                None => Err(
                    LoadError::Compute(String::from_str("could not read the first sheet")),
                ),
            },
        },
    }
}

/// A workbook that opens and has a first sheet of `rows` rows and `cols`
/// columns is loaded as the summary of those dimensions, whatever its path
/// and the options; a query has no part in it.
pub proof fn lemma_workbook_loads_as_summary(
    path: Seq<char>,
    options: LoadOptions,
    rows: usize,
    cols: usize,
)
    ensures
        spec_build(
            path,
            SourceKind::Xlsx,
            options,
            ProbeModel::Opened { first_sheet: Some((rows, cols)) },
        ) == Ok::<PlanModel, LoadErrorModel>(PlanModel::Table(summary_model(rows, cols))),
{
}

} // verus!
