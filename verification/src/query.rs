//! The course of a query: from the path and the statement to the response,
//! by way of loading, parsing and materializing, each of which must succeed
//! before the next is asked for.
//!
//! The driver asks [`QuerySession::pending`] what to do, does it with the
//! table engine, and reports how it went. What the report leads to is
//! decided here.

use vstd::prelude::*;
use crate::error::{LoadErrorModel, QueryError, QueryErrorModel};
use crate::format::{detected_kind, SourceDescriptor, SourceKind};
use crate::namespace::QueryNamespace;
use crate::options::{reader_for, spec_reader_for, LoadOptions, Reader};
use crate::plan::{build, spec_build, PlanModel, ProbeModel, SourceProbe};
use crate::respond::{query_response, spec_query_response, QueryOutcome, QueryOutcomeModel};
use crate::table::summary_model;

verus! {

/// The name to which a session binds its source.
pub open spec fn table_name() -> Seq<char> {
    "data"@
}

/// What the driver of a query is to do next.
#[derive(Clone, Copy, Debug, PartialEq, Eq, Structural)]
pub enum QueryStep {
    /// Open the source at the session's path with the session's reader, and
    /// report what was found.
    Load,
    /// Have the session's statement parsed against the session's bindings.
    Parse,
    /// Force the evaluation of the parsed statement, to the end.
    Materialize,
    /// Hand the response to the caller; the query is over.
    Respond,
}

/// How far a query has come.
#[derive(Debug)]
pub enum QueryProgress {
    Loading,
    Parsing,
    Materializing,
    Finished(QueryOutcome),
}

pub enum QueryProgressModel {
    Loading,
    Parsing,
    Materializing,
    Finished(QueryOutcomeModel),
}

impl View for QueryProgress {
    type V = QueryProgressModel;

    open spec fn view(&self) -> QueryProgressModel {
        match self {
            QueryProgress::Loading => QueryProgressModel::Loading,
            QueryProgress::Parsing => QueryProgressModel::Parsing,
            QueryProgress::Materializing => QueryProgressModel::Materializing,
            QueryProgress::Finished(outcome) => QueryProgressModel::Finished(outcome@),
        }
    }
}

/// The state of a query.
pub struct QueryModel {
    pub path: Seq<char>,
    pub kind: SourceKind,
    pub options: LoadOptions,
    pub statement: Seq<char>,
    pub bindings: Map<Seq<char>, PlanModel>,
    pub progress: QueryProgressModel,
}

impl QueryModel {
    /// The state in which a query starts: the kind detected from the path,
    /// that kind's default options, nothing bound, the source to be loaded.
    pub open spec fn start(path: Seq<char>, statement: Seq<char>) -> QueryModel {
        QueryModel {
            path,
            kind: detected_kind(path),
            options: LoadOptions::spec_for_kind(detected_kind(path)),
            statement,
            bindings: Map::empty(),
            progress: QueryProgressModel::Loading,
        }
    }

    pub open spec fn pending(self) -> QueryStep {
        match self.progress {
            QueryProgressModel::Loading => QueryStep::Load,
            QueryProgressModel::Parsing => QueryStep::Parse,
            QueryProgressModel::Materializing => QueryStep::Materialize,
            QueryProgressModel::Finished(_) => QueryStep::Respond,
        }
    }

    pub open spec fn reader(self) -> Reader {
        spec_reader_for(self.kind, self.options)
    }

    /// The state after the source was opened, or could not be. A plan is
    /// bound to the table name and the statement is to be parsed; a failure
    /// ends the query. A report that was not asked for changes nothing.
    pub open spec fn loaded(self, probe: ProbeModel) -> QueryModel {
        match self.progress {
            QueryProgressModel::Loading => match spec_build(
                self.path,
                self.kind,
                self.options,
                probe,
            ) {
                Ok(plan) => QueryModel {
                    bindings: self.bindings.insert(table_name(), plan),
                    progress: QueryProgressModel::Parsing,
                    ..self
                },
                Err(e) => QueryModel {
                    progress: QueryProgressModel::Finished(QueryOutcomeModel::NotLoaded(e)),
                    ..self
                },
            },
            _ => self,
        }
    }

    /// The state after the statement was parsed against the bindings, or
    /// was refused with a diagnostic.
    pub open spec fn parsed(self, verdict: Result<(), Seq<char>>) -> QueryModel {
        match self.progress {
            QueryProgressModel::Parsing => QueryModel {
                progress: match verdict {
                    Ok(_) => QueryProgressModel::Materializing,
                    Err(m) => QueryProgressModel::Finished(
                        QueryOutcomeModel::Failed(QueryErrorModel::Parse(m)),
                    ),
                },
                ..self
            },
            _ => self,
        }
    }

    /// The state after the evaluation gave a table, here as its rendering,
    /// or failed with a diagnostic. Either way the query is over.
    pub open spec fn materialized(self, table: Result<Seq<char>, Seq<char>>) -> QueryModel {
        match self.progress {
            QueryProgressModel::Materializing => QueryModel {
                progress: QueryProgressModel::Finished(
                    match table {
                        Ok(rendering) => QueryOutcomeModel::Table(rendering),
                        Err(m) => QueryOutcomeModel::Failed(QueryErrorModel::Execution(m)),
                    },
                ),
                ..self
            },
            _ => self,
        }
    }

    /// The response, once the query is over.
    pub open spec fn response(self) -> Option<Seq<char>> {
        match self.progress {
            QueryProgressModel::Finished(outcome) => Some(
                spec_query_response(self.kind, outcome),
            ),
            _ => None,
        }
    }
}

pub open spec fn verdict_model(verdict: Result<(), String>) -> Result<(), Seq<char>> {
    match verdict {
        Ok(_) => Ok(()),
        Err(m) => Err(m@),
    }
}

pub open spec fn table_model(table: Result<String, String>) -> Result<Seq<char>, Seq<char>> {
    match table {
        Ok(rendering) => Ok(rendering@),
        Err(m) => Err(m@),
    }
}

/// One query, from its start to the response.
pub struct QuerySession {
    descriptor: SourceDescriptor,
    options: LoadOptions,
    statement: String,
    namespace: QueryNamespace,
    progress: QueryProgress,
}

impl View for QuerySession {
    type V = QueryModel;

    closed spec fn view(&self) -> QueryModel {
        QueryModel {
            path: self.descriptor.spec_path(),
            kind: self.descriptor.spec_kind(),
            options: self.options,
            statement: self.statement@,
            bindings: self.namespace@,
            progress: self.progress@,
        }
    }
}

impl QuerySession {
    /// Begins a query of `statement` over the source at `path`.
    pub fn begin(path: String, statement: String) -> (session: QuerySession)
        ensures
            session@ == QueryModel::start(path@, statement@),
    {
        let descriptor = SourceDescriptor::new(path);
        let options = LoadOptions::for_kind(descriptor.kind());
        QuerySession {
            descriptor,
            options,
            statement,
            namespace: QueryNamespace::new(),
            progress: QueryProgress::Loading,
        }
    }

    pub fn path(&self) -> (path: &str)
        ensures
            path@ == self@.path,
    {
        self.descriptor.path()
    }

    pub fn kind(&self) -> (kind: SourceKind)
        ensures
            kind == self@.kind,
    {
        self.descriptor.kind()
    }

    pub fn statement(&self) -> (statement: &str)
        ensures
            statement@ == self@.statement,
    {
        self.statement.as_str()
    }

    /// The reader with which the source is to be opened.
    pub fn reader(&self) -> (reader: Reader)
        ensures
            reader == self@.reader(),
    {
        reader_for(self.descriptor.kind(), self.options)
    }

    /// The bindings against which the statement is to be parsed.
    pub fn namespace(&self) -> (namespace: &QueryNamespace)
        ensures
            namespace@ == self@.bindings,
    {
        &self.namespace
    }

    /// What the driver is to do next.
    pub fn pending(&self) -> (step: QueryStep)
        ensures
            step == self@.pending(),
    {
        match self.progress {
            QueryProgress::Loading => QueryStep::Load,
            QueryProgress::Parsing => QueryStep::Parse,
            QueryProgress::Materializing => QueryStep::Materialize,
            QueryProgress::Finished(_) => QueryStep::Respond,
        }
    }

    /// Takes the report on opening the source.
    pub fn loaded(&mut self, probe: SourceProbe)
        ensures
            final(self)@ == old(self)@.loaded(probe@),
    {
        if let QueryProgress::Loading = self.progress {
            match build(&self.descriptor, self.options, probe) {
                Ok(plan) => {
                    self.namespace.bind("data", plan);
                    self.progress = QueryProgress::Parsing;
                },
                Err(e) => {
                    self.progress = QueryProgress::Finished(QueryOutcome::NotLoaded(e));
                },
            }
        }
    }

    /// Takes the verdict on the statement: parsed, or the diagnostic.
    pub fn parsed(&mut self, verdict: Result<(), String>)
        ensures
            final(self)@ == old(self)@.parsed(verdict_model(verdict)),
    {
        if let QueryProgress::Parsing = self.progress {
            self.progress = match verdict {
                Ok(_) => QueryProgress::Materializing,
                Err(m) => QueryProgress::Finished(QueryOutcome::Failed(QueryError::Parse(m))),
            };
        }
    }

    /// Takes the result of the evaluation: the table's rendering, or the
    /// diagnostic.
    pub fn materialized(&mut self, table: Result<String, String>)
        ensures
            final(self)@ == old(self)@.materialized(table_model(table)),
    {
        if let QueryProgress::Materializing = self.progress {
            self.progress = QueryProgress::Finished(
                match table {
                    Ok(rendering) => QueryOutcome::Table(rendering),
                    Err(m) => QueryOutcome::Failed(QueryError::Execution(m)),
                },
            );
        }
    }

    /// How the query ended, once it is over.
    pub fn outcome(&self) -> (outcome: Option<&QueryOutcome>)
        ensures
            match outcome {
                Some(o) => self@.progress == QueryProgressModel::Finished(o@),
                None => !(self@.progress is Finished),
            },
    {
        match &self.progress {
            QueryProgress::Finished(outcome) => Some(outcome),
            _ => None,
        }
    }

    /// The response to the caller, once the query is over.
    pub fn response(&self) -> (response: Option<String>)
        ensures
            match response {
                Some(text) => self@.response() == Some(text@),
                None => self@.response() is None,
            },
    {
        match &self.progress {
            QueryProgress::Finished(outcome) => Some(
                query_response(self.descriptor.kind(), outcome),
            ),
            _ => None,
        }
    }
}

/// A query ends with a table only where the source was loaded, the
/// statement parsed and the evaluation gave the table, in that order; it
/// then ends with that table. Where a stage fails, the query ends with that
/// stage's failure and what is reported of later stages changes nothing.
pub proof fn lemma_query_course(
    start: QueryModel,
    probe: ProbeModel,
    verdict: Result<(), Seq<char>>,
    table: Result<Seq<char>, Seq<char>>,
)
    requires
        start.progress is Loading,
    ensures
        ({
            let end = start.loaded(probe).parsed(verdict).materialized(table);
            let built = spec_build(start.path, start.kind, start.options, probe);
            &&& end.progress is Finished
            &&& end.progress == match built {
                Err(e) => QueryProgressModel::Finished(QueryOutcomeModel::NotLoaded(e)),
                Ok(_) => match verdict {
                    Err(m) => QueryProgressModel::Finished(
                        QueryOutcomeModel::Failed(QueryErrorModel::Parse(m)),
                    ),
                    Ok(_) => match table {
                        Err(m) => QueryProgressModel::Finished(
                            QueryOutcomeModel::Failed(QueryErrorModel::Execution(m)),
                        ),
                        Ok(rendering) => QueryProgressModel::Finished(
                            QueryOutcomeModel::Table(rendering),
                        ),
                    },
                },
            }
            &&& end.loaded(probe) == end
            &&& end.parsed(verdict) == end
            &&& end.materialized(table) == end
        }),
        start.parsed(verdict) == start,
        start.materialized(table) == start,
{
}

/// A workbook that opens with a first sheet of `rows` rows and `cols`
/// columns is bound as the summary of those dimensions and as nothing else:
/// the statement has no part in what is bound.
pub proof fn lemma_workbook_is_bound_as_summary(
    path: Seq<char>,
    statement: Seq<char>,
    other_statement: Seq<char>,
    rows: usize,
    cols: usize,
)
    requires
        detected_kind(path) == SourceKind::Xlsx,
    ensures
        ({
            let probe = ProbeModel::Opened { first_sheet: Some((rows, cols)) };
            let loaded = QueryModel::start(path, statement).loaded(probe);
            &&& loaded.pending() == QueryStep::Parse
            &&& loaded.bindings == Map::<Seq<char>, PlanModel>::empty().insert(
                table_name(),
                PlanModel::Table(summary_model(rows, cols)),
            )
            &&& loaded.bindings == QueryModel::start(path, other_statement).loaded(probe).bindings
        }),
{
}

/// A source that cannot be opened ends the query at once, with the
/// diagnostic behind the words for a failure to open.
pub proof fn lemma_unreadable_source(path: Seq<char>, statement: Seq<char>, reason: Seq<char>)
    ensures
        QueryModel::start(path, statement).loaded(ProbeModel::Unreadable(reason)).response()
            == Some("Error opening file: "@ + reason),
{
}

} // verus!
