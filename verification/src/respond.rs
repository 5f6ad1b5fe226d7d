//! The responses: every outcome of an operation rendered as the one string
//! that the caller receives. A failure is told from a success, and one
//! stage's failure from another's, by how the string begins.

use vstd::prelude::*;
use crate::error::{
    ErrorKind, FetchError, FetchErrorModel, LoadError, LoadErrorModel, QueryError,
    QueryErrorModel,
};
use crate::format::SourceKind;
use crate::text::{decimal, decimal_string};

verus! {

/// How a query over a source ended.
#[derive(Debug)]
pub enum QueryOutcome {
    /// The source could not be loaded.
    NotLoaded(LoadError),
    /// The query was not parsed, or failed while it was evaluated.
    Failed(QueryError),
    /// The query gave a table; its rendering, whole.
    Table(String),
}

pub enum QueryOutcomeModel {
    NotLoaded(LoadErrorModel),
    Failed(QueryErrorModel),
    Table(Seq<char>),
}

impl View for QueryOutcome {
    type V = QueryOutcomeModel;

    open spec fn view(&self) -> QueryOutcomeModel {
        match self {
            QueryOutcome::NotLoaded(e) => QueryOutcomeModel::NotLoaded(e@),
            QueryOutcome::Failed(e) => QueryOutcomeModel::Failed(e@),
            QueryOutcome::Table(t) => QueryOutcomeModel::Table(t@),
        }
    }
}

impl QueryOutcomeModel {
    /// The kind of the failure, where the query failed.
    pub open spec fn failure(self) -> Option<ErrorKind> {
        match self {
            QueryOutcomeModel::NotLoaded(e) => Some(e.kind()),
            QueryOutcomeModel::Failed(e) => Some(e.kind()),
            QueryOutcomeModel::Table(_) => None,
        }
    }
}

impl QueryOutcome {
    /// The kind of the failure, where the query failed.
    pub fn failure(&self) -> (kind: Option<ErrorKind>)
        ensures
            kind == self@.failure(),
    {
        match self {
            QueryOutcome::NotLoaded(e) => Some(e.kind()),
            QueryOutcome::Failed(e) => Some(e.kind()),
            QueryOutcome::Table(_) => None,
        }
    }
}

pub open spec fn load_failure(message: Seq<char>) -> Seq<char> {
    "Error opening file: "@ + message
}

pub open spec fn parse_failure(message: Seq<char>) -> Seq<char> {
    "SQL Parsing Error: "@ + message
}

pub open spec fn execution_failure(message: Seq<char>) -> Seq<char> {
    "SQL Execution Error: "@ + message
}

/// The results of a query over a source of kind `kind`: a header with the
/// kind's tag, an empty line, the table.
pub open spec fn query_results(kind: SourceKind, rendering: Seq<char>) -> Seq<char> {
    "Query Results [Format: "@ + kind.spec_tag() + "]:\n\n"@ + rendering
}

/// The response to a query over a source of kind `kind`.
pub open spec fn spec_query_response(kind: SourceKind, outcome: QueryOutcomeModel) -> Seq<char> {
    match outcome {
        QueryOutcomeModel::NotLoaded(e) => load_failure(e.message()),
        QueryOutcomeModel::Failed(QueryErrorModel::Parse(m)) => parse_failure(m),
        QueryOutcomeModel::Failed(QueryErrorModel::Execution(m)) => execution_failure(m),
        QueryOutcomeModel::Table(rendering) => query_results(kind, rendering),
    }
}

fn prefixed(prefix: &str, rest: &str) -> (text: String)
    ensures
        text@ == prefix@ + rest@,
{
    let mut text = String::from_str(prefix);
    text.append(rest);
    text
}

/// Renders the outcome of a query over a source of kind `kind`.
pub fn query_response(kind: SourceKind, outcome: &QueryOutcome) -> (response: String)
    ensures
        response@ == spec_query_response(kind, outcome@),
{
    match outcome {
        QueryOutcome::NotLoaded(e) => prefixed("Error opening file: ", e.message()),
        QueryOutcome::Failed(QueryError::Parse(m)) => prefixed("SQL Parsing Error: ", m.as_str()),
        QueryOutcome::Failed(QueryError::Execution(m)) => prefixed(
            "SQL Execution Error: ",
            m.as_str(),
        ),
        QueryOutcome::Table(rendering) => {
            let mut text = String::from_str("Query Results [Format: ");
            text.append(kind.tag());
            text.append("]:\n\n");
            text.append(rendering.as_str());
            text
        },
    }
}

/// The stage at which a query ended can be read from its response: no two
/// outcomes of different stages give the same string, whatever their
/// diagnostics or tables hold.
pub proof fn lemma_responses_tell_stages_apart(
    kind: SourceKind,
    a: QueryOutcomeModel,
    b: QueryOutcomeModel,
)
    requires
        spec_query_response(kind, a) == spec_query_response(kind, b),
    ensures
        a is NotLoaded <==> b is NotLoaded,
        a is Table <==> b is Table,
        a matches QueryOutcomeModel::Failed(x) ==> (b matches QueryOutcomeModel::Failed(y)
            && (x is Parse <==> y is Parse)),
{
    reveal_strlit("Error opening file: ");
    reveal_strlit("SQL Parsing Error: ");
    reveal_strlit("SQL Execution Error: ");
    reveal_strlit("Query Results [Format: ");
    let ra = spec_query_response(kind, a);
    let rb = spec_query_response(kind, b);
    lemma_query_response_head(kind, a);
    lemma_query_response_head(kind, b);
    assert(ra[0] == rb[0]);
    assert(ra[4] == rb[4]);
}

/// How a response begins: its first character tells a load failure, a
/// query failure and a table apart, its fifth the two query failures.
proof fn lemma_query_response_head(kind: SourceKind, outcome: QueryOutcomeModel)
    ensures
        spec_query_response(kind, outcome).len() >= 5,
        outcome is NotLoaded ==> spec_query_response(kind, outcome)[0] == 'E',
        outcome is Table ==> spec_query_response(kind, outcome)[0] == 'Q',
        outcome matches QueryOutcomeModel::Failed(e) ==> spec_query_response(kind, outcome)[0]
            == 'S' && spec_query_response(kind, outcome)[4] == (if e is Parse {
            'P'
        } else {
            'E'
        }),
{
    reveal_strlit("Error opening file: ");
    reveal_strlit("SQL Parsing Error: ");
    reveal_strlit("SQL Execution Error: ");
    reveal_strlit("Query Results [Format: ");
}

/// The response to loading one file as delimited text: the table, or the
/// failure of the step that failed.
pub open spec fn spec_load_response(result: Result<Seq<char>, LoadErrorModel>) -> Seq<char> {
    match result {
        Ok(rendering) => "CSV loaded successfully!\n\n"@ + rendering,
        Err(LoadErrorModel::Open(m)) => "ERROR opening file: "@ + m,
        Err(LoadErrorModel::Parse(m)) => "ERROR reading CSV: "@ + m,
        Err(LoadErrorModel::Compute(m)) => "ERROR reading CSV: "@ + m,
    }
}

pub open spec fn load_result_model(result: Result<String, LoadError>) -> Result<
    Seq<char>,
    LoadErrorModel,
> {
    match result {
        Ok(rendering) => Ok(rendering@),
        Err(e) => Err(e@),
    }
}

/// Renders the outcome of loading one file as delimited text.
pub fn load_response(result: &Result<String, LoadError>) -> (response: String)
    ensures
        response@ == spec_load_response(load_result_model(*result)),
{
    match result {
        Ok(rendering) => prefixed("CSV loaded successfully!\n\n", rendering.as_str()),
        Err(LoadError::Open(m)) => prefixed("ERROR opening file: ", m.as_str()),
        Err(LoadError::Parse(m)) => prefixed("ERROR reading CSV: ", m.as_str()),
        Err(LoadError::Compute(m)) => prefixed("ERROR reading CSV: ", m.as_str()),
    }
}

/// The report on the engine: the rendering of the sample table, or the
/// diagnostic of what failed.
pub open spec fn spec_engine_report(result: Result<Seq<char>, Seq<char>>) -> Seq<char> {
    match result {
        Ok(rendering) => "Polars is running!\n\n"@ + rendering,
        Err(m) => "ERROR: "@ + m,
    }
}

pub open spec fn texts_of(result: Result<String, String>) -> Result<Seq<char>, Seq<char>> {
    match result {
        Ok(t) => Ok(t@),
        Err(m) => Err(m@),
    }
}

pub fn engine_report(result: &Result<String, String>) -> (response: String)
    ensures
        response@ == spec_engine_report(texts_of(*result)),
{
    match result {
        Ok(rendering) => prefixed("Polars is running!\n\n", rendering.as_str()),
        Err(m) => prefixed("ERROR: ", m.as_str()),
    }
}

/// The response to a fetch: the local path of the staged file as it is, or
/// the cause of the failure behind `ERROR: `; a status is given as its
/// decimal number.
pub open spec fn spec_fetch_response(result: Result<Seq<char>, FetchErrorModel>) -> Seq<char> {
    match result {
        Ok(local_path) => local_path,
        Err(FetchErrorModel::ServerStatus(code)) => "ERROR: Server returned status: "@ + decimal(
            code as nat,
        ),
        Err(FetchErrorModel::Connection(m)) => "ERROR: Connection Failed: "@ + m,
        Err(FetchErrorModel::DiskWrite(m)) => "ERROR: Disk Write Failed: "@ + m,
    }
}

pub open spec fn fetch_result_model(result: Result<String, FetchError>) -> Result<
    Seq<char>,
    FetchErrorModel,
> {
    match result {
        Ok(local_path) => Ok(local_path@),
        Err(e) => Err(e@),
    }
}

/// Renders the failure of a fetch.
pub fn fetch_failure(error: &FetchError) -> (response: String)
    ensures
        response@ == spec_fetch_response(Err(error@)),
{
    match error {
        FetchError::ServerStatus(code) => {
            let number = decimal_string(*code as u64);
            prefixed("ERROR: Server returned status: ", number.as_str())
        },
        FetchError::Connection(m) => prefixed("ERROR: Connection Failed: ", m.as_str()),
        FetchError::DiskWrite(m) => prefixed("ERROR: Disk Write Failed: ", m.as_str()),
    }
}

/// Renders the outcome of a fetch, given the staged file's local path or
/// the failure.
pub fn fetch_response(result: &Result<String, FetchError>) -> (response: String)
    ensures
        response@ == spec_fetch_response(fetch_result_model(*result)),
{
    match result {
        Ok(local_path) => local_path.clone(),
        Err(error) => fetch_failure(error),
    }
}

} // verus!
