use data_agent::fetch::{
    fresh_staged_file_name, is_success, staged_file_name, FetchSession, FetchStep,
};
use data_agent::format::SourceKind;
use data_agent::options::{Reader, Scan};
use data_agent::plan::{DeferredPlan, SourceProbe};
use data_agent::query::{QuerySession, QueryStep};
use data_agent::respond::QueryOutcome;

fn begin(path: &str, statement: &str) -> QuerySession {
    QuerySession::begin(path.to_string(), statement.to_string())
}

fn opened() -> SourceProbe {
    SourceProbe::Opened { first_sheet: None }
}

#[test]
fn a_query_starts_by_loading() {
    let session = begin("data.parquet", "SELECT * FROM data");
    assert_eq!(session.pending(), QueryStep::Load);
    assert_eq!(session.path(), "data.parquet");
    assert_eq!(session.statement(), "SELECT * FROM data");
    assert_eq!(session.kind(), SourceKind::Parquet);
    assert!(matches!(session.reader(), Reader::Deferred(Scan::Parquet)));
    assert_eq!(session.namespace().len(), 0);
    assert!(session.response().is_none());
    assert!(session.outcome().is_none());
}

#[test]
fn a_query_is_read_with_full_schema_inference() {
    let session = begin("data.csv", "SELECT * FROM data");
    assert!(matches!(
        session.reader(),
        Reader::Deferred(Scan::Delimited {
            has_header: true,
            delimiter: b',',
            infer_schema_depth: None
        })
    ));
    let session = begin("data.TSV", "SELECT * FROM data");
    assert!(matches!(
        session.reader(),
        Reader::Deferred(Scan::Delimited {
            has_header: true,
            delimiter: b'\t',
            infer_schema_depth: None
        })
    ));
    let session = begin("data.json", "SELECT * FROM data");
    assert!(matches!(
        session.reader(),
        Reader::Deferred(Scan::JsonLines { infer_schema_depth: None })
    ));
}

#[test]
fn missing_file_ends_with_a_failure_to_open() {
    let mut session = begin("missing.csv", "SELECT * FROM data");
    session.loaded(SourceProbe::Unreadable(
        "No such file or directory (os error 2): missing.csv".to_string(),
    ));
    assert_eq!(session.pending(), QueryStep::Respond);
    let response = session.response().unwrap();
    assert!(response.starts_with("Error opening file:"));
    assert_eq!(response, "Error opening file: No such file or directory (os error 2): missing.csv");
    assert!(matches!(session.outcome(), Some(QueryOutcome::NotLoaded(_))));
    assert_eq!(session.namespace().len(), 0);
}

#[test]
fn unknown_column_ends_with_a_parsing_error() {
    let mut session = begin("data.parquet", "SELECT nonexistent_col FROM data");
    session.loaded(opened());
    assert_eq!(session.pending(), QueryStep::Parse);
    match session.namespace().lookup("data") {
        Some(DeferredPlan::Scan { path, scan: Scan::Parquet }) => assert_eq!(path, "data.parquet"),
        other => panic!("unexpected plan {:?}", other),
    }
    session.parsed(Err("unable to find column \"nonexistent_col\"".to_string()));
    assert_eq!(session.pending(), QueryStep::Respond);
    let response = session.response().unwrap();
    assert!(response.starts_with("SQL Parsing Error:"));
    assert_eq!(response, "SQL Parsing Error: unable to find column \"nonexistent_col\"");
}

#[test]
fn failed_evaluation_ends_with_an_execution_error() {
    let mut session = begin("data.csv", "SELECT a + b FROM data");
    session.loaded(opened());
    session.parsed(Ok(()));
    assert_eq!(session.pending(), QueryStep::Materialize);
    assert!(session.response().is_none());
    session.materialized(Err("cannot add str to i64".to_string()));
    assert_eq!(session.pending(), QueryStep::Respond);
    assert_eq!(session.response().unwrap(), "SQL Execution Error: cannot add str to i64");
}

#[test]
fn a_table_ends_the_query_with_the_results() {
    let mut session = begin("dir/data.PARQUET", "SELECT * FROM data");
    session.loaded(opened());
    session.parsed(Ok(()));
    session.materialized(Ok("shape: (2, 1)".to_string()));
    assert_eq!(session.pending(), QueryStep::Respond);
    assert_eq!(
        session.response().unwrap(),
        "Query Results [Format: PARQUET]:\n\nshape: (2, 1)"
    );
    assert!(matches!(session.outcome(), Some(QueryOutcome::Table(_))));
}

#[test]
fn unknown_extension_is_reported_as_csv() {
    let mut session = begin("notes.txt", "SELECT * FROM data");
    assert_eq!(session.kind(), SourceKind::Csv);
    session.loaded(opened());
    session.parsed(Ok(()));
    session.materialized(Ok("t".to_string()));
    assert_eq!(session.response().unwrap(), "Query Results [Format: CSV]:\n\nt");
}

#[test]
fn reports_out_of_turn_change_nothing() {
    let mut session = begin("data.csv", "SELECT * FROM data");
    session.parsed(Err("early".to_string()));
    session.materialized(Ok("early".to_string()));
    assert_eq!(session.pending(), QueryStep::Load);
    assert!(session.response().is_none());
    session.loaded(opened());
    session.loaded(SourceProbe::Unreadable("late".to_string()));
    session.materialized(Ok("early".to_string()));
    assert_eq!(session.pending(), QueryStep::Parse);
    assert_eq!(session.namespace().len(), 1);
    session.parsed(Ok(()));
    session.parsed(Err("late".to_string()));
    assert_eq!(session.pending(), QueryStep::Materialize);
    session.materialized(Ok("table".to_string()));
    session.materialized(Err("late".to_string()));
    session.loaded(SourceProbe::Malformed("late".to_string()));
    session.parsed(Err("late".to_string()));
    assert_eq!(session.response().unwrap(), "Query Results [Format: CSV]:\n\ntable");
}

#[test]
fn workbook_is_bound_as_its_summary_whatever_the_query() {
    for statement in ["SELECT * FROM data", "SELECT rows FROM data", "not even sql"] {
        let mut session = begin("book.xlsx", statement);
        assert!(matches!(session.reader(), Reader::Workbook));
        session.loaded(SourceProbe::Opened { first_sheet: Some((12, 3)) });
        assert_eq!(session.pending(), QueryStep::Parse);
        match session.namespace().lookup("data") {
            Some(DeferredPlan::Table(table)) => {
                assert_eq!(table.row_count(), 1);
                assert_eq!(table.column_count(), 3);
            },
            other => panic!("unexpected plan {:?}", other),
        }
    }
}

#[test]
fn workbook_without_sheet_ends_the_query() {
    let mut session = begin("book.xlsx", "SELECT * FROM data");
    session.loaded(opened());
    assert_eq!(
        session.response().unwrap(),
        "Error opening file: could not read the first sheet"
    );
}

#[test]
fn status_codes_of_success() {
    assert!(!is_success(199));
    assert!(is_success(200));
    assert!(is_success(204));
    assert!(is_success(299));
    assert!(!is_success(300));
    assert!(!is_success(404));
    assert!(!is_success(0));
    assert!(!is_success(u16::MAX));
}

#[test]
fn staged_file_names() {
    assert_eq!(staged_file_name("abc"), "data_agent_abc.tmp");
    assert_eq!(staged_file_name(""), "data_agent_.tmp");
}

#[test]
fn fresh_staged_file_names_hold_an_identifier() {
    let name = fresh_staged_file_name();
    assert!(name.starts_with("data_agent_"));
    assert!(name.ends_with(".tmp"));
    let id = &name["data_agent_".len()..name.len() - ".tmp".len()];
    assert_eq!(id.len(), 36);
    for (i, c) in id.chars().enumerate() {
        if i == 8 || i == 13 || i == 18 || i == 23 {
            assert_eq!(c, '-');
        } else {
            assert!(c.is_ascii_digit() || ('a'..='f').contains(&c), "{} at {}", c, i);
        }
    }
    assert_ne!(name, fresh_staged_file_name());
}

fn fetch() -> FetchSession {
    FetchSession::begin(
        "https://example.test/ok.csv".to_string(),
        "/tmp/data_agent_0.tmp".to_string(),
    )
}

#[test]
fn a_fetch_starts_with_the_request() {
    let session = fetch();
    assert_eq!(session.pending(), FetchStep::Request);
    assert_eq!(session.url(), "https://example.test/ok.csv");
    assert_eq!(session.local_path(), "/tmp/data_agent_0.tmp");
    assert!(session.response().is_none());
    assert!(session.staged().is_none());
}

#[test]
fn success_and_a_completed_write_give_the_local_path() {
    let mut session = fetch();
    session.answered(Ok(200));
    assert_eq!(session.pending(), FetchStep::Store);
    assert!(session.response().is_none());
    session.stored(Ok(()));
    assert_eq!(session.pending(), FetchStep::Respond);
    let response = session.response().unwrap();
    assert_eq!(response, "/tmp/data_agent_0.tmp");
    assert!(!response.starts_with("ERROR:"));
    let staged = session.staged().unwrap();
    assert_eq!(staged.local_path, "/tmp/data_agent_0.tmp");
    assert_eq!(staged.source_url, "https://example.test/ok.csv");
}

#[test]
fn not_found_is_reported_with_its_status() {
    let mut session = fetch();
    session.answered(Ok(404));
    assert_eq!(session.pending(), FetchStep::Respond);
    assert_eq!(session.response().unwrap(), "ERROR: Server returned status: 404");
    assert!(session.staged().is_none());
}

#[test]
fn redirects_and_server_errors_are_no_success() {
    let mut session = fetch();
    session.answered(Ok(301));
    assert_eq!(session.response().unwrap(), "ERROR: Server returned status: 301");
    let mut session = fetch();
    session.answered(Ok(503));
    assert_eq!(session.response().unwrap(), "ERROR: Server returned status: 503");
}

#[test]
fn failed_connection_ends_the_fetch() {
    let mut session = fetch();
    session.answered(Err("dns error".to_string()));
    assert_eq!(session.pending(), FetchStep::Respond);
    assert_eq!(session.response().unwrap(), "ERROR: Connection Failed: dns error");
}

#[test]
fn failed_write_ends_the_fetch() {
    let mut session = fetch();
    session.answered(Ok(200));
    session.stored(Err("No space left on device".to_string()));
    assert_eq!(session.pending(), FetchStep::Respond);
    assert_eq!(
        session.response().unwrap(),
        "ERROR: Disk Write Failed: No space left on device"
    );
    assert!(session.staged().is_none());
}

#[test]
fn fetch_reports_out_of_turn_change_nothing() {
    let mut session = fetch();
    session.stored(Ok(()));
    assert_eq!(session.pending(), FetchStep::Request);
    session.answered(Ok(200));
    session.answered(Ok(404));
    assert_eq!(session.pending(), FetchStep::Store);
    session.stored(Ok(()));
    session.stored(Err("late".to_string()));
    session.answered(Err("late".to_string()));
    assert_eq!(session.response().unwrap(), "/tmp/data_agent_0.tmp");
}

#[test]
fn failed_transfer_of_the_body_is_a_failed_connection() {
    let mut session = fetch();
    session.answered(Ok(200));
    assert_eq!(session.pending(), FetchStep::Store);
    session.body_failed("connection reset by peer".to_string());
    assert_eq!(session.pending(), FetchStep::Respond);
    assert_eq!(
        session.response().unwrap(),
        "ERROR: Connection Failed: connection reset by peer"
    );
    assert!(session.staged().is_none());
    session.stored(Ok(()));
    session.stored(Err("late".to_string()));
    assert_eq!(
        session.response().unwrap(),
        "ERROR: Connection Failed: connection reset by peer"
    );
}

#[test]
fn failed_transfer_out_of_turn_changes_nothing() {
    let mut session = fetch();
    session.body_failed("early".to_string());
    assert_eq!(session.pending(), FetchStep::Request);
    session.answered(Ok(204));
    session.stored(Ok(()));
    session.body_failed("late".to_string());
    assert_eq!(session.response().unwrap(), "/tmp/data_agent_0.tmp");
    let mut session = fetch();
    session.answered(Ok(404));
    session.body_failed("late".to_string());
    assert_eq!(session.response().unwrap(), "ERROR: Server returned status: 404");
}
