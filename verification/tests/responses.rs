use data_agent::error::{ErrorKind, FetchError, LoadError, QueryError};
use data_agent::format::SourceKind;
use data_agent::respond::{
    engine_report, fetch_failure, fetch_response, load_response, query_response, QueryOutcome,
};

#[test]
fn load_failure_is_reported_as_a_failure_to_open() {
    let outcome = QueryOutcome::NotLoaded(LoadError::Open("No such file".to_string()));
    assert_eq!(query_response(SourceKind::Csv, &outcome), "Error opening file: No such file");
    assert_eq!(outcome.failure(), Some(ErrorKind::Open));
    let outcome = QueryOutcome::NotLoaded(LoadError::Parse("bad magic".to_string()));
    assert_eq!(query_response(SourceKind::Parquet, &outcome), "Error opening file: bad magic");
    assert_eq!(outcome.failure(), Some(ErrorKind::Parse));
    let outcome =
        QueryOutcome::NotLoaded(LoadError::Compute("could not read the first sheet".to_string()));
    assert_eq!(
        query_response(SourceKind::Xlsx, &outcome),
        "Error opening file: could not read the first sheet"
    );
}

#[test]
fn query_failures_name_their_stage() {
    let outcome = QueryOutcome::Failed(QueryError::Parse("unknown column".to_string()));
    assert_eq!(query_response(SourceKind::Csv, &outcome), "SQL Parsing Error: unknown column");
    assert_eq!(outcome.failure(), Some(ErrorKind::SqlParse));
    let outcome = QueryOutcome::Failed(QueryError::Execution("cannot cast".to_string()));
    assert_eq!(query_response(SourceKind::Csv, &outcome), "SQL Execution Error: cannot cast");
    assert_eq!(outcome.failure(), Some(ErrorKind::SqlExecution));
}

#[test]
fn results_carry_the_format_tag() {
    let outcome = QueryOutcome::Table("shape: (0, 0)".to_string());
    assert_eq!(outcome.failure(), None);
    assert_eq!(
        query_response(SourceKind::Parquet, &outcome),
        "Query Results [Format: PARQUET]:\n\nshape: (0, 0)"
    );
    assert_eq!(
        query_response(SourceKind::Csv, &outcome),
        "Query Results [Format: CSV]:\n\nshape: (0, 0)"
    );
    assert_eq!(
        query_response(SourceKind::Tsv, &outcome),
        "Query Results [Format: TSV]:\n\nshape: (0, 0)"
    );
    assert_eq!(
        query_response(SourceKind::JsonLines, &outcome),
        "Query Results [Format: JSONL]:\n\nshape: (0, 0)"
    );
    assert_eq!(
        query_response(SourceKind::Xlsx, &outcome),
        "Query Results [Format: XLSX]:\n\nshape: (0, 0)"
    );
}

#[test]
fn empty_diagnostics_and_tables_leave_the_bare_prefix() {
    assert_eq!(
        query_response(SourceKind::Csv, &QueryOutcome::NotLoaded(LoadError::Open(String::new()))),
        "Error opening file: "
    );
    assert_eq!(
        query_response(SourceKind::Csv, &QueryOutcome::Table(String::new())),
        "Query Results [Format: CSV]:\n\n"
    );
}

#[test]
fn query_errors_know_message_and_kind() {
    let e = QueryError::Parse("p".to_string());
    assert_eq!(e.message(), "p");
    assert_eq!(e.kind(), ErrorKind::SqlParse);
    let e = QueryError::Execution("x".to_string());
    assert_eq!(e.message(), "x");
    assert_eq!(e.kind(), ErrorKind::SqlExecution);
}

#[test]
fn load_responses() {
    assert_eq!(
        load_response(&Ok("shape: (1, 1)".to_string())),
        "CSV loaded successfully!\n\nshape: (1, 1)"
    );
    assert_eq!(
        load_response(&Err(LoadError::Open("denied".to_string()))),
        "ERROR opening file: denied"
    );
    assert_eq!(
        load_response(&Err(LoadError::Parse("ragged".to_string()))),
        "ERROR reading CSV: ragged"
    );
    assert_eq!(
        load_response(&Err(LoadError::Compute("odd".to_string()))),
        "ERROR reading CSV: odd"
    );
}

#[test]
fn engine_reports() {
    assert_eq!(engine_report(&Ok("table".to_string())), "Polars is running!\n\ntable");
    assert_eq!(engine_report(&Err("no".to_string())), "ERROR: no");
}

#[test]
fn fetch_responses() {
    assert_eq!(fetch_response(&Ok("/tmp/data_agent_x.tmp".to_string())), "/tmp/data_agent_x.tmp");
    assert_eq!(
        fetch_response(&Err(FetchError::ServerStatus(404))),
        "ERROR: Server returned status: 404"
    );
    assert_eq!(
        fetch_response(&Err(FetchError::ServerStatus(500))),
        "ERROR: Server returned status: 500"
    );
    assert_eq!(
        fetch_response(&Err(FetchError::Connection("refused".to_string()))),
        "ERROR: Connection Failed: refused"
    );
    assert_eq!(
        fetch_response(&Err(FetchError::DiskWrite("disk full".to_string()))),
        "ERROR: Disk Write Failed: disk full"
    );
    assert_eq!(fetch_failure(&FetchError::ServerStatus(0)), "ERROR: Server returned status: 0");
    assert_eq!(
        fetch_failure(&FetchError::ServerStatus(u16::MAX)),
        "ERROR: Server returned status: 65535"
    );
}

#[test]
fn fetch_errors_know_their_kind() {
    assert_eq!(FetchError::ServerStatus(404).kind(), ErrorKind::Network);
    assert_eq!(FetchError::Connection(String::new()).kind(), ErrorKind::Network);
    assert_eq!(FetchError::DiskWrite(String::new()).kind(), ErrorKind::Disk);
}

#[test]
fn rows_of_a_workbook_are_refused_as_unsupported() {
    assert_eq!(SourceKind::Xlsx.require_full_query(), Err(ErrorKind::UnsupportedFormat));
    assert_eq!(SourceKind::Csv.require_full_query(), Ok(()));
    assert_eq!(SourceKind::Parquet.require_full_query(), Ok(()));
    assert_eq!(SourceKind::JsonLines.require_full_query(), Ok(()));
}
