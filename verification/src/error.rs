//! The failures of each stage, and the kinds under which they are known.

use vstd::prelude::*;

verus! {

/// The kinds of failure that the service knows.
#[derive(Clone, Copy, Debug, PartialEq, Eq, Structural)]
pub enum ErrorKind {
    /// The source is missing or cannot be read.
    Open,
    /// The content does not match the declared format.
    Parse,
    /// The query is malformed or names what the bound table does not hold.
    SqlParse,
    /// A valid query failed while it was evaluated.
    SqlExecution,
    /// The connection failed or the server answered without success.
    Network,
    /// The staged file could not be written.
    Disk,
    /// Rows were asked of a source that is reported by its dimensions only.
    UnsupportedFormat,
}

/// Why a source could not be loaded. Each carries the diagnostic as it came.
#[derive(Debug)]
pub enum LoadError {
    Open(String),
    Parse(String),
    Compute(String),
}

pub enum LoadErrorModel {
    Open(Seq<char>),
    Parse(Seq<char>),
    Compute(Seq<char>),
}

impl LoadErrorModel {
    /// The diagnostic.
    pub open spec fn message(self) -> Seq<char> {
        match self {
            LoadErrorModel::Open(m) => m,
            LoadErrorModel::Parse(m) => m,
            LoadErrorModel::Compute(m) => m,
        }
    }

    /// The kind under which the failure is known. What could not be
    /// computed from the source counts as content that does not match the
    /// format.
    pub open spec fn kind(self) -> ErrorKind {
        match self {
            LoadErrorModel::Open(_) => ErrorKind::Open,
            LoadErrorModel::Parse(_) => ErrorKind::Parse,
            LoadErrorModel::Compute(_) => ErrorKind::Parse,
        }
    }
}

impl View for LoadError {
    type V = LoadErrorModel;

    open spec fn view(&self) -> LoadErrorModel {
        match self {
            LoadError::Open(m) => LoadErrorModel::Open(m@),
            LoadError::Parse(m) => LoadErrorModel::Parse(m@),
            LoadError::Compute(m) => LoadErrorModel::Compute(m@),
        }
    }
}

impl LoadError {
    pub fn message(&self) -> (message: &str)
        ensures
            message@ == self@.message(),
    {
        match self {
            LoadError::Open(m) => m.as_str(),
            LoadError::Parse(m) => m.as_str(),
            LoadError::Compute(m) => m.as_str(),
        }
    }

    pub fn kind(&self) -> (kind: ErrorKind)
        ensures
            kind == self@.kind(),
    {
        match self {
            LoadError::Open(_) => ErrorKind::Open,
            LoadError::Parse(_) => ErrorKind::Parse,
            LoadError::Compute(_) => ErrorKind::Parse,
        }
    }
}

/// Why a query gave no table: it did not parse against the bound table, or
/// it failed when the rows were read.
#[derive(Debug)]
pub enum QueryError {
    Parse(String),
    Execution(String),
}

pub enum QueryErrorModel {
    Parse(Seq<char>),
    Execution(Seq<char>),
}

impl QueryErrorModel {
    pub open spec fn message(self) -> Seq<char> {
        match self {
            QueryErrorModel::Parse(m) => m,
            QueryErrorModel::Execution(m) => m,
        }
    }

    pub open spec fn kind(self) -> ErrorKind {
        match self {
            QueryErrorModel::Parse(_) => ErrorKind::SqlParse,
            QueryErrorModel::Execution(_) => ErrorKind::SqlExecution,
        }
    }
}

impl View for QueryError {
    type V = QueryErrorModel;

    open spec fn view(&self) -> QueryErrorModel {
        match self {
            QueryError::Parse(m) => QueryErrorModel::Parse(m@),
            QueryError::Execution(m) => QueryErrorModel::Execution(m@),
        }
    }
}

impl QueryError {
    pub fn message(&self) -> (message: &str)
        ensures
            message@ == self@.message(),
    {
        match self {
            QueryError::Parse(m) => m.as_str(),
            QueryError::Execution(m) => m.as_str(),
        }
    }

    pub fn kind(&self) -> (kind: ErrorKind)
        ensures
            kind == self@.kind(),
    {
        match self {
            QueryError::Parse(_) => ErrorKind::SqlParse,
            QueryError::Execution(_) => ErrorKind::SqlExecution,
        }
    }
}

/// Why a remote resource was not staged.
#[derive(Debug)]
pub enum FetchError {
    /// The server answered with this status, which is not a success.
    ServerStatus(u16),
    Connection(String),
    DiskWrite(String),
}

pub enum FetchErrorModel {
    ServerStatus(u16),
    Connection(Seq<char>),
    DiskWrite(Seq<char>),
}

impl FetchErrorModel {
    pub open spec fn kind(self) -> ErrorKind {
        match self {
            FetchErrorModel::ServerStatus(_) => ErrorKind::Network,
            FetchErrorModel::Connection(_) => ErrorKind::Network,
            FetchErrorModel::DiskWrite(_) => ErrorKind::Disk,
        }
    }
}

impl View for FetchError {
    type V = FetchErrorModel;

    open spec fn view(&self) -> FetchErrorModel {
        match self {
            FetchError::ServerStatus(code) => FetchErrorModel::ServerStatus(*code),
            FetchError::Connection(m) => FetchErrorModel::Connection(m@),
            FetchError::DiskWrite(m) => FetchErrorModel::DiskWrite(m@),
        }
    }
}

impl FetchError {
    pub fn kind(&self) -> (kind: ErrorKind)
        ensures
            kind == self@.kind(),
    {
        match self {
            FetchError::ServerStatus(_) => ErrorKind::Network,
            FetchError::Connection(_) => ErrorKind::Network,
            FetchError::DiskWrite(_) => ErrorKind::Disk,
        }
    }
}

} // verus!
