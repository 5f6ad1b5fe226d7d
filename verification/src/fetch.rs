//! Staging a remote resource: the name of the staged file, and the course
//! of a fetch from the request to the response.
//!
//! The request and the write to disk are made by the driver. It asks
//! [`FetchSession::pending`] what to do, does it, and reports how it went.

use vstd::prelude::*;
use crate::error::{FetchError, FetchErrorModel};
use crate::respond::{fetch_failure, spec_fetch_response};

verus! {

/// A remote resource staged in a local file. The file is the caller's from
/// here on: nothing removes it.
#[derive(Debug)]
pub struct StagedDownload {
    pub local_path: String,
    pub source_url: String,
}

pub open spec fn is_hex_digit(c: char) -> bool {
    ('0' <= c <= '9') || ('a' <= c <= 'f')
}

/// The shape of an identifier: 32 lower-case hexadecimal digits in five
/// groups of 8, 4, 4, 4 and 12, with a hyphen between two groups.
pub open spec fn is_identifier(id: Seq<char>) -> bool {
    &&& id.len() == 36
    &&& forall|i: int|
        0 <= i < 36 ==> if i == 8 || i == 13 || i == 18 || i == 23 {
            id[i] == '-'
        } else {
            is_hex_digit(#[trigger] id[i])
        }
}

/// A random identifier from `uuid::Uuid::new_v4`, written out by the
/// identifier's `Display`. Trusted: the text has the hyphenated lower-case
/// form. Nothing is claimed of which identifier comes, nor that two calls
/// differ.
#[verifier::external_body]
fn fresh_identifier() -> (id: String)
    ensures
        is_identifier(id@),
{
    uuid::Uuid::new_v4().to_string()
}

/// The name of the file in which a download with identifier `id` is staged.
pub open spec fn staged_name(id: Seq<char>) -> Seq<char> {
    "data_agent_"@ + id + ".tmp"@
}

pub fn staged_file_name(id: &str) -> (name: String)
    ensures
        name@ == staged_name(id@),
{
    let mut name = String::from_str("data_agent_");
    name.append(id);
    name.append(".tmp");
    name
}

/// A file name for a new download, made of a fresh random identifier, so
/// that downloads that run side by side do not meet in one file.
pub fn fresh_staged_file_name() -> (name: String)
    ensures
        exists|id: Seq<char>| is_identifier(id) && name@ == staged_name(id),
{
    let id = fresh_identifier();
    staged_file_name(id.as_str())
}

/// Whether a status code reports success: 200 up to 299.
pub open spec fn spec_is_success(status: u16) -> bool {
    200 <= status < 300
}

#[verifier::when_used_as_spec(spec_is_success)]
pub fn is_success(status: u16) -> (b: bool)
    ensures
        b == spec_is_success(status),
{
    200 <= status && status < 300
}

/// What the driver of a fetch is to do next.
#[derive(Clone, Copy, Debug, PartialEq, Eq, Structural)]
pub enum FetchStep {
    /// Request the resource at the session's URL.
    Request,
    /// Read the body of the answer and write it to the file at the
    /// session's local path.
    Store,
    /// Hand the response to the caller; the fetch is over.
    Respond,
}

/// How far a fetch has come.
#[derive(Debug)]
pub enum FetchProgress {
    AwaitingAnswer,
    AwaitingStore,
    Staged,
    Failed(FetchError),
}

pub enum FetchProgressModel {
    AwaitingAnswer,
    AwaitingStore,
    Staged,
    Failed(FetchErrorModel),
}

impl View for FetchProgress {
    type V = FetchProgressModel;

    open spec fn view(&self) -> FetchProgressModel {
        match self {
            FetchProgress::AwaitingAnswer => FetchProgressModel::AwaitingAnswer,
            FetchProgress::AwaitingStore => FetchProgressModel::AwaitingStore,
            FetchProgress::Staged => FetchProgressModel::Staged,
            FetchProgress::Failed(e) => FetchProgressModel::Failed(e@),
        }
    }
}

/// The state of a fetch.
pub struct FetchModel {
    pub url: Seq<char>,
    pub local_path: Seq<char>,
    pub progress: FetchProgressModel,
}

impl FetchModel {
    pub open spec fn start(url: Seq<char>, local_path: Seq<char>) -> FetchModel {
        FetchModel { url, local_path, progress: FetchProgressModel::AwaitingAnswer }
    }

    pub open spec fn pending(self) -> FetchStep {
        match self.progress {
            FetchProgressModel::AwaitingAnswer => FetchStep::Request,
            FetchProgressModel::AwaitingStore => FetchStep::Store,
            _ => FetchStep::Respond,
        }
    }

    /// The state after the request was answered with a status, or failed
    /// with a diagnostic. A success leads on to the store, any other status
    /// ends the fetch, and so does a failed connection. An answer that was
    /// not asked for changes nothing.
    pub open spec fn answered(self, answer: Result<u16, Seq<char>>) -> FetchModel {
        match self.progress {
            FetchProgressModel::AwaitingAnswer => FetchModel {
                progress: match answer {
                    Ok(status) => if spec_is_success(status) {
                        FetchProgressModel::AwaitingStore
                    } else {
                        FetchProgressModel::Failed(FetchErrorModel::ServerStatus(status))
                    },
                    Err(m) => FetchProgressModel::Failed(FetchErrorModel::Connection(m)),
                },
                ..self
            },
            _ => self,
        }
    }

    /// The state after the body could not be read from the connection: the
    /// fetch ends as a failed connection, with the diagnostic. A report that
    /// was not asked for changes nothing.
    pub open spec fn body_failed(self, diagnostic: Seq<char>) -> FetchModel {
        match self.progress {
            FetchProgressModel::AwaitingStore => FetchModel {
                progress: FetchProgressModel::Failed(FetchErrorModel::Connection(diagnostic)),
                ..self
            },
            _ => self,
        }
    }

    /// The state after the body was written, or could not be. A report
    /// that was not asked for changes nothing.
    pub open spec fn stored(self, written: Result<(), Seq<char>>) -> FetchModel {
        match self.progress {
            FetchProgressModel::AwaitingStore => FetchModel {
                progress: match written {
                    Ok(_) => FetchProgressModel::Staged,
                    Err(m) => FetchProgressModel::Failed(FetchErrorModel::DiskWrite(m)),
                },
                ..self
            },
            _ => self,
        }
    }

    /// The response, once the fetch is over.
    pub open spec fn response(self) -> Option<Seq<char>> {
        match self.progress {
            FetchProgressModel::Staged => Some(spec_fetch_response(Ok(self.local_path))),
            FetchProgressModel::Failed(e) => Some(spec_fetch_response(Err(e))),
            _ => None,
        }
    }
}

pub open spec fn answer_model(answer: Result<u16, String>) -> Result<u16, Seq<char>> {
    match answer {
        Ok(status) => Ok(status),
        Err(m) => Err(m@),
    }
}

pub open spec fn written_model(written: Result<(), String>) -> Result<(), Seq<char>> {
    match written {
        Ok(_) => Ok(()),
        Err(m) => Err(m@),
    }
}

/// One fetch, from the request to the response.
pub struct FetchSession {
    url: String,
    local_path: String,
    progress: FetchProgress,
}

impl View for FetchSession {
    type V = FetchModel;

    closed spec fn view(&self) -> FetchModel {
        FetchModel { url: self.url@, local_path: self.local_path@, progress: self.progress@ }
    }
}

impl FetchSession {
    /// Begins the fetch of `url` into the file at `local_path`.
    pub fn begin(url: String, local_path: String) -> (session: FetchSession)
        ensures
            session@ == FetchModel::start(url@, local_path@),
    {
        FetchSession { url, local_path, progress: FetchProgress::AwaitingAnswer }
    }

    pub fn url(&self) -> (url: &str)
        ensures
            url@ == self@.url,
    {
        self.url.as_str()
    }

    pub fn local_path(&self) -> (local_path: &str)
        ensures
            local_path@ == self@.local_path,
    {
        self.local_path.as_str()
    }

    /// What the driver is to do next.
    pub fn pending(&self) -> (step: FetchStep)
        ensures
            step == self@.pending(),
    {
        match self.progress {
            FetchProgress::AwaitingAnswer => FetchStep::Request,
            FetchProgress::AwaitingStore => FetchStep::Store,
            _ => FetchStep::Respond,
        }
    }

    /// Takes the answer to the request: the status, or the diagnostic of a
    /// connection that failed.
    pub fn answered(&mut self, answer: Result<u16, String>)
        ensures
            final(self)@ == old(self)@.answered(answer_model(answer)),
    {
        if let FetchProgress::AwaitingAnswer = self.progress {
            self.progress = match answer {
                Ok(status) => if is_success(status) {
                    FetchProgress::AwaitingStore
                } else {
                    FetchProgress::Failed(FetchError::ServerStatus(status))
                },
                Err(m) => FetchProgress::Failed(FetchError::Connection(m)),
            };
        }
    }

    /// Takes the report that the body could not be read from the
    /// connection, with the diagnostic.
    pub fn body_failed(&mut self, diagnostic: String)
        ensures
            final(self)@ == old(self)@.body_failed(diagnostic@),
    {
        if let FetchProgress::AwaitingStore = self.progress {
            self.progress = FetchProgress::Failed(FetchError::Connection(diagnostic));
        }
    }

    /// Takes the report on the write: done, or the diagnostic.
    pub fn stored(&mut self, written: Result<(), String>)
        ensures
            final(self)@ == old(self)@.stored(written_model(written)),
    {
        if let FetchProgress::AwaitingStore = self.progress {
            self.progress = match written {
                Ok(_) => FetchProgress::Staged,
                Err(m) => FetchProgress::Failed(FetchError::DiskWrite(m)),
            };
        }
    }

    /// The response to the caller, once the fetch is over: the local path,
    /// or the failure.
    pub fn response(&self) -> (response: Option<String>)
        ensures
            match response {
                Some(text) => self@.response() == Some(text@),
                None => self@.response() is None,
            },
    {
        match &self.progress {
            FetchProgress::Staged => Some(self.local_path.clone()),
            FetchProgress::Failed(e) => Some(fetch_failure(e)),
            _ => None,
        }
    }

    /// The staged download, where the fetch ended well.
    pub fn staged(&self) -> (download: Option<StagedDownload>)
        ensures
            match download {
                Some(d) => self@.progress is Staged && d.local_path@ == self@.local_path
                    && d.source_url@ == self@.url,
                None => !(self@.progress is Staged),
            },
    {
        match self.progress {
            FetchProgress::Staged => Some(
                StagedDownload {
                    local_path: self.local_path.clone(),
                    source_url: self.url.clone(),
                },
            ),
            _ => None,
        }
    }
}

/// A fetch ends with the local path only by way of a successful status and
/// a completed write, in that order; and once it is over, no report changes
/// it.
pub proof fn lemma_fetch_course(
    start: FetchModel,
    answer: Result<u16, Seq<char>>,
    written: Result<(), Seq<char>>,
)
    requires
        start.progress is AwaitingAnswer,
    ensures
        start.answered(answer).stored(written).progress is Staged <==> (answer matches Ok(status)
            && spec_is_success(status) && written is Ok),
        start.stored(written) == start,
        start.answered(answer).stored(written).pending() == FetchStep::Respond,
        start.answered(answer).stored(written).answered(answer) == start.answered(answer).stored(
            written,
        ),
        start.answered(answer).stored(written).stored(written) == start.answered(answer).stored(
            written,
        ),
{
}

/// A body that cannot be read after a status of success is a failure of
/// the connection, not of the disk: the response names the connection and
/// carries the diagnostic. Before the status, and once the fetch is over,
/// such a report changes nothing.
pub proof fn lemma_failed_transfer(start: FetchModel, status: u16, diagnostic: Seq<char>)
    requires
        start.progress is AwaitingAnswer,
        spec_is_success(status),
    ensures
        start.answered(Ok(status)).body_failed(diagnostic).response() == Some(
            "ERROR: Connection Failed: "@ + diagnostic,
        ),
        start.answered(Ok(status)).body_failed(diagnostic).pending() == FetchStep::Respond,
        start.body_failed(diagnostic) == start,
        start.answered(Ok(status)).body_failed(diagnostic).body_failed(diagnostic)
            == start.answered(Ok(status)).body_failed(diagnostic),
{
}

} // verus!
