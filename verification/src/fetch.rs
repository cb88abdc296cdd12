//! The resource fetcher: one request, the whole body as text, reported as it
//! came.
//!
//! Nothing is retried, and nothing bounds the wait for the response.

use vstd::prelude::*;
use crate::protocol::{describe, labelled, Action, LogLine, Reply};

verus! {

/// The address of the resource that is fetched.
pub const RESOURCE_URL: &'static str = "http://example.com";

/// The request failed, or the body could not be read. Fatal for the run.
#[derive(Clone, Debug, PartialEq, Eq)]
pub struct FetchError {
    /// The transport's own account, where it gave one.
    pub cause: Option<String>,
}

impl FetchError {
    /// What the error says, as text.
    pub open spec fn message_text(self) -> Seq<char> {
        labelled("couldn't download file"@, self.cause)
    }

    /// A message that begins with the label of the phase.
    pub fn message(&self) -> (r: String)
        ensures
            r@ == self.message_text(),
    {
        describe("couldn't download file", &self.cause)
    }
}

/// A fetcher at work, by what it waits for.
#[derive(Clone, Debug, PartialEq, Eq)]
pub enum Fetcher {
    /// The body of the response.
    Requesting,
    /// The writing of the body to the log.
    Reporting(LogLine),
}

/// A fetcher after a reply: still at work, done, or failed.
#[derive(Clone, Debug, PartialEq, Eq)]
pub enum Fetch {
    Fetching(Fetcher),
    Fetched,
    Failed(FetchError),
}

impl Fetcher {
    /// The action that is pending.
    pub open spec fn pending<'a>(&'a self) -> Action<'a> {
        match self {
            Fetcher::Requesting => Action::Fetch(RESOURCE_URL),
            Fetcher::Reporting(line) => Action::Log(line),
        }
    }

    /// The action to perform now.
    pub fn action<'a>(&'a self) -> (r: Action<'a>)
        ensures
            r == self.pending(),
    {
        match self {
            Fetcher::Requesting => Action::Fetch(RESOURCE_URL),
            Fetcher::Reporting(line) => Action::Log(line),
        }
    }

    /// The fetcher after the reply to its pending action.
    ///
    /// The request, answered with a body, gives way to the report of that
    /// body; answered otherwise it has failed, with the cause that a `Failed`
    /// reply gives. The writing of the report ends the work.
    pub open spec fn next(self, reply: Reply) -> Fetch {
        match self {
            Fetcher::Requesting => match reply {
                Reply::Body(body) => Fetch::Fetching(Fetcher::Reporting(LogLine::Body(body))),
                Reply::Failed(cause) => Fetch::Failed(FetchError { cause: Some(cause) }),
                _ => Fetch::Failed(FetchError { cause: None }),
            },
            Fetcher::Reporting(_) => Fetch::Fetched,
        }
    }

    /// Takes the reply to the pending action and moves on.
    pub fn step(self, reply: Reply) -> (r: Fetch)
        ensures
            r == self.next(reply),
    {
        match self {
            Fetcher::Requesting => match reply {
                Reply::Body(body) => Fetch::Fetching(Fetcher::Reporting(LogLine::Body(body))),
                Reply::Failed(cause) => Fetch::Failed(FetchError { cause: Some(cause) }),
                _ => Fetch::Failed(FetchError { cause: None }),
            },
            Fetcher::Reporting(_) => Fetch::Fetched,
        }
    }
}

impl Fetch {
    /// The fetcher that has done nothing yet.
    pub open spec fn fresh() -> Fetch {
        Fetch::Fetching(Fetcher::Requesting)
    }

    /// The fetcher after one more reply. Once done or failed it stays so.
    pub open spec fn next(self, reply: Reply) -> Fetch {
        match self {
            Fetch::Fetching(fetcher) => fetcher.next(reply),
            _ => self,
        }
    }

    /// Takes one more reply. Once done or failed the fetcher stays so.
    pub fn step(self, reply: Reply) -> (r: Fetch)
        ensures
            r == self.next(reply),
    {
        match self {
            Fetch::Fetching(fetcher) => fetcher.step(reply),
            Fetch::Fetched => Fetch::Fetched,
            Fetch::Failed(error) => Fetch::Failed(error),
        }
    }
}

/// The fetcher reports the body exactly as the transport returned it,
/// whatever it holds: the line that it asks to be written is the body,
/// character for character, and once that line is written the fetcher is
/// done.
pub proof fn lemma_body_is_reported_verbatim(body: String, written: Reply)
    ensures
        Fetch::fresh().next(Reply::Body(body)) matches Fetch::Fetching(fetcher)
            && fetcher.pending() matches Action::Log(line) && line.text_view() == body@,
        Fetch::fresh().next(Reply::Body(body)).next(written) == Fetch::Fetched,
{
}

} // verus!
