//! What passes between the sequence and the program that runs it: the
//! sequence names one action at a time, the program performs it and hands
//! back a reply.

use vstd::prelude::*;
use vstd::string::StringExecFns;
use crate::config::{ClientConfig, SyncConfig};

verus! {

/// What the time-sync client reports of its progress.
#[derive(Clone, Copy, Debug, PartialEq, Eq, Structural)]
pub enum SyncStatus {
    Reset,
    Completed,
    InProgress,
}

/// What a collaborator answered to the action that was pending.
#[derive(Clone, Debug, PartialEq, Eq)]
pub enum Reply {
    /// The operation succeeded and has nothing to report.
    Done,
    /// The operation failed; the text is the collaborator's own account.
    Failed(String),
    /// The primary and the secondary name server of the interface.
    Nameservers(String, String),
    /// The status of the time-sync client.
    Status(SyncStatus),
    /// The wall-clock time, formatted, where it could be.
    Timestamp(Option<String>),
    /// The whole body of the response, as text.
    Body(String),
}

/// What stands for the time where it could not be formatted.
pub const UNKNOWN_TIME: &'static str = "unknown";

/// A line for the log, kept as the parts it is made of.
#[derive(Clone, Debug, PartialEq, Eq)]
pub enum LogLine {
    /// The primary and the secondary name server of the interface.
    Nameservers(String, String),
    /// The clock is synchronized; the formatted time, where there is one.
    SyncCompleted(Option<String>),
    /// The body of the response.
    Body(String),
    /// The sequence is through.
    Complete,
}

impl LogLine {
    /// The line as it is written to the log.
    pub open spec fn text_view(self) -> Seq<char> {
        match self {
            LogLine::Nameservers(primary, secondary) => "nameservers "@ + primary@ + ", "@
                + secondary@,
            LogLine::SyncCompleted(Some(time)) => "ntp syncing completed, current time: "@ + time@,
            LogLine::SyncCompleted(None) => "ntp syncing completed, current time: "@
                + UNKNOWN_TIME@,
            LogLine::Body(body) => body@,
            LogLine::Complete => "complete"@,
        }
    }

    /// Writes the line out. A body comes out exactly as it came in.
    pub fn text(&self) -> (r: String)
        ensures
            r@ == self.text_view(),
    {
        match self {
            LogLine::Nameservers(primary, secondary) => {
                let mut out = "nameservers ".to_owned();
                out.append(primary.as_str());
                out.append(", ");
                out.append(secondary.as_str());
                out
            },
            LogLine::SyncCompleted(Some(time)) => {
                let mut out = "ntp syncing completed, current time: ".to_owned();
                out.append(time.as_str());
                out
            },
            LogLine::SyncCompleted(None) => {
                let mut out = "ntp syncing completed, current time: ".to_owned();
                out.append(UNKNOWN_TIME);
                out
            },
            LogLine::Body(body) => body.clone(),
            LogLine::Complete => "complete".to_owned(),
        }
    }
}

/// A label, followed by a colon and the cause where one is known: the form of
/// every message about a failed operation.
pub open spec fn labelled(label: Seq<char>, cause: Option<String>) -> Seq<char> {
    match cause {
        Some(text) => label + ": "@ + text@,
        None => label,
    }
}

/// Writes a label, followed by a colon and the cause where one is known.
pub fn describe(label: &str, cause: &Option<String>) -> (r: String)
    ensures
        r@ == labelled(label@, *cause),
{
    let mut out = label.to_owned();
    match cause {
        Some(text) => {
            out.append(": ");
            out.append(text.as_str());
        },
        None => {},
    }
    out
}

/// An action for the program to perform. Each is answered by one reply.
#[derive(Clone, Copy, Debug, PartialEq, Eq)]
pub enum Action<'a> {
    /// Apply the client configuration to the radio driver.
    Configure(&'a ClientConfig),
    /// Start the interface.
    Start,
    /// Associate with the access point.
    Connect,
    /// Wait until the interface is up, which implies an address.
    WaitInterfaceUp,
    /// Read the interface's primary and secondary name servers.
    ReadNameservers,
    /// Start the time-sync client.
    StartSync(SyncConfig),
    /// Ask the time-sync client for its status.
    PollSync,
    /// Suspend for the given number of seconds.
    Sleep(u64),
    /// Read the wall clock and format it.
    TakeSnapshot,
    /// Request the resource at the given address and read its whole body.
    Fetch(&'a str),
    /// Write a line to the log.
    Log(&'a LogLine),
}

} // verus!
