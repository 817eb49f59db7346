//! The status events that a job sends to the user interface.

use vstd::prelude::*;
use vstd::string::*;

verus! {

/// The name of the stream that carries the status events.
pub const STATUS_CHANNEL: &'static str = "DOWNLOAD_STATUS";

/// What an event says of its job.
#[derive(Clone, Copy, Debug, PartialEq, Eq, Structural)]
pub enum Status {
    Downloading,
    Success,
    Error,
    Cancelled,
}

impl Status {
    /// A terminal status ends the observable life of a job.
    pub open spec fn is_terminal(self) -> bool {
        self != Status::Downloading
    }

    /// The word by which the user interface knows the status.
    pub open spec fn label(self) -> Seq<char> {
        match self {
            Status::Downloading => "downloading"@,
            Status::Success => "success"@,
            Status::Error => "error"@,
            Status::Cancelled => "cancelled"@,
        }
    }

    /// Whether the status is terminal.
    pub fn terminal(self) -> (yes: bool)
        ensures
            yes == self.is_terminal(),
    {
        match self {
            Status::Downloading => false,
            _ => true,
        }
    }

    /// The word by which the user interface knows the status.
    pub fn name(self) -> (word: String)
        ensures
            word@ == self.label(),
    {
        match self {
            Status::Downloading => String::from_str("downloading"),
            Status::Success => String::from_str("success"),
            Status::Error => String::from_str("error"),
            Status::Cancelled => String::from_str("cancelled"),
        }
    }
}

/// One status event: what happened, a text for the user, and the job it is
/// about.
#[derive(Clone, Debug)]
pub struct DownloadPayload {
    pub status: Status,
    pub message: String,
    pub download_id: Option<String>,
}

/// A status event as plain values.
pub struct PayloadView {
    pub status: Status,
    pub message: Seq<char>,
    pub download_id: Option<Seq<char>>,
}

impl View for DownloadPayload {
    type V = PayloadView;

    open spec fn view(&self) -> PayloadView {
        PayloadView {
            status: self.status,
            message: self.message@,
            download_id: match self.download_id {
                Some(id) => Some(id@),
                None => None,
            },
        }
    }
}

/// The event with the given status and text about the job `id`.
pub open spec fn report_of(status: Status, message: Seq<char>, id: Seq<char>) -> PayloadView {
    PayloadView { status, message, download_id: Some(id) }
}

impl DownloadPayload {
    /// The event with the given status and text about the job `id`.
    pub fn about(status: Status, message: String, id: &String) -> (event: DownloadPayload)
        ensures
            event@ == report_of(status, message@, id@),
    {
        DownloadPayload { status, message, download_id: Some(id.clone()) }
    }

    /// The event that opens the life of the job `id`.
    pub fn downloading(id: &String) -> (event: DownloadPayload)
        ensures
            event@ == report_of(Status::Downloading, "Starting download..."@, id@),
    {
        DownloadPayload::about(Status::Downloading, String::from_str("Starting download..."), id)
    }
}

} // verus!
