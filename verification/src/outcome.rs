//! What became of one device in a run.

use vstd::prelude::*;
use vstd::string::StringExecFns;

verus! {

/// Why a download failed.
#[derive(Clone, Copy, Debug, PartialEq, Eq, Structural)]
pub enum ErrorKind {
    /// A call to the catalog service failed.
    RemoteUnavailable,
    /// The local filesystem refused something.
    IoError,
    /// The user interrupted the run.
    Cancelled,
}

/// The result of handling one device.
#[derive(Clone, Debug, PartialEq, Eq)]
pub enum DownloadOutcome {
    /// Nothing was fetched, for the reason given.
    Skipped(String),
    /// The image is at its final path; the number counts the bytes staged.
    Completed(u64),
    /// No image is at the final path on account of this download.
    Failed(ErrorKind, String),
}

/// A `DownloadOutcome` with its texts as sequences of characters.
pub enum OutcomeView {
    Skipped(Seq<char>),
    Completed(u64),
    Failed(ErrorKind, Seq<char>),
}

impl View for DownloadOutcome {
    type V = OutcomeView;

    open spec fn view(&self) -> OutcomeView {
        match self {
            DownloadOutcome::Skipped(reason) => OutcomeView::Skipped(reason@),
            DownloadOutcome::Completed(bytes) => OutcomeView::Completed(*bytes),
            DownloadOutcome::Failed(kind, message) => OutcomeView::Failed(*kind, message@),
        }
    }
}

/// The reason given when a device has no image at all.
pub open spec fn no_firmware_reason() -> Seq<char> {
    "no firmware available"@
}

/// The reason given when the newest image is already stored.
pub open spec fn already_downloaded_reason() -> Seq<char> {
    "already downloaded"@
}

/// The message of a download that the user interrupted.
pub open spec fn interrupted_message() -> Seq<char> {
    "interrupted"@
}

/// The message of a download whose byte count left the range of `u64`.
pub open spec fn overflow_message() -> Seq<char> {
    "staged size out of range"@
}

impl DownloadOutcome {
    /// The download failed because the user interrupted it.
    pub open spec fn spec_is_cancelled(&self) -> bool {
        self@ matches OutcomeView::Failed(kind, _) && kind == ErrorKind::Cancelled
    }

    /// Tells whether the download failed because the user interrupted it.
    #[verifier::when_used_as_spec(spec_is_cancelled)]
    pub fn is_cancelled(&self) -> (cancelled: bool)
        ensures
            cancelled == self.spec_is_cancelled(),
    {
        match self {
            DownloadOutcome::Failed(kind, _) => match kind {
                ErrorKind::Cancelled => true,
                _ => false,
            },
            _ => false,
        }
    }

    /// The outcome for a device without images.
    pub fn no_firmware() -> (outcome: DownloadOutcome)
        ensures
            outcome@ == OutcomeView::Skipped(no_firmware_reason()),
    {
        DownloadOutcome::Skipped(String::from_str("no firmware available"))
    }

    /// The outcome for a device whose newest image is already stored.
    pub fn already_downloaded() -> (outcome: DownloadOutcome)
        ensures
            outcome@ == OutcomeView::Skipped(already_downloaded_reason()),
    {
        DownloadOutcome::Skipped(String::from_str("already downloaded"))
    }

    /// The outcome for a device whose listing the catalog service did not
    /// give; `description` says why.
    pub fn fetch_failed(description: String) -> (outcome: DownloadOutcome)
        ensures
            outcome@ == OutcomeView::Failed(ErrorKind::RemoteUnavailable, description@),
    {
        DownloadOutcome::Failed(ErrorKind::RemoteUnavailable, description)
    }

    /// The outcome of a download that the user interrupted.
    pub fn interrupted() -> (outcome: DownloadOutcome)
        ensures
            outcome@ == OutcomeView::Failed(ErrorKind::Cancelled, interrupted_message()),
            outcome.spec_is_cancelled(),
    {
        DownloadOutcome::Failed(ErrorKind::Cancelled, String::from_str("interrupted"))
    }
}

} // verus!
