//! The ways in which the handling of a message can fail.

use vstd::prelude::*;
use vstd::string::*;

verus! {

/// Said of a message that the message service did not accept.
pub const MESSAGE_REJECTED: &'static str = "Error sending message";

/// Said of a card that the document service did not make.
pub const SERVICE_REJECTED: &'static str = "Internal Server Error";

/// Said of an answer of the document service that names no document.
pub const NO_DOWNLOAD_PATH: &'static str = "No download URL";

/// Why a message was not sent or a card was not delivered.
#[derive(Debug)]
pub enum Failure {
    /// The request could not be made or got no answer; the text says why.
    Request(String),
    /// The message service answered, and not with success.
    MessageRejected,
    /// The document service answered, and not with success.
    ServiceRejected,
    /// The document service answered with success and named no document.
    NoDownloadPath,
}

/// A `Failure` as a mathematical value.
pub enum FailureView {
    Request(Seq<char>),
    MessageRejected,
    ServiceRejected,
    NoDownloadPath,
}

impl FailureView {
    /// The failure in words.
    pub open spec fn text(self) -> Seq<char> {
        match self {
            FailureView::Request(reason) => reason,
            FailureView::MessageRejected => MESSAGE_REJECTED@,
            FailureView::ServiceRejected => SERVICE_REJECTED@,
            FailureView::NoDownloadPath => NO_DOWNLOAD_PATH@,
        }
    }
}

impl View for Failure {
    type V = FailureView;

    open spec fn view(&self) -> FailureView {
        match self {
            Failure::Request(reason) => FailureView::Request(reason@),
            Failure::MessageRejected => FailureView::MessageRejected,
            Failure::ServiceRejected => FailureView::ServiceRejected,
            Failure::NoDownloadPath => FailureView::NoDownloadPath,
        }
    }
}

impl Failure {
    /// The failure in words.
    pub fn message(&self) -> (text: String)
        ensures
            text@ == self@.text(),
    {
        match self {
            Failure::Request(reason) => reason.clone(),
            Failure::MessageRejected => String::from_str(MESSAGE_REJECTED),
            Failure::ServiceRejected => String::from_str(SERVICE_REJECTED),
            Failure::NoDownloadPath => String::from_str(NO_DOWNLOAD_PATH),
        }
    }
}

/// The result of a send as a mathematical value.
pub open spec fn sent_view(outcome: Result<(), Failure>) -> Result<(), FailureView> {
    match outcome {
        Ok(_) => Ok(()),
        Err(failure) => Err(failure@),
    }
}

/// A text or a failure as a mathematical value.
pub open spec fn text_view(outcome: Result<String, Failure>) -> Result<Seq<char>, FailureView> {
    match outcome {
        Ok(text) => Ok(text@),
        Err(failure) => Err(failure@),
    }
}

} // verus!
