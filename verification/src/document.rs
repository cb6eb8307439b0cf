//! Requests to the document service: where they go, and what the answer of
//! the service means.

use vstd::prelude::*;
use vstd::string::*;
use crate::config::Config;
use crate::failure::{text_view, Failure, FailureView};
use crate::text::joined;

verus! {

/// Where the document service takes requests for a card, below its address.
pub const GENERATE_PATH: &'static str = "/generate_pdf";

/// The address to which a request for a card is posted.
pub fn card_request_url(config: &Config) -> (url: String)
    ensures
        url@ == config.pdf_service@ + GENERATE_PATH@,
{
    joined(config.pdf_service.as_str(), GENERATE_PATH)
}

/// What came back when a card was requested from the document service.
#[derive(Debug)]
pub enum CardReport {
    /// The service answered. `success` says whether its status was one of
    /// success, and `download_url` is the path of the document that its
    /// answer names, if it names one.
    Answered { success: bool, download_url: Option<String> },
    /// No answer came; `reason` says why.
    Failed { reason: String },
}

/// A `CardReport` as a mathematical value.
pub enum CardReportView {
    Answered { success: bool, download_url: Option<Seq<char>> },
    Failed { reason: Seq<char> },
}

impl View for CardReport {
    type V = CardReportView;

    open spec fn view(&self) -> CardReportView {
        match self {
            CardReport::Answered { success, download_url } => CardReportView::Answered {
                success: *success,
                download_url: download_url.deep_view(),
            },
            CardReport::Failed { reason } => CardReportView::Failed { reason: reason@ },
        }
    }
}

impl CardReportView {
    /// Whether the card was made: the service answered with success and named
    /// the document.
    pub open spec fn generated(self) -> bool {
        self matches CardReportView::Answered { success, download_url } && success
            && download_url is Some
    }

    /// What the report means for a document store at `download_service`.
    ///
    /// If the service answered with success and named a document, the result
    /// is the link to it: the address of the store followed by the path that
    /// the service named. If it answered with success and named none, there is
    /// no card. If it answered otherwise, the service rejected the request,
    /// whatever else the answer holds. If no answer came, the request failed
    /// for the reason reported.
    pub open spec fn link(self, download_service: Seq<char>) -> Result<Seq<char>, FailureView> {
        match self {
            CardReportView::Answered { success, download_url } => if !success {
                Err(FailureView::ServiceRejected)
            } else {
                match download_url {
                    Some(path) => Ok(download_service + path),
                    None => Err(FailureView::NoDownloadPath),
                }
            },
            CardReportView::Failed { reason } => Err(FailureView::Request(reason)),
        }
    }
}

/// The link to the card that a report of the document service speaks of, or
/// the failure that it reports.
pub fn card_link(report: &CardReport, download_service: &str) -> (link: Result<String, Failure>)
    ensures
        text_view(link) == report@.link(download_service@),
        link is Ok <==> report@.generated(),
{
    match report {
        CardReport::Answered { success, download_url } => {
            if !*success {
                Err(Failure::ServiceRejected)
            } else {
                match download_url {
                    Some(path) => Ok(joined(download_service, path.as_str())),
                    None => Err(Failure::NoDownloadPath),
                }
            }
        },
        CardReport::Failed { reason } => Err(Failure::Request(reason.clone())),
    }
}

} // verus!
