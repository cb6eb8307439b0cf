//! What the bot has to know of the services that it talks to.

use vstd::prelude::*;

verus! {

/// The account at the message service and the addresses of the document
/// service.
#[derive(Debug)]
pub struct Config {
    /// The account at the message service.
    pub account_sid: String,
    /// The secret that belongs to the account.
    pub auth_token: String,
    /// The sender of every message that the bot sends.
    pub from: String,
    /// Where the document service takes requests.
    pub pdf_service: String,
    /// Where the documents that it made can be fetched.
    pub download_service: String,
}

} // verus!
