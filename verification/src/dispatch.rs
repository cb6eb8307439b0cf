//! Messages to the user: how a message is put to the message service, and what
//! the answer of the service means.

use vstd::prelude::*;
use vstd::string::*;
use crate::config::Config;
use crate::failure::{Failure, FailureView};
use crate::text::joined;

verus! {

/// What stands before the account in the address of the message service.
pub const API_PREFIX: &'static str = "https://api.twilio.com/2010-04-01/Accounts/";

/// What stands behind the account in the address of the message service.
pub const API_SUFFIX: &'static str = "/Messages.json";

/// The kind of body that the message service takes.
pub const CONTENT_TYPE: &'static str = "application/x-www-form-urlencoded";

/// The form field for the receiver.
pub const TO: &'static str = "To";

/// The form field for the sender.
pub const FROM: &'static str = "From";

/// The form field for the text.
pub const BODY: &'static str = "Body";

/// The form field for the address of an attachment.
pub const MEDIA_URL: &'static str = "MediaUrl";

/// What `serde_urlencoded::to_string` returns for a sequence of pairs of
/// texts: the pairs as one `application/x-www-form-urlencoded` text.
pub uninterp spec fn form_urlencoded(pairs: Seq<(Seq<char>, Seq<char>)>) -> Seq<char>;

/// The error of `serde_urlencoded::to_string`.
#[verifier::external_type_specification]
#[verifier::external_body]
pub struct ExEncodeError(serde_urlencoded::ser::Error);

/// Calls `serde_urlencoded::to_string` on a sequence of pairs of texts.
/// Trusted, in two claims. The call succeeds: the encoder takes a sequence at
/// the top, a tuple of two for each pair, and a text for a key and for a
/// value, and it fails on nothing else that such a sequence holds. And the
/// text that comes back is `form_urlencoded` of the pairs, which gives it a
/// name and claims no more than that equal pairs are encoded alike.
#[verifier::external_body]
fn urlencode(
    pairs: &Vec<(String, String)>,
) -> (encoded: Result<String, serde_urlencoded::ser::Error>)
    ensures
        encoded is Ok,
        encoded matches Ok(text) ==> text@ == form_urlencoded(pairs.deep_view()),
{
    serde_urlencoded::to_string(pairs)
}

/// A request that is ready to be put to the message service.
#[derive(Debug)]
pub struct MessageRequest {
    /// The address to post to.
    pub url: String,
    /// The name to authenticate with.
    pub username: String,
    /// The password to authenticate with.
    pub password: String,
    /// The kind of the body.
    pub content_type: String,
    /// The body: the message as an encoded form.
    pub body: String,
}

/// A `MessageRequest` as a mathematical value.
pub struct MessageRequestView {
    pub url: Seq<char>,
    pub username: Seq<char>,
    pub password: Seq<char>,
    pub content_type: Seq<char>,
    pub body: Seq<char>,
}

impl View for MessageRequest {
    type V = MessageRequestView;

    open spec fn view(&self) -> MessageRequestView {
        MessageRequestView {
            url: self.url@,
            username: self.username@,
            password: self.password@,
            content_type: self.content_type@,
            body: self.body@,
        }
    }
}

/// The fields of the form that carries a message: receiver, sender and text,
/// in this order, and after them the address of the attachment if there is
/// one.
pub open spec fn message_form(
    to: Seq<char>,
    from: Seq<char>,
    body: Seq<char>,
    media_url: Option<Seq<char>>,
) -> Seq<(Seq<char>, Seq<char>)> {
    let fields = seq![(TO@, to), (FROM@, from), (BODY@, body)];
    match media_url {
        Some(url) => fields.push((MEDIA_URL@, url)),
        None => fields,
    }
}

/// The request that carries the encoded form `form` to the message service on
/// the account `account_sid`: posted to the account's address, authenticated
/// with the account and its secret.
pub open spec fn request_of(
    account_sid: Seq<char>,
    auth_token: Seq<char>,
    form: Seq<char>,
) -> MessageRequestView {
    MessageRequestView {
        url: API_PREFIX@ + account_sid + API_SUFFIX@,
        username: account_sid,
        password: auth_token,
        content_type: CONTENT_TYPE@,
        body: form,
    }
}

/// The request that carries an encoded form to the message service.
pub fn request_with(config: &Config, form: String) -> (request: MessageRequest)
    ensures
        request@ == request_of(config.account_sid@, config.auth_token@, form@),
{
    let mut url = joined(API_PREFIX, config.account_sid.as_str());
    url.append(API_SUFFIX);
    MessageRequest {
        url,
        username: config.account_sid.clone(),
        password: config.auth_token.clone(),
        content_type: String::from_str(CONTENT_TYPE),
        body: form,
    }
}

/// The request that sends `body` to the user `to`, with an attachment if
/// `media_url` names one. Its body is the form of the message as
/// `serde_urlencoded` encodes it.
pub fn message_request(
    config: &Config,
    to: &str,
    body: &str,
    media_url: &Option<String>,
) -> (request: MessageRequest)
    ensures
        request@ == request_of(
            config.account_sid@,
            config.auth_token@,
            form_urlencoded(message_form(to@, config.from@, body@, media_url.deep_view())),
        ),
{
    let mut pairs: Vec<(String, String)> = Vec::new();
    pairs.push((String::from_str(TO), String::from_str(to)));
    pairs.push((String::from_str(FROM), config.from.clone()));
    pairs.push((String::from_str(BODY), String::from_str(body)));
    match media_url {
        Some(url) => {
            pairs.push((String::from_str(MEDIA_URL), url.clone()));
        },
        None => {},
    }
    assert(pairs.deep_view() =~= message_form(to@, config.from@, body@, media_url.deep_view()));
    request_with(config, urlencode(&pairs).unwrap())
}

/// What came back when a message was put to the message service.
#[derive(Debug)]
pub enum SendReport {
    /// The service answered; `success` says whether its status was one of
    /// success.
    Answered { success: bool },
    /// No answer came; `reason` says why.
    Failed { reason: String },
}

/// A `SendReport` as a mathematical value.
pub enum SendReportView {
    Answered { success: bool },
    Failed { reason: Seq<char> },
}

impl View for SendReport {
    type V = SendReportView;

    open spec fn view(&self) -> SendReportView {
        match self {
            SendReport::Answered { success } => SendReportView::Answered { success: *success },
            SendReport::Failed { reason } => SendReportView::Failed { reason: reason@ },
        }
    }
}

impl SendReportView {
    /// Whether the message was sent: the service answered with success.
    pub open spec fn delivered(self) -> bool {
        self == (SendReportView::Answered { success: true })
    }

    /// What the report means: the message is sent if the service answered
    /// with success. If it answered otherwise, the message was rejected. If no
    /// answer came, the request failed for the reason reported.
    pub open spec fn outcome(self) -> Result<(), FailureView> {
        match self {
            SendReportView::Answered { success } => if success {
                Ok(())
            } else {
                Err(FailureView::MessageRejected)
            },
            SendReportView::Failed { reason } => Err(FailureView::Request(reason)),
        }
    }
}

/// What a report of the message service means.
pub fn send_outcome(report: &SendReport) -> (outcome: Result<(), Failure>)
    ensures
        crate::failure::sent_view(outcome) == report@.outcome(),
        outcome is Ok <==> report@.delivered(),
{
    match report {
        SendReport::Answered { success } => {
            if *success {
                Ok(())
            } else {
                Err(Failure::MessageRejected)
            }
        },
        SendReport::Failed { reason } => Err(Failure::Request(reason.clone())),
    }
}

} // verus!
