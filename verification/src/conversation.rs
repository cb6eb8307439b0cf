//! What the bot does with a message.
//!
//! The bot neither sends nor requests anything itself. Handling a message is
//! a short exchange between the record of the user and the caller: each
//! `Step` tells the caller what to do next, and the caller reports back what
//! came of it, until the step is `Done`. A message is first trimmed by
//! `inbound` and then starts the exchange with `UserState::process_message`;
//! a `Step::Send` is answered through `UserState::sent` and a
//! `Step::Generate` through `CardRequest::generated`.
//! The caller keeps the record to itself for the whole exchange, so that two
//! messages of one user are handled one after the other.

use vstd::prelude::*;
use vstd::string::*;
use crate::dispatch::{send_outcome, SendReport, SendReportView};
use crate::document::{card_link, CardReport};
use crate::failure::{sent_view, Failure, FailureView};
use crate::pdf::{card_info, PDFInfo, PDFInfoView};
use crate::text::{same_text, trim, trimmed};
use crate::user_state::{prompt, UserState, UserStateView};
use crate::workflow::WorkflowStage;

verus! {

/// The message that takes a conversation back to its beginning, at any stage.
pub const RESET_COMMAND: &'static str = "/reset";

/// What the user says to begin.
pub const HELLO: &'static str = "Hi";

/// The choice of a new card.
pub const NEW_CARD: &'static str = "1";

/// The choice of the last card.
pub const LAST_CARD: &'static str = "2";

/// Sent when anything but `HELLO` arrives at `Greeting`.
pub const INVALID_GREETING: &'static str = "Invalid response. Valid responses ['Hi']";

/// Sent when anything but a choice arrives at `ProductName`.
pub const INVALID_CHOICE: &'static str = "Invalid response. Valid responses ['1', '2']";

/// The text that goes with the link to a card.
pub const CARD_CAPTION: &'static str = "Warranty Card";

/// What a message to the user is for, and so what follows once the caller has
/// tried to send it.
#[derive(Debug, Clone, Copy, PartialEq, Eq, Structural)]
pub enum AfterSend {
    /// The message says that the input was not valid. Nothing follows.
    Stay,
    /// The message asks for the next input. If it was sent, the conversation
    /// moves on by one stage; if not, it stays where it is.
    Advance,
    /// The message says that the card is being generated. If it was sent, the
    /// conversation moves on by one stage and the card is requested from the
    /// answers of the round. If it was not sent, the conversation stays where
    /// it is and no card is requested: the round is not completed by a message
    /// whose notice never went out.
    AdvanceAndGenerate,
    /// The message carries the link to a card. If it was sent and `cycle` is
    /// set, the round is completed; if it was not sent, the exchange has
    /// failed.
    Finish { cycle: bool },
}

/// A message for the caller to send.
#[derive(Debug)]
pub struct Dispatch {
    /// The user to send it to.
    pub to: String,
    /// The text.
    pub body: String,
    /// The address of an attachment, if there is one.
    pub media_url: Option<String>,
    /// What the message is for.
    pub after: AfterSend,
}

/// A `Dispatch` as a mathematical value.
pub struct DispatchView {
    pub to: Seq<char>,
    pub body: Seq<char>,
    pub media_url: Option<Seq<char>>,
    pub after: AfterSend,
}

impl View for Dispatch {
    type V = DispatchView;

    open spec fn view(&self) -> DispatchView {
        DispatchView {
            to: self.to@,
            body: self.body@,
            media_url: self.media_url.deep_view(),
            after: self.after,
        }
    }
}

/// A card for the caller to request from the document service.
#[derive(Debug)]
pub struct CardRequest {
    /// What the card says.
    pub info: PDFInfo,
    /// Whether delivering the card completes the round. It does for a new
    /// card, and does not for a card that is only shown again.
    pub cycle: bool,
}

/// A `CardRequest` as a mathematical value.
pub struct CardRequestView {
    pub info: PDFInfoView,
    pub cycle: bool,
}

impl View for CardRequest {
    type V = CardRequestView;

    open spec fn view(&self) -> CardRequestView {
        CardRequestView { info: self.info@, cycle: self.cycle }
    }
}

/// What the caller is to do next.
#[derive(Debug)]
pub enum Step {
    /// Send this message, then report through `UserState::sent`.
    Send(Dispatch),
    /// Request this card, then report through `CardRequest::generated`.
    Generate(CardRequest),
    /// Nothing more: the message is handled. An error says that a card could
    /// not be generated or delivered.
    Done(Result<(), Failure>),
}

/// A `Step` as a mathematical value.
pub enum StepView {
    Send(DispatchView),
    Generate(CardRequestView),
    Done(Result<(), FailureView>),
}

impl View for Step {
    type V = StepView;

    open spec fn view(&self) -> StepView {
        match self {
            Step::Send(dispatch) => StepView::Send(dispatch@),
            Step::Generate(request) => StepView::Generate(request@),
            Step::Done(outcome) => StepView::Done(sent_view(*outcome)),
        }
    }
}

/// The record once the reset command has been looked for in `body`: at
/// `Greeting` if `body` is the command, untouched if not.
pub open spec fn restarted(state: UserStateView, body: Seq<char>) -> UserStateView {
    if body == RESET_COMMAND@ {
        state.at(WorkflowStage::Greeting)
    } else {
        state
    }
}

/// The record once `body` has been taken in: first the reset command is
/// looked for, then `body` is stored as the answer that the stage takes.
pub open spec fn taken_in(state: UserStateView, body: Seq<char>) -> UserStateView {
    restarted(state, body).captured(body)
}

/// A plain text for the user `to`.
pub open spec fn text_for(to: Seq<char>, body: Seq<char>, after: AfterSend) -> StepView {
    StepView::Send(DispatchView { to, body, media_url: None, after })
}

/// Whether `body` is an input that `stage` accepts. `Greeting` accepts
/// `HELLO`, `ProductName` accepts the two choices, and every other stage
/// accepts any text.
pub open spec fn accepts(stage: WorkflowStage, body: Seq<char>) -> bool {
    match stage {
        WorkflowStage::Greeting => body == HELLO@,
        WorkflowStage::ProductName => body == NEW_CARD@ || body == LAST_CARD@,
        _ => true,
    }
}

/// The first step in handling the message `body` of the user `from`.
///
/// The stage that counts is the one after the reset command has been looked
/// for. An input that the stage does not accept is answered by a notice and
/// nothing else. The choice of the last card is answered by a request for the
/// card of the remembered answers. Every other input is answered by the
/// prompt of the stage, which at `WarrantyCard` leads on to the request for
/// the card once it is sent.
pub open spec fn first_step(state: UserStateView, body: Seq<char>, from: Seq<char>) -> StepView {
    let taken = taken_in(state, body);
    match taken.stage {
        WorkflowStage::Greeting => if body == HELLO@ {
            text_for(from, prompt(taken.stage, taken.answers), AfterSend::Advance)
        } else {
            text_for(from, INVALID_GREETING@, AfterSend::Stay)
        },
        WorkflowStage::ProductName => if body == NEW_CARD@ {
            text_for(from, prompt(taken.stage, taken.answers), AfterSend::Advance)
        } else if body == LAST_CARD@ {
            StepView::Generate(
                CardRequestView { info: card_info(taken.previous, from), cycle: false },
            )
        } else {
            text_for(from, INVALID_CHOICE@, AfterSend::Stay)
        },
        WorkflowStage::WarrantyCard => text_for(
            from,
            prompt(taken.stage, taken.answers),
            AfterSend::AdvanceAndGenerate,
        ),
        _ => text_for(from, prompt(taken.stage, taken.answers), AfterSend::Advance),
    }
}

/// The record after the caller has tried to send a message that was for
/// `after`; `delivered` says whether it was sent.
///
/// A message that was not sent changes nothing. Nor does a notice of invalid
/// input, or the link to a card that is only shown again.
pub open spec fn after_sent(
    state: UserStateView,
    after: AfterSend,
    delivered: bool,
) -> UserStateView {
    if !delivered {
        state
    } else {
        match after {
            AfterSend::Stay => state,
            AfterSend::Advance | AfterSend::AdvanceAndGenerate => state.advanced(),
            AfterSend::Finish { cycle } => if cycle {
                state.cycled()
            } else {
                state
            },
        }
    }
}

/// The step that follows the attempt to send `dispatch`, of which the message
/// service reported `report`, for a record that was `state` before.
///
/// After the notice that the card is being generated, if it was sent, the
/// card is requested from the answers of the round, for the user to whom the
/// notice went. After the link to a card, the exchange is over, with the
/// failure of the send if it failed. In every other case the exchange is
/// over, and a failure to send is not an error of the exchange.
pub open spec fn step_after_sent(
    state: UserStateView,
    dispatch: DispatchView,
    report: SendReportView,
) -> StepView {
    match dispatch.after {
        AfterSend::Stay | AfterSend::Advance => StepView::Done(Ok(())),
        AfterSend::AdvanceAndGenerate => if report.delivered() {
            StepView::Generate(
                CardRequestView { info: card_info(state.answers, dispatch.to), cycle: true },
            )
        } else {
            StepView::Done(Ok(()))
        },
        AfterSend::Finish { cycle } => StepView::Done(report.outcome()),
    }
}

/// The step that follows the request `request`, given the link that came of
/// it or the failure: the link is sent to the user for whom the card was
/// made, or the exchange is over with the failure.
pub open spec fn step_after_generated(
    request: CardRequestView,
    link: Result<Seq<char>, FailureView>,
) -> StepView {
    match link {
        Ok(url) => StepView::Send(
            DispatchView {
                to: request.info.from,
                body: CARD_CAPTION@,
                media_url: Some(url),
                after: AfterSend::Finish { cycle: request.cycle },
            },
        ),
        Err(failure) => StepView::Done(Err(failure)),
    }
}

/// A plain text for the user `to`.
fn send_text(to: &str, body: String, after: AfterSend) -> (step: Step)
    ensures
        step@ == text_for(to@, body@, after),
{
    Step::Send(Dispatch { to: String::from_str(to), body, media_url: None, after })
}

impl UserState {
    /// Takes in the message `body` of the user `from` and says what to do
    /// first. `body` and `from` are used as they are.
    ///
    /// If `body` is the reset command, the conversation goes back to
    /// `Greeting`, and the command is then handled like any other message
    /// that arrives there. At the stages that take an answer, `body` is
    /// stored as that answer, whatever it is. The stage does not change here:
    /// it changes when the caller reports that the prompt was sent.
    pub fn process_message(&mut self, body: &str, from: &str) -> (step: Step)
        ensures
            final(self)@ == taken_in(old(self)@, body@),
            step@ == first_step(old(self)@, body@, from@),
            body@ == RESET_COMMAND@ ==> final(self)@ == old(self)@.at(WorkflowStage::Greeting),
            final(self)@.previous == old(self)@.previous,
    {
        if same_text(body, RESET_COMMAND) {
            self.reset_state();
        }
        self.capture(body);
        match self.stage() {
            WorkflowStage::Greeting => {
                if same_text(body, HELLO) {
                    send_text(from, self.get_message(), AfterSend::Advance)
                } else {
                    send_text(from, String::from_str(INVALID_GREETING), AfterSend::Stay)
                }
            },
            WorkflowStage::ProductName => {
                if same_text(body, NEW_CARD) {
                    send_text(from, self.get_message(), AfterSend::Advance)
                } else if same_text(body, LAST_CARD) {
                    Step::Generate(CardRequest { info: self.pdf_info(from, false), cycle: false })
                } else {
                    send_text(from, String::from_str(INVALID_CHOICE), AfterSend::Stay)
                }
            },
            WorkflowStage::WarrantyCard => {
                send_text(from, self.get_message(), AfterSend::AdvanceAndGenerate)
            },
            _ => send_text(from, self.get_message(), AfterSend::Advance),
        }
    }

    /// Takes in what the message service reported of `dispatch` and says what
    /// to do next. A message that was not sent leaves the record as it is and
    /// ends the exchange.
    pub fn sent(&mut self, dispatch: Dispatch, report: &SendReport) -> (step: Step)
        ensures
            final(self)@ == after_sent(old(self)@, dispatch.after, report@.delivered()),
            step@ == step_after_sent(old(self)@, dispatch@, report@),
            !report@.delivered() ==> final(self)@ == old(self)@,
            !report@.delivered() ==> step@ is Done,
    {
        let outcome = send_outcome(report);
        match dispatch.after {
            AfterSend::Stay => Step::Done(Ok(())),
            AfterSend::Advance => {
                if outcome.is_ok() {
                    self.next_state();
                }
                Step::Done(Ok(()))
            },
            AfterSend::AdvanceAndGenerate => {
                if outcome.is_ok() {
                    self.next_state();
                    Step::Generate(
                        CardRequest {
                            info: self.pdf_info(dispatch.to.as_str(), true),
                            cycle: true,
                        },
                    )
                } else {
                    Step::Done(Ok(()))
                }
            },
            AfterSend::Finish { cycle } => {
                if outcome.is_ok() && cycle {
                    self.reset_previous();
                }
                Step::Done(outcome)
            },
        }
    }
}

impl CardRequest {
    /// Takes in what the document service reported of this request and says
    /// what to do next. `download_service` is the address of the store where
    /// the documents can be fetched. No record changes here.
    pub fn generated(self, report: &CardReport, download_service: &str) -> (step: Step)
        ensures
            step@ == step_after_generated(self@, report@.link(download_service@)),
    {
        match card_link(report, download_service) {
            Ok(url) => Step::Send(
                Dispatch {
                    to: self.info.from,
                    body: String::from_str(CARD_CAPTION),
                    media_url: Some(url),
                    after: AfterSend::Finish { cycle: self.cycle },
                },
            ),
            Err(failure) => Step::Done(Err(failure)),
        }
    }
}

/// A message as the bot takes it in: the text and the sender, both without
/// white space around them.
#[derive(Debug)]
pub struct Inbound<'a> {
    /// The text of the message.
    pub body: &'a str,
    /// The user who wrote it.
    pub from: &'a str,
}

/// Takes a message as it arrived and frees `body` and `from` of the white
/// space around them. What comes out is what `UserState::process_message`
/// works on, and its `from` is what tells one user from another.
pub fn inbound<'a>(body: &'a str, from: &'a str) -> (message: Inbound<'a>)
    ensures
        message.body@ == trimmed(body@),
        message.from@ == trimmed(from@),
{
    Inbound { body: trim(body), from: trim(from) }
}

} // verus!
