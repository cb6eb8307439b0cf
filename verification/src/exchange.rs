//! A whole exchange, from the message to the last step, and what holds of it.
//!
//! The caller that handles a message walks through the steps of
//! `conversation` and reports what the services did. `handled` is that walk
//! as a mathematical function, and the proofs below state what follows from
//! it for the record of the user.

use vstd::prelude::*;
use crate::conversation::{
    accepts, after_sent, first_step, restarted, step_after_generated, step_after_sent, taken_in,
    AfterSend, CardRequestView, Step, StepView, HELLO, LAST_CARD, NEW_CARD, RESET_COMMAND,
};
use crate::dispatch::{SendReport, SendReportView};
use crate::document::{CardReport, CardReportView};
use crate::failure::{sent_view, Failure, FailureView};
use crate::pdf::{
    card_info, Answers, PDFInfoView, NO_ADDITIONAL_TERMS, NO_CUSTOMER_NAME, NO_PRODUCT_NAME,
    NO_PURCHASE_DATE, NO_SERIAL_NUMBER, NO_WARRANTY_DURATION,
};
use crate::user_state::{UserState, UserStateView};
use crate::workflow::WorkflowStage;

verus! {

/// What the services do in the course of one exchange, for a caller that
/// knows it beforehand.
#[derive(Debug)]
pub struct Services {
    /// What the message service reports of the text that answers the message.
    pub text: SendReport,
    /// What the document service reports of the request for a card.
    pub card: CardReport,
    /// What the message service reports of the link to the card.
    pub link: SendReport,
    /// Where the documents can be fetched.
    pub download_service: String,
}

/// A `Services` as a mathematical value.
pub struct ServicesView {
    pub text: SendReportView,
    pub card: CardReportView,
    pub link: SendReportView,
    pub download_service: Seq<char>,
}

impl View for Services {
    type V = ServicesView;

    open spec fn view(&self) -> ServicesView {
        ServicesView {
            text: self.text@,
            card: self.card@,
            link: self.link@,
            download_service: self.download_service@,
        }
    }
}

/// How an exchange ended.
pub struct Handled {
    /// The record of the user at the end.
    pub state: UserStateView,
    /// Whether the message was handled, or why not.
    pub outcome: Result<(), FailureView>,
}

/// How many steps can follow `step` at most.
pub open spec fn steps_left(step: StepView) -> nat {
    match step {
        StepView::Done(_) => 0,
        StepView::Send(dispatch) => if dispatch.after is AdvanceAndGenerate {
            3
        } else {
            1
        },
        StepView::Generate(_) => 2,
    }
}

/// The end of an exchange that stands at `step` with the record `state`: the
/// caller does what the step says, reports what `services` did, and goes on
/// with the step that follows, until the step is `Done`.
pub open spec fn settled(state: UserStateView, step: StepView, services: ServicesView) -> Handled
    decreases steps_left(step),
{
    match step {
        StepView::Done(outcome) => Handled { state, outcome },
        StepView::Send(dispatch) => {
            let report = if dispatch.after is Finish {
                services.link
            } else {
                services.text
            };
            settled(
                after_sent(state, dispatch.after, report.delivered()),
                step_after_sent(state, dispatch, report),
                services,
            )
        },
        StepView::Generate(request) => settled(
            state,
            step_after_generated(request, services.card.link(services.download_service)),
            services,
        ),
    }
}

/// The end of the exchange that the message `body` of the user `from` starts
/// on the record `state`.
pub open spec fn handled(
    state: UserStateView,
    body: Seq<char>,
    from: Seq<char>,
    services: ServicesView,
) -> Handled {
    settled(taken_in(state, body), first_step(state, body, from), services)
}

impl UserState {
    /// Handles the message `body` of the user `from` from beginning to end,
    /// with services that answer as `services` says: the exchange as a caller
    /// walks through it, without a network.
    pub fn handle(
        &mut self,
        body: &str,
        from: &str,
        services: &Services,
    ) -> (outcome: Result<(), Failure>)
        ensures
            final(self)@ == handled(old(self)@, body@, from@, services@).state,
            sent_view(outcome) == handled(old(self)@, body@, from@, services@).outcome,
    {
        let ghost end = handled(self@, body@, from@, services@);
        let mut step = self.process_message(body, from);
        loop
            invariant
                end == handled(old(self)@, body@, from@, services@),
                settled(self@, step@, services@) == end,
            decreases steps_left(step@),
        {
            match step {
                Step::Send(dispatch) => {
                    let report = match dispatch.after {
                        AfterSend::Finish { .. } => &services.link,
                        _ => &services.text,
                    };
                    step = self.sent(dispatch, report);
                },
                Step::Generate(request) => {
                    step = request.generated(&services.card, services.download_service.as_str());
                },
                Step::Done(outcome) => {
                    return outcome;
                },
            }
        }
    }
}

/// The commands are four different texts.
pub proof fn lemma_commands_differ()
    ensures
        HELLO@ != RESET_COMMAND@,
        NEW_CARD@ != RESET_COMMAND@,
        LAST_CARD@ != RESET_COMMAND@,
        NEW_CARD@ != LAST_CARD@,
        HELLO@ != NEW_CARD@,
        HELLO@ != LAST_CARD@,
{
    reveal_strlit("Hi");
    reveal_strlit("1");
    reveal_strlit("2");
    reveal_strlit("/reset");
    assert(HELLO@.len() == 2);
    assert(RESET_COMMAND@.len() == 6);
    assert(NEW_CARD@.len() == 1);
    assert(LAST_CARD@.len() == 1);
    assert(NEW_CARD@[0] == '1');
    assert(LAST_CARD@[0] == '2');
}

/// Whether an exchange on `state` that `body` starts completes a round: the
/// message arrives at `WarrantyCard`, the notice that answers it is sent, the
/// card is generated, and the link to it is sent.
pub open spec fn completes_round(
    state: UserStateView,
    body: Seq<char>,
    services: ServicesView,
) -> bool {
    &&& restarted(state, body).stage == WorkflowStage::WarrantyCard
    &&& services.text.delivered()
    &&& services.card.generated()
    &&& services.link.delivered()
}

/// The reset command takes the conversation back to `Greeting` from any stage
/// and changes nothing else: every answer and everything remembered stays,
/// whatever the services do.
pub proof fn lemma_reset_keeps_answers(
    state: UserStateView,
    from: Seq<char>,
    services: ServicesView,
)
    ensures
        handled(state, RESET_COMMAND@, from, services).state == state.at(WorkflowStage::Greeting),
        handled(state, RESET_COMMAND@, from, services).outcome == Ok::<(), FailureView>(()),
{
    lemma_commands_differ();
    reveal_with_fuel(settled, 2);
}

/// At `Greeting`, `HELLO` takes the conversation to `ProductName` once the
/// welcome is sent. Any other message leaves the record as it is, and so does
/// `HELLO` if the welcome cannot be sent.
pub proof fn lemma_greeting(
    state: UserStateView,
    body: Seq<char>,
    from: Seq<char>,
    services: ServicesView,
)
    requires
        state.stage == WorkflowStage::Greeting,
    ensures
        handled(state, body, from, services).state == if body == HELLO@
            && services.text.delivered() {
            state.at(WorkflowStage::ProductName)
        } else {
            state
        },
{
    lemma_commands_differ();
    reveal_with_fuel(settled, 2);
}

/// An input that the stage accepts moves the conversation to the stage that
/// follows in the sequence, and to no other, once the text that answers it is
/// sent. Two inputs are left out, because they were given another meaning:
/// the reset command, and at `ProductName` the choice of the last card.
pub proof fn lemma_accepted_input_advances(
    state: UserStateView,
    body: Seq<char>,
    from: Seq<char>,
    services: ServicesView,
)
    requires
        accepts(state.stage, body),
        body != RESET_COMMAND@,
        !(state.stage == WorkflowStage::ProductName && body == LAST_CARD@),
        services.text.delivered(),
    ensures
        handled(state, body, from, services).state.stage == state.stage.spec_next(),
{
    lemma_commands_differ();
    reveal_with_fuel(settled, 4);
}

/// An input that the stage does not accept changes nothing, whatever the
/// services do, and is no error of the exchange.
pub proof fn lemma_invalid_input_changes_nothing(
    state: UserStateView,
    body: Seq<char>,
    from: Seq<char>,
    services: ServicesView,
)
    requires
        !accepts(state.stage, body),
        body != RESET_COMMAND@,
    ensures
        handled(state, body, from, services).state == state,
        handled(state, body, from, services).outcome == Ok::<(), FailureView>(()),
{
    reveal_with_fuel(settled, 2);
}

/// If the text that answers a message cannot be sent, the conversation stays
/// at its stage, at `WarrantyCard` as at any other: the answer that the
/// message gave is kept, nothing else changes, no round is completed, and
/// what the other services would have done does not matter.
pub proof fn lemma_unsent_text_keeps_stage(
    state: UserStateView,
    body: Seq<char>,
    from: Seq<char>,
    services: ServicesView,
)
    requires
        !services.text.delivered(),
    ensures
        handled(state, body, from, services).state == taken_in(state, body),
        handled(state, body, from, services).state.stage == restarted(state, body).stage,
        handled(state, body, from, services).state.previous == state.previous,
{
    reveal_with_fuel(settled, 4);
}

/// The choice of the last card changes nothing in the record, whatever the
/// services do, and the card that is requested is the card of the remembered
/// answers.
pub proof fn lemma_last_card_changes_nothing(
    state: UserStateView,
    from: Seq<char>,
    services: ServicesView,
)
    requires
        state.stage == WorkflowStage::ProductName,
    ensures
        handled(state, LAST_CARD@, from, services).state == state,
        first_step(state, LAST_CARD@, from) == StepView::Generate(
            CardRequestView { info: card_info(state.previous, from), cycle: false },
        ),
        handled(state, LAST_CARD@, from, services).outcome is Ok <==> services.card.generated()
            && services.link.delivered(),
{
    lemma_commands_differ();
    reveal_with_fuel(settled, 3);
}

/// Asked for the last card when no round was completed yet, the bot requests
/// a card on which every answer is replaced by the text that stands for a
/// missing one.
pub proof fn lemma_last_card_before_any_round(
    state: UserStateView,
    from: Seq<char>,
    services: ServicesView,
)
    requires
        state.stage == WorkflowStage::Greeting,
        state.previous == Answers::none(),
        services.text.delivered(),
    ensures
        ({
            let greeted = handled(state, HELLO@, from, services).state;
            first_step(greeted, LAST_CARD@, from) == StepView::Generate(
                CardRequestView {
                    info: PDFInfoView {
                        product_name: NO_PRODUCT_NAME@,
                        purchase_date: NO_PURCHASE_DATE@,
                        warranty_duration: NO_WARRANTY_DURATION@,
                        customer_name: NO_CUSTOMER_NAME@,
                        serial_number: NO_SERIAL_NUMBER@,
                        additional_terms: NO_ADDITIONAL_TERMS@,
                        from,
                    },
                    cycle: false,
                },
            )
        }),
{
    lemma_commands_differ();
    lemma_greeting(state, HELLO@, from, services);
}

/// What is remembered of the last round changes only when a round is
/// completed, and then all at once: it becomes the answers of that round, the
/// last of them being the message itself. In every other exchange it stays as
/// it was.
pub proof fn lemma_previous_changes_on_completion_only(
    state: UserStateView,
    body: Seq<char>,
    from: Seq<char>,
    services: ServicesView,
)
    ensures
        completes_round(state, body, services) ==> handled(state, body, from, services).state
            == taken_in(state, body).cycled(),
        completes_round(state, body, services) ==> handled(
            state,
            body,
            from,
            services,
        ).state.previous == (Answers { additional_terms: Some(body), ..state.answers }),
        !completes_round(state, body, services) ==> handled(
            state,
            body,
            from,
            services,
        ).state.previous == state.previous,
{
    reveal_with_fuel(settled, 4);
}

/// An exchange fails only where a card was to be delivered: at `WarrantyCard`
/// once the notice is sent, or at `ProductName` on the choice of the last
/// card. It fails there if the card is not generated or the link to it is not
/// sent, and only then.
pub proof fn lemma_failure_needs_a_card(
    state: UserStateView,
    body: Seq<char>,
    from: Seq<char>,
    services: ServicesView,
)
    ensures
        handled(state, body, from, services).outcome is Err <==> {
            &&& (restarted(state, body).stage == WorkflowStage::WarrantyCard
                && services.text.delivered()) || (restarted(state, body).stage
                == WorkflowStage::ProductName && body == LAST_CARD@)
            &&& !(services.card.generated() && services.link.delivered())
        },
{
    lemma_commands_differ();
    reveal_with_fuel(settled, 4);
}

/// No exchange skips a stage or goes back by one: at its end the conversation
/// stands where the message found it or one stage further on, unless the
/// message was the reset command. It comes back to `Greeting` only by the
/// reset command or from `WarrantyCard`.
pub proof fn lemma_stage_moves_in_order(
    state: UserStateView,
    body: Seq<char>,
    from: Seq<char>,
    services: ServicesView,
)
    ensures
        body != RESET_COMMAND@ ==> handled(state, body, from, services).state.stage == state.stage
            || handled(state, body, from, services).state.stage == state.stage.spec_next(),
        handled(state, body, from, services).state.stage == WorkflowStage::Greeting ==> body
            == RESET_COMMAND@ || state.stage == WorkflowStage::Greeting || state.stage
            == WorkflowStage::WarrantyCard,
{
    reveal_with_fuel(settled, 4);
}

/// An exchange stores the message as one answer at most, the one that the
/// stage takes, and touches no other answer, unless it completes the round.
pub proof fn lemma_one_answer_per_message(
    state: UserStateView,
    body: Seq<char>,
    from: Seq<char>,
    services: ServicesView,
)
    requires
        !completes_round(state, body, services),
    ensures
        handled(state, body, from, services).state.answers == restarted(state, body).captured(
            body,
        ).answers,
        body == RESET_COMMAND@ || state.stage == WorkflowStage::Greeting || state.stage
            == WorkflowStage::ProductName ==> handled(state, body, from, services).state.answers
            == state.answers,
{
    reveal_with_fuel(settled, 4);
}

/// At a stage that takes one of the first five answers, a message is stored
/// as that answer, and the conversation moves on once the next prompt is
/// sent.
pub proof fn lemma_answer_is_stored(
    state: UserStateView,
    body: Seq<char>,
    from: Seq<char>,
    services: ServicesView,
)
    requires
        state.stage != WorkflowStage::Greeting,
        state.stage != WorkflowStage::ProductName,
        state.stage != WorkflowStage::WarrantyCard,
        body != RESET_COMMAND@,
        services.text.delivered(),
    ensures
        handled(state, body, from, services).state == state.captured(body).advanced(),
        handled(state, body, from, services).outcome == Ok::<(), FailureView>(()),
{
    reveal_with_fuel(settled, 2);
}

/// At `WarrantyCard`, a message is stored as the last answer, and the round is
/// completed with it once the notice is sent, the card is generated and the
/// link to it is sent.
pub proof fn lemma_round_is_completed(
    state: UserStateView,
    body: Seq<char>,
    from: Seq<char>,
    services: ServicesView,
)
    requires
        state.stage == WorkflowStage::WarrantyCard,
        body != RESET_COMMAND@,
        services.text.delivered(),
        services.card.generated(),
        services.link.delivered(),
    ensures
        handled(state, body, from, services).state == state.captured(body).cycled(),
        handled(state, body, from, services).outcome == Ok::<(), FailureView>(()),
{
    reveal_with_fuel(settled, 4);
}

/// A round from beginning to end. From `Greeting`, the user says `HELLO`,
/// chooses a new card and gives the six answers, the services do their part
/// each time, and none of the answers is the reset command. Then the
/// conversation is back at `Greeting`, no answer is left, and what is
/// remembered is exactly the six answers.
pub proof fn lemma_full_round(
    state: UserStateView,
    from: Seq<char>,
    product_name: Seq<char>,
    purchase_date: Seq<char>,
    warranty_duration: Seq<char>,
    customer_name: Seq<char>,
    serial_number: Seq<char>,
    additional_terms: Seq<char>,
    services: ServicesView,
)
    requires
        state.stage == WorkflowStage::Greeting,
        product_name != RESET_COMMAND@,
        purchase_date != RESET_COMMAND@,
        warranty_duration != RESET_COMMAND@,
        customer_name != RESET_COMMAND@,
        serial_number != RESET_COMMAND@,
        additional_terms != RESET_COMMAND@,
        services.text.delivered(),
        services.card.generated(),
        services.link.delivered(),
    ensures
        ({
            let greeted = handled(state, HELLO@, from, services).state;
            let chosen = handled(greeted, NEW_CARD@, from, services).state;
            let named = handled(chosen, product_name, from, services).state;
            let dated = handled(named, purchase_date, from, services).state;
            let lasting = handled(dated, warranty_duration, from, services).state;
            let owned = handled(lasting, customer_name, from, services).state;
            let numbered = handled(owned, serial_number, from, services).state;
            let done = handled(numbered, additional_terms, from, services);
            &&& done.outcome == Ok::<(), FailureView>(())
            &&& done.state == UserStateView {
                stage: WorkflowStage::Greeting,
                answers: Answers::none(),
                previous: Answers {
                    product_name: Some(product_name),
                    purchase_date: Some(purchase_date),
                    warranty_duration: Some(warranty_duration),
                    customer_name: Some(customer_name),
                    serial_number: Some(serial_number),
                    additional_terms: Some(additional_terms),
                },
            }
        }),
{
    lemma_commands_differ();
    lemma_greeting(state, HELLO@, from, services);
    let greeted = handled(state, HELLO@, from, services).state;
    assert(greeted == state.at(WorkflowStage::ProductName));
    let chosen = handled(greeted, NEW_CARD@, from, services).state;
    assert(chosen == state.at(WorkflowStage::PurchaseDate)) by {
        reveal_with_fuel(settled, 2);
    }
    lemma_answer_is_stored(chosen, product_name, from, services);
    let named = handled(chosen, product_name, from, services).state;
    lemma_answer_is_stored(named, purchase_date, from, services);
    let dated = handled(named, purchase_date, from, services).state;
    lemma_answer_is_stored(dated, warranty_duration, from, services);
    let lasting = handled(dated, warranty_duration, from, services).state;
    lemma_answer_is_stored(lasting, customer_name, from, services);
    let owned = handled(lasting, customer_name, from, services).state;
    lemma_answer_is_stored(owned, serial_number, from, services);
    let numbered = handled(owned, serial_number, from, services).state;
    lemma_round_is_completed(numbered, additional_terms, from, services);
}

} // verus!
