//! The record that the bot keeps of one user's conversation.

use vstd::prelude::*;
use vstd::string::*;
use crate::pdf::{
    card_info, Answers, PDFInfo, NO_ADDITIONAL_TERMS, NO_CUSTOMER_NAME, NO_PRODUCT_NAME,
    NO_PURCHASE_DATE, NO_SERIAL_NUMBER, NO_WARRANTY_DURATION,
};
use crate::text::{copy_or, text_or};
use crate::workflow::WorkflowStage;

verus! {

/// Sent when the user has said hello: the choice between a new card and the
/// last one.
pub const WELCOME: &'static str =
    "Welcome to the Warranty Card Generator Bot! How can I assist you today?\n1. Create New Warranty Card\n2. View Last Warranty Card";

/// Asks for the product name.
pub const ASK_PRODUCT_NAME: &'static str = "Please enter the product name.";

/// Asks for the purchase date.
pub const ASK_PURCHASE_DATE: &'static str = "Please enter the purchase date (e.g., YYYY-MM-DD).";

/// Asks for the warranty duration.
pub const ASK_WARRANTY_DURATION: &'static str =
    "Please enter the warranty duration (e.g., 1 year, 2 years).";

/// Asks for the customer's name.
pub const ASK_CUSTOMER_NAME: &'static str = "Please enter the customer's name.";

/// Asks for the serial number.
pub const ASK_SERIAL_NUMBER: &'static str =
    "Please enter the serial number (optional) or type 'none'.";

/// Asks for additional warranty terms.
pub const ASK_ADDITIONAL_TERMS: &'static str =
    "Please enter any additional warranty terms (optional) or type 'none'.";

/// The beginning of the notice that the card is being generated.
pub const GENERATING_FOR: &'static str = "Generating your warranty card for ";

/// Stands between the product name and the purchase date in that notice.
pub const PURCHASED_ON: &'static str = " purchased on ";

/// Stands between the purchase date and the warranty duration in that notice.
pub const WITH_A: &'static str = " with a ";

/// The end of that notice.
pub const WARRANTY: &'static str = " warranty...";

/// Stands in that notice for an answer that was never given.
pub const UNSET: &'static str = "None";

/// The answers of the last round that was completed, kept so that its card can
/// be requested again.
#[derive(Debug)]
pub struct PreviousState {
    pub product_name: Option<String>,
    pub purchase_date: Option<String>,
    pub warranty_duration: Option<String>,
    pub customer_name: Option<String>,
    pub serial_number: Option<String>,
    pub additional_terms: Option<String>,
}

impl View for PreviousState {
    type V = Answers;

    open spec fn view(&self) -> Answers {
        Answers {
            product_name: self.product_name.deep_view(),
            purchase_date: self.purchase_date.deep_view(),
            warranty_duration: self.warranty_duration.deep_view(),
            customer_name: self.customer_name.deep_view(),
            serial_number: self.serial_number.deep_view(),
            additional_terms: self.additional_terms.deep_view(),
        }
    }
}

impl Default for PreviousState {
    /// Before the first round is completed there is nothing to remember.
    fn default() -> (previous: PreviousState)
        ensures
            previous@ == Answers::none(),
    {
        PreviousState {
            product_name: None,
            purchase_date: None,
            warranty_duration: None,
            customer_name: None,
            serial_number: None,
            additional_terms: None,
        }
    }
}

/// A `UserState` as a mathematical value: the stage, the answers of the round
/// that is under way, and the answers of the last round that was completed.
pub struct UserStateView {
    pub stage: WorkflowStage,
    pub answers: Answers,
    pub previous: Answers,
}

impl UserStateView {
    /// The record of a user who has not written yet.
    pub open spec fn initial() -> UserStateView {
        UserStateView {
            stage: WorkflowStage::Greeting,
            answers: Answers::none(),
            previous: Answers::none(),
        }
    }

    /// The same record at another stage.
    pub open spec fn at(self, stage: WorkflowStage) -> UserStateView {
        UserStateView { stage, ..self }
    }

    /// The record one stage further on.
    pub open spec fn advanced(self) -> UserStateView {
        self.at(self.stage.spec_next())
    }

    /// The record after its round is completed: the answers of the round
    /// become the remembered ones, all at once, no answer is left, and the
    /// conversation starts over.
    pub open spec fn cycled(self) -> UserStateView {
        UserStateView {
            stage: WorkflowStage::Greeting,
            answers: Answers::none(),
            previous: self.answers,
        }
    }

    /// The record after `body` is stored as the answer that the stage of the
    /// record takes. `Greeting` and `ProductName` take none. Any text is
    /// stored as it is, the empty one too.
    pub open spec fn captured(self, body: Seq<char>) -> UserStateView {
        let answers = self.answers;
        match self.stage {
            WorkflowStage::Greeting | WorkflowStage::ProductName => self,
            WorkflowStage::PurchaseDate => UserStateView {
                answers: Answers { product_name: Some(body), ..answers },
                ..self
            },
            WorkflowStage::WarrantyDuration => UserStateView {
                answers: Answers { purchase_date: Some(body), ..answers },
                ..self
            },
            WorkflowStage::CustomerName => UserStateView {
                answers: Answers { warranty_duration: Some(body), ..answers },
                ..self
            },
            WorkflowStage::SerialNumber => UserStateView {
                answers: Answers { customer_name: Some(body), ..answers },
                ..self
            },
            WorkflowStage::AdditionalWarrantyTerms => UserStateView {
                answers: Answers { serial_number: Some(body), ..answers },
                ..self
            },
            WorkflowStage::WarrantyCard => UserStateView {
                answers: Answers { additional_terms: Some(body), ..answers },
                ..self
            },
        }
    }
}

/// The text that the bot sends when it accepts a message at `stage`. It asks
/// for what the following stage will take. At `WarrantyCard` it is the notice
/// that the card is being generated, which names the product, the purchase
/// date and the warranty duration from `answers`, with `UNSET` for each that
/// is missing.
pub open spec fn prompt(stage: WorkflowStage, answers: Answers) -> Seq<char> {
    match stage {
        WorkflowStage::Greeting => WELCOME@,
        WorkflowStage::ProductName => ASK_PRODUCT_NAME@,
        WorkflowStage::PurchaseDate => ASK_PURCHASE_DATE@,
        WorkflowStage::WarrantyDuration => ASK_WARRANTY_DURATION@,
        WorkflowStage::CustomerName => ASK_CUSTOMER_NAME@,
        WorkflowStage::SerialNumber => ASK_SERIAL_NUMBER@,
        WorkflowStage::AdditionalWarrantyTerms => ASK_ADDITIONAL_TERMS@,
        WorkflowStage::WarrantyCard => GENERATING_FOR@ + text_or(answers.product_name, UNSET@)
            + PURCHASED_ON@ + text_or(answers.purchase_date, UNSET@) + WITH_A@ + text_or(
            answers.warranty_duration,
            UNSET@,
        ) + WARRANTY@,
    }
}

/// The conversation of one user: where it stands, what the user has answered
/// in this round, and what was answered in the last round that was completed.
///
/// Nothing but the methods of this type changes a record, and each of them
/// says in its contract what it changes.
#[derive(Debug)]
pub struct UserState {
    stage: WorkflowStage,
    product_name: Option<String>,
    purchase_date: Option<String>,
    warranty_duration: Option<String>,
    customer_name: Option<String>,
    serial_number: Option<String>,
    additional_terms: Option<String>,
    previous_state: PreviousState,
}

impl View for UserState {
    type V = UserStateView;

    closed spec fn view(&self) -> UserStateView {
        UserStateView {
            stage: self.stage,
            answers: Answers {
                product_name: self.product_name.deep_view(),
                purchase_date: self.purchase_date.deep_view(),
                warranty_duration: self.warranty_duration.deep_view(),
                customer_name: self.customer_name.deep_view(),
                serial_number: self.serial_number.deep_view(),
                additional_terms: self.additional_terms.deep_view(),
            },
            previous: self.previous_state@,
        }
    }
}

impl Default for UserState {
    /// The record of a user who has not written yet: at `Greeting`, with no
    /// answer and nothing remembered.
    fn default() -> (state: UserState)
        ensures
            state@ == UserStateView::initial(),
    {
        UserState {
            stage: WorkflowStage::Greeting,
            product_name: None,
            purchase_date: None,
            warranty_duration: None,
            customer_name: None,
            serial_number: None,
            additional_terms: None,
            previous_state: PreviousState::default(),
        }
    }
}

impl UserState {
    /// The stage at which the conversation stands.
    pub fn stage(&self) -> (stage: WorkflowStage)
        ensures
            stage == self@.stage,
    {
        self.stage
    }

    /// The product name given in this round, if it was given yet.
    pub fn product_name(&self) -> (answer: &Option<String>)
        ensures
            answer.deep_view() == self@.answers.product_name,
    {
        &self.product_name
    }

    /// The purchase date given in this round, if it was given yet.
    pub fn purchase_date(&self) -> (answer: &Option<String>)
        ensures
            answer.deep_view() == self@.answers.purchase_date,
    {
        &self.purchase_date
    }

    /// The warranty duration given in this round, if it was given yet.
    pub fn warranty_duration(&self) -> (answer: &Option<String>)
        ensures
            answer.deep_view() == self@.answers.warranty_duration,
    {
        &self.warranty_duration
    }

    /// The customer's name given in this round, if it was given yet.
    pub fn customer_name(&self) -> (answer: &Option<String>)
        ensures
            answer.deep_view() == self@.answers.customer_name,
    {
        &self.customer_name
    }

    /// The serial number given in this round, if it was given yet.
    pub fn serial_number(&self) -> (answer: &Option<String>)
        ensures
            answer.deep_view() == self@.answers.serial_number,
    {
        &self.serial_number
    }

    /// The additional terms given in this round, if they were given yet.
    pub fn additional_terms(&self) -> (answer: &Option<String>)
        ensures
            answer.deep_view() == self@.answers.additional_terms,
    {
        &self.additional_terms
    }

    /// The answers of the last round that was completed.
    pub fn previous_state(&self) -> (previous: &PreviousState)
        ensures
            previous@ == self@.previous,
    {
        &self.previous_state
    }

    /// The text to send when a message is accepted at the present stage.
    pub fn get_message(&self) -> (message: String)
        ensures
            message@ == prompt(self@.stage, self@.answers),
    {
        match self.stage {
            WorkflowStage::Greeting => String::from_str(WELCOME),
            WorkflowStage::ProductName => String::from_str(ASK_PRODUCT_NAME),
            WorkflowStage::PurchaseDate => String::from_str(ASK_PURCHASE_DATE),
            WorkflowStage::WarrantyDuration => String::from_str(ASK_WARRANTY_DURATION),
            WorkflowStage::CustomerName => String::from_str(ASK_CUSTOMER_NAME),
            WorkflowStage::SerialNumber => String::from_str(ASK_SERIAL_NUMBER),
            WorkflowStage::AdditionalWarrantyTerms => String::from_str(ASK_ADDITIONAL_TERMS),
            WorkflowStage::WarrantyCard => {
                let product_name = copy_or(&self.product_name, UNSET);
                let purchase_date = copy_or(&self.purchase_date, UNSET);
                let warranty_duration = copy_or(&self.warranty_duration, UNSET);
                let mut message = String::from_str(GENERATING_FOR);
                message.append(product_name.as_str());
                message.append(PURCHASED_ON);
                message.append(purchase_date.as_str());
                message.append(WITH_A);
                message.append(warranty_duration.as_str());
                message.append(WARRANTY);
                message
            },
        }
    }

    /// Completes the round: the answers of the round replace the remembered
    /// ones, no answer is left, and the conversation is back at `Greeting`.
    pub fn reset_previous(&mut self)
        ensures
            final(self)@ == old(self)@.cycled(),
    {
        self.previous_state.product_name = self.product_name.take();
        self.previous_state.purchase_date = self.purchase_date.take();
        self.previous_state.warranty_duration = self.warranty_duration.take();
        self.previous_state.customer_name = self.customer_name.take();
        self.previous_state.serial_number = self.serial_number.take();
        self.previous_state.additional_terms = self.additional_terms.take();
        self.stage = WorkflowStage::default();
    }

    /// Moves the conversation on by one stage and changes nothing else.
    pub fn next_state(&mut self)
        ensures
            final(self)@ == old(self)@.advanced(),
    {
        self.stage = self.stage.next();
    }

    /// Takes the conversation back to `Greeting` and changes nothing else: the
    /// answers given so far and the remembered ones stay.
    pub fn reset_state(&mut self)
        ensures
            final(self)@ == old(self)@.at(WorkflowStage::Greeting),
    {
        self.stage = WorkflowStage::default();
    }

    /// Stores `body` as the answer that the present stage takes.
    pub fn capture(&mut self, body: &str)
        ensures
            final(self)@ == old(self)@.captured(body@),
    {
        match self.stage {
            WorkflowStage::Greeting | WorkflowStage::ProductName => {},
            WorkflowStage::PurchaseDate => {
                self.product_name = Some(String::from_str(body));
            },
            WorkflowStage::WarrantyDuration => {
                self.purchase_date = Some(String::from_str(body));
            },
            WorkflowStage::CustomerName => {
                self.warranty_duration = Some(String::from_str(body));
            },
            WorkflowStage::SerialNumber => {
                self.customer_name = Some(String::from_str(body));
            },
            WorkflowStage::AdditionalWarrantyTerms => {
                self.serial_number = Some(String::from_str(body));
            },
            WorkflowStage::WarrantyCard => {
                self.additional_terms = Some(String::from_str(body));
            },
        }
    }

    /// The card to request for the user `from`: from the answers of the round
    /// under way if `live`, else from the remembered ones.
    pub fn pdf_info(&self, from: &str, live: bool) -> (info: PDFInfo)
        ensures
            info@ == card_info(if live { self@.answers } else { self@.previous }, from@),
    {
        if live {
            PDFInfo {
                product_name: copy_or(&self.product_name, NO_PRODUCT_NAME),
                purchase_date: copy_or(&self.purchase_date, NO_PURCHASE_DATE),
                warranty_duration: copy_or(&self.warranty_duration, NO_WARRANTY_DURATION),
                customer_name: copy_or(&self.customer_name, NO_CUSTOMER_NAME),
                serial_number: copy_or(&self.serial_number, NO_SERIAL_NUMBER),
                additional_terms: copy_or(&self.additional_terms, NO_ADDITIONAL_TERMS),
                from: String::from_str(from),
            }
        } else {
            let previous = &self.previous_state;
            PDFInfo {
                product_name: copy_or(&previous.product_name, NO_PRODUCT_NAME),
                purchase_date: copy_or(&previous.purchase_date, NO_PURCHASE_DATE),
                warranty_duration: copy_or(&previous.warranty_duration, NO_WARRANTY_DURATION),
                customer_name: copy_or(&previous.customer_name, NO_CUSTOMER_NAME),
                serial_number: copy_or(&previous.serial_number, NO_SERIAL_NUMBER),
                additional_terms: copy_or(&previous.additional_terms, NO_ADDITIONAL_TERMS),
                from: String::from_str(from),
            }
        }
    }
}

} // verus!
