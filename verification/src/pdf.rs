//! What the document service is told about a warranty card.

use vstd::prelude::*;
use crate::text::text_or;

verus! {

/// Stands for a product name that was never given.
pub const NO_PRODUCT_NAME: &'static str = "Product Name";

/// Stands for a purchase date that was never given.
pub const NO_PURCHASE_DATE: &'static str = "XX-XX-XXXX";

/// Stands for a warranty duration that was never given.
pub const NO_WARRANTY_DURATION: &'static str = "X Years";

/// Stands for a customer name that was never given.
pub const NO_CUSTOMER_NAME: &'static str = "Customer Name";

/// Stands for a serial number that was never given.
pub const NO_SERIAL_NUMBER: &'static str = "S No";

/// Stands for additional terms that were never given.
pub const NO_ADDITIONAL_TERMS: &'static str = "None";

/// The six answers of one round of a conversation, each present once the user
/// has given it. This is the mathematical value that contracts speak of.
pub struct Answers {
    pub product_name: Option<Seq<char>>,
    pub purchase_date: Option<Seq<char>>,
    pub warranty_duration: Option<Seq<char>>,
    pub customer_name: Option<Seq<char>>,
    pub serial_number: Option<Seq<char>>,
    pub additional_terms: Option<Seq<char>>,
}

impl Answers {
    /// No answer given yet.
    pub open spec fn none() -> Answers {
        Answers {
            product_name: None,
            purchase_date: None,
            warranty_duration: None,
            customer_name: None,
            serial_number: None,
            additional_terms: None,
        }
    }
}

/// The fields of a warranty card as the document service receives them: the
/// six answers, none of them missing, and the user for whom the card is made.
#[derive(Debug)]
pub struct PDFInfo {
    pub product_name: String,
    pub purchase_date: String,
    pub warranty_duration: String,
    pub customer_name: String,
    pub serial_number: String,
    pub additional_terms: String,
    pub from: String,
}

/// A `PDFInfo` as a mathematical value.
pub struct PDFInfoView {
    pub product_name: Seq<char>,
    pub purchase_date: Seq<char>,
    pub warranty_duration: Seq<char>,
    pub customer_name: Seq<char>,
    pub serial_number: Seq<char>,
    pub additional_terms: Seq<char>,
    pub from: Seq<char>,
}

impl View for PDFInfo {
    type V = PDFInfoView;

    open spec fn view(&self) -> PDFInfoView {
        PDFInfoView {
            product_name: self.product_name@,
            purchase_date: self.purchase_date@,
            warranty_duration: self.warranty_duration@,
            customer_name: self.customer_name@,
            serial_number: self.serial_number@,
            additional_terms: self.additional_terms@,
            from: self.from@,
        }
    }
}

/// The card that is requested for `answers` on behalf of the user `from`:
/// every answer that was given stands as it was given, and every answer that
/// is missing is replaced by the text that stands for it.
pub open spec fn card_info(answers: Answers, from: Seq<char>) -> PDFInfoView {
    PDFInfoView {
        product_name: text_or(answers.product_name, NO_PRODUCT_NAME@),
        purchase_date: text_or(answers.purchase_date, NO_PURCHASE_DATE@),
        warranty_duration: text_or(answers.warranty_duration, NO_WARRANTY_DURATION@),
        customer_name: text_or(answers.customer_name, NO_CUSTOMER_NAME@),
        serial_number: text_or(answers.serial_number, NO_SERIAL_NUMBER@),
        additional_terms: text_or(answers.additional_terms, NO_ADDITIONAL_TERMS@),
        from,
    }
}

} // verus!
