//! The stages of a conversation and the order in which they follow each other.

use vstd::prelude::*;

verus! {

/// A step in the fixed sequence that every conversation walks through.
///
/// A stage is named after what the bot asks for when it accepts a message
/// there, not after what the message holds: the message that arrives at
/// `PurchaseDate` is the product name, and the bot answers it by asking for
/// the purchase date.
#[derive(Debug, Clone, Copy, PartialEq, Eq, Structural)]
pub enum WorkflowStage {
    /// The user is expected to say hello; the choice is offered next.
    Greeting,
    /// The choice between a new card and the last one arrives; for a new
    /// card, the product name is asked for next.
    ProductName,
    /// The product name arrives; the purchase date is asked for next.
    PurchaseDate,
    /// The purchase date arrives; the warranty duration is asked for next.
    WarrantyDuration,
    /// The warranty duration arrives; the customer's name is asked for next.
    CustomerName,
    /// The customer's name arrives; the serial number is asked for next.
    SerialNumber,
    /// The serial number arrives; the additional terms are asked for next.
    AdditionalWarrantyTerms,
    /// The additional terms arrive, and the card is generated.
    WarrantyCard,
}

impl WorkflowStage {
    /// The position of a stage in the sequence, counted from `Greeting` at 0.
    pub open spec fn ordinal(self) -> nat {
        match self {
            WorkflowStage::Greeting => 0,
            WorkflowStage::ProductName => 1,
            WorkflowStage::PurchaseDate => 2,
            WorkflowStage::WarrantyDuration => 3,
            WorkflowStage::CustomerName => 4,
            WorkflowStage::SerialNumber => 5,
            WorkflowStage::AdditionalWarrantyTerms => 6,
            WorkflowStage::WarrantyCard => 7,
        }
    }

    /// The stage that follows `self`. The sequence is a cycle: after
    /// `WarrantyCard` comes `Greeting` again.
    pub open spec fn spec_next(self) -> WorkflowStage {
        match self {
            WorkflowStage::Greeting => WorkflowStage::ProductName,
            WorkflowStage::ProductName => WorkflowStage::PurchaseDate,
            WorkflowStage::PurchaseDate => WorkflowStage::WarrantyDuration,
            WorkflowStage::WarrantyDuration => WorkflowStage::CustomerName,
            WorkflowStage::CustomerName => WorkflowStage::SerialNumber,
            WorkflowStage::SerialNumber => WorkflowStage::AdditionalWarrantyTerms,
            WorkflowStage::AdditionalWarrantyTerms => WorkflowStage::WarrantyCard,
            WorkflowStage::WarrantyCard => WorkflowStage::Greeting,
        }
    }

    /// The stage that follows `self`.
    #[verifier::when_used_as_spec(spec_next)]
    pub fn next(self) -> (stage: WorkflowStage)
        ensures
            stage == self.spec_next(),
    {
        match self {
            WorkflowStage::Greeting => WorkflowStage::ProductName,
            WorkflowStage::ProductName => WorkflowStage::PurchaseDate,
            WorkflowStage::PurchaseDate => WorkflowStage::WarrantyDuration,
            WorkflowStage::WarrantyDuration => WorkflowStage::CustomerName,
            WorkflowStage::CustomerName => WorkflowStage::SerialNumber,
            WorkflowStage::SerialNumber => WorkflowStage::AdditionalWarrantyTerms,
            WorkflowStage::AdditionalWarrantyTerms => WorkflowStage::WarrantyCard,
            WorkflowStage::WarrantyCard => WorkflowStage::Greeting,
        }
    }

    /// Each stage is followed by the one at the next position, and the last by
    /// the first: no stage is skipped and none comes twice in a round.
    pub proof fn lemma_next_is_successor(self)
        ensures
            self.spec_next().ordinal() == (self.ordinal() + 1) % 8,
            self.spec_next() != self,
            self.spec_next() == WorkflowStage::Greeting <==> self == WorkflowStage::WarrantyCard,
    {
    }

    /// Two stages at the same position are the same stage.
    pub proof fn lemma_ordinal_is_injective(self, other: WorkflowStage)
        requires
            self.ordinal() == other.ordinal(),
        ensures
            self == other,
    {
    }
}

impl Default for WorkflowStage {
    /// Every conversation starts in `Greeting`.
    fn default() -> (stage: WorkflowStage)
        ensures
            stage == WorkflowStage::Greeting,
    {
        WorkflowStage::Greeting
    }
}

} // verus!
