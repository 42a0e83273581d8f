//! The invoice record and its invariant.

use vstd::prelude::*;
use vstd::utf8::encode_utf8;
use crate::key::Key;

verus! {

/// Where an invoice stands in its life: it is created pending and becomes
/// paid at most once, for good.
#[derive(Clone, Copy, Debug, PartialEq, Eq, Structural)]
pub enum InvoiceStatus {
    Pending,
    Paid,
}

/// The most bytes a description may take once encoded as UTF-8: room for a
/// hundred characters of four bytes each.
pub const MAX_DESCRIPTION_BYTES: usize = 400;

/// An obligation of some payer towards `creator`.
#[derive(Clone, Debug, PartialEq, Eq)]
pub struct Invoice {
    /// The party entitled to the payment.
    pub creator: Key,
    /// The least amount that settles the invoice, in units.
    pub amount: u64,
    /// A free-form memo.
    pub description: String,
    /// Pending or paid.
    pub status: InvoiceStatus,
    /// The clock reading, in seconds, when the invoice was created.
    pub created_at: i64,
    /// The clock reading, in seconds, when the invoice was paid; zero while pending.
    pub paid_at: i64,
}

/// An invoice as a mathematical value.
pub struct InvoiceView {
    pub creator: Seq<u8>,
    pub amount: u64,
    pub description: Seq<char>,
    pub status: InvoiceStatus,
    pub created_at: i64,
    pub paid_at: i64,
}

impl InvoiceView {
    /// Whether the description, encoded, fits the space reserved for it.
    pub open spec fn description_fits(self) -> bool {
        encode_utf8(self.description).len() <= MAX_DESCRIPTION_BYTES
    }

    /// A paid invoice was paid no earlier than it was created.
    pub open spec fn paid_after_creation(self) -> bool {
        self.status == InvoiceStatus::Paid ==> self.paid_at >= self.created_at
    }

    /// The invariant of an invoice record: the key has its 32 bytes, the
    /// description fits, a pending invoice has no payment time, and a paid
    /// one was paid no earlier than it was created, after the clock's origin.
    pub open spec fn well_formed(self) -> bool {
        &&& self.creator.len() == 32
        &&& self.description_fits()
        &&& self.status == InvoiceStatus::Pending ==> self.paid_at == 0
        &&& self.status == InvoiceStatus::Paid ==> self.paid_at >= self.created_at > 0
    }
}

impl View for Invoice {
    type V = InvoiceView;

    open spec fn view(&self) -> InvoiceView {
        InvoiceView {
            creator: self.creator@,
            amount: self.amount,
            description: self.description@,
            status: self.status,
            created_at: self.created_at,
            paid_at: self.paid_at,
        }
    }
}

impl Invoice {
    /// The bytes reserved for a record, whatever the length of its
    /// description: the record-type tag, the creator's key, the amount, the
    /// description's length prefix and its slot, the status tag and the two
    /// clock readings.
    pub const SPACE: usize = 8 + 32 + 8 + 4 + (100 * 4) + 1 + 8 + 8;

    /// Whether the description, encoded, fits the space reserved for it.
    pub open spec fn description_fits(&self) -> bool {
        self@.description_fits()
    }

    /// The invariant of an invoice record.
    pub open spec fn well_formed(&self) -> bool {
        self@.well_formed()
    }
}

/// The reserved size is 469 bytes, of which 400 are the description's slot.
pub proof fn lemma_reserved_space()
    ensures
        Invoice::SPACE == 469,
        Invoice::SPACE == 69 + MAX_DESCRIPTION_BYTES,
{
}

} // verus!
