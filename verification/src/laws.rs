//! What holds of every invoice, whatever happens to it.
//!
//! A history is a record together with the attempts to pay it, in the order
//! in which the host runs them. Each attempt comes with its own accounts,
//! amount and clock reading, and either succeeds or is refused and leaves the
//! record as it was.

use vstd::prelude::*;
use vstd::utf8::{encode_scalar, encode_utf8};
use crate::codec::{encode, lemma_encoded_length};
use crate::error::{CryptoPayrollError, HostError, LedgerError};
use crate::invoice::{Invoice, InvoiceStatus, MAX_DESCRIPTION_BYTES};
use crate::key::Key;
use crate::ledger::{
    address_derived, creation_outcome, new_invoice, payment_outcome, CreateInvoice, ProcessPayment,
};
use crate::transfer::Party;

verus! {

/// One attempt to pay an invoice: everything a payment is given but the
/// record itself.
pub struct PaymentAttempt {
    pub address: Key,
    pub payer: Party,
    pub creator: Party,
    pub derived: Option<(Seq<u8>, u8)>,
    pub amount: u64,
    pub now: i64,
}

/// What `attempt` does when the record is `invoice`.
pub open spec fn attempt_outcome(invoice: Invoice, attempt: PaymentAttempt) -> Result<ProcessPayment, LedgerError> {
    payment_outcome(
        ProcessPayment { address: attempt.address, invoice, payer: attempt.payer, creator: attempt.creator },
        attempt.derived,
        attempt.amount,
        attempt.now,
    )
}

/// The record after `attempts` have run on `invoice`, one after the other.
pub open spec fn record_after(invoice: Invoice, attempts: Seq<PaymentAttempt>) -> Invoice
    decreases attempts.len(),
{
    if attempts.len() == 0 {
        invoice
    } else {
        let before = record_after(invoice, attempts.drop_last());
        match attempt_outcome(before, attempts.last()) {
            Ok(paid) => paid.invoice,
            Err(_) => before,
        }
    }
}

/// How many of `attempts`, run on `invoice` one after the other, succeed.
pub open spec fn payments_applied(invoice: Invoice, attempts: Seq<PaymentAttempt>) -> nat
    decreases attempts.len(),
{
    if attempts.len() == 0 {
        0
    } else {
        let earlier = payments_applied(invoice, attempts.drop_last());
        let before = record_after(invoice, attempts.drop_last());
        if attempt_outcome(before, attempts.last()) is Ok {
            earlier + 1
        } else {
            earlier
        }
    }
}

/// The accounts as a payment leaves them: changed as the outcome says, or
/// untouched where it is refused.
pub open spec fn accounts_after_payment(
    ctx: ProcessPayment,
    derived: Option<(Seq<u8>, u8)>,
    amount: u64,
    now: i64,
) -> ProcessPayment {
    match payment_outcome(ctx, derived, amount, now) {
        Ok(paid) => paid,
        Err(_) => ctx,
    }
}

/// A payment that succeeds marks the invoice paid at the clock's reading and
/// leaves its creator, amount, description and creation time as they were.
pub proof fn lemma_payment_settles(ctx: ProcessPayment, derived: Option<(Seq<u8>, u8)>, amount: u64, now: i64)
    requires
        payment_outcome(ctx, derived, amount, now) is Ok,
    ensures
        ({
            let paid = payment_outcome(ctx, derived, amount, now)->Ok_0;
            &&& ctx.invoice.status == InvoiceStatus::Pending
            &&& amount >= ctx.invoice.amount
            &&& paid.invoice.status == InvoiceStatus::Paid
            &&& paid.invoice.paid_at == now
            &&& paid.invoice.creator == ctx.invoice.creator
            &&& paid.invoice.amount == ctx.invoice.amount
            &&& paid.invoice.description == ctx.invoice.description
            &&& paid.invoice.created_at == ctx.invoice.created_at
            &&& paid.address == ctx.address
        }),
{
}

/// A paid invoice was paid no earlier than it was created: a payment made
/// when the clock has not fallen behind the creation time keeps the invoice
/// well formed, and so does every refusal.
pub proof fn lemma_payment_keeps_invariant(ctx: ProcessPayment, derived: Option<(Seq<u8>, u8)>, amount: u64, now: i64)
    requires
        ctx.invoice.well_formed(),
        now >= ctx.invoice.created_at > 0,
    ensures
        accounts_after_payment(ctx, derived, amount, now).invoice.well_formed(),
{
}

/// Whatever attempts run on an invoice, its creator, amount, description and
/// creation time never change.
pub proof fn lemma_terms_are_fixed(invoice: Invoice, attempts: Seq<PaymentAttempt>)
    ensures
        record_after(invoice, attempts).creator == invoice.creator,
        record_after(invoice, attempts).amount == invoice.amount,
        record_after(invoice, attempts).description == invoice.description,
        record_after(invoice, attempts).created_at == invoice.created_at,
    decreases attempts.len(),
{
    if attempts.len() > 0 {
        lemma_terms_are_fixed(invoice, attempts.drop_last());
    }
}

/// In every history, a paid invoice was paid no earlier than it was created,
/// as long as no payment is made with the clock behind the creation time.
pub proof fn lemma_paid_after_creation(invoice: Invoice, attempts: Seq<PaymentAttempt>)
    requires
        invoice@.paid_after_creation(),
        forall|i: int| 0 <= i < attempts.len() ==> (#[trigger] attempts[i]).now >= invoice.created_at,
    ensures
        record_after(invoice, attempts)@.paid_after_creation(),
    decreases attempts.len(),
{
    if attempts.len() > 0 {
        let earlier = attempts.drop_last();
        assert forall|i: int| 0 <= i < earlier.len() implies (#[trigger] earlier[i]).now >= invoice.created_at by {
            assert(earlier[i] == attempts[i]);
        }
        lemma_paid_after_creation(invoice, earlier);
        lemma_terms_are_fixed(invoice, earlier);
        assert(attempts.last() == attempts[attempts.len() - 1]);
    }
}

/// In every history that starts with a creation and in which no payment is
/// made with the clock behind the creation's reading, the invoice is well
/// formed if the clock was past its origin at creation, and in any case a
/// paid invoice was paid no earlier than it was created.
pub proof fn lemma_history_keeps_invariant(
    ctx: CreateInvoice,
    derived: Option<(Seq<u8>, u8)>,
    amount: u64,
    description: String,
    now: i64,
    attempts: Seq<PaymentAttempt>,
)
    requires
        creation_outcome(ctx, derived, amount, description, now) is Ok,
        forall|i: int| 0 <= i < attempts.len() ==> (#[trigger] attempts[i]).now >= now,
    ensures
        ({
            let created = creation_outcome(ctx, derived, amount, description, now)->Ok_0.invoice->Some_0;
            &&& record_after(created, attempts)@.paid_after_creation()
            &&& now > 0 ==> record_after(created, attempts).well_formed()
        }),
    decreases attempts.len(),
{
    let created = new_invoice(ctx.creator.key, amount, description, now);
    lemma_paid_after_creation(created, attempts);
    if attempts.len() > 0 {
        let earlier = attempts.drop_last();
        assert forall|i: int| 0 <= i < earlier.len() implies (#[trigger] earlier[i]).now >= now by {
            assert(earlier[i] == attempts[i]);
        }
        lemma_history_keeps_invariant(ctx, derived, amount, description, now, earlier);
        lemma_terms_are_fixed(created, earlier);
        assert(attempts.last() == attempts[attempts.len() - 1]);
    }
}

/// No transition leaves the paid state: once an invoice is paid, every
/// further attempt is refused and the record stays as it is.
pub proof fn lemma_paid_is_final(invoice: Invoice, attempts: Seq<PaymentAttempt>)
    requires
        invoice.status == InvoiceStatus::Paid,
    ensures
        record_after(invoice, attempts) == invoice,
        payments_applied(invoice, attempts) == 0,
    decreases attempts.len(),
{
    if attempts.len() > 0 {
        lemma_paid_is_final(invoice, attempts.drop_last());
    }
}

/// In every history of an invoice, at most one payment succeeds, and if one
/// did the invoice is paid.
pub proof fn lemma_at_most_one_payment(invoice: Invoice, attempts: Seq<PaymentAttempt>)
    ensures
        payments_applied(invoice, attempts) <= 1,
        payments_applied(invoice, attempts) == 1 ==> record_after(invoice, attempts).status
            == InvoiceStatus::Paid,
        invoice.status == InvoiceStatus::Pending && payments_applied(invoice, attempts) == 0
            ==> record_after(invoice, attempts) == invoice,
    decreases attempts.len(),
{
    if invoice.status == InvoiceStatus::Paid {
        lemma_paid_is_final(invoice, attempts);
    } else if attempts.len() > 0 {
        lemma_at_most_one_payment(invoice, attempts.drop_last());
    }
}

/// A second payment of an invoice is refused and leaves all balances and the
/// payment time as they were, whoever pays and whatever is offered; where the
/// accounts pass the two checks that come before the status, the refusal is
/// `InvoiceNotPending`.
pub proof fn lemma_second_payment_refused(
    first: ProcessPayment,
    derived: Option<(Seq<u8>, u8)>,
    amount: u64,
    now: i64,
    second: ProcessPayment,
    derived_again: Option<(Seq<u8>, u8)>,
    amount_again: u64,
    now_again: i64,
)
    requires
        payment_outcome(first, derived, amount, now) matches Ok(paid) && second.invoice == paid.invoice,
    ensures
        payment_outcome(second, derived_again, amount_again, now_again) is Err,
        accounts_after_payment(second, derived_again, amount_again, now_again) == second,
        accounts_after_payment(second, derived_again, amount_again, now_again).invoice.paid_at == now,
        address_derived(derived_again, second.address@) && second.invoice.creator@ == second.creator.key@
            ==> payment_outcome(second, derived_again, amount_again, now_again) == Err::<
            ProcessPayment,
            LedgerError,
        >(LedgerError::Program(CryptoPayrollError::InvoiceNotPending)),
{
}

/// A payment between two different accounts that succeeds adds the whole
/// amount offered to the creator's balance and takes the same amount from
/// the payer's, also where it exceeds the invoice's amount.
pub proof fn lemma_payment_moves_amount(ctx: ProcessPayment, derived: Option<(Seq<u8>, u8)>, amount: u64, now: i64)
    requires
        payment_outcome(ctx, derived, amount, now) is Ok,
        ctx.payer.key@ != ctx.creator.key@,
    ensures
        ({
            let paid = payment_outcome(ctx, derived, amount, now)->Ok_0;
            &&& paid.creator.balance == ctx.creator.balance + amount
            &&& paid.payer.balance == ctx.payer.balance - amount
            &&& paid.creator.key == ctx.creator.key
            &&& paid.payer.key == ctx.payer.key
        }),
{
}

/// A creator that pays its own invoice keeps its balance: the amount leaves
/// and reaches one and the same account.
pub proof fn lemma_own_payment_keeps_balance(ctx: ProcessPayment, derived: Option<(Seq<u8>, u8)>, amount: u64, now: i64)
    requires
        payment_outcome(ctx, derived, amount, now) is Ok,
        ctx.payer.key@ == ctx.creator.key@,
    ensures
        ({
            let paid = payment_outcome(ctx, derived, amount, now)->Ok_0;
            &&& paid.creator == ctx.creator
            &&& paid.payer == ctx.payer
        }),
{
}

/// The amount offered is compared with the invoice's by "at least": of the
/// accounts that pass the three checks before it, a payment is refused as
/// insufficient exactly when it offers less than the invoice's amount. So
/// the invoice's amount itself is enough, and one unit less is not.
pub proof fn lemma_payment_threshold(ctx: ProcessPayment, derived: Option<(Seq<u8>, u8)>, amount: u64, now: i64)
    requires
        address_derived(derived, ctx.address@),
        ctx.invoice.creator@ == ctx.creator.key@,
        ctx.invoice.status == InvoiceStatus::Pending,
    ensures
        amount < ctx.invoice.amount <==> payment_outcome(ctx, derived, amount, now) == Err::<
            ProcessPayment,
            LedgerError,
        >(LedgerError::Program(CryptoPayrollError::InsufficientPaymentAmount)),
        amount == ctx.invoice.amount && ctx.payer.signed && ctx.payer.balance >= amount && ctx.payer.key@
            != ctx.creator.key@ && ctx.creator.balance + amount <= u64::MAX ==> payment_outcome(
            ctx,
            derived,
            amount,
            now,
        ) is Ok,
{
}

/// A creation that succeeds leaves a well-formed pending invoice that names
/// the creator, the amount and the description given and the clock's
/// reading, and whose stored form fills exactly the reserved space.
pub proof fn lemma_creation_establishes_invariant(
    ctx: CreateInvoice,
    derived: Option<(Seq<u8>, u8)>,
    amount: u64,
    description: String,
    now: i64,
)
    requires
        creation_outcome(ctx, derived, amount, description, now) is Ok,
    ensures
        ({
            let created = creation_outcome(ctx, derived, amount, description, now)->Ok_0;
            &&& created.invoice == Some(new_invoice(ctx.creator.key, amount, description, now))
            &&& created.invoice->Some_0.well_formed()
            &&& created.invoice->Some_0.status == InvoiceStatus::Pending
            &&& created.invoice->Some_0.paid_at == 0
            &&& encode(created.invoice->Some_0@).len() == Invoice::SPACE
            &&& created.creator.balance == ctx.creator.balance - ctx.deposit
        }),
{
    lemma_encoded_length(new_invoice(ctx.creator.key, amount, description, now)@);
}

/// Creating an invoice where a record already exists is refused, as
/// `AddressInUse` where the address is the derived one.
pub proof fn lemma_no_second_creation(
    ctx: CreateInvoice,
    derived: Option<(Seq<u8>, u8)>,
    amount: u64,
    description: String,
    now: i64,
)
    requires
        ctx.invoice is Some,
    ensures
        creation_outcome(ctx, derived, amount, description, now) is Err,
        address_derived(derived, ctx.address@) ==> creation_outcome(ctx, derived, amount, description, now)
            == Err::<CreateInvoice, LedgerError>(LedgerError::Host(HostError::AddressInUse)),
{
}

/// A character takes at most four bytes, so a text takes at least one byte
/// and at most four for each of its characters.
pub proof fn lemma_encoded_length_bounds(text: Seq<char>)
    ensures
        text.len() <= encode_utf8(text).len() <= 4 * text.len(),
    decreases text.len(),
{
    if text.len() > 0 {
        lemma_encoded_length_bounds(text.drop_first());
        assert(1 <= encode_scalar(text[0] as u32).len() <= 4);
    }
}

/// A description of at most a hundred characters always fits its slot, and
/// one of more than four hundred never does.
pub proof fn lemma_description_budget(text: Seq<char>)
    ensures
        text.len() <= 100 ==> encode_utf8(text).len() <= MAX_DESCRIPTION_BYTES,
        text.len() > 400 ==> encode_utf8(text).len() > MAX_DESCRIPTION_BYTES,
{
    lemma_encoded_length_bounds(text);
}

} // verus!
