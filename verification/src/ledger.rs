//! The two operations of the ledger: creating an invoice and paying it.
//!
//! The host resolves the accounts a transaction names and hands them in as
//! plain values, with the clock's reading. An operation checks its
//! preconditions in a fixed order, and either refuses with the first one
//! that fails and changes nothing, or applies its whole effect.
//!
//! ```text
//!             create_invoice             process_payment
//!   (absent) ----------------> Pending -----------------> Paid
//! ```

use vstd::prelude::*;
use vstd::utf8::encode_utf8;
use crate::address::{derivation_view, derived_address, invoice_address};
use crate::error::{CryptoPayrollError, HostError, LedgerError};
use crate::invoice::{Invoice, InvoiceStatus, MAX_DESCRIPTION_BYTES};
use crate::key::{keys_equal, Key};
use crate::transfer::{transfer, transfer_outcome, Party};

verus! {

/// The accounts that creating an invoice touches.
#[derive(Clone, Debug, PartialEq, Eq)]
pub struct CreateInvoice {
    /// The address at which the invoice is to be allocated.
    pub address: Key,
    /// What the store holds at that address: nothing yet, or a record.
    pub invoice: Option<Invoice>,
    /// The party that creates the invoice and funds its allocation.
    pub creator: Party,
    /// What the host charges for reserving the record's space.
    pub deposit: u64,
}

/// The accounts that paying an invoice touches.
#[derive(Clone, Debug, PartialEq, Eq)]
pub struct ProcessPayment {
    /// The address at which the invoice is stored.
    pub address: Key,
    /// The record stored there.
    pub invoice: Invoice,
    /// The party that pays.
    pub payer: Party,
    /// The party that is paid; it need not sign.
    pub creator: Party,
}

/// Whether `address` is the one that the derivation yielded.
pub open spec fn address_derived(derived: Option<(Seq<u8>, u8)>, address: Seq<u8>) -> bool {
    derived matches Some((expected, _)) && expected == address
}

/// The record that a creation writes: pending, stamped with the clock, not
/// yet paid.
pub open spec fn new_invoice(creator: Key, amount: u64, description: String, now: i64) -> Invoice {
    Invoice {
        creator,
        amount,
        description,
        status: InvoiceStatus::Pending,
        created_at: now,
        paid_at: 0,
    }
}

/// The record after its payment at clock reading `now`.
pub open spec fn settled(invoice: Invoice, now: i64) -> Invoice {
    Invoice {
        creator: invoice.creator,
        amount: invoice.amount,
        description: invoice.description,
        status: InvoiceStatus::Paid,
        created_at: invoice.created_at,
        paid_at: now,
    }
}

/// What creating an invoice does to the accounts, given what the address
/// derivation yielded for the creator's key: the accounts afterwards, or the
/// first precondition that fails, checked in this order.
///
/// 1. The address is the derived one, else `AddressMismatch`.
/// 2. No record exists there yet, else `AddressInUse`.
/// 3. The creator signed, else `MissingSignature`.
/// 4. The encoded description takes at most 400 bytes, else `DescriptionTooLong`.
/// 5. The creator holds the deposit, else `InsufficientFunds`.
pub open spec fn creation_outcome(
    ctx: CreateInvoice,
    derived: Option<(Seq<u8>, u8)>,
    amount: u64,
    description: String,
    now: i64,
) -> Result<CreateInvoice, LedgerError> {
    if !address_derived(derived, ctx.address@) {
        Err(LedgerError::Host(HostError::AddressMismatch))
    } else if ctx.invoice is Some {
        Err(LedgerError::Host(HostError::AddressInUse))
    } else if !ctx.creator.signed {
        Err(LedgerError::Host(HostError::MissingSignature))
    } else if encode_utf8(description@).len() > MAX_DESCRIPTION_BYTES {
        Err(LedgerError::Host(HostError::DescriptionTooLong))
    } else if ctx.creator.balance < ctx.deposit {
        Err(LedgerError::Host(HostError::InsufficientFunds))
    } else {
        Ok(
            CreateInvoice {
                address: ctx.address,
                invoice: Some(new_invoice(ctx.creator.key, amount, description, now)),
                creator: ctx.creator.with_balance((ctx.creator.balance - ctx.deposit) as u64),
                deposit: ctx.deposit,
            },
        )
    }
}

/// What paying an invoice does to the accounts, given what the address
/// derivation yielded for the creator's key: the accounts afterwards, or the
/// first precondition that fails, checked in this order.
///
/// 1. The address is the derived one, else `AddressMismatch`.
/// 2. The invoice names the creator account handed in, else `InvalidCreator`.
/// 3. The invoice is pending, else `InvoiceNotPending`.
/// 4. The amount offered is at least the invoice's, else `InsufficientPaymentAmount`.
/// 5. The payer signed, else `MissingSignature`.
/// 6. The transfer of the whole amount offered goes through, else its refusal.
pub open spec fn payment_outcome(
    ctx: ProcessPayment,
    derived: Option<(Seq<u8>, u8)>,
    amount: u64,
    now: i64,
) -> Result<ProcessPayment, LedgerError> {
    if !address_derived(derived, ctx.address@) {
        Err(LedgerError::Host(HostError::AddressMismatch))
    } else if ctx.invoice.creator@ != ctx.creator.key@ {
        Err(LedgerError::Program(CryptoPayrollError::InvalidCreator))
    } else if ctx.invoice.status != InvoiceStatus::Pending {
        Err(LedgerError::Program(CryptoPayrollError::InvoiceNotPending))
    } else if amount < ctx.invoice.amount {
        Err(LedgerError::Program(CryptoPayrollError::InsufficientPaymentAmount))
    } else if !ctx.payer.signed {
        Err(LedgerError::Host(HostError::MissingSignature))
    } else {
        match transfer_outcome(ctx.payer, ctx.creator, amount) {
            Err(refusal) => Err(LedgerError::Host(refusal)),
            Ok((payer, creator)) => Ok(
                ProcessPayment {
                    address: ctx.address,
                    invoice: settled(ctx.invoice, now),
                    payer,
                    creator,
                },
            ),
        }
    }
}

/// Whether `address` is the one that the derivation yielded.
fn is_derived(derived: &Option<(Key, u8)>, address: &Key) -> (matches: bool)
    ensures
        matches == address_derived(derivation_view(*derived), address@),
{
    match derived {
        Some((expected, _)) => keys_equal(expected, address),
        None => false,
    }
}

/// Creates the invoice of `ctx.creator` at `ctx.address`, given what the
/// address derivation yielded for the creator's key. On success the record
/// is allocated and populated and the creator has paid the deposit; on
/// refusal nothing has changed.
pub fn create_invoice_at(
    ctx: &mut CreateInvoice,
    derived: Option<(Key, u8)>,
    amount: u64,
    description: String,
    now: i64,
) -> (res: Result<(), LedgerError>)
    ensures
        match creation_outcome(*old(ctx), derivation_view(derived), amount, description, now) {
            Ok(created) => res is Ok && *final(ctx) == created,
            Err(e) => res == Err::<(), LedgerError>(e) && *final(ctx) == *old(ctx),
        },
        res is Ok ==> (final(ctx).invoice matches Some(invoice) && invoice.well_formed()),
{
    if !is_derived(&derived, &ctx.address) {
        return Err(LedgerError::Host(HostError::AddressMismatch));
    }
    if ctx.invoice.is_some() {
        return Err(LedgerError::Host(HostError::AddressInUse));
    }
    if !ctx.creator.signed {
        return Err(LedgerError::Host(HostError::MissingSignature));
    }
    if description.as_str().as_bytes().len() > MAX_DESCRIPTION_BYTES {
        return Err(LedgerError::Host(HostError::DescriptionTooLong));
    }
    if ctx.creator.balance < ctx.deposit {
        return Err(LedgerError::Host(HostError::InsufficientFunds));
    }
    ctx.creator.balance = ctx.creator.balance - ctx.deposit;
    ctx.invoice = Some(
        Invoice {
            creator: ctx.creator.key,
            amount,
            description,
            status: InvoiceStatus::Pending,
            created_at: now,
            paid_at: 0,
        },
    );
    Ok(())
}

/// Creates the invoice of `ctx.creator` at `ctx.address`: derives the
/// address for the creator's key and does what `creation_outcome` says for
/// it. `now` is the clock's reading. A refusal changes nothing.
pub fn create_invoice(ctx: &mut CreateInvoice, amount: u64, description: String, now: i64) -> (res: Result<(), LedgerError>)
    ensures
        match creation_outcome(*old(ctx), derived_address(old(ctx).creator.key@), amount, description, now) {
            Ok(created) => res is Ok && *final(ctx) == created,
            Err(e) => res == Err::<(), LedgerError>(e) && *final(ctx) == *old(ctx),
        },
        res is Ok ==> (final(ctx).invoice matches Some(invoice) && invoice.well_formed()),
{
    let derived = invoice_address(&ctx.creator.key);
    create_invoice_at(ctx, derived, amount, description, now)
}

/// Pays the invoice stored at `ctx.address` with `amount` units from the
/// payer, given what the address derivation yielded for the creator's key.
/// On success the whole amount has moved to the creator and the invoice is
/// paid and stamped with `now`; on refusal nothing has changed.
pub fn process_payment_at(ctx: &mut ProcessPayment, derived: Option<(Key, u8)>, amount: u64, now: i64) -> (res: Result<(), LedgerError>)
    ensures
        match payment_outcome(*old(ctx), derivation_view(derived), amount, now) {
            Ok(paid) => res is Ok && *final(ctx) == paid,
            Err(e) => res == Err::<(), LedgerError>(e) && *final(ctx) == *old(ctx),
        },
        old(ctx).invoice.well_formed() && now >= old(ctx).invoice.created_at > 0
            ==> final(ctx).invoice.well_formed(),
{
    if !is_derived(&derived, &ctx.address) {
        return Err(LedgerError::Host(HostError::AddressMismatch));
    }
    if !keys_equal(&ctx.invoice.creator, &ctx.creator.key) {
        return Err(LedgerError::Program(CryptoPayrollError::InvalidCreator));
    }
    if ctx.invoice.status != InvoiceStatus::Pending {
        return Err(LedgerError::Program(CryptoPayrollError::InvoiceNotPending));
    }
    if amount < ctx.invoice.amount {
        return Err(LedgerError::Program(CryptoPayrollError::InsufficientPaymentAmount));
    }
    if !ctx.payer.signed {
        return Err(LedgerError::Host(HostError::MissingSignature));
    }
    match transfer(&mut ctx.payer, &mut ctx.creator, amount) {
        Err(refusal) => Err(LedgerError::Host(refusal)),
        Ok(()) => {
            ctx.invoice.status = InvoiceStatus::Paid;
            ctx.invoice.paid_at = now;
            Ok(())
        },
    }
}

/// Pays the invoice stored at `ctx.address` with `amount` units from the
/// payer: derives the address for the key of the creator account handed in
/// and does what `payment_outcome` says for it. `now` is the clock's
/// reading. A refusal changes nothing.
pub fn process_payment(ctx: &mut ProcessPayment, amount: u64, now: i64) -> (res: Result<(), LedgerError>)
    ensures
        match payment_outcome(*old(ctx), derived_address(old(ctx).creator.key@), amount, now) {
            Ok(paid) => res is Ok && *final(ctx) == paid,
            Err(e) => res == Err::<(), LedgerError>(e) && *final(ctx) == *old(ctx),
        },
        old(ctx).invoice.well_formed() && now >= old(ctx).invoice.created_at > 0
            ==> final(ctx).invoice.well_formed(),
{
    let derived = invoice_address(&ctx.creator.key);
    process_payment_at(ctx, derived, amount, now)
}

} // verus!
