use crypto_payroll::{
    create_invoice, invoice_address, process_payment, CreateInvoice, CryptoPayrollError, HostError, Invoice,
    InvoiceStatus, Key, LedgerError, Party, ProcessPayment,
};

const CREATOR: Key = [7u8; 32];
const OTHER_CREATOR: Key = [8u8; 32];
const PAYER: Key = [9u8; 32];
const CREATED: i64 = 1_700_000_000;
const NOW: i64 = 1_700_000_060;

fn address_of(creator: &Key) -> Key {
    invoice_address(creator).expect("the creator's key has an invoice address").0
}

fn party(key: Key, balance: u64, signed: bool) -> Party {
    Party { key, balance, signed }
}

/// The creator opens an invoice of 1000 units described as "rent".
fn rent_invoice() -> (Invoice, Party) {
    let mut ctx = CreateInvoice {
        address: address_of(&CREATOR),
        invoice: None,
        creator: party(CREATOR, 10_000, true),
        deposit: 0,
    };
    assert_eq!(create_invoice(&mut ctx, 1_000, String::from("rent"), CREATED), Ok(()));
    (ctx.invoice.expect("the invoice was created"), ctx.creator)
}

fn payment(invoice: Invoice, creator: Party) -> ProcessPayment {
    ProcessPayment {
        address: address_of(&CREATOR),
        invoice,
        payer: party(PAYER, 5_000, true),
        creator: Party { signed: false, ..creator },
    }
}

#[test]
fn happy_path_exact_payment() {
    let (invoice, creator) = rent_invoice();
    assert_eq!(
        invoice,
        Invoice {
            creator: CREATOR,
            amount: 1_000,
            description: String::from("rent"),
            status: InvoiceStatus::Pending,
            created_at: CREATED,
            paid_at: 0,
        }
    );
    let mut ctx = payment(invoice, creator);
    assert_eq!(process_payment(&mut ctx, 1_000, NOW), Ok(()));
    assert_eq!(ctx.invoice.status, InvoiceStatus::Paid);
    assert_eq!(ctx.invoice.paid_at, NOW);
    assert_eq!(ctx.creator.balance, 11_000);
    assert_eq!(ctx.payer.balance, 4_000);
    assert_eq!(ctx.invoice.amount, 1_000);
    assert_eq!(ctx.invoice.creator, CREATOR);
    assert_eq!(ctx.invoice.description, "rent");
    assert_eq!(ctx.invoice.created_at, CREATED);
}

#[test]
fn happy_path_overpayment() {
    let (invoice, creator) = rent_invoice();
    let mut ctx = payment(invoice, creator);
    assert_eq!(process_payment(&mut ctx, 1_500, NOW), Ok(()));
    assert_eq!(ctx.invoice.status, InvoiceStatus::Paid);
    assert_eq!(ctx.invoice.paid_at, NOW);
    assert_eq!(ctx.creator.balance, 11_500);
    assert_eq!(ctx.payer.balance, 3_500);
    assert_eq!(ctx.invoice.amount, 1_000);
}

#[test]
fn underpayment_rejected() {
    let (invoice, creator) = rent_invoice();
    let mut ctx = payment(invoice, creator);
    let before = ctx.clone();
    assert_eq!(
        process_payment(&mut ctx, 999, NOW),
        Err(LedgerError::Program(CryptoPayrollError::InsufficientPaymentAmount))
    );
    assert_eq!(ctx, before);
    assert_eq!(ctx.invoice.status, InvoiceStatus::Pending);
    assert_eq!(ctx.payer.balance, 5_000);
    assert_eq!(ctx.creator.balance, 10_000);
}

#[test]
fn double_pay_rejected() {
    let (invoice, creator) = rent_invoice();
    let mut ctx = payment(invoice, creator);
    assert_eq!(process_payment(&mut ctx, 1_000, NOW), Ok(()));
    let after_first = ctx.clone();

    assert_eq!(
        process_payment(&mut ctx, 1_000, NOW + 5),
        Err(LedgerError::Program(CryptoPayrollError::InvoiceNotPending))
    );
    assert_eq!(ctx, after_first);

    let mut by_another = ProcessPayment { payer: party([10u8; 32], 2_000, true), ..after_first.clone() };
    assert_eq!(
        process_payment(&mut by_another, 1_000, NOW + 9),
        Err(LedgerError::Program(CryptoPayrollError::InvoiceNotPending))
    );
    assert_eq!(by_another.payer.balance, 2_000);
    assert_eq!(by_another.creator.balance, 11_000);
    assert_eq!(by_another.invoice.paid_at, NOW);
}

#[test]
fn wrong_creator_rejected() {
    let (invoice, _) = rent_invoice();
    let mut ctx = ProcessPayment {
        address: address_of(&OTHER_CREATOR),
        invoice,
        payer: party(PAYER, 5_000, true),
        creator: party(OTHER_CREATOR, 300, false),
    };
    let before = ctx.clone();
    assert_eq!(
        process_payment(&mut ctx, 1_000, NOW),
        Err(LedgerError::Program(CryptoPayrollError::InvalidCreator))
    );
    assert_eq!(ctx, before);
    assert_eq!(ctx.payer.balance, 5_000);
    assert_eq!(ctx.creator.balance, 300);
}

#[test]
fn wrong_creator_at_the_invoice_address_is_an_address_mismatch() {
    let (invoice, _) = rent_invoice();
    let mut ctx = ProcessPayment {
        address: address_of(&CREATOR),
        invoice,
        payer: party(PAYER, 5_000, true),
        creator: party(OTHER_CREATOR, 300, false),
    };
    let before = ctx.clone();
    assert_eq!(process_payment(&mut ctx, 1_000, NOW), Err(LedgerError::Host(HostError::AddressMismatch)));
    assert_eq!(ctx, before);
}

#[test]
fn re_creation_rejected() {
    let (invoice, creator) = rent_invoice();
    let mut paying = payment(invoice, creator);
    assert_eq!(process_payment(&mut paying, 1_000, NOW), Ok(()));

    let mut ctx = CreateInvoice {
        address: address_of(&CREATOR),
        invoice: Some(paying.invoice.clone()),
        creator: Party { signed: true, ..paying.creator },
        deposit: 0,
    };
    let before = ctx.clone();
    assert_eq!(
        create_invoice(&mut ctx, 2_000, String::from("rent, again"), NOW + 100),
        Err(LedgerError::Host(HostError::AddressInUse))
    );
    assert_eq!(ctx, before);
    assert_eq!(ctx.invoice, Some(paying.invoice));
}
