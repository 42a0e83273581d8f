use crypto_payroll::{
    invoice_address, process_payment, process_payment_at, CryptoPayrollError, HostError, Invoice, InvoiceStatus,
    Key, LedgerError, Party, ProcessPayment,
};

const CREATOR: Key = [31u8; 32];
const PAYER: Key = [32u8; 32];
const STRANGER: Key = [33u8; 32];

fn address_of(creator: &Key) -> Key {
    invoice_address(creator).expect("the creator's key has an invoice address").0
}

fn pending(amount: u64, created_at: i64) -> Invoice {
    Invoice {
        creator: CREATOR,
        amount,
        description: String::from("hosting"),
        status: InvoiceStatus::Pending,
        created_at,
        paid_at: 0,
    }
}

fn accounts(amount: u64, payer_balance: u64, creator_balance: u64) -> ProcessPayment {
    ProcessPayment {
        address: address_of(&CREATOR),
        invoice: pending(amount, 100),
        payer: Party { key: PAYER, balance: payer_balance, signed: true },
        creator: Party { key: CREATOR, balance: creator_balance, signed: false },
    }
}

#[test]
fn payment_of_exactly_the_amount_succeeds() {
    let mut ctx = accounts(1_000, 1_000, 0);
    assert_eq!(process_payment(&mut ctx, 1_000, 160), Ok(()));
    assert_eq!(ctx.invoice.status, InvoiceStatus::Paid);
    assert_eq!(ctx.payer.balance, 0);
    assert_eq!(ctx.creator.balance, 1_000);
}

#[test]
fn payment_one_unit_short_is_insufficient() {
    let mut ctx = accounts(1_000, 1_000, 0);
    let before = ctx.clone();
    assert_eq!(
        process_payment(&mut ctx, 999, 160),
        Err(LedgerError::Program(CryptoPayrollError::InsufficientPaymentAmount))
    );
    assert_eq!(ctx, before);
}

#[test]
fn payment_threshold_holds_at_the_ends_of_the_range() {
    let mut free = accounts(0, 0, 0);
    assert_eq!(process_payment(&mut free, 0, 160), Ok(()));
    assert_eq!(free.invoice.status, InvoiceStatus::Paid);

    let mut dear = accounts(u64::MAX, u64::MAX, 0);
    assert_eq!(
        process_payment(&mut dear, u64::MAX - 1, 160),
        Err(LedgerError::Program(CryptoPayrollError::InsufficientPaymentAmount))
    );
    assert_eq!(process_payment(&mut dear, u64::MAX, 160), Ok(()));
    assert_eq!(dear.creator.balance, u64::MAX);
    assert_eq!(dear.payer.balance, 0);
}

#[test]
fn payment_changes_only_status_time_and_balances() {
    let mut ctx = accounts(40, 100, 7);
    let before = ctx.clone();
    assert_eq!(process_payment(&mut ctx, 55, 1_234), Ok(()));
    assert_eq!(
        ctx,
        ProcessPayment {
            address: before.address,
            invoice: Invoice { status: InvoiceStatus::Paid, paid_at: 1_234, ..before.invoice },
            payer: Party { balance: 45, ..before.payer },
            creator: Party { balance: 62, ..before.creator },
        }
    );
}

#[test]
fn payment_moves_the_amount_from_payer_to_creator() {
    for (owed, offered, payer_has, creator_has) in
        [(1u64, 1u64, 1u64, 0u64), (10, 25, 25, 5), (1_000, 1_500, 5_000, 123), (0, 7, 7, u64::MAX - 7)]
    {
        let mut ctx = accounts(owed, payer_has, creator_has);
        assert_eq!(process_payment(&mut ctx, offered, 500), Ok(()));
        assert_eq!(ctx.creator.balance, creator_has + offered);
        assert_eq!(ctx.payer.balance, payer_has - offered);
        assert_eq!(
            ctx.creator.balance as u128 + ctx.payer.balance as u128,
            creator_has as u128 + payer_has as u128
        );
    }
}

#[test]
fn paid_invoice_is_stamped_no_earlier_than_its_creation() {
    for now in [100i64, 101, 1_000_000, i64::MAX] {
        let mut ctx = accounts(5, 5, 0);
        assert_eq!(process_payment(&mut ctx, 5, now), Ok(()));
        assert_eq!(ctx.invoice.paid_at, now);
        assert!(ctx.invoice.paid_at >= ctx.invoice.created_at);
    }
}

#[test]
fn payment_in_the_tick_of_creation_has_equal_times() {
    let mut ctx = accounts(5, 5, 0);
    assert_eq!(process_payment(&mut ctx, 5, 100), Ok(()));
    assert_eq!(ctx.invoice.paid_at, ctx.invoice.created_at);
}

#[test]
fn at_most_one_payment_is_ever_applied() {
    let mut ctx = accounts(10, 1_000, 0);
    let mut applied = 0;
    for (attempt, offered) in [3u64, 10, 10, 500, 10, 0, u64::MAX].into_iter().enumerate() {
        if process_payment(&mut ctx, offered, 200 + attempt as i64).is_ok() {
            applied += 1;
        }
    }
    assert_eq!(applied, 1);
    assert_eq!(ctx.invoice.status, InvoiceStatus::Paid);
    assert_eq!(ctx.invoice.paid_at, 201);
    assert_eq!(ctx.payer.balance, 990);
    assert_eq!(ctx.creator.balance, 10);
}

#[test]
fn second_payment_leaves_balances_and_time_unchanged() {
    let mut ctx = accounts(10, 1_000, 0);
    assert_eq!(process_payment(&mut ctx, 10, 300), Ok(()));
    let settled = ctx.clone();
    for offered in [0u64, 9, 10, 11, 990, 991, u64::MAX] {
        assert_eq!(
            process_payment(&mut ctx, offered, 400),
            Err(LedgerError::Program(CryptoPayrollError::InvoiceNotPending))
        );
        assert_eq!(ctx, settled);
        assert_eq!(ctx.invoice.paid_at, 300);
        assert_eq!(ctx.payer.balance, 990);
        assert_eq!(ctx.creator.balance, 10);
    }
}

#[test]
fn payment_by_an_unsigned_payer_is_refused() {
    let mut ctx = accounts(10, 1_000, 0);
    ctx.payer.signed = false;
    let before = ctx.clone();
    assert_eq!(process_payment(&mut ctx, 10, 300), Err(LedgerError::Host(HostError::MissingSignature)));
    assert_eq!(ctx, before);
}

#[test]
fn creator_need_not_sign() {
    for signed in [false, true] {
        let mut ctx = accounts(10, 1_000, 0);
        ctx.creator.signed = signed;
        assert_eq!(process_payment(&mut ctx, 10, 300), Ok(()));
        assert_eq!(ctx.creator.signed, signed);
    }
}

#[test]
fn payment_beyond_the_payers_balance_is_refused() {
    let mut ctx = accounts(10, 9, 0);
    let before = ctx.clone();
    assert_eq!(process_payment(&mut ctx, 10, 300), Err(LedgerError::Host(HostError::InsufficientFunds)));
    assert_eq!(ctx, before);
    assert_eq!(ctx.invoice.status, InvoiceStatus::Pending);

    let mut over = accounts(10, 50, 0);
    assert_eq!(process_payment(&mut over, 51, 300), Err(LedgerError::Host(HostError::InsufficientFunds)));
    assert_eq!(process_payment(&mut over, 50, 300), Ok(()));
}

#[test]
fn payment_that_overflows_the_creators_balance_is_refused() {
    let mut ctx = accounts(10, 100, u64::MAX - 9);
    let before = ctx.clone();
    assert_eq!(process_payment(&mut ctx, 10, 300), Err(LedgerError::Host(HostError::BalanceOverflow)));
    assert_eq!(ctx, before);

    let mut fits = accounts(10, 100, u64::MAX - 10);
    assert_eq!(process_payment(&mut fits, 10, 300), Ok(()));
    assert_eq!(fits.creator.balance, u64::MAX);
}

#[test]
fn creator_paying_its_own_invoice_keeps_its_balance() {
    let mut ctx = ProcessPayment {
        address: address_of(&CREATOR),
        invoice: pending(10, 100),
        payer: Party { key: CREATOR, balance: 40, signed: true },
        creator: Party { key: CREATOR, balance: 40, signed: true },
    };
    assert_eq!(process_payment(&mut ctx, 25, 300), Ok(()));
    assert_eq!(ctx.invoice.status, InvoiceStatus::Paid);
    assert_eq!(ctx.payer.balance, 40);
    assert_eq!(ctx.creator.balance, 40);

    let mut poor = ProcessPayment {
        address: address_of(&CREATOR),
        invoice: pending(10, 100),
        payer: Party { key: CREATOR, balance: 9, signed: true },
        creator: Party { key: CREATOR, balance: 9, signed: true },
    };
    assert_eq!(process_payment(&mut poor, 10, 300), Err(LedgerError::Host(HostError::InsufficientFunds)));
}

#[test]
fn payment_at_a_foreign_address_is_refused() {
    let mut ctx = accounts(10, 1_000, 0);
    ctx.address = address_of(&STRANGER);
    let before = ctx.clone();
    assert_eq!(process_payment(&mut ctx, 10, 300), Err(LedgerError::Host(HostError::AddressMismatch)));
    assert_eq!(ctx, before);
}

#[test]
fn payment_without_a_derived_address_is_refused() {
    let mut ctx = accounts(10, 1_000, 0);
    let before = ctx.clone();
    assert_eq!(
        process_payment_at(&mut ctx, None, 10, 300),
        Err(LedgerError::Host(HostError::AddressMismatch))
    );
    assert_eq!(ctx, before);
}

#[test]
fn payment_to_a_creator_the_invoice_does_not_name_is_refused() {
    let mut ctx = ProcessPayment {
        address: address_of(&STRANGER),
        invoice: pending(10, 100),
        payer: Party { key: PAYER, balance: 1_000, signed: true },
        creator: Party { key: STRANGER, balance: 0, signed: false },
    };
    let before = ctx.clone();
    assert_eq!(
        process_payment(&mut ctx, 10, 300),
        Err(LedgerError::Program(CryptoPayrollError::InvalidCreator))
    );
    assert_eq!(ctx, before);
}

#[test]
fn payment_refusals_come_in_order() {
    let slot: Key = [1u8; 32];
    let other_slot: Key = [2u8; 32];
    // Everything is wrong: the address is reported first.
    let mut ctx = ProcessPayment {
        address: slot,
        invoice: Invoice { status: InvoiceStatus::Paid, paid_at: 150, ..pending(10, 100) },
        payer: Party { key: PAYER, balance: 0, signed: false },
        creator: Party { key: STRANGER, balance: u64::MAX, signed: false },
    };
    assert_eq!(
        process_payment_at(&mut ctx, Some((other_slot, 255)), 9, 300),
        Err(LedgerError::Host(HostError::AddressMismatch))
    );
    let derived = Some((slot, 255));
    assert_eq!(
        process_payment_at(&mut ctx, derived, 9, 300),
        Err(LedgerError::Program(CryptoPayrollError::InvalidCreator))
    );
    ctx.creator.key = CREATOR;
    assert_eq!(
        process_payment_at(&mut ctx, derived, 9, 300),
        Err(LedgerError::Program(CryptoPayrollError::InvoiceNotPending))
    );
    ctx.invoice.status = InvoiceStatus::Pending;
    ctx.invoice.paid_at = 0;
    assert_eq!(
        process_payment_at(&mut ctx, derived, 9, 300),
        Err(LedgerError::Program(CryptoPayrollError::InsufficientPaymentAmount))
    );
    assert_eq!(
        process_payment_at(&mut ctx, derived, 10, 300),
        Err(LedgerError::Host(HostError::MissingSignature))
    );
    ctx.payer.signed = true;
    assert_eq!(
        process_payment_at(&mut ctx, derived, 10, 300),
        Err(LedgerError::Host(HostError::InsufficientFunds))
    );
    ctx.payer.balance = 10;
    assert_eq!(
        process_payment_at(&mut ctx, derived, 10, 300),
        Err(LedgerError::Host(HostError::BalanceOverflow))
    );
    ctx.creator.balance = 0;
    assert_eq!(process_payment_at(&mut ctx, derived, 10, 300), Ok(()));
    assert_eq!(ctx.invoice.paid_at, 300);
}

#[test]
fn payment_takes_the_clock_as_it_is_read() {
    let mut ctx = accounts(1, 1, 0);
    assert_eq!(process_payment(&mut ctx, 1, 50), Ok(()));
    assert_eq!(ctx.invoice.paid_at, 50);
    assert_eq!(ctx.invoice.created_at, 100);
}
