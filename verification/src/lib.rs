//! An invoice and payment ledger: a creator publishes an invoice for an amount
//! owed to them, a payer settles it once by transferring at least that amount,
//! and the record is then marked paid and timestamped.
//!
//! Every operation is a deterministic transition on plain values: the caller
//! resolves the accounts, reads the clock, and hands both in.
//!
//! - [`ledger`]: the two operations, `create_invoice` and `process_payment`.
//! - [`invoice`]: the record and its invariant.
//! - [`address`]: the address derived from a creator's key.
//! - [`codec`]: the stored form of a record.
//! - [`transfer`]: parties and the movement of value between them.
//! - [`error`]: why an operation is refused.
//! - [`notice`]: the lines that report what an operation did.
//! - [`laws`]: what holds of every invoice, whatever happens to it.

pub mod address;
pub mod codec;
pub mod error;
pub mod invoice;
pub mod key;
pub mod laws;
pub mod ledger;
pub mod notice;
pub mod transfer;

pub use address::{invoice_address, INVOICE_SEED, KEY_PREFIX_LEN};
pub use codec::INVOICE_DISCRIMINATOR;
pub use error::{CryptoPayrollError, HostError, LedgerError, ERROR_CODE_OFFSET};
pub use invoice::{Invoice, InvoiceStatus, MAX_DESCRIPTION_BYTES};
pub use key::{keys_equal, Key, PROGRAM_ID};
pub use ledger::{
    create_invoice, create_invoice_at, process_payment, process_payment_at, CreateInvoice, ProcessPayment,
};
pub use notice::{invoice_created_notice, payment_processed_notice};
pub use transfer::{transfer, Party};
