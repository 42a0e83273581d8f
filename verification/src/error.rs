//! Why an operation is refused.

use vstd::prelude::*;

verus! {

/// The number that the first program error carries; each later variant
/// carries the next number.
pub const ERROR_CODE_OFFSET: u32 = 6000;

/// The refusals that the invoice rules themselves pronounce.
#[derive(Clone, Copy, Debug, PartialEq, Eq, Structural)]
pub enum CryptoPayrollError {
    /// A payment was offered for an invoice that is already paid.
    InvoiceNotPending,
    /// The payment offered is smaller than the invoice's amount.
    InsufficientPaymentAmount,
    /// The creator account handed in is not the one the invoice names.
    InvalidCreator,
}

impl CryptoPayrollError {
    /// The stable number of this error.
    pub open spec fn spec_code(self) -> u32 {
        match self {
            CryptoPayrollError::InvoiceNotPending => 6000,
            CryptoPayrollError::InsufficientPaymentAmount => 6001,
            CryptoPayrollError::InvalidCreator => 6002,
        }
    }

    /// The stable name of this error.
    pub open spec fn spec_name(self) -> Seq<char> {
        match self {
            CryptoPayrollError::InvoiceNotPending => "InvoiceNotPending"@,
            CryptoPayrollError::InsufficientPaymentAmount => "InsufficientPaymentAmount"@,
            CryptoPayrollError::InvalidCreator => "InvalidCreator"@,
        }
    }

    /// The sentence shown to a person for this error.
    pub open spec fn spec_message(self) -> Seq<char> {
        match self {
            CryptoPayrollError::InvoiceNotPending => "Invoice is not in pending status"@,
            CryptoPayrollError::InsufficientPaymentAmount => "Payment amount is less than invoice amount"@,
            CryptoPayrollError::InvalidCreator => "Invalid invoice creator"@,
        }
    }

    /// The stable number of this error: the offset plus the variant's position.
    pub fn code(&self) -> (code: u32)
        ensures
            code == self.spec_code(),
            ERROR_CODE_OFFSET <= code < ERROR_CODE_OFFSET + 3,
    {
        match self {
            CryptoPayrollError::InvoiceNotPending => ERROR_CODE_OFFSET,
            CryptoPayrollError::InsufficientPaymentAmount => ERROR_CODE_OFFSET + 1,
            CryptoPayrollError::InvalidCreator => ERROR_CODE_OFFSET + 2,
        }
    }

    /// The stable name of this error.
    pub fn name(&self) -> (name: &'static str)
        ensures
            name@ == self.spec_name(),
    {
        match self {
            CryptoPayrollError::InvoiceNotPending => "InvoiceNotPending",
            CryptoPayrollError::InsufficientPaymentAmount => "InsufficientPaymentAmount",
            CryptoPayrollError::InvalidCreator => "InvalidCreator",
        }
    }

    /// The sentence shown to a person for this error.
    pub fn message(&self) -> (message: &'static str)
        ensures
            message@ == self.spec_message(),
    {
        match self {
            CryptoPayrollError::InvoiceNotPending => "Invoice is not in pending status",
            CryptoPayrollError::InsufficientPaymentAmount => "Payment amount is less than invoice amount",
            CryptoPayrollError::InvalidCreator => "Invalid invoice creator",
        }
    }
}

/// The refusals that come from the host: the account store, the signer set
/// and the value transfer.
#[derive(Clone, Copy, Debug, PartialEq, Eq, Structural)]
pub enum HostError {
    /// A record already exists at the address where one was to be allocated.
    AddressInUse,
    /// The invoice's address is not the one derived from the creator's key.
    AddressMismatch,
    /// The party that has to sign the transaction did not.
    MissingSignature,
    /// The description does not fit the space reserved for it.
    DescriptionTooLong,
    /// The source of a transfer holds less than the amount to move.
    InsufficientFunds,
    /// The destination of a transfer cannot hold the amount on top of its balance.
    BalanceOverflow,
}

/// Any refusal of an operation of the ledger.
#[derive(Clone, Copy, Debug, PartialEq, Eq, Structural)]
pub enum LedgerError {
    /// The invoice rules refuse.
    Program(CryptoPayrollError),
    /// The host refuses.
    Host(HostError),
}

} // verus!
