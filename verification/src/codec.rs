//! The stored form of an invoice.
//!
//! A record is the concatenation, in this order, of
//!
//! | bytes | field                                              |
//! |-------|----------------------------------------------------|
//! | 8     | the record-type tag                                |
//! | 32    | the creator's key                                  |
//! | 8     | the amount, little-endian                          |
//! | 4     | the description's length in bytes, little-endian   |
//! | n     | the description, UTF-8, n at most 400              |
//! | 1     | the status: 0 pending, 1 paid                      |
//! | 8     | the creation time, little-endian, two's complement |
//! | 8     | the payment time, little-endian, two's complement  |
//!
//! followed by `400 - n` zero bytes, so that every record fills exactly the
//! reserved space.

use vstd::prelude::*;
use vstd::bytes::{
    lemma_auto_spec_u32_to_from_le_bytes, lemma_auto_spec_u64_to_from_le_bytes, spec_u32_from_le_bytes,
    spec_u32_to_le_bytes, spec_u64_from_le_bytes, spec_u64_to_le_bytes, u32_from_le_bytes, u32_to_le_bytes,
    u64_from_le_bytes, u64_to_le_bytes,
};
use vstd::slice::{slice_subrange, slice_to_vec};
use vstd::utf8::{
    decode_utf8, decode_utf8_encode_utf8, encode_utf8, encode_utf8_decode_utf8, encode_utf8_valid_utf8, valid_utf8,
};
use crate::invoice::{Invoice, InvoiceStatus, InvoiceView, MAX_DESCRIPTION_BYTES};
use crate::key::Key;

verus! {

/// The tag that opens every stored invoice and tells it from records of
/// other types.
pub const INVOICE_DISCRIMINATOR: [u8; 8] = [51, 194, 250, 114, 6, 104, 18, 164];

/// The bytes of a record before its description: tag, key, amount, length.
pub const HEAD_LEN: usize = 52;

/// The bytes of a record after its description: status and two times.
pub const TAIL_LEN: usize = 17;

/// The byte that stands for a status.
pub open spec fn status_tag(status: InvoiceStatus) -> u8 {
    match status {
        InvoiceStatus::Pending => 0,
        InvoiceStatus::Paid => 1,
    }
}

/// The eight bytes of a clock reading: little-endian, two's complement.
pub open spec fn time_bytes(t: i64) -> Seq<u8> {
    spec_u64_to_le_bytes(t as u64)
}

/// The clock reading that eight bytes hold.
pub open spec fn time_of_bytes(bytes: Seq<u8>) -> i64 {
    spec_u64_from_le_bytes(bytes) as i64
}

/// The fields of a record in their stored form, without the padding.
pub open spec fn encode_fields(v: InvoiceView) -> Seq<u8> {
    let text = encode_utf8(v.description);
    INVOICE_DISCRIMINATOR@ + v.creator + spec_u64_to_le_bytes(v.amount) + spec_u32_to_le_bytes(
        text.len() as u32,
    ) + text + seq![status_tag(v.status)] + time_bytes(v.created_at) + time_bytes(v.paid_at)
}

/// The stored form of a record whose description fits: its fields, then
/// zeros up to the reserved space.
pub open spec fn encode(v: InvoiceView) -> Seq<u8> {
    encode_fields(v) + Seq::new(
        (MAX_DESCRIPTION_BYTES - encode_utf8(v.description).len()) as nat,
        |i: int| 0u8,
    )
}

/// The record that `bytes` store, if they store one: they open with the
/// invoice tag, the description's length is at most 400 and the bytes reach
/// to the end of the last field, the description is valid UTF-8, and the
/// status byte is 0 or 1. What follows the last field is not read.
pub open spec fn decode(bytes: Seq<u8>) -> Option<InvoiceView> {
    if bytes.len() < HEAD_LEN || bytes.subrange(0, 8) != INVOICE_DISCRIMINATOR@ {
        None
    } else {
        let n = spec_u32_from_le_bytes(bytes.subrange(48, 52)) as int;
        if n > MAX_DESCRIPTION_BYTES || bytes.len() < HEAD_LEN + n + TAIL_LEN {
            None
        } else {
            let text = bytes.subrange(52, 52 + n);
            let tag = bytes[52 + n];
            if !valid_utf8(text) || tag > 1 {
                None
            } else {
                Some(
                    InvoiceView {
                        creator: bytes.subrange(8, 40),
                        amount: spec_u64_from_le_bytes(bytes.subrange(40, 48)),
                        description: decode_utf8(text),
                        status: if tag == 0 {
                            InvoiceStatus::Pending
                        } else {
                            InvoiceStatus::Paid
                        },
                        created_at: time_of_bytes(bytes.subrange(53 + n, 61 + n)),
                        paid_at: time_of_bytes(bytes.subrange(61 + n, 69 + n)),
                    },
                )
            }
        }
    }
}

/// Runs `String::from_utf8` of the standard library. Trusted: it succeeds
/// exactly on valid UTF-8, and the string it makes has the given bytes as its
/// encoding.
#[verifier::external_body]
fn string_from_utf8(bytes: Vec<u8>) -> (text: Option<String>)
    ensures
        text is Some <==> valid_utf8(bytes@),
        text matches Some(s) ==> encode_utf8(s@) == bytes@,
{
    String::from_utf8(bytes).ok()
}

/// A clock reading and its bytes determine each other.
pub proof fn lemma_time_round_trip(t: i64)
    ensures
        time_bytes(t).len() == 8,
        time_of_bytes(time_bytes(t)) == t,
{
    lemma_auto_spec_u64_to_from_le_bytes();
    assert((t as u64) as i64 == t) by (bit_vector);
}

/// The stored form of a record is as long as the reserved space, whatever
/// the length of the description.
pub proof fn lemma_encoded_length(v: InvoiceView)
    requires
        v.creator.len() == 32,
        v.description_fits(),
    ensures
        encode_fields(v).len() == HEAD_LEN + encode_utf8(v.description).len() + TAIL_LEN,
        encode(v).len() == Invoice::SPACE,
{
    lemma_auto_spec_u32_to_from_le_bytes();
    lemma_auto_spec_u64_to_from_le_bytes();
}

/// Storing a record and reading it back yields the record: every record
/// whose description fits is what its stored form decodes to.
pub proof fn lemma_round_trip(v: InvoiceView)
    requires
        v.creator.len() == 32,
        v.description_fits(),
    ensures
        decode(encode(v)) == Some(v),
{
    lemma_auto_spec_u32_to_from_le_bytes();
    lemma_auto_spec_u64_to_from_le_bytes();
    lemma_time_round_trip(v.created_at);
    lemma_time_round_trip(v.paid_at);
    encode_utf8_valid_utf8(v.description);
    encode_utf8_decode_utf8(v.description);
    let text = encode_utf8(v.description);
    let n = text.len() as int;
    let image = encode(v);
    let length = spec_u32_to_le_bytes(n as u32);
    assert(image.subrange(0, 8) =~= INVOICE_DISCRIMINATOR@);
    assert(image.subrange(8, 40) =~= v.creator);
    assert(image.subrange(40, 48) =~= spec_u64_to_le_bytes(v.amount));
    assert(image.subrange(48, 52) =~= length);
    assert(spec_u32_from_le_bytes(length) == n);
    assert(image.subrange(52, 52 + n) =~= text);
    assert(image[52 + n] == status_tag(v.status));
    assert(image.subrange(53 + n, 61 + n) =~= time_bytes(v.created_at));
    assert(image.subrange(61 + n, 69 + n) =~= time_bytes(v.paid_at));
    let back = decode(image).unwrap();
    assert(back.description =~= v.description);
    assert(back.creator =~= v.creator);
}

/// What is read from stored bytes has a key of 32 bytes and a description
/// that fits its slot.
pub proof fn lemma_decoded_fits(bytes: Seq<u8>)
    ensures
        decode(bytes) matches Some(v) ==> v.creator.len() == 32 && v.description_fits(),
{
    if decode(bytes) is Some {
        let n = spec_u32_from_le_bytes(bytes.subrange(48, 52)) as int;
        decode_utf8_encode_utf8(bytes.subrange(52, 52 + n));
    }
}

/// Appends `bytes` to `out`.
fn put(out: &mut Vec<u8>, bytes: &[u8])
    ensures
        final(out)@ == old(out)@ + bytes@,
{
    let mut copy = slice_to_vec(bytes);
    out.append(&mut copy);
}

/// Whether `bytes` opens with the invoice tag.
fn has_invoice_tag(bytes: &[u8]) -> (yes: bool)
    requires
        bytes@.len() >= 8,
    ensures
        yes == (bytes@.subrange(0, 8) == INVOICE_DISCRIMINATOR@),
{
    let mut i: usize = 0;
    while i < 8
        invariant
            i <= 8 <= bytes@.len(),
            forall|j: int| 0 <= j < i ==> bytes@[j] == INVOICE_DISCRIMINATOR@[j],
        decreases 8 - i,
    {
        if bytes[i] != INVOICE_DISCRIMINATOR[i] {
            assert(bytes@.subrange(0, 8)[i as int] != INVOICE_DISCRIMINATOR@[i as int]);
            return false;
        }
        i += 1;
    }
    assert(bytes@.subrange(0, 8) =~= INVOICE_DISCRIMINATOR@);
    true
}

/// The key held in `bytes[8..40]`.
fn read_key(bytes: &[u8]) -> (key: Key)
    requires
        bytes@.len() >= 40,
    ensures
        key@ == bytes@.subrange(8, 40),
{
    let mut key: Key = [0u8; 32];
    let mut i: usize = 0;
    while i < 32
        invariant
            i <= 32,
            bytes@.len() >= 40,
            forall|j: int| 0 <= j < i ==> key@[j] == bytes@[8 + j],
        decreases 32 - i,
    {
        key[i] = bytes[8 + i];
        i += 1;
    }
    assert(key@ =~= bytes@.subrange(8, 40));
    key
}

impl Invoice {
    /// The stored form of this record: exactly `Invoice::SPACE` bytes, or
    /// `None` where the description does not fit its slot.
    pub fn serialize(&self) -> (res: Option<Vec<u8>>)
        ensures
            res is Some <==> self.description_fits(),
            res matches Some(image) ==> image@ == encode(self@) && image@.len() == Invoice::SPACE,
    {
        let text = self.description.as_str().as_bytes();
        let n = text.len();
        if n > MAX_DESCRIPTION_BYTES {
            return None;
        }
        let mut image: Vec<u8> = Vec::with_capacity(Invoice::SPACE);
        put(&mut image, INVOICE_DISCRIMINATOR.as_slice());
        put(&mut image, self.creator.as_slice());
        let mut amount = u64_to_le_bytes(self.amount);
        image.append(&mut amount);
        let mut length = u32_to_le_bytes(n as u32);
        image.append(&mut length);
        put(&mut image, text);
        image.push(
            match self.status {
                InvoiceStatus::Pending => 0u8,
                InvoiceStatus::Paid => 1u8,
            },
        );
        let mut created_at = u64_to_le_bytes(self.created_at as u64);
        image.append(&mut created_at);
        let mut paid_at = u64_to_le_bytes(self.paid_at as u64);
        image.append(&mut paid_at);
        assert(image@ =~= encode_fields(self@));
        let mut padding: usize = 0;
        while padding < MAX_DESCRIPTION_BYTES - n
            invariant
                n <= MAX_DESCRIPTION_BYTES,
                padding <= MAX_DESCRIPTION_BYTES - n,
                image@ == encode_fields(self@) + Seq::new(padding as nat, |i: int| 0u8),
            decreases MAX_DESCRIPTION_BYTES - n - padding,
        {
            image.push(0u8);
            padding += 1;
            assert(image@ =~= encode_fields(self@) + Seq::new(padding as nat, |i: int| 0u8));
        }
        proof {
            lemma_encoded_length(self@);
        }
        Some(image)
    }

    /// Reads a record from its stored form: the record that `decode` finds
    /// in `bytes`, or `None` where it finds none.
    pub fn deserialize(bytes: &[u8]) -> (res: Option<Invoice>)
        ensures
            match decode(bytes@) {
                Some(v) => res matches Some(invoice) && invoice@ == v,
                None => res is None,
            },
            res matches Some(invoice) ==> invoice.description_fits(),
    {
        if bytes.len() < HEAD_LEN || !has_invoice_tag(bytes) {
            return None;
        }
        let n = u32_from_le_bytes(slice_subrange(bytes, 48, 52)) as usize;
        if n > MAX_DESCRIPTION_BYTES || bytes.len() < HEAD_LEN + n + TAIL_LEN {
            return None;
        }
        let tag = bytes[52 + n];
        let description = match string_from_utf8(slice_to_vec(slice_subrange(bytes, 52, 52 + n))) {
            Some(description) => description,
            None => {
                return None;
            },
        };
        if tag > 1 {
            return None;
        }
        proof {
            encode_utf8_decode_utf8(description@);
            lemma_decoded_fits(bytes@);
        }
        Some(
            Invoice {
                creator: read_key(bytes),
                amount: u64_from_le_bytes(slice_subrange(bytes, 40, 48)),
                description,
                status: if tag == 0 {
                    InvoiceStatus::Pending
                } else {
                    InvoiceStatus::Paid
                },
                created_at: u64_from_le_bytes(slice_subrange(bytes, 53 + n, 61 + n)) as i64,
                paid_at: u64_from_le_bytes(slice_subrange(bytes, 61 + n, 69 + n)) as i64,
            },
        )
    }
}

} // verus!
