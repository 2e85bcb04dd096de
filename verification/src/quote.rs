//! The quote: the platform's statement about a running enclave.
//!
//! A quote body is a packed binary record. Its fields are copied out one by
//! one from fixed offsets; nothing is read past the end of the layout.

use vstd::prelude::*;

use crate::error::{result_view, AttestationError, ErrorModel};

verus! {

/// The number of bytes in the quote layout.
pub const QUOTE_SIZE: usize = 432;

/// The number of bytes in a measurement register.
pub const MEASUREMENT_SIZE: usize = 32;

/// The number of bytes in the report data field.
pub const REPORT_DATA_SIZE: usize = 64;

/// Where the version stands in a quote: two bytes, little-endian.
pub const VERSION_OFFSET: usize = 0;

/// Where the signature type stands in a quote: two bytes, little-endian.
pub const SIGN_TYPE_OFFSET: usize = 2;

/// Where the enclave measurement stands in a quote.
pub const MR_ENCLAVE_OFFSET: usize = 112;

/// Where the signer measurement stands in a quote.
pub const MR_SIGNER_OFFSET: usize = 176;

/// Where the report data stands in a quote.
pub const REPORT_DATA_OFFSET: usize = 368;

/// The part of a quote that identifies the enclave.
#[derive(Clone, Copy, Debug, PartialEq, Eq)]
pub struct ReportBody {
    /// The measurement of the enclave's code.
    pub mr_enclave: [u8; MEASUREMENT_SIZE],
    /// The measurement of the authority that signed the enclave.
    pub mr_signer: [u8; MEASUREMENT_SIZE],
    /// The field into which the enclave binds a value of the caller's choice.
    pub report_data: [u8; REPORT_DATA_SIZE],
}

/// A parsed quote.
#[derive(Clone, Copy, Debug, PartialEq, Eq)]
pub struct Quote {
    pub version: u16,
    pub sign_type: u16,
    pub report_body: ReportBody,
}

/// The mathematical value of a [`Quote`].
pub ghost struct QuoteModel {
    pub version: int,
    pub sign_type: int,
    pub mr_enclave: Seq<u8>,
    pub mr_signer: Seq<u8>,
    pub report_data: Seq<u8>,
}

impl View for Quote {
    type V = QuoteModel;

    open spec fn view(&self) -> QuoteModel {
        QuoteModel {
            version: self.version as int,
            sign_type: self.sign_type as int,
            mr_enclave: self.report_body.mr_enclave@,
            mr_signer: self.report_body.mr_signer@,
            report_data: self.report_body.report_data@,
        }
    }
}

/// The 16-bit number that two bytes spell, the low byte first.
pub open spec fn le_u16_value(bytes: Seq<u8>, offset: int) -> int {
    bytes[offset] + 256 * bytes[offset + 1]
}

/// What a quote body parses to: the fields at their offsets if the body is
/// at least as long as the layout, whatever follows the layout being ignored.
pub open spec fn quote_spec(bytes: Seq<u8>) -> Result<QuoteModel, ErrorModel> {
    if bytes.len() < QUOTE_SIZE {
        Err(ErrorModel::TruncatedQuote)
    } else {
        Ok(
            QuoteModel {
                version: le_u16_value(bytes, VERSION_OFFSET as int),
                sign_type: le_u16_value(bytes, SIGN_TYPE_OFFSET as int),
                mr_enclave: bytes.subrange(
                    MR_ENCLAVE_OFFSET as int,
                    MR_ENCLAVE_OFFSET + MEASUREMENT_SIZE,
                ),
                mr_signer: bytes.subrange(
                    MR_SIGNER_OFFSET as int,
                    MR_SIGNER_OFFSET + MEASUREMENT_SIZE,
                ),
                report_data: bytes.subrange(
                    REPORT_DATA_OFFSET as int,
                    REPORT_DATA_OFFSET + REPORT_DATA_SIZE,
                ),
            },
        )
    }
}

/// Reads the little-endian 16-bit number at `offset`.
fn read_le_u16(bytes: &[u8], offset: usize) -> (value: u16)
    requires
        offset + 2 <= bytes@.len(),
    ensures
        value == le_u16_value(bytes@, offset as int),
{
    let lo: u16 = bytes[offset] as u16;
    let hi: u16 = bytes[offset + 1] as u16;
    lo + 256 * hi
}

/// Copies the `N` bytes that start at `offset` into an array of their own.
fn copy_field<const N: usize>(bytes: &[u8], offset: usize) -> (field: [u8; N])
    requires
        offset + N <= bytes@.len(),
    ensures
        field@ == bytes@.subrange(offset as int, offset + N),
{
    let len = bytes.len();
    let mut field: [u8; N] = [0u8; N];
    let mut i: usize = 0;
    while i < N
        invariant
            len == bytes@.len(),
            offset + N <= bytes@.len(),
            0 <= i <= N,
            forall|j: int| 0 <= j < i ==> field@[j] == bytes@[offset + j],
        decreases N - i,
    {
        field[i] = bytes[offset + i];
        i += 1;
    }
    assert(field@ =~= bytes@.subrange(offset as int, offset + N));
    field
}

/// Parses a quote body.
///
/// The parser judges the layout only: whether the measurements are the
/// expected ones is for the caller to decide.
pub fn parse_quote(bytes: &[u8]) -> (r: Result<Quote, AttestationError>)
    ensures
        result_view(r) == quote_spec(bytes@),
{
    if bytes.len() < QUOTE_SIZE {
        return Err(AttestationError::TruncatedQuote);
    }
    let version = read_le_u16(bytes, VERSION_OFFSET);
    let sign_type = read_le_u16(bytes, SIGN_TYPE_OFFSET);
    let mr_enclave = copy_field::<MEASUREMENT_SIZE>(bytes, MR_ENCLAVE_OFFSET);
    let mr_signer = copy_field::<MEASUREMENT_SIZE>(bytes, MR_SIGNER_OFFSET);
    let report_data = copy_field::<REPORT_DATA_SIZE>(bytes, REPORT_DATA_OFFSET);
    Ok(Quote { version, sign_type, report_body: ReportBody { mr_enclave, mr_signer, report_data } })
}

/// What the binding check makes of a quote: with no expected value the quote
/// stands; with one, it stands only if its report data is that value, byte
/// for byte and of the same length.
pub open spec fn binding_spec(quote: QuoteModel, expected: Option<Seq<u8>>) -> Result<
    QuoteModel,
    ErrorModel,
> {
    match expected {
        Some(value) if value != quote.report_data => Err(ErrorModel::BindingMismatch),
        _ => Ok(quote),
    }
}

/// Whether `value` is the field `field`, byte for byte and of the same
/// length.
fn is_field<const N: usize>(value: &[u8], field: &[u8; N]) -> (same: bool)
    ensures
        same == (value@ == field@),
{
    if value.len() != N {
        return false;
    }
    let mut i: usize = 0;
    while i < N
        invariant
            value@.len() == N,
            0 <= i <= N,
            forall|j: int| 0 <= j < i ==> value@[j] == field@[j],
        decreases N - i,
    {
        if value[i] != field[i] {
            assert(value@[i as int] != field@[i as int]);
            return false;
        }
        i += 1;
    }
    assert(value@ =~= field@);
    true
}

impl Quote {
    /// Whether the quote speaks of the enclave with the given identity: the
    /// enclave measurement and the signer measurement are both the expected
    /// ones, byte for byte.
    pub fn has_identity(&self, mr_enclave: &[u8], mr_signer: &[u8]) -> (same: bool)
        ensures
            same == (mr_enclave@ == self@.mr_enclave && mr_signer@ == self@.mr_signer),
    {
        is_field(mr_enclave, &self.report_body.mr_enclave) && is_field(
            mr_signer,
            &self.report_body.mr_signer,
        )
    }
}

/// Checks that the quote's report data is the value the caller expects.
pub fn check_binding(quote: Quote, expected: Option<&[u8]>) -> (r: Result<Quote, AttestationError>)
    ensures
        result_view(r) == binding_spec(
            quote@,
            match expected {
                Some(value) => Some(value@),
                None => None,
            },
        ),
{
    match expected {
        Some(value) => {
            if is_field(value, &quote.report_body.report_data) {
                Ok(quote)
            } else {
                Err(AttestationError::BindingMismatch)
            }
        },
        None => Ok(quote),
    }
}

} // verus!
