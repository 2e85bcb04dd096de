//! The platform info record that accompanies a verdict with a caveat.

use arrayvec::ArrayVec;
use arrayvec::CapacityError;
use vstd::prelude::*;
use vstd::string::StringSliceAdditionalSpecFns;

use crate::error::{result_view, AttestationError, ErrorModel};
use crate::hex::{hex_decoded, hex_digit_value, hex_pair, is_hex_text};

verus! {

/// The number of bytes in a platform info record.
pub const PLATFORM_INFO_SIZE: usize = 101;

/// The number of characters of the type-length-value header that precedes the
/// record in a platform info blob.
pub const BLOB_HEADER_CHARS: usize = 8;

/// A platform info record: exactly [`PLATFORM_INFO_SIZE`] bytes.
#[derive(Clone, Copy, Debug, PartialEq, Eq)]
pub struct PlatformInfo {
    pub platform_info: [u8; PLATFORM_INFO_SIZE],
}

impl View for PlatformInfo {
    type V = Seq<u8>;

    open spec fn view(&self) -> Seq<u8> {
        self.platform_info@
    }
}

/// `arrayvec::ArrayVec`: a vector of bounded capacity. What it holds is known
/// only through [`buffer_bytes`].
#[verifier::external_type_specification]
#[verifier::external_body]
#[verifier::reject_recursive_types(T)]
pub struct ExArrayVec<T, const CAP: usize>(ArrayVec<T, CAP>);

/// `arrayvec::CapacityError`: the refusal of a push. Nothing is known of it.
#[verifier::external_type_specification]
#[verifier::external_body]
#[verifier::reject_recursive_types(T)]
pub struct ExCapacityError<T>(CapacityError<T>);

/// The bytes that a record buffer holds, in the order in which they were
/// pushed.
pub uninterp spec fn buffer_bytes(buffer: ArrayVec<u8, PLATFORM_INFO_SIZE>) -> Seq<u8>;

/// `ArrayVec::new`: the new buffer holds nothing.
#[verifier::external_body]
fn buffer_new() -> (buffer: ArrayVec<u8, PLATFORM_INFO_SIZE>)
    ensures
        buffer_bytes(buffer) == Seq::<u8>::empty(),
{
    ArrayVec::new()
}

/// `ArrayVec::try_push`: below its capacity the buffer takes the byte at its
/// end and the call succeeds; a buffer that holds as many bytes as its
/// capacity, or more, is left as it was and the call fails.
#[verifier::external_body]
fn buffer_try_push(buffer: &mut ArrayVec<u8, PLATFORM_INFO_SIZE>, byte: u8) -> (r: Result<
    (),
    CapacityError<u8>,
>)
    ensures
        buffer_bytes(*old(buffer)).len() < PLATFORM_INFO_SIZE ==> r is Ok && buffer_bytes(
            *final(buffer),
        ) == buffer_bytes(*old(buffer)).push(byte),
        buffer_bytes(*old(buffer)).len() >= PLATFORM_INFO_SIZE ==> r is Err && buffer_bytes(
            *final(buffer),
        ) == buffer_bytes(*old(buffer)),
{
    buffer.try_push(byte)
}

/// `ArrayVec::into_inner`: a buffer filled to its capacity becomes the array
/// of its bytes; one that holds fewer comes back unchanged as the error.
#[verifier::external_body]
fn buffer_into_inner(buffer: ArrayVec<u8, PLATFORM_INFO_SIZE>) -> (r: Result<
    [u8; PLATFORM_INFO_SIZE],
    ArrayVec<u8, PLATFORM_INFO_SIZE>,
>)
    ensures
        match r {
            Ok(array) => buffer_bytes(buffer).len() >= PLATFORM_INFO_SIZE && array@
                == buffer_bytes(buffer),
            Err(rest) => buffer_bytes(buffer).len() < PLATFORM_INFO_SIZE && rest == buffer,
        },
{
    buffer.into_inner()
}

/// What a platform info blob, given by its bytes, decodes to.
///
/// The header is skipped unread. What follows must be hexadecimal digits in
/// pairs, and must spell exactly [`PLATFORM_INFO_SIZE`] bytes: a blob that is
/// shorter than its header or spells fewer bytes is truncated, one that
/// spells more overflows.
pub open spec fn platform_info_spec(blob: Seq<u8>) -> Result<Seq<u8>, ErrorModel> {
    if blob.len() < BLOB_HEADER_CHARS {
        Err(ErrorModel::TruncatedBlob)
    } else {
        let payload = blob.skip(BLOB_HEADER_CHARS as int);
        if !is_hex_text(payload) {
            Err(ErrorModel::MalformedReport)
        } else if payload.len() < 2 * PLATFORM_INFO_SIZE {
            Err(ErrorModel::TruncatedBlob)
        } else if payload.len() > 2 * PLATFORM_INFO_SIZE {
            Err(ErrorModel::BlobOverflow)
        } else {
            Ok(hex_decoded(payload))
        }
    }
}

/// Decodes a platform info blob into a platform info record.
///
/// The blob is read by its UTF-8 bytes, so a character outside ASCII is no
/// hexadecimal digit. The record is handed out only if the blob spells
/// exactly as many bytes as a record holds; no partly filled record is ever
/// returned.
pub fn extract_platform_info(blob: &str) -> (r: Result<PlatformInfo, AttestationError>)
    ensures
        result_view(r) == platform_info_spec(blob.spec_bytes()),
{
    let bytes = blob.as_bytes();
    let len = bytes.len();
    if len < BLOB_HEADER_CHARS {
        return Err(AttestationError::TruncatedBlob);
    }
    let ghost payload = bytes@.skip(BLOB_HEADER_CHARS as int);
    if (len - BLOB_HEADER_CHARS) % 2 != 0 {
        return Err(AttestationError::MalformedReport);
    }
    let n = (len - BLOB_HEADER_CHARS) / 2;
    let mut buffer = buffer_new();
    let mut overflow = false;
    let mut i: usize = 0;
    while i < n
        invariant
            bytes@ == blob.spec_bytes(),
            len == bytes@.len(),
            len >= BLOB_HEADER_CHARS,
            payload == bytes@.skip(BLOB_HEADER_CHARS as int),
            payload.len() == 2 * n,
            0 <= i <= n,
            forall|j: int| 0 <= j < 2 * i ==> (#[trigger] hex_digit_value(payload[j])) is Some,
            overflow == (i > PLATFORM_INFO_SIZE),
            buffer_bytes(buffer).len() == if i <= PLATFORM_INFO_SIZE {
                i
            } else {
                PLATFORM_INFO_SIZE
            },
            forall|j: int|
                0 <= j < buffer_bytes(buffer).len() ==> #[trigger] buffer_bytes(buffer)[j]
                    == hex_decoded(payload)[j],
        decreases n - i,
    {
        let hi = bytes[BLOB_HEADER_CHARS + 2 * i];
        let lo = bytes[BLOB_HEADER_CHARS + 2 * i + 1];
        assert(payload[2 * i] == hi && payload[2 * i + 1] == lo);
        let byte = match hex_pair(hi, lo) {
            Some(byte) => byte,
            None => {
                proof {
                    if hex_digit_value(hi) is None {
                        assert(hex_digit_value(payload[2 * i]) is None);
                    } else {
                        assert(hex_digit_value(payload[2 * i + 1]) is None);
                    }
                    assert(!is_hex_text(payload));
                }
                return Err(AttestationError::MalformedReport);
            },
        };
        assert(hex_decoded(payload)[i as int] == byte);
        if buffer_try_push(&mut buffer, byte).is_err() {
            overflow = true;
        }
        assert forall|j: int| 0 <= j < 2 * (i + 1) implies (#[trigger] hex_digit_value(
            payload[j],
        )) is Some by {
            if j >= 2 * i {
                assert(j == 2 * i || j == 2 * i + 1);
            }
        }
        i += 1;
    }
    assert(is_hex_text(payload));
    if overflow {
        return Err(AttestationError::BlobOverflow);
    }
    match buffer_into_inner(buffer) {
        Ok(platform_info) => {
            assert(platform_info@ =~= hex_decoded(payload));
            Ok(PlatformInfo { platform_info })
        },
        Err(_) => Err(AttestationError::TruncatedBlob),
    }
}

} // verus!
