//! Framing of framework-tagged records: a fixed-size discriminator in front
//! of the serialized record.

use vstd::prelude::*;

verus! {

/// Number of bytes in a discriminator.
pub const DISCRIMINATOR_LEN: usize = 8;

/// Why bytes could not be turned into a record.
#[derive(Clone, Copy, Debug, PartialEq, Eq, Structural)]
pub enum DecodeError {
    /// The bytes do not start with the discriminator of the expected type.
    UnexpectedDiscriminator,
    /// The bytes do not hold a record of the expected layout.
    DeserializeError,
}

/// The tagged form of a payload: the discriminator, then the payload.
pub open spec fn tagged(discriminator: Seq<u8>, payload: Seq<u8>) -> Seq<u8> {
    discriminator + payload
}

/// Whether `bytes` start with `discriminator`.
pub open spec fn has_discriminator(bytes: Seq<u8>, discriminator: Seq<u8>) -> bool {
    discriminator.len() <= bytes.len() && bytes.subrange(0, discriminator.len() as int)
        == discriminator
}

/// What decoding tagged bytes gives: the bytes behind the discriminator, where
/// the bytes start with it.
pub open spec fn untagged(bytes: Seq<u8>, discriminator: Seq<u8>) -> Result<Seq<u8>, DecodeError> {
    if has_discriminator(bytes, discriminator) {
        Ok(bytes.subrange(discriminator.len() as int, bytes.len() as int))
    } else {
        Err(DecodeError::UnexpectedDiscriminator)
    }
}

/// Puts the discriminator in front of a serialized record.
pub fn encode_tagged(discriminator: &[u8; 8], payload: &[u8]) -> (bytes: Vec<u8>)
    ensures
        bytes@ == tagged(discriminator@, payload@),
{
    let mut bytes: Vec<u8> = Vec::new();
    let mut i: usize = 0;
    while i < DISCRIMINATOR_LEN
        invariant
            i <= DISCRIMINATOR_LEN,
            bytes@ == discriminator@.subrange(0, i as int),
        decreases DISCRIMINATOR_LEN - i,
    {
        bytes.push(discriminator[i]);
        i += 1;
    }
    assert(discriminator@.subrange(0, 8) == discriminator@);
    let mut j: usize = 0;
    while j < payload.len()
        invariant
            j <= payload.len(),
            bytes@ == discriminator@ + payload@.subrange(0, j as int),
        decreases payload.len() - j,
    {
        bytes.push(payload[j]);
        j += 1;
    }
    assert(payload@.subrange(0, payload.len() as int) == payload@);
    bytes
}

/// Checks the discriminator in front of `bytes` and hands out the serialized
/// record behind it.
///
/// Bytes that do not start with the expected discriminator, among them bytes
/// too short to hold one, are refused with
/// [`DecodeError::UnexpectedDiscriminator`]; nothing behind it is looked at.
pub fn decode_tagged(bytes: &[u8], discriminator: &[u8; 8]) -> (result: Result<Vec<u8>, DecodeError>)
    ensures
        match untagged(bytes@, discriminator@) {
            Ok(payload) => result is Ok && result->Ok_0@ == payload,
            Err(e) => result == Err::<Vec<u8>, DecodeError>(e),
        },
{
    if bytes.len() < DISCRIMINATOR_LEN {
        return Err(DecodeError::UnexpectedDiscriminator);
    }
    let mut i: usize = 0;
    while i < DISCRIMINATOR_LEN
        invariant
            i <= DISCRIMINATOR_LEN,
            DISCRIMINATOR_LEN <= bytes.len(),
            forall|k: int| 0 <= k < i ==> bytes[k] == discriminator[k],
        decreases DISCRIMINATOR_LEN - i,
    {
        if bytes[i] != discriminator[i] {
            assert(bytes@.subrange(0, 8)[i as int] == bytes[i as int]);
            return Err(DecodeError::UnexpectedDiscriminator);
        }
        i += 1;
    }
    assert(bytes@.subrange(0, 8) == discriminator@);
    let mut payload: Vec<u8> = Vec::new();
    let mut j: usize = DISCRIMINATOR_LEN;
    while j < bytes.len()
        invariant
            DISCRIMINATOR_LEN <= j <= bytes.len(),
            payload@ == bytes@.subrange(8, j as int),
        decreases bytes.len() - j,
    {
        payload.push(bytes[j]);
        j += 1;
    }
    Ok(payload)
}

/// Decoding what was encoded with the same discriminator gives the payload
/// back.
pub proof fn lemma_tagged_round_trip(discriminator: Seq<u8>, payload: Seq<u8>)
    ensures
        untagged(tagged(discriminator, payload), discriminator) == Ok::<Seq<u8>, DecodeError>(
            payload,
        ),
{
    let bytes = tagged(discriminator, payload);
    assert(bytes.subrange(0, discriminator.len() as int) == discriminator);
    assert(bytes.subrange(discriminator.len() as int, bytes.len() as int) == payload);
}

/// Bytes tagged with one discriminator are refused under any other
/// discriminator of the same length, whatever the payload.
pub proof fn lemma_wrong_discriminator_refused(
    written: Seq<u8>,
    expected: Seq<u8>,
    payload: Seq<u8>,
)
    requires
        written.len() == expected.len(),
        written != expected,
    ensures
        untagged(tagged(written, payload), expected) == Err::<Seq<u8>, DecodeError>(
            DecodeError::UnexpectedDiscriminator,
        ),
{
    let bytes = tagged(written, payload);
    assert(bytes.subrange(0, written.len() as int) == written);
}

} // verus!
