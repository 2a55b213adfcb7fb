//! Validation of the two inputs of a derivation: the beacon, given as
//! hexadecimal text, and the exponent of the chain length.

use vstd::prelude::*;
use vstd::string::StringSliceAdditionalSpecFns;
use crate::error::{BeaconError, FormatFault};

verus! {

#[verifier::external_type_specification]
#[verifier::external_body]
pub struct ExFromHexError(hex::FromHexError);

/// A beacon is exactly this many bytes.
pub const BEACON_LEN: usize = 32;

/// Smallest exponent accepted for the length of the hash chain.
pub const MIN_ITERATIONS: usize = 10;

/// Largest exponent accepted for the length of the hash chain.
pub const MAX_ITERATIONS: usize = 63;

/// Whether `n` is an admissible exponent: the chain then runs `2^n` steps.
pub open spec fn valid_iterations(n: usize) -> bool {
    MIN_ITERATIONS <= n <= MAX_ITERATIONS
}

/// The number that an ASCII hexadecimal digit stands for, in either case.
pub open spec fn hex_digit_value(c: u8) -> Option<u8> {
    if 0x30 <= c <= 0x39 {
        Some((c - 0x30) as u8)
    } else if 0x41 <= c <= 0x46 {
        Some((c - 0x41 + 10) as u8)
    } else if 0x61 <= c <= 0x66 {
        Some((c - 0x61 + 10) as u8)
    } else {
        None
    }
}

/// Text that can be decoded: an even number of hexadecimal digits.
pub open spec fn is_hex_text(text: Seq<u8>) -> bool {
    &&& text.len() % 2 == 0
    &&& forall|i: int| 0 <= i < text.len() ==> (#[trigger] hex_digit_value(text[i])) is Some
}

/// The byte written by the two digits `high` and `low`.
pub open spec fn hex_pair_value(high: u8, low: u8) -> u8 {
    (hex_digit_value(high).unwrap() * 16 + hex_digit_value(low).unwrap()) as u8
}

/// The bytes that hexadecimal text stands for, two digits to a byte.
pub open spec fn hex_bytes(text: Seq<u8>) -> Seq<u8> {
    Seq::new(text.len() / 2, |i: int| hex_pair_value(text[2 * i], text[2 * i + 1]))
}

/// What becomes of a beacon given as text: the 32 bytes it stands for, or
/// the reason why it is rejected.
pub open spec fn beacon_of_text(text: Seq<u8>) -> Result<Seq<u8>, FormatFault> {
    if !is_hex_text(text) {
        Err(FormatFault::NotHexadecimal)
    } else if text.len() != 2 * BEACON_LEN {
        Err(FormatFault::WrongLength)
    } else {
        Ok(hex_bytes(text))
    }
}

/// A beacon is accepted exactly when its text is 64 hexadecimal digits, and
/// what is accepted is 32 bytes long.
pub proof fn lemma_beacon_accepted_iff(text: Seq<u8>)
    ensures
        beacon_of_text(text) is Ok <==> is_hex_text(text) && text.len() == 2 * BEACON_LEN,
        beacon_of_text(text) matches Ok(beacon) ==> beacon.len() == BEACON_LEN,
{
}

/// Text that does not spell exactly 32 bytes is rejected, whether or not it
/// is hexadecimal.
pub proof fn lemma_wrong_length_is_rejected(text: Seq<u8>)
    requires
        text.len() != 2 * BEACON_LEN,
    ensures
        beacon_of_text(text) is Err,
{
}

/// Text that is not hexadecimal is rejected as such, whatever its length.
pub proof fn lemma_non_hex_is_rejected(text: Seq<u8>)
    requires
        !is_hex_text(text),
    ensures
        beacon_of_text(text) == Err::<Seq<u8>, FormatFault>(FormatFault::NotHexadecimal),
{
}

/// Text with an odd number of characters is not hexadecimal.
pub proof fn lemma_odd_length_is_not_hex(text: Seq<u8>)
    requires
        text.len() % 2 == 1,
    ensures
        !is_hex_text(text),
        beacon_of_text(text) == Err::<Seq<u8>, FormatFault>(FormatFault::NotHexadecimal),
{
}

/// Calls `hex::decode`. It succeeds exactly on an even number of ASCII
/// hexadecimal digits, upper or lower case, and then returns one byte for
/// each pair of digits, the first digit being the high half.
#[verifier::external_body]
fn hex_decode(text: &[u8]) -> (decoded: Result<Vec<u8>, hex::FromHexError>)
    ensures
        decoded is Ok <==> is_hex_text(text@),
        decoded matches Ok(bytes) ==> bytes@ == hex_bytes(text@),
{
    hex::decode(text)
}

/// Checks the exponent of the chain length against `[10, 63]`.
pub fn check_iterations(n: usize) -> (checked: Result<(), BeaconError>)
    ensures
        valid_iterations(n) ==> checked == Ok::<(), BeaconError>(()),
        !valid_iterations(n) ==> checked == Err::<(), BeaconError>(BeaconError::IterationRange),
{
    if MIN_ITERATIONS <= n && n <= MAX_ITERATIONS {
        Ok(())
    } else {
        Err(BeaconError::IterationRange)
    }
}

/// The number that decimal digits spell.
pub open spec fn decimal_value(digits: Seq<u8>) -> nat
    decreases digits.len(),
{
    if digits.len() == 0 {
        0
    } else {
        decimal_value(digits.drop_last()) * 10 + (digits.last() - 0x30) as nat
    }
}

/// Text that spells a number: one or more ASCII decimal digits.
pub open spec fn is_decimal(digits: Seq<u8>) -> bool {
    &&& digits.len() > 0
    &&& forall|i: int| 0 <= i < digits.len() ==> 0x30 <= #[trigger] digits[i] <= 0x39
}

/// The text without the plus sign that may stand in front of a number.
pub open spec fn unsigned_digits(text: Seq<u8>) -> Seq<u8> {
    if text.len() > 0 && text[0] == 0x2b {
        text.skip(1)
    } else {
        text
    }
}

/// What becomes of an exponent given as text: the number it spells if that
/// lies in `[10, 63]`, and the range error for any other number and for
/// text that spells none.
pub open spec fn iterations_of_text(text: Seq<u8>) -> Result<usize, BeaconError> {
    let digits = unsigned_digits(text);
    if is_decimal(digits) && MIN_ITERATIONS <= decimal_value(digits) <= MAX_ITERATIONS {
        Ok(decimal_value(digits) as usize)
    } else {
        Err(BeaconError::IterationRange)
    }
}

/// A number, or 64 in place of any larger one.
spec fn capped(value: nat) -> nat {
    if value > MAX_ITERATIONS {
        (MAX_ITERATIONS + 1) as nat
    } else {
        value
    }
}

/// Reads the exponent of the chain length from text: decimal digits, with
/// or without a plus sign in front. Text that spells no number is rejected
/// as a number outside `[10, 63]` is.
pub fn parse_iterations(text: &str) -> (parsed: Result<usize, BeaconError>)
    ensures
        parsed == iterations_of_text(text.spec_bytes()),
{
    let bytes = text.as_bytes();
    let start: usize = if bytes.len() > 0 && bytes[0] == 0x2b {
        1
    } else {
        0
    };
    let ghost digits = unsigned_digits(bytes@);
    assert(digits == bytes@.subrange(start as int, bytes@.len() as int));
    if start == bytes.len() {
        return Err(BeaconError::IterationRange);
    }
    let mut value: usize = 0;
    let mut i: usize = start;
    assert(bytes@.subrange(start as int, start as int).len() == 0);
    while i < bytes.len()
        invariant
            start <= i <= bytes@.len(),
            bytes@ == text.spec_bytes(),
            digits == unsigned_digits(bytes@),
            digits == bytes@.subrange(start as int, bytes@.len() as int),
            forall|j: int| start <= j < i ==> 0x30 <= #[trigger] bytes@[j] <= 0x39,
            value == capped(decimal_value(bytes@.subrange(start as int, i as int))),
        decreases bytes@.len() - i,
    {
        let byte = bytes[i];
        if byte < 0x30 || byte > 0x39 {
            assert(digits[i - start] == byte);
            return Err(BeaconError::IterationRange);
        }
        proof {
            let longer = bytes@.subrange(start as int, i + 1);
            assert(longer.drop_last() == bytes@.subrange(start as int, i as int));
            assert(longer.last() == byte);
        }
        value = value * 10 + (byte - 0x30) as usize;
        if value > MAX_ITERATIONS {
            value = MAX_ITERATIONS + 1;
        }
        i += 1;
    }
    assert(is_decimal(digits)) by {
        assert forall|k: int| 0 <= k < digits.len() implies 0x30 <= #[trigger] digits[k]
            <= 0x39 by {
            assert(digits[k] == bytes@[start + k]);
        }
    }
    match check_iterations(value) {
        Ok(_) => Ok(value),
        Err(reason) => Err(reason),
    }
}

/// Takes decoded bytes as a beacon: they must be exactly 32.
pub fn beacon_from_bytes(bytes: &[u8]) -> (beacon: Result<[u8; 32], BeaconError>)
    ensures
        bytes@.len() == BEACON_LEN ==> beacon is Ok && beacon.unwrap()@ == bytes@,
        bytes@.len() != BEACON_LEN ==> beacon == Err::<[u8; 32], BeaconError>(
            BeaconError::BeaconFormat(FormatFault::WrongLength),
        ),
{
    if bytes.len() != BEACON_LEN {
        return Err(BeaconError::BeaconFormat(FormatFault::WrongLength));
    }
    let mut beacon = [0u8; 32];
    let mut i: usize = 0;
    while i < BEACON_LEN
        invariant
            i <= BEACON_LEN,
            bytes@.len() == BEACON_LEN,
            forall|j: int| 0 <= j < i ==> beacon@[j] == bytes@[j],
        decreases BEACON_LEN - i,
    {
        beacon[i] = bytes[i];
        i += 1;
    }
    assert(beacon@ =~= bytes@);
    Ok(beacon)
}

/// Decodes a beacon given as the bytes of its hexadecimal text.
pub fn decode_beacon_text(text: &[u8]) -> (beacon: Result<[u8; 32], BeaconError>)
    ensures
        match beacon_of_text(text@) {
            Ok(bytes) => beacon is Ok && beacon.unwrap()@ == bytes,
            Err(fault) => beacon == Err::<[u8; 32], BeaconError>(BeaconError::BeaconFormat(fault)),
        },
{
    match hex_decode(text) {
        Ok(bytes) => beacon_from_bytes(bytes.as_slice()),
        Err(_) => Err(BeaconError::BeaconFormat(FormatFault::NotHexadecimal)),
    }
}

/// Decodes a beacon given as a string of 64 hexadecimal digits.
///
/// Anything else is rejected: text that is not hexadecimal (an odd number
/// of digits too), and hexadecimal text of another length.
pub fn decode_beacon(beacon_hex: &str) -> (beacon: Result<[u8; 32], BeaconError>)
    ensures
        match beacon_of_text(beacon_hex.spec_bytes()) {
            Ok(bytes) => beacon is Ok && beacon.unwrap()@ == bytes,
            Err(fault) => beacon == Err::<[u8; 32], BeaconError>(BeaconError::BeaconFormat(fault)),
        },
{
    decode_beacon_text(beacon_hex.as_bytes())
}

} // verus!
