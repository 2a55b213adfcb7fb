//! Text for the operator: a hash as lowercase hexadecimal without prefix
//! or separator, and the fingerprint of a contribution laid out in lines
//! of 16 bytes, each in sections of 4 bytes, to be compared by eye.

use vstd::prelude::*;
use vstd::slice::slice_subrange;

verus! {

/// The number of bytes in one section of a fingerprint line.
pub const SECTION_BYTES: usize = 4;

/// The number of bytes in one line of a fingerprint.
pub const LINE_BYTES: usize = 16;

/// The lowercase hexadecimal digit for a value below 16.
pub open spec fn hex_digit_char(value: u8) -> char {
    if value < 10 {
        (0x30 + value) as char
    } else {
        (0x57 + value) as char
    }
}

/// Bytes as lowercase hexadecimal: two digits to a byte, high half first.
pub open spec fn hex_chars(bytes: Seq<u8>) -> Seq<char> {
    Seq::new(
        2 * bytes.len(),
        |j: int|
            if j % 2 == 0 {
                hex_digit_char(bytes[j / 2] / 16)
            } else {
                hex_digit_char(bytes[j / 2] % 16)
            },
    )
}

/// The length of the first group of `len` items taken `size` at a time.
pub open spec fn first_group(len: nat, size: nat) -> nat {
    if len < size {
        len
    } else {
        size
    }
}

/// The sections of one line: each up to 4 bytes as hexadecimal, followed by
/// a space.
pub open spec fn sections_text(line: Seq<u8>) -> Seq<char>
    decreases line.len(),
{
    if line.len() == 0 {
        Seq::empty()
    } else {
        let k = first_group(line.len(), SECTION_BYTES as nat) as int;
        hex_chars(line.take(k)) + seq![' '] + sections_text(line.skip(k))
    }
}

/// One line of a fingerprint: a tab, then its sections.
pub open spec fn line_text(line: Seq<u8>) -> Seq<char> {
    seq!['\t'] + sections_text(line)
}

/// The lines of a fingerprint: one for each 16 bytes, the last one shorter
/// where the bytes run out.
pub open spec fn grouped_lines(bytes: Seq<u8>) -> Seq<Seq<char>>
    decreases bytes.len(),
{
    if bytes.len() == 0 {
        Seq::empty()
    } else {
        let k = first_group(bytes.len(), LINE_BYTES as nat) as int;
        seq![line_text(bytes.take(k))] + grouped_lines(bytes.skip(k))
    }
}

/// Calls `String::push`, which appends one character to the string.
#[verifier::external_body]
fn push_char(text: &mut String, c: char)
    ensures
        final(text)@ == old(text)@.push(c),
{
    text.push(c);
}

/// The lowercase hexadecimal digit for a value below 16.
fn hex_digit(value: u8) -> (digit: char)
    requires
        value < 16,
    ensures
        digit == hex_digit_char(value),
{
    if value < 10 {
        (0x30 + value) as char
    } else {
        (0x57 + value) as char
    }
}

/// Appends bytes as lowercase hexadecimal.
fn push_hex(text: &mut String, bytes: &[u8])
    ensures
        final(text)@ == old(text)@ + hex_chars(bytes@),
{
    let ghost before = text@;
    let mut i: usize = 0;
    while i < bytes.len()
        invariant
            i <= bytes@.len(),
            text@ == before + hex_chars(bytes@.take(i as int)),
        decreases bytes@.len() - i,
    {
        let byte = bytes[i];
        push_char(text, hex_digit(byte / 16));
        push_char(text, hex_digit(byte % 16));
        assert(text@ =~= before + hex_chars(bytes@.take(i + 1)));
        i += 1;
    }
    assert(bytes@.take(bytes@.len() as int) == bytes@);
}

/// Bytes as lowercase hexadecimal, without prefix or separator.
pub fn hex_text(bytes: &[u8]) -> (text: String)
    ensures
        text@ == hex_chars(bytes@),
{
    let mut text = String::new();
    push_hex(&mut text, bytes);
    text
}

/// One line of a fingerprint: a tab, then each section of up to 4 bytes as
/// hexadecimal, followed by a space.
pub fn fingerprint_line(line: &[u8]) -> (text: String)
    ensures
        text@ == line_text(line@),
{
    let mut text = String::new();
    push_char(&mut text, '\t');
    let mut i: usize = 0;
    assert(line@.skip(0) == line@);
    while i < line.len()
        invariant
            i <= line@.len(),
            text@ + sections_text(line@.skip(i as int)) == line_text(line@),
        decreases line@.len() - i,
    {
        let k = if line.len() - i < SECTION_BYTES {
            line.len() - i
        } else {
            SECTION_BYTES
        };
        let section = slice_subrange(line, i, i + k);
        proof {
            let rest = line@.skip(i as int);
            assert(rest.take(k as int) == section@);
            assert(rest.skip(k as int) == line@.skip(i + k));
        }
        push_hex(&mut text, section);
        push_char(&mut text, ' ');
        i += k;
    }
    text
}

/// The fingerprint laid out for reading: one line for each 16 bytes.
pub fn fingerprint_lines(fingerprint: &[u8]) -> (lines: Vec<String>)
    ensures
        lines@.len() == grouped_lines(fingerprint@).len(),
        forall|l: int| 0 <= l < lines@.len() ==> (#[trigger] lines@[l])@ == grouped_lines(
            fingerprint@,
        )[l],
{
    let mut lines: Vec<String> = Vec::new();
    let mut i: usize = 0;
    assert(fingerprint@.skip(0) == fingerprint@);
    while i < fingerprint.len()
        invariant
            i <= fingerprint@.len(),
            lines@.map_values(|line: String| line@) + grouped_lines(fingerprint@.skip(i as int))
                == grouped_lines(fingerprint@),
        decreases fingerprint@.len() - i,
    {
        let k = if fingerprint.len() - i < LINE_BYTES {
            fingerprint.len() - i
        } else {
            LINE_BYTES
        };
        let line = slice_subrange(fingerprint, i, i + k);
        let ghost done = lines@.map_values(|line: String| line@);
        proof {
            let rest = fingerprint@.skip(i as int);
            assert(rest.take(k as int) == line@);
            assert(rest.skip(k as int) == fingerprint@.skip(i + k));
        }
        let text = fingerprint_line(line);
        lines.push(text);
        assert(lines@.map_values(|line: String| line@) =~= done.push(line_text(line@)));
        assert(done.push(line_text(line@)) + grouped_lines(fingerprint@.skip(i + k)) =~= done
            + grouped_lines(fingerprint@.skip(i as int)));
        i += k;
    }
    assert(lines@.map_values(|line: String| line@) =~= grouped_lines(fingerprint@));
    assert forall|l: int| 0 <= l < lines@.len() implies (#[trigger] lines@[l])@ == grouped_lines(
        fingerprint@,
    )[l] by {
        assert(lines@.map_values(|line: String| line@)[l] == lines@[l]@);
    }
    lines
}

} // verus!
