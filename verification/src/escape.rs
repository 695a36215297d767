//! Showing arbitrary bytes as printable ASCII text.
//!
//! Arguments come from the command line as raw bytes. Before one is echoed in
//! a diagnostic, every byte that is not a plain printable character is
//! replaced by a backslash escape, so that the diagnostic stays on one line
//! and cannot carry control sequences to a terminal.

use vstd::prelude::*;
use vstd::string::*;

verus! {

/// The lower-case hexadecimal digit for a value below sixteen.
pub open spec fn hex_digit(value: int) -> char {
    "0123456789abcdef"@[value]
}

/// Whether a byte is shown as it is: a printable ASCII character other than
/// the two quotes and the backslash.
pub open spec fn is_plain(byte: u8) -> bool {
    &&& 0x20 <= byte <= 0x7e
    &&& byte != '\'' as u8
    &&& byte != '"' as u8
    &&& byte != '\\' as u8
}

/// The text that stands for one byte.
///
/// Tab, carriage return and line feed become `\t`, `\r` and `\n`; the two
/// quotes and the backslash get a backslash in front; every other printable
/// ASCII character stands for itself; any other byte becomes `\x` and its two
/// lower-case hexadecimal digits.
pub open spec fn escaped_byte(byte: u8) -> Seq<char> {
    if byte == '\t' as u8 {
        seq!['\\', 't']
    } else if byte == '\r' as u8 {
        seq!['\\', 'r']
    } else if byte == '\n' as u8 {
        seq!['\\', 'n']
    } else if byte == '\'' as u8 {
        seq!['\\', '\'']
    } else if byte == '"' as u8 {
        seq!['\\', '"']
    } else if byte == '\\' as u8 {
        seq!['\\', '\\']
    } else if 0x20 <= byte <= 0x7e {
        seq![byte as char]
    } else {
        seq!['\\', 'x', hex_digit(byte as int / 16), hex_digit(byte as int % 16)]
    }
}

/// The text that stands for a byte string: the texts of its bytes, in order.
pub open spec fn escaped(bytes: Seq<u8>) -> Seq<char> {
    bytes.flat_map(|byte: u8| escaped_byte(byte))
}

/// Whether a character is printable ASCII, the space included.
pub open spec fn is_printable(ch: char) -> bool {
    0x20 <= ch as u32 <= 0x7e
}

/// The printable ASCII characters in the order of their codes, from the
/// space to the tilde.
const PRINTABLE: &'static str =
    " !\"#$%&'()*+,-./0123456789:;<=>?@ABCDEFGHIJKLMNOPQRSTUVWXYZ[\\]^_`abcdefghijklmnopqrstuvwxyz{|}~";

/// The hexadecimal digits in the order of their values.
const HEX_DIGITS: &'static str = "0123456789abcdef";

proof fn printable_table()
    ensures
        is_ascii(PRINTABLE),
        PRINTABLE@.len() == 95,
        forall|at: int| 0 <= at < 95 ==> #[trigger] PRINTABLE@[at] == (at + 0x20) as char,
{
    reveal_strlit(
        " !\"#$%&'()*+,-./0123456789:;<=>?@ABCDEFGHIJKLMNOPQRSTUVWXYZ[\\]^_`abcdefghijklmnopqrstuvwxyz{|}~",
    );
}

proof fn hex_table()
    ensures
        is_ascii(HEX_DIGITS),
        HEX_DIGITS@.len() == 16,
        forall|value: int| 0 <= value < 16 ==> #[trigger] HEX_DIGITS@[value] == hex_digit(value),
{
    reveal_strlit("0123456789abcdef");
}

fn push_escaped(text: &mut String, byte: u8)
    ensures
        final(text)@ == old(text)@ + escaped_byte(byte),
{
    proof {
        printable_table();
        hex_table();
        reveal_strlit("\\t");
        reveal_strlit("\\r");
        reveal_strlit("\\n");
        reveal_strlit("\\'");
        reveal_strlit("\\\"");
        reveal_strlit("\\\\");
        reveal_strlit("\\x");
    }
    if byte == '\t' as u8 {
        text.append("\\t");
    } else if byte == '\r' as u8 {
        text.append("\\r");
    } else if byte == '\n' as u8 {
        text.append("\\n");
    } else if byte == '\'' as u8 {
        text.append("\\'");
    } else if byte == '"' as u8 {
        text.append("\\\"");
    } else if byte == '\\' as u8 {
        text.append("\\\\");
    } else if 0x20 <= byte && byte <= 0x7e {
        let at = (byte - 0x20) as usize;
        text.append(PRINTABLE.substring_ascii(at, at + 1));
    } else {
        let high = (byte / 16) as usize;
        let low = (byte % 16) as usize;
        text.append("\\x");
        text.append(HEX_DIGITS.substring_ascii(high, high + 1));
        text.append(HEX_DIGITS.substring_ascii(low, low + 1));
    }
    assert(text@ =~= old(text)@ + escaped_byte(byte));
}

/// Appends the escaped form of a byte string to a text.
pub fn append_escaped(text: &mut String, bytes: &[u8])
    ensures
        final(text)@ == old(text)@ + escaped(bytes@),
{
    let mut i: usize = 0;
    assert(bytes@.take(0).flat_map(|byte: u8| escaped_byte(byte)) =~= Seq::<char>::empty());
    while i < bytes.len()
        invariant
            i <= bytes@.len(),
            text@ == old(text)@ + escaped(bytes@.take(i as int)),
        decreases bytes@.len() - i,
    {
        proof {
            bytes@.lemma_flat_map_take_append(|byte: u8| escaped_byte(byte), i as int);
        }
        push_escaped(text, bytes[i]);
        i += 1;
        assert(text@ =~= old(text)@ + escaped(bytes@.take(i as int)));
    }
    assert(bytes@.take(i as int) == bytes@);
}

/// The escaped form of a byte string.
pub fn escape_ascii(bytes: &[u8]) -> (text: String)
    ensures
        text@ == escaped(bytes@),
{
    let mut text = String::new();
    append_escaped(&mut text, bytes);
    assert(text@ =~= escaped(bytes@));
    text
}

/// Escaping goes byte by byte: the text for a byte string that ends in one
/// more byte is the text so far and then that byte's text.
pub proof fn escaped_push(bytes: Seq<u8>, byte: u8)
    ensures
        escaped(bytes.push(byte)) == escaped(bytes) + escaped_byte(byte),
{
    bytes.lemma_flat_map_push(|byte: u8| escaped_byte(byte), byte);
}

/// The escaped form of two byte strings in a row is their escaped forms in
/// a row.
pub proof fn escaped_concat(first: Seq<u8>, second: Seq<u8>)
    ensures
        escaped(first + second) == escaped(first) + escaped(second),
    decreases second.len(),
{
    if second.len() == 0 {
        assert(first + second =~= first);
        assert(escaped(second) =~= Seq::<char>::empty());
        assert(escaped(first) + escaped(second) =~= escaped(first));
    } else {
        let rest = second.drop_last();
        let last = second.last();
        escaped_concat(first, rest);
        escaped_push(first + rest, last);
        escaped_push(rest, last);
        assert((first + rest).push(last) =~= first + second);
        assert(rest.push(last) =~= second);
        assert(escaped(first) + (escaped(rest) + escaped_byte(last)) =~= escaped(first) + escaped(
            rest,
        ) + escaped_byte(last));
    }
}

/// Whatever the bytes, their escaped form is printable ASCII throughout: it
/// holds no control character, no line end and nothing beyond ASCII.
pub proof fn escaped_is_printable(bytes: Seq<u8>)
    ensures
        forall|i: int| 0 <= i < escaped(bytes).len() ==> is_printable(#[trigger] escaped(bytes)[i]),
    decreases bytes.len(),
{
    if bytes.len() == 0 {
        assert(escaped(bytes) =~= Seq::<char>::empty());
    } else {
        let rest = bytes.drop_last();
        let last = bytes.last();
        escaped_is_printable(rest);
        escaped_push(rest, last);
        assert(rest.push(last) =~= bytes);
        reveal_strlit("0123456789abcdef");
        let piece = escaped_byte(last);
        assert(forall|j: int| 0 <= j < piece.len() ==> is_printable(#[trigger] piece[j]));
        assert forall|i: int| 0 <= i < escaped(bytes).len() implies is_printable(
            #[trigger] escaped(bytes)[i],
        ) by {
            if i >= escaped(rest).len() {
                assert(escaped(bytes)[i] == piece[i - escaped(rest).len()]);
            }
        }
    }
}

/// A byte string of plain characters is echoed as it is: its escaped form is
/// the same characters, one for each byte.
pub proof fn escaped_plain_is_verbatim(bytes: Seq<u8>)
    requires
        forall|i: int| 0 <= i < bytes.len() ==> is_plain(#[trigger] bytes[i]),
    ensures
        escaped(bytes) == bytes.map_values(|byte: u8| byte as char),
    decreases bytes.len(),
{
    if bytes.len() == 0 {
        assert(escaped(bytes) =~= bytes.map_values(|byte: u8| byte as char));
    } else {
        let rest = bytes.drop_last();
        let last = bytes.last();
        assert forall|i: int| 0 <= i < rest.len() implies is_plain(#[trigger] rest[i]) by {
            assert(rest[i] == bytes[i]);
        }
        escaped_plain_is_verbatim(rest);
        escaped_push(rest, last);
        assert(rest.push(last) =~= bytes);
        assert(is_plain(bytes[bytes.len() - 1]));
        assert(escaped(rest) + escaped_byte(last) =~= bytes.map_values(|byte: u8| byte as char));
    }
}

} // verus!
