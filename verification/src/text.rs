//! Text building blocks shared by the request and file-name code: decimal
//! numbers and percent-encoding, both written onto the end of a `String`.

use vstd::prelude::*;
use vstd::utf8::encode_utf8;

verus! {

/// `String::push`: appends the character `c` to the end of `text` and leaves
/// what was there before in place.
#[verifier::external_body]
pub(crate) fn push_char(text: &mut String, c: char)
    ensures
        final(text)@ == old(text)@.push(c),
{
    text.push(c);
}

/// The characters of `text`, in order, as an indexable vector.
pub fn chars_of(text: &str) -> (chars: Vec<char>)
    ensures
        chars@ == text@,
{
    let mut chars: Vec<char> = Vec::new();
    for c in it: text.chars()
        invariant
            it.seq() == text@,
            chars@ == it.seq().take(it.index()),
    {
        chars.push(c);
    }
    chars
}

/// The ASCII digit for a value below ten.
pub open spec fn digit_char(d: nat) -> char
    recommends
        d < 10,
{
    seq!['0', '1', '2', '3', '4', '5', '6', '7', '8', '9'][d as int]
}

/// The decimal notation of `n`: no sign, no leading zero, `"0"` for zero.
pub open spec fn decimal(n: nat) -> Seq<char>
    decreases n,
{
    if n < 10 {
        seq![digit_char(n)]
    } else {
        decimal(n / 10).push(digit_char(n % 10))
    }
}

fn digit(d: u8) -> (c: char)
    requires
        d < 10,
    ensures
        c == digit_char(d as nat),
{
    ('0' as u8 + d) as char
}

/// Writes `n` in decimal notation onto the end of `text`.
pub fn append_decimal(text: &mut String, n: u64)
    ensures
        final(text)@ == old(text)@ + decimal(n as nat),
    decreases n,
{
    if n >= 10 {
        append_decimal(text, n / 10);
    }
    push_char(text, digit((n % 10) as u8));
}

/// The characters that a URL carries as they are: ASCII letters and digits
/// and the four marks `-`, `.`, `_` and `~`.
pub open spec fn is_unreserved(c: char) -> bool {
    ||| '0' <= c <= '9'
    ||| 'A' <= c <= 'Z'
    ||| 'a' <= c <= 'z'
    ||| c == '-'
    ||| c == '.'
    ||| c == '_'
    ||| c == '~'
}

/// The upper-case hexadecimal digit for a value below sixteen.
pub open spec fn hex_char(nibble: nat) -> char
    recommends
        nibble < 16,
{
    seq![
        '0',
        '1',
        '2',
        '3',
        '4',
        '5',
        '6',
        '7',
        '8',
        '9',
        'A',
        'B',
        'C',
        'D',
        'E',
        'F',
    ][nibble as int]
}

/// How one byte appears in a percent-encoded text: as the character that it
/// stands for where that is unreserved, else as `%` and its two hexadecimal
/// digits.
pub open spec fn escaped_byte(b: u8) -> Seq<char> {
    if is_unreserved(b as char) {
        seq![b as char]
    } else {
        seq!['%', hex_char((b / 16) as nat), hex_char((b % 16) as nat)]
    }
}

/// The percent-encoding of a byte string: the encodings of its bytes, in
/// order.
pub open spec fn percent_encoded(bytes: Seq<u8>) -> Seq<char>
    decreases bytes.len(),
{
    if bytes.len() == 0 {
        Seq::empty()
    } else {
        percent_encoded(bytes.drop_last()) + escaped_byte(bytes.last())
    }
}

/// A percent-encoded text holds nothing but unreserved characters and `%`:
/// no separator of a URL (`&`, `=`, `#`, `?`, `/`, a space) survives the
/// encoding, whatever the input.
pub proof fn lemma_percent_encoded_is_url_safe(bytes: Seq<u8>)
    ensures
        forall|i: int|
            0 <= i < percent_encoded(bytes).len() ==> {
                let c = #[trigger] percent_encoded(bytes)[i];
                is_unreserved(c) || c == '%'
            },
    decreases bytes.len(),
{
    if bytes.len() > 0 {
        let head = percent_encoded(bytes.drop_last());
        let b = bytes.last();
        let tail = escaped_byte(b);
        lemma_percent_encoded_is_url_safe(bytes.drop_last());
        assert(is_unreserved(hex_char((b / 16) as nat)));
        assert(is_unreserved(hex_char((b % 16) as nat)));
        assert forall|i: int| 0 <= i < (head + tail).len() implies {
            let c = #[trigger] (head + tail)[i];
            is_unreserved(c) || c == '%'
        } by {
            if i < head.len() {
                assert((head + tail)[i] == head[i]);
            } else {
                assert((head + tail)[i] == tail[i - head.len()]);
            }
        }
    }
}

fn hex_digit(nibble: u8) -> (c: char)
    requires
        nibble < 16,
    ensures
        c == hex_char(nibble as nat),
{
    if nibble < 10 {
        ('0' as u8 + nibble) as char
    } else {
        ('A' as u8 + (nibble - 10)) as char
    }
}

fn unreserved(b: u8) -> (keep: bool)
    ensures
        keep == is_unreserved(b as char),
{
    let c = b as char;
    ('0' <= c && c <= '9') || ('A' <= c && c <= 'Z') || ('a' <= c && c <= 'z') || c == '-'
        || c == '.' || c == '_' || c == '~'
}

/// Writes the percent-encoding of the UTF-8 bytes of `raw` onto the end of
/// `text`.
pub fn append_percent_encoded(text: &mut String, raw: &str)
    ensures
        final(text)@ == old(text)@ + percent_encoded(encode_utf8(raw@)),
{
    let bytes = raw.as_bytes();
    let mut i: usize = 0;
    while i < bytes.len()
        invariant
            i <= bytes.len(),
            bytes@ == encode_utf8(raw@),
            text@ == old(text)@ + percent_encoded(bytes@.take(i as int)),
        decreases bytes.len() - i,
    {
        let b = bytes[i];
        proof {
            let upto = bytes@.take(i + 1);
            assert(upto.drop_last() == bytes@.take(i as int));
            assert(upto.last() == b);
        }
        if unreserved(b) {
            push_char(text, b as char);
        } else {
            push_char(text, '%');
            push_char(text, hex_digit(b / 16));
            push_char(text, hex_digit(b % 16));
        }
        i += 1;
    }
    proof {
        assert(bytes@.take(i as int) == bytes@);
    }
}

/// The percent-encoding of `raw` as a string of its own.
pub fn percent_encode(raw: &str) -> (encoded: String)
    ensures
        encoded@ == percent_encoded(encode_utf8(raw@)),
{
    let mut encoded = String::new();
    append_percent_encoded(&mut encoded, raw);
    encoded
}

} // verus!
