use vstd::prelude::*;
use vstd::utf8::encode_scalar;

verus! {

/// Characters that a percent-encoded text keeps as they are: ASCII letters,
/// ASCII digits, and `-`, `.`, `_`, `~`.
pub open spec fn is_unreserved(c: char) -> bool {
    let u = c as u32;
    ||| (0x41 <= u && u <= 0x5A)
    ||| (0x61 <= u && u <= 0x7A)
    ||| (0x30 <= u && u <= 0x39)
    ||| c == '-'
    ||| c == '.'
    ||| c == '_'
    ||| c == '~'
}

/// The upper-case hexadecimal digit for a value below sixteen.
pub open spec fn hex_digit(n: u8) -> char
    recommends
        n < 16,
{
    seq!['0', '1', '2', '3', '4', '5', '6', '7', '8', '9', 'A', 'B', 'C', 'D', 'E', 'F'][n as int]
}

/// One byte written as `%` and its two hexadecimal digits.
pub open spec fn escape_byte(b: u8) -> Seq<char> {
    seq!['%', hex_digit(b / 16), hex_digit(b % 16)]
}

/// Every byte of a sequence escaped, in order.
pub open spec fn escape_bytes(bytes: Seq<u8>) -> Seq<char>
    decreases bytes.len(),
{
    if bytes.len() == 0 {
        Seq::empty()
    } else {
        escape_bytes(bytes.drop_last()) + escape_byte(bytes.last())
    }
}

/// What one character becomes: itself if unreserved, otherwise the escaped
/// bytes of its UTF-8 encoding.
pub open spec fn encode_char(c: char) -> Seq<char> {
    if is_unreserved(c) {
        seq![c]
    } else {
        escape_bytes(encode_scalar(c as u32))
    }
}

/// The percent-encoding of a text: the encodings of its characters, in order.
pub open spec fn percent_encode(s: Seq<char>) -> Seq<char>
    decreases s.len(),
{
    if s.len() == 0 {
        Seq::empty()
    } else {
        percent_encode(s.drop_last()) + encode_char(s.last())
    }
}

/// Characters that may stand in an encoded text: the unreserved ones and
/// the `%` that starts an escape.
pub open spec fn is_url_safe(c: char) -> bool {
    is_unreserved(c) || c == '%'
}

/// Every hexadecimal digit is an unreserved character.
pub proof fn lemma_hex_digit_unreserved(n: u8)
    requires
        n < 16,
    ensures
        is_unreserved(hex_digit(n)),
{
}

/// Escaped bytes hold nothing but `%` and hexadecimal digits, three
/// characters for each byte.
pub proof fn lemma_escaped_is_url_safe(bytes: Seq<u8>)
    ensures
        escape_bytes(bytes).len() == 3 * bytes.len(),
        forall|i: int|
            0 <= i < escape_bytes(bytes).len() ==> is_url_safe(#[trigger] escape_bytes(bytes)[i]),
    decreases bytes.len(),
{
    if bytes.len() > 0 {
        lemma_escaped_is_url_safe(bytes.drop_last());
        let b = bytes.last();
        lemma_hex_digit_unreserved(b / 16);
        lemma_hex_digit_unreserved(b % 16);
    }
}

/// An encoded text holds no reserved character: every character of it is
/// unreserved or the `%` of an escape.
pub proof fn lemma_encoded_is_url_safe(s: Seq<char>)
    ensures
        forall|i: int|
            0 <= i < percent_encode(s).len() ==> is_url_safe(#[trigger] percent_encode(s)[i]),
    decreases s.len(),
{
    if s.len() > 0 {
        let front = percent_encode(s.drop_last());
        let tail = encode_char(s.last());
        lemma_encoded_is_url_safe(s.drop_last());
        lemma_escaped_is_url_safe(encode_scalar(s.last() as u32));
        assert forall|i: int| 0 <= i < percent_encode(s).len() implies is_url_safe(
            #[trigger] percent_encode(s)[i],
        ) by {
            if i < front.len() {
                assert(percent_encode(s)[i] == front[i]);
            } else {
                assert(percent_encode(s)[i] == tail[i - front.len()]);
            }
        }
    }
}

/// A text of unreserved characters is its own encoding.
pub proof fn lemma_unreserved_text_is_kept(s: Seq<char>)
    requires
        forall|i: int| 0 <= i < s.len() ==> is_unreserved(#[trigger] s[i]),
    ensures
        percent_encode(s) == s,
    decreases s.len(),
{
    if s.len() > 0 {
        lemma_unreserved_text_is_kept(s.drop_last());
        assert(s.drop_last().push(s.last()) =~= s);
        assert(percent_encode(s) =~= s);
    } else {
        assert(percent_encode(s) =~= s);
    }
}

fn unreserved(c: char) -> (r: bool)
    ensures
        r == is_unreserved(c),
{
    let u: u32 = c as u32;
    (0x41 <= u && u <= 0x5A) || (0x61 <= u && u <= 0x7A) || (0x30 <= u && u <= 0x39) || c == '-'
        || c == '.' || c == '_' || c == '~'
}

fn hex_char(n: u8) -> (c: char)
    requires
        n < 16,
    ensures
        c == hex_digit(n),
{
    if n < 10 {
        (48 + n) as char
    } else {
        (55 + n) as char
    }
}

fn push_escaped(out: &mut Vec<char>, b: u8)
    ensures
        final(out)@ == old(out)@ + escape_byte(b),
{
    out.push('%');
    out.push(hex_char(b / 16));
    out.push(hex_char(b % 16));
    proof {
        assert(final(out)@ =~= old(out)@ + escape_byte(b));
    }
}

proof fn lemma_escape_bytes_push(bytes: Seq<u8>, b: u8)
    ensures
        escape_bytes(bytes.push(b)) == escape_bytes(bytes) + escape_byte(b),
{
    assert(bytes.push(b).drop_last() =~= bytes);
}

/// The UTF-8 bytes of one character.
fn utf8_of(c: char) -> (bytes: Vec<u8>)
    ensures
        bytes@ == encode_scalar(c as u32),
{
    let u: u32 = c as u32;
    let mut bytes: Vec<u8> = Vec::new();
    let last: u8 = 0x80 | ((u & 0x3F) as u8);
    let second: u8 = 0x80 | (((u >> 6) & 0x3F) as u8);
    let third: u8 = 0x80 | (((u >> 12) & 0x3F) as u8);
    if u <= 0x7F {
        bytes.push((u & 0x7F) as u8);
    } else if u <= 0x7FF {
        bytes.push(0xC0 | (((u >> 6) & 0x1F) as u8));
        bytes.push(last);
    } else if u <= 0xFFFF {
        bytes.push(0xE0 | (((u >> 12) & 0x0F) as u8));
        bytes.push(second);
        bytes.push(last);
    } else {
        bytes.push(0xF0 | (((u >> 18) & 0x7) as u8));
        bytes.push(third);
        bytes.push(second);
        bytes.push(last);
    }
    proof {
        vstd::utf8::char_is_scalar(c);
        assert(bytes@ =~= encode_scalar(u));
    }
    bytes
}

fn encode_char_into(out: &mut Vec<char>, c: char)
    ensures
        final(out)@ == old(out)@ + encode_char(c),
{
    if unreserved(c) {
        out.push(c);
        proof {
            assert(final(out)@ =~= old(out)@ + encode_char(c));
        }
    } else {
        let bytes = utf8_of(c);
        let mut i: usize = 0;
        while i < bytes.len()
            invariant
                i <= bytes.len(),
                bytes@ == encode_scalar(c as u32),
                out@ == old(out)@ + escape_bytes(bytes@.subrange(0, i as int)),
            decreases bytes.len() - i,
        {
            push_escaped(out, bytes[i]);
            proof {
                lemma_escape_bytes_push(bytes@.subrange(0, i as int), bytes@[i as int]);
                assert(bytes@.subrange(0, i as int).push(bytes@[i as int]) =~= bytes@.subrange(
                    0,
                    i + 1,
                ));
                assert(out@ =~= old(out)@ + escape_bytes(bytes@.subrange(0, i + 1)));
            }
            i += 1;
        }
        proof {
            assert(bytes@.subrange(0, bytes.len() as int) =~= bytes@);
        }
    }
}

/// Percent-encodes a text so that it can stand inside a URL: every
/// character but the unreserved ones is replaced by the escaped bytes of its
/// UTF-8 encoding.
pub fn encode(s: &[char]) -> (out: Vec<char>)
    ensures
        out@ == percent_encode(s@),
{
    let mut out: Vec<char> = Vec::new();
    let mut i: usize = 0;
    while i < s.len()
        invariant
            i <= s.len(),
            out@ == percent_encode(s@.subrange(0, i as int)),
        decreases s.len() - i,
    {
        encode_char_into(&mut out, s[i]);
        proof {
            assert(s@.subrange(0, i + 1).drop_last() =~= s@.subrange(0, i as int));
        }
        i += 1;
    }
    proof {
        assert(s@.subrange(0, s.len() as int) =~= s@);
    }
    out
}

} // verus!
