//! Percent-encoding of a query component.

use vstd::prelude::*;
use vstd::utf8::encode_utf8;

verus! {

/// `String::push` appends one character and leaves the rest as it was.
pub assume_specification[ String::push ](text: &mut String, c: char)
    ensures
        final(text)@ == old(text)@.push(c),
;

/// Whether a byte may stand in a query as it is: an ASCII letter, a digit, or
/// one of `-`, `.`, `_`, `~`.
pub open spec fn is_unreserved(byte: u8) -> bool {
    ||| 0x41 <= byte <= 0x5A
    ||| 0x61 <= byte <= 0x7A
    ||| 0x30 <= byte <= 0x39
    ||| byte == 0x2D
    ||| byte == 0x2E
    ||| byte == 0x5F
    ||| byte == 0x7E
}

/// The upper-case hexadecimal digit for a value below sixteen.
pub open spec fn hex_digit(value: u8) -> char
    recommends
        value < 16,
{
    if value < 10 {
        ((0x30 + value) as u8) as char
    } else {
        ((0x37 + value) as u8) as char
    }
}

/// How one byte is written: as itself where it is unreserved, else as `%`
/// and its two hexadecimal digits.
pub open spec fn escaped_byte(byte: u8) -> Seq<char> {
    if is_unreserved(byte) {
        seq![byte as char]
    } else {
        seq!['%', hex_digit(byte / 16), hex_digit(byte % 16)]
    }
}

/// The percent-encoding of a byte string: the encodings of its bytes, in order.
pub open spec fn percent_encoded(bytes: Seq<u8>) -> Seq<char>
    decreases bytes.len(),
{
    if bytes.len() == 0 {
        Seq::empty()
    } else {
        percent_encoded(bytes.drop_last()) + escaped_byte(bytes.last())
    }
}

/// Whether a character may stand in an encoded query: `%`, or an unreserved
/// ASCII character.
pub open spec fn is_query_char(c: char) -> bool {
    c == '%' || (c as u32 <= 0x7F && is_unreserved(c as u8))
}

/// An encoded query holds nothing but `%` and unreserved characters: no
/// space, no `&`, no `=`, no `#`, nothing outside ASCII.
pub proof fn lemma_percent_encoded_is_safe(bytes: Seq<u8>)
    ensures
        forall|i: int|
            0 <= i < percent_encoded(bytes).len() ==> is_query_char(
                #[trigger] percent_encoded(bytes)[i],
            ),
    decreases bytes.len(),
{
    if bytes.len() > 0 {
        lemma_percent_encoded_is_safe(bytes.drop_last());
        let last = bytes.last();
        let tail = escaped_byte(last);
        assert forall|k: int| 0 <= k < tail.len() implies is_query_char(#[trigger] tail[k]) by {
            if !is_unreserved(last) {
                let high = (last / 16) as u8;
                let low = (last % 16) as u8;
                assert(is_query_char(hex_digit(high)));
                assert(is_query_char(hex_digit(low)));
            }
        }
        let head = percent_encoded(bytes.drop_last());
        let whole = percent_encoded(bytes);
        assert(whole == head + tail);
        assert forall|i: int| 0 <= i < whole.len() implies is_query_char(#[trigger] whole[i]) by {
            if i < head.len() {
                assert(whole[i] == head[i]);
            } else {
                assert(whole[i] == tail[i - head.len()]);
            }
        }
    }
}

/// The encoding of a byte string is the encoding of its first byte, then
/// the encoding of the rest.
pub proof fn lemma_percent_encoded_first(bytes: Seq<u8>)
    requires
        bytes.len() > 0,
    ensures
        percent_encoded(bytes) == escaped_byte(bytes[0]) + percent_encoded(bytes.drop_first()),
    decreases bytes.len(),
{
    let front = bytes.drop_last();
    if front.len() == 0 {
        assert(bytes.drop_first() =~= front);
        assert(percent_encoded(bytes) =~= escaped_byte(bytes[0]) + percent_encoded(front));
    } else {
        lemma_percent_encoded_first(front);
        assert(front.drop_first() =~= bytes.drop_first().drop_last());
        assert(bytes.drop_first().last() == bytes.last());
        assert(percent_encoded(bytes) =~= escaped_byte(bytes[0]) + percent_encoded(
            bytes.drop_first(),
        ));
    }
}

/// Where the encodings of two bytes, each followed by some text, are the same
/// text, the bytes are the same and so is what follows them.
proof fn lemma_escaped_byte_parts(a: u8, rest_a: Seq<char>, b: u8, rest_b: Seq<char>)
    requires
        escaped_byte(a) + rest_a == escaped_byte(b) + rest_b,
    ensures
        a == b,
        rest_a == rest_b,
{
    let left = escaped_byte(a) + rest_a;
    let right = escaped_byte(b) + rest_b;
    assert(left[0] == right[0]);
    assert(left[0] == escaped_byte(a)[0]);
    assert(right[0] == escaped_byte(b)[0]);
    if is_unreserved(a) {
        assert(is_unreserved(b));
        assert(rest_a =~= left.skip(1));
        assert(rest_b =~= right.skip(1));
    } else {
        assert(!is_unreserved(b));
        assert(left[1] == right[1] && left[2] == right[2]);
        assert(left[1] == escaped_byte(a)[1] && left[2] == escaped_byte(a)[2]);
        assert(right[1] == escaped_byte(b)[1] && right[2] == escaped_byte(b)[2]);
        assert(a / 16 == b / 16 && a % 16 == b % 16);
        assert(rest_a =~= left.skip(3));
        assert(rest_b =~= right.skip(3));
    }
}

/// Percent-encoding loses nothing: two byte strings with the same encoding
/// are the same byte string.
pub proof fn lemma_percent_encoded_is_injective(a: Seq<u8>, b: Seq<u8>)
    requires
        percent_encoded(a) == percent_encoded(b),
    ensures
        a == b,
    decreases a.len(),
{
    if a.len() == 0 {
        if b.len() > 0 {
            lemma_percent_encoded_first(b);
            assert(percent_encoded(b).len() > 0);
        }
        assert(a =~= b);
    } else {
        lemma_percent_encoded_first(a);
        if b.len() == 0 {
            assert(percent_encoded(a).len() > 0);
        } else {
            lemma_percent_encoded_first(b);
            lemma_escaped_byte_parts(
                a[0],
                percent_encoded(a.drop_first()),
                b[0],
                percent_encoded(b.drop_first()),
            );
            lemma_percent_encoded_is_injective(a.drop_first(), b.drop_first());
            assert(a =~= seq![a[0]] + a.drop_first());
            assert(b =~= seq![b[0]] + b.drop_first());
        }
    }
}

fn unreserved(byte: u8) -> (r: bool)
    ensures
        r == is_unreserved(byte),
{
    (0x41 <= byte && byte <= 0x5A) || (0x61 <= byte && byte <= 0x7A) || (0x30 <= byte && byte
        <= 0x39) || byte == 0x2D || byte == 0x2E || byte == 0x5F || byte == 0x7E
}

fn hex_char(value: u8) -> (c: char)
    requires
        value < 16,
    ensures
        c == hex_digit(value),
{
    if value < 10 {
        (0x30 + value) as char
    } else {
        (0x37 + value) as char
    }
}

/// Percent-encodes the UTF-8 bytes of `text`.
pub fn percent_encode(text: &str) -> (out: String)
    ensures
        out@ == percent_encoded(encode_utf8(text@)),
{
    let bytes = text.as_bytes();
    let mut out = String::new();
    let mut i: usize = 0;
    while i < bytes.len()
        invariant
            i <= bytes.len(),
            bytes@ == encode_utf8(text@),
            out@ == percent_encoded(bytes@.take(i as int)),
        decreases bytes.len() - i,
    {
        let byte = bytes[i];
        proof {
            assert(bytes@.take(i + 1).drop_last() =~= bytes@.take(i as int));
            assert(bytes@.take(i + 1).last() == byte);
        }
        if unreserved(byte) {
            out.push(byte as char);
            assert(out@ =~= percent_encoded(bytes@.take(i as int)) + seq![byte as char]);
        } else {
            out.push('%');
            out.push(hex_char(byte / 16));
            out.push(hex_char(byte % 16));
            assert(out@ =~= percent_encoded(bytes@.take(i as int)) + seq![
                '%',
                hex_digit(byte / 16),
                hex_digit(byte % 16),
            ]);
        }
        i += 1;
    }
    proof {
        assert(bytes@.take(i as int) =~= bytes@);
    }
    out
}

} // verus!
