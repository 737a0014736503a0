//! Percent-encoding of query-string components.
use vstd::prelude::*;
use vstd::string::*;
use crate::chars::push_char;

verus! {

/// Bytes that stand for themselves in an escaped component:
/// ASCII letters, digits and `-`, `_`, `.`, `~`.
pub open spec fn is_unreserved(b: u8) -> bool {
    ||| 65 <= b <= 90
    ||| 97 <= b <= 122
    ||| 48 <= b <= 57
    ||| b == 45
    ||| b == 95
    ||| b == 46
    ||| b == 126
}

/// Upper-case hexadecimal digit of a value below 16.
pub open spec fn hex_digit(n: int) -> char {
    if n < 10 {
        (48 + n) as char
    } else {
        (55 + n) as char
    }
}

/// The text that one byte becomes: itself when unreserved, `%XY` otherwise.
pub open spec fn escape_byte(b: u8) -> Seq<char> {
    if is_unreserved(b) {
        seq![b as char]
    } else {
        seq!['%', hex_digit((b / 16) as int), hex_digit((b % 16) as int)]
    }
}

/// The escaped form of a byte sequence, byte by byte from the front.
pub open spec fn escape_bytes(bytes: Seq<u8>) -> Seq<char>
    decreases bytes.len(),
{
    if bytes.len() == 0 {
        Seq::empty()
    } else {
        escape_byte(bytes[0]) + escape_bytes(bytes.drop_first())
    }
}

/// The escaped form of a text: its UTF-8 bytes, escaped.
pub open spec fn escape_text(text: Seq<char>) -> Seq<char> {
    escape_bytes(vstd::utf8::encode_utf8(text))
}

/// Escaping distributes over concatenation.
pub proof fn lemma_escape_bytes_append(a: Seq<u8>, b: Seq<u8>)
    ensures
        escape_bytes(a + b) == escape_bytes(a) + escape_bytes(b),
    decreases a.len(),
{
    if a.len() == 0 {
        assert(a + b =~= b);
    } else {
        lemma_escape_bytes_append(a.drop_first(), b);
        assert((a + b).drop_first() =~= a.drop_first() + b);
        assert(escape_byte(a[0]) + (escape_bytes(a.drop_first()) + escape_bytes(b))
            =~= (escape_byte(a[0]) + escape_bytes(a.drop_first())) + escape_bytes(b));
    }
}

proof fn lemma_escape_bytes_single(b: u8)
    ensures
        escape_bytes(seq![b]) == escape_byte(b),
{
    assert(seq![b].drop_first() =~= Seq::<u8>::empty());
    assert(escape_bytes(Seq::<u8>::empty()) =~= Seq::<char>::empty());
    assert(escape_byte(b) + Seq::<char>::empty() =~= escape_byte(b));
}

/// The characters an escaped text can hold: ASCII letters, digits, `-`, `_`,
/// `.`, `~` and `%`. None of the separators of a URL (`&`, `=`, `?`, `#`, `/`,
/// `+`, space) is among them.
pub open spec fn is_escape_char(c: char) -> bool {
    ||| 'A' <= c <= 'Z'
    ||| 'a' <= c <= 'z'
    ||| '0' <= c <= '9'
    ||| c == '-'
    ||| c == '_'
    ||| c == '.'
    ||| c == '~'
    ||| c == '%'
}

/// Value of an upper-case hexadecimal digit.
pub open spec fn hex_value(c: char) -> int {
    if c <= '9' {
        c as int - 48
    } else {
        c as int - 55
    }
}

/// Percent-decoding: `%XY` stands for the byte with hexadecimal value `XY`,
/// any other character for its own code.
pub open spec fn unescape(text: Seq<char>) -> Seq<u8>
    decreases text.len(),
{
    if text.len() == 0 {
        Seq::empty()
    } else if text[0] == '%' && text.len() >= 3 {
        seq![(hex_value(text[1]) * 16 + hex_value(text[2])) as u8] + unescape(text.skip(3))
    } else {
        seq![text[0] as u8] + unescape(text.drop_first())
    }
}

proof fn lemma_escape_bytes_safe(bytes: Seq<u8>)
    ensures
        forall|i: int|
            0 <= i < escape_bytes(bytes).len() ==> is_escape_char(#[trigger] escape_bytes(bytes)[i]),
    decreases bytes.len(),
{
    if bytes.len() > 0 {
        lemma_escape_bytes_safe(bytes.drop_first());
        let head = escape_byte(bytes[0]);
        let tail = escape_bytes(bytes.drop_first());
        assert forall|i: int| 0 <= i < (head + tail).len() implies is_escape_char(
            #[trigger] (head + tail)[i],
        ) by {
            if i >= head.len() {
                assert((head + tail)[i] == tail[i - head.len()]);
            }
        }
    }
}

/// An escaped text holds no character but ASCII letters, digits, `-`, `_`,
/// `.`, `~` and `%`: a value can never add a separator to the query it is
/// placed in.
pub proof fn lemma_escape_is_url_safe(text: Seq<char>)
    ensures
        forall|i: int|
            0 <= i < escape_text(text).len() ==> is_escape_char(#[trigger] escape_text(text)[i]),
{
    lemma_escape_bytes_safe(vstd::utf8::encode_utf8(text));
}

/// Percent-decoding an escaped byte sequence gives the bytes back.
pub proof fn lemma_unescape_escape_bytes(bytes: Seq<u8>)
    ensures
        unescape(escape_bytes(bytes)) == bytes,
    decreases bytes.len(),
{
    if bytes.len() > 0 {
        let b = bytes[0];
        let rest = bytes.drop_first();
        let s = escape_bytes(bytes);
        lemma_unescape_escape_bytes(rest);
        if is_unreserved(b) {
            assert(s.drop_first() =~= escape_bytes(rest));
            assert(s[0] == b as char);
            assert(s[0] as u8 == b);
        } else {
            assert(s.skip(3) =~= escape_bytes(rest));
            assert(s[0] == '%');
            assert(hex_value(s[1]) == b / 16);
            assert(hex_value(s[2]) == b % 16);
        }
        assert(bytes =~= seq![b] + rest);
    }
}

/// Percent-decoding the escaped form of a text gives back its UTF-8 bytes,
/// so the receiver of a query recovers every value exactly.
pub proof fn lemma_query_escape_roundtrip(text: Seq<char>)
    ensures
        unescape(escape_text(text)) == vstd::utf8::encode_utf8(text),
{
    lemma_unescape_escape_bytes(vstd::utf8::encode_utf8(text));
}

/// Two texts with the same escaped form are the same text.
pub proof fn lemma_query_escape_injective(a: Seq<char>, b: Seq<char>)
    requires
        escape_text(a) == escape_text(b),
    ensures
        a == b,
{
    broadcast use vstd::utf8::encode_utf8_decode_utf8;

    lemma_query_escape_roundtrip(a);
    lemma_query_escape_roundtrip(b);
    assert(vstd::utf8::decode_utf8(vstd::utf8::encode_utf8(a)) == a);
    assert(vstd::utf8::decode_utf8(vstd::utf8::encode_utf8(b)) == b);
}

/// The length of the escaped form of a byte sequence: one character for
/// each unreserved byte, three for each other byte.
pub open spec fn escaped_len(bytes: Seq<u8>) -> nat
    decreases bytes.len(),
{
    if bytes.len() == 0 {
        0
    } else {
        (if is_unreserved(bytes[0]) {
            1nat
        } else {
            3nat
        }) + escaped_len(bytes.drop_first())
    }
}

/// The escaped form of a byte sequence has one character per unreserved
/// byte and three per other byte.
pub proof fn lemma_escape_bytes_len(bytes: Seq<u8>)
    ensures
        escape_bytes(bytes).len() == escaped_len(bytes),
    decreases bytes.len(),
{
    if bytes.len() > 0 {
        lemma_escape_bytes_len(bytes.drop_first());
    }
}

/// The escaped form of a text has one character for each unreserved byte
/// of its UTF-8 encoding and three for each other byte.
pub proof fn lemma_escape_text_len(text: Seq<char>)
    ensures
        escape_text(text).len() == escaped_len(vstd::utf8::encode_utf8(text)),
{
    lemma_escape_bytes_len(vstd::utf8::encode_utf8(text));
}

/// Characters that stand for themselves in an escaped text: ASCII letters,
/// digits and `-`, `_`, `.`, `~`.
pub open spec fn is_unreserved_char(c: char) -> bool {
    ||| 'A' <= c <= 'Z'
    ||| 'a' <= c <= 'z'
    ||| '0' <= c <= '9'
    ||| c == '-'
    ||| c == '_'
    ||| c == '.'
    ||| c == '~'
}

proof fn lemma_escape_text_first(text: Seq<char>)
    requires
        text.len() > 0,
    ensures
        escape_text(text) == escape_bytes(vstd::utf8::encode_scalar(text[0] as u32)) + escape_text(
            text.drop_first(),
        ),
{
    lemma_escape_bytes_append(
        vstd::utf8::encode_scalar(text[0] as u32),
        vstd::utf8::encode_utf8(text.drop_first()),
    );
}

proof fn lemma_escape_char(c: char)
    ensures
        is_unreserved_char(c) ==> escape_bytes(vstd::utf8::encode_scalar(c as u32)) == seq![c],
        !is_unreserved_char(c) ==> escape_bytes(vstd::utf8::encode_scalar(c as u32)).len() >= 3,
{
    let v = c as u32;
    let bytes = vstd::utf8::encode_scalar(v);
    lemma_escape_bytes_len(bytes);
    if v <= 0x7F {
        let b = (v & 0x7F) as u8;
        assert(b as u32 == v) by (bit_vector)
            requires
                v <= 0x7F,
                b == (v & 0x7F) as u8,
        ;
        assert(bytes == seq![b]);
        lemma_escape_bytes_single(b);
        assert(is_unreserved(b) <==> is_unreserved_char(c));
        if is_unreserved(b) {
            assert((b as char) == c);
        }
    } else {
        vstd::utf8::char_is_scalar(c);
        assert(bytes.len() >= 2);
        assert(!is_unreserved(bytes[0])) by {
            if 0x80 <= v <= 0x7FF {
                let x = vstd::utf8::leading_byte_width_2(v);
                assert(x >= 0x80) by (bit_vector)
                    requires
                        x == 0xC0u8 | ((v >> 6) & 0x1F) as u8,
                ;
            } else if 0x800 <= v <= 0xFFFF {
                let x = vstd::utf8::leading_byte_width_3(v);
                assert(x >= 0x80) by (bit_vector)
                    requires
                        x == 0xE0u8 | ((v >> 12) & 0x0F) as u8,
                ;
            } else {
                let x = vstd::utf8::leading_byte_width_4(v);
                assert(x >= 0x80) by (bit_vector)
                    requires
                        x == 0xF0u8 | ((v >> 18) & 0x7) as u8,
                ;
            }
        }
    }
}

/// Escaping leaves a text unchanged exactly when every character of it is
/// an ASCII letter, a digit, `-`, `_`, `.` or `~`.
pub proof fn lemma_escape_identity_iff_unreserved(text: Seq<char>)
    ensures
        escape_text(text) == text <==> forall|i: int|
            0 <= i < text.len() ==> is_unreserved_char(#[trigger] text[i]),
        escape_text(text).len() >= text.len(),
    decreases text.len(),
{
    if text.len() == 0 {
        assert(escape_text(text) =~= text);
    } else {
        let c = text[0];
        let rest = text.drop_first();
        lemma_escape_identity_iff_unreserved(rest);
        lemma_escape_text_first(text);
        lemma_escape_char(c);
        let head = escape_bytes(vstd::utf8::encode_scalar(c as u32));
        if forall|i: int| 0 <= i < text.len() ==> is_unreserved_char(#[trigger] text[i]) {
            assert(is_unreserved_char(text[0]));
            assert forall|i: int| 0 <= i < rest.len() implies is_unreserved_char(
                #[trigger] rest[i],
            ) by {
                assert(rest[i] == text[i + 1]);
            }
            assert(escape_text(text) =~= seq![c] + rest);
            assert(seq![c] + rest =~= text);
        } else {
            let k = choose|k: int| 0 <= k < text.len() && !is_unreserved_char(#[trigger] text[k]);
            if escape_text(text) == text {
                if is_unreserved_char(c) {
                    assert(k > 0);
                    assert(rest[k - 1] == text[k]);
                    assert(escape_text(text) == seq![c] + escape_text(rest));
                    assert(escape_text(rest) =~= escape_text(text).drop_first());
                    assert(text.drop_first() == rest);
                } else {
                    assert(escape_text(text).len() >= 3 + rest.len());
                }
            }
        }
    }
}

fn hex_char(n: u8) -> (c: char)
    requires
        n < 16,
    ensures
        c == hex_digit(n as int),
{
    if n < 10 {
        (48 + n) as char
    } else {
        (55 + n) as char
    }
}

/// Percent-encodes `input` for use as one query-string or path component:
/// every UTF-8 byte of `input` that is not an ASCII letter, digit, `-`, `_`,
/// `.` or `~` becomes `%` followed by two upper-case hexadecimal digits.
pub fn query_escape(input: &str) -> (escaped: String)
    ensures
        escaped@ == escape_text(input@),
{
    let bytes = input.as_bytes();
    let mut out = String::new();
    let mut i: usize = 0;
    while i < bytes.len()
        invariant
            i <= bytes@.len(),
            bytes@ == vstd::utf8::encode_utf8(input@),
            out@ == escape_bytes(bytes@.take(i as int)),
        decreases bytes@.len() - i,
    {
        let b = bytes[i];
        proof {
            assert(bytes@.take(i + 1) =~= bytes@.take(i as int) + seq![b]);
            lemma_escape_bytes_append(bytes@.take(i as int), seq![b]);
            lemma_escape_bytes_single(b);
        }
        if (65 <= b && b <= 90) || (97 <= b && b <= 122) || (48 <= b && b <= 57) || b == 45
            || b == 95 || b == 46 || b == 126 {
            push_char(&mut out, b as char);
            assert(out@ =~= escape_bytes(bytes@.take(i as int)) + seq![b as char]);
        } else {
            push_char(&mut out, '%');
            push_char(&mut out, hex_char(b / 16));
            push_char(&mut out, hex_char(b % 16));
            assert(out@ =~= escape_bytes(bytes@.take(i as int)) + seq![
                '%',
                hex_digit((b / 16) as int),
                hex_digit((b % 16) as int),
            ]);
        }
        i = i + 1;
    }
    assert(bytes@.take(bytes@.len() as int) =~= bytes@);
    out
}

} // verus!
