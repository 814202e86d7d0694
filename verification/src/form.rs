//! The `application/x-www-form-urlencoded` syntax of a query string.
//!
//! The serializer itself is the `url` crate's. What it writes is stated here
//! as a function of the pairs it is given, and read back by [`parse_query`],
//! the decoder of the same syntax.

use vstd::prelude::*;
use vstd::utf8::decode_utf8;
use vstd::utf8::encode_utf8;
use vstd::utf8::encode_utf8_decode_utf8;
use vstd::utf8::is_ascii_chars;
use vstd::utf8::is_ascii_chars_encode_utf8;
use vstd::utf8::valid_utf8;

verus! {

/// A byte that the syntax writes as itself: a letter or a digit of ASCII,
/// or one of `*`, `-`, `.` and `_`.
pub open spec fn is_unreserved(byte: u8) -> bool {
    ||| 0x30 <= byte <= 0x39
    ||| 0x41 <= byte <= 0x5a
    ||| 0x61 <= byte <= 0x7a
    ||| byte == 0x2a
    ||| byte == 0x2d
    ||| byte == 0x2e
    ||| byte == 0x5f
}

/// The upper-case hexadecimal digit of a value below sixteen.
pub open spec fn hex_digit(value: u8) -> char {
    if value < 10 {
        (0x30 + value) as char
    } else {
        (0x37 + value) as char
    }
}

/// What the syntax writes for one byte: the byte itself where it is
/// unreserved, `+` for a space, and otherwise `%` with two hexadecimal digits.
pub open spec fn encode_byte(byte: u8) -> Seq<char> {
    if is_unreserved(byte) {
        seq![byte as char]
    } else if byte == 0x20 {
        seq!['+']
    } else {
        seq!['%', hex_digit(byte / 16), hex_digit(byte % 16)]
    }
}

/// What the syntax writes for a run of bytes.
pub open spec fn encode_bytes(bytes: Seq<u8>) -> Seq<char>
    decreases bytes.len(),
{
    if bytes.len() == 0 {
        Seq::empty()
    } else {
        encode_byte(bytes[0]) + encode_bytes(bytes.drop_first())
    }
}

/// What the syntax writes for a name or a value: its UTF-8 bytes, encoded.
pub open spec fn form_encode(text: Seq<char>) -> Seq<char> {
    encode_bytes(encode_utf8(text))
}

/// One pair as it stands in a query string.
pub open spec fn pair_text(name: Seq<char>, value: Seq<char>) -> Seq<char> {
    form_encode(name) + seq!['='] + form_encode(value)
}

/// A query string with one more pair at its end, behind a `&` unless it is
/// the first.
pub open spec fn with_pair(query: Seq<char>, name: Seq<char>, value: Seq<char>) -> Seq<char> {
    if query.len() > 0 {
        query + seq!['&'] + pair_text(name, value)
    } else {
        pair_text(name, value)
    }
}

/// The query string of a list of pairs: the pairs in order, joined by `&`.
pub open spec fn serialize_pairs(pairs: Seq<(Seq<char>, Seq<char>)>) -> Seq<char>
    decreases pairs.len(),
{
    if pairs.len() == 0 {
        Seq::empty()
    } else {
        with_pair(serialize_pairs(pairs.drop_last()), pairs.last().0, pairs.last().1)
    }
}

/// Appends one pair to a query string.
///
/// Calls `url::form_urlencoded::Serializer::new` on `query`, then
/// `append_pair` and `finish`. Trusted: the serializer writes `&` where the
/// target is not empty, then the name, `=` and the value, each through its byte
/// serializer, which leaves the unreserved bytes, writes `+` for a space and
/// the percent-encoding of every other byte.
#[verifier::external_body]
pub(crate) fn append_pair(query: String, name: &str, value: &str) -> (longer: String)
    ensures
        longer@ == with_pair(query@, name@, value@),
{
    let mut serializer = url::form_urlencoded::Serializer::new(query);
    serializer.append_pair(name, value);
    serializer.finish()
}

/// Appends one pair to the query string of `pairs`.
pub(crate) fn push_pair(
    query: String,
    Ghost(pairs): Ghost<Seq<(Seq<char>, Seq<char>)>>,
    name: &str,
    value: &str,
) -> (longer: String)
    requires
        query@ == serialize_pairs(pairs),
    ensures
        longer@ == serialize_pairs(pairs.push((name@, value@))),
{
    proof {
        lemma_serialize_push(pairs, name@, value@);
    }
    append_pair(query, name, value)
}

/// The value of a hexadecimal digit, in either case.
pub open spec fn hex_value(digit: char) -> Option<u8> {
    if '0' <= digit <= '9' {
        Some((digit as u8 - 0x30) as u8)
    } else if 'A' <= digit <= 'F' {
        Some((digit as u8 - 0x37) as u8)
    } else if 'a' <= digit <= 'f' {
        Some((digit as u8 - 0x57) as u8)
    } else {
        None
    }
}

/// The bytes that an encoded text stands for: `%` with two hexadecimal digits
/// behind it stands for the byte that they write, `+` for a space, and every
/// other character for its own UTF-8 bytes.
pub open spec fn decode_bytes(text: Seq<char>) -> Seq<u8>
    decreases text.len(),
{
    if text.len() == 0 {
        Seq::empty()
    } else if text[0] == '%' && text.len() >= 3 && hex_value(text[1]) is Some && hex_value(
        text[2],
    ) is Some {
        seq![(hex_value(text[1])->0 * 16 + hex_value(text[2])->0) as u8] + decode_bytes(
            text.skip(3),
        )
    } else if text[0] == '+' {
        seq![0x20u8] + decode_bytes(text.drop_first())
    } else {
        encode_utf8(seq![text[0]]) + decode_bytes(text.drop_first())
    }
}

/// The name or value that an encoded text stands for, where its bytes are
/// UTF-8.
pub open spec fn form_decode(text: Seq<char>) -> Seq<char>
    recommends
        valid_utf8(decode_bytes(text)),
{
    decode_utf8(decode_bytes(text))
}

/// Where the first `mark` stands in a text: its index, or the length of the
/// text where there is none.
pub open spec fn first_at(text: Seq<char>, mark: char) -> int
    decreases text.len(),
{
    if text.len() == 0 || text[0] == mark {
        0
    } else {
        1 + first_at(text.drop_first(), mark)
    }
}

/// The part of a text before its first `mark`: all of it where there is none.
pub open spec fn before(text: Seq<char>, mark: char) -> Seq<char> {
    text.take(first_at(text, mark))
}

/// The part of a text behind its first `mark`: nothing where there is none.
pub open spec fn behind(text: Seq<char>, mark: char) -> Seq<char> {
    if first_at(text, mark) < text.len() {
        text.skip(first_at(text, mark) + 1)
    } else {
        Seq::empty()
    }
}

/// The pair that one segment of a query string stands for: the name before
/// its first `=`, the value behind it.
pub open spec fn parse_pair(segment: Seq<char>) -> (Seq<char>, Seq<char>) {
    (form_decode(before(segment, '=')), form_decode(behind(segment, '=')))
}

/// The pairs that a query string stands for: one for each segment between
/// its `&` that is not empty.
pub open spec fn parse_query(text: Seq<char>) -> Seq<(Seq<char>, Seq<char>)>
    decreases text.len(),
{
    if text.len() == 0 {
        Seq::empty()
    } else {
        proof {
            lemma_first_at_bounds(text, '&');
        }
        if before(text, '&').len() == 0 {
            parse_query(behind(text, '&'))
        } else {
            seq![parse_pair(before(text, '&'))] + parse_query(behind(text, '&'))
        }
    }
}

/// A character that the syntax writes as itself: a letter or a digit of
/// ASCII, or one of `*`, `-`, `.` and `_`.
pub open spec fn is_unreserved_char(c: char) -> bool {
    ||| '0' <= c <= '9'
    ||| 'A' <= c <= 'Z'
    ||| 'a' <= c <= 'z'
    ||| c == '*'
    ||| c == '-'
    ||| c == '.'
    ||| c == '_'
}

/// Whether a text holds nothing but unreserved characters.
pub open spec fn is_plain(text: Seq<char>) -> bool {
    forall|i: int| 0 <= i < text.len() ==> is_unreserved_char(#[trigger] text[i])
}

/// A character that a query string can hold: an unreserved one, the `+` of a
/// space, the `%` of an encoded byte, or one of the marks `=` and `&`.
pub open spec fn is_query_char(c: char) -> bool {
    is_unreserved_char(c) || c == '+' || c == '%' || c == '=' || c == '&'
}

/// Whether a text holds nothing but characters that a query string can hold.
pub open spec fn is_query_text(text: Seq<char>) -> bool {
    forall|i: int| 0 <= i < text.len() ==> is_query_char(#[trigger] text[i])
}

/// Whether a text holds neither `&` nor `=`.
pub open spec fn is_unbroken(text: Seq<char>) -> bool {
    forall|i: int| 0 <= i < text.len() ==> text[i] != '&' && text[i] != '='
}

/// Serializing one pair more appends it to what the others serialize to.
pub proof fn lemma_serialize_push(
    pairs: Seq<(Seq<char>, Seq<char>)>,
    name: Seq<char>,
    value: Seq<char>,
)
    ensures
        serialize_pairs(pairs.push((name, value))) == with_pair(
            serialize_pairs(pairs),
            name,
            value,
        ),
{
    let longer = pairs.push((name, value));
    assert(longer.drop_last() == pairs);
    assert(longer.last() == (name, value));
}

/// The first `mark` stands inside the text or at its end.
pub proof fn lemma_first_at_bounds(text: Seq<char>, mark: char)
    ensures
        0 <= first_at(text, mark) <= text.len(),
        first_at(text, mark) < text.len() ==> text[first_at(text, mark)] == mark,
        forall|i: int| 0 <= i < first_at(text, mark) ==> text[i] != mark,
    decreases text.len(),
{
    if text.len() == 0 || text[0] == mark {
    } else {
        let rest = text.drop_first();
        lemma_first_at_bounds(rest, mark);
        assert forall|i: int| 0 <= i < first_at(text, mark) implies text[i] != mark by {
            if i > 0 {
                assert(text[i] == rest[i - 1]);
            }
        }
    }
}

/// In a text that holds no `mark` before a given place and one at it, that
/// place is where the first `mark` stands.
proof fn lemma_first_at_is(text: Seq<char>, mark: char, at: int)
    requires
        0 <= at <= text.len(),
        forall|i: int| 0 <= i < at ==> text[i] != mark,
        at < text.len() ==> text[at] == mark,
    ensures
        first_at(text, mark) == at,
    decreases text.len(),
{
    if at > 0 {
        let rest = text.drop_first();
        assert forall|i: int| 0 <= i < at - 1 implies rest[i] != mark by {
            assert(rest[i] == text[i + 1]);
        }
        lemma_first_at_is(rest, mark, at - 1);
    }
}

/// A run of unreserved bytes is written as the characters of those bytes.
proof fn lemma_encode_unreserved(bytes: Seq<u8>)
    requires
        forall|i: int| 0 <= i < bytes.len() ==> is_unreserved(#[trigger] bytes[i]),
    ensures
        encode_bytes(bytes) == Seq::new(bytes.len(), |i: int| bytes[i] as char),
    decreases bytes.len(),
{
    if bytes.len() > 0 {
        let rest = bytes.drop_first();
        assert forall|i: int| 0 <= i < rest.len() implies is_unreserved(#[trigger] rest[i]) by {
            assert(rest[i] == bytes[i + 1]);
        }
        lemma_encode_unreserved(rest);
        assert(is_unreserved(bytes[0]));
        assert(encode_bytes(bytes) =~= Seq::new(bytes.len(), |i: int| bytes[i] as char));
    } else {
        assert(encode_bytes(bytes) =~= Seq::new(bytes.len(), |i: int| bytes[i] as char));
    }
}

/// A text of unreserved characters is encoded as itself.
pub proof fn lemma_encode_plain(text: Seq<char>)
    requires
        is_plain(text),
    ensures
        form_encode(text) == text,
{
    let bytes = encode_utf8(text);
    assert(is_ascii_chars(text)) by {
        assert forall|i: int| 0 <= i < text.len() implies '\0' <= #[trigger] text[i]
            <= '\u{7f}' by {
            assert(is_unreserved_char(text[i]));
        }
    }
    is_ascii_chars_encode_utf8(text);
    assert forall|i: int| 0 <= i < bytes.len() implies is_unreserved(#[trigger] bytes[i]) by {
        assert(bytes[i] == text[i] as u8);
        assert(is_unreserved_char(text[i]));
    }
    lemma_encode_unreserved(bytes);
    assert(form_encode(text) =~= text) by {
        assert forall|i: int| 0 <= i < text.len() implies form_encode(text)[i] == text[i] by {
            assert(bytes[i] == text[i] as u8);
            assert(is_unreserved_char(text[i]));
        }
    }
}

/// What is written for a run of bytes holds nothing but characters that a
/// query string can hold, whatever the bytes are.
proof fn lemma_encoded_bytes_chars(bytes: Seq<u8>)
    ensures
        is_query_text(encode_bytes(bytes)),
    decreases bytes.len(),
{
    if bytes.len() > 0 {
        let first = encode_byte(bytes[0]);
        let rest = encode_bytes(bytes.drop_first());
        lemma_encoded_bytes_chars(bytes.drop_first());
        assert(is_query_text(first)) by {
            let byte = bytes[0];
            assert(is_unreserved_char(hex_digit(byte / 16)));
            assert(is_unreserved_char(hex_digit(byte % 16)));
            if is_unreserved(byte) {
                assert(is_unreserved_char(byte as char));
            }
        }
        assert forall|i: int| 0 <= i < (first + rest).len() implies is_query_char(
            #[trigger] (first + rest)[i],
        ) by {
            if i < first.len() {
                assert((first + rest)[i] == first[i]);
            } else {
                assert((first + rest)[i] == rest[i - first.len()]);
            }
        }
    }
}

/// A query string holds nothing but characters that a query string can hold,
/// whatever characters the names and values of its pairs hold: none is left
/// out, and none stands in it as it is unless it is unreserved.
pub proof fn lemma_serialized_chars(pairs: Seq<(Seq<char>, Seq<char>)>)
    ensures
        is_query_text(serialize_pairs(pairs)),
    decreases pairs.len(),
{
    if pairs.len() > 0 {
        let front = serialize_pairs(pairs.drop_last());
        let name = form_encode(pairs.last().0);
        let value = form_encode(pairs.last().1);
        lemma_serialized_chars(pairs.drop_last());
        lemma_encoded_bytes_chars(encode_utf8(pairs.last().0));
        lemma_encoded_bytes_chars(encode_utf8(pairs.last().1));
        let pair = name + seq!['='] + value;
        assert forall|i: int| 0 <= i < pair.len() implies is_query_char(#[trigger] pair[i]) by {
            if i < name.len() {
                assert(pair[i] == name[i]);
            } else if i > name.len() {
                assert(pair[i] == value[i - name.len() - 1]);
            }
        }
        let all = serialize_pairs(pairs);
        assert forall|i: int| 0 <= i < all.len() implies is_query_char(#[trigger] all[i]) by {
            if front.len() > 0 {
                if i < front.len() {
                    assert(all[i] == front[i]);
                } else if i > front.len() {
                    assert(all[i] == pair[i - front.len() - 1]);
                }
            }
        }
    }
}

/// What is written for one byte stands for that byte again, and holds neither
/// `&` nor `=`.
proof fn lemma_decode_encoded_byte(byte: u8, tail: Seq<char>)
    ensures
        decode_bytes(encode_byte(byte) + tail) == seq![byte] + decode_bytes(tail),
        is_unbroken(encode_byte(byte)),
{
    let text = encode_byte(byte) + tail;
    if is_unreserved(byte) {
        let c = byte as char;
        assert(text[0] == c);
        assert(text.drop_first() == tail);
        assert(is_ascii_chars(seq![c]));
        is_ascii_chars_encode_utf8(seq![c]);
        assert(encode_utf8(seq![c]) == seq![byte]);
    } else if byte == 0x20 {
        assert(text[0] == '+');
        assert(text.drop_first() == tail);
    } else {
        let high = hex_digit(byte / 16);
        let low = hex_digit(byte % 16);
        assert(text[0] == '%' && text[1] == high && text[2] == low);
        assert(text.skip(3) == tail);
        assert(hex_value(high) == Some((byte / 16) as u8));
        assert(hex_value(low) == Some((byte % 16) as u8));
        assert((byte / 16) * 16 + byte % 16 == byte);
    }
}

/// What is written for a run of bytes stands for those bytes again, and
/// holds neither `&` nor `=`.
proof fn lemma_decode_encoded_bytes(bytes: Seq<u8>)
    ensures
        decode_bytes(encode_bytes(bytes)) == bytes,
        is_unbroken(encode_bytes(bytes)),
    decreases bytes.len(),
{
    if bytes.len() > 0 {
        let rest = encode_bytes(bytes.drop_first());
        lemma_decode_encoded_bytes(bytes.drop_first());
        lemma_decode_encoded_byte(bytes[0], rest);
        assert(seq![bytes[0]] + bytes.drop_first() == bytes);
    }
}

/// Decoding what a name or a value is encoded to gives it back, and the
/// encoded text holds neither `&` nor `=`.
pub proof fn lemma_decode_encode(text: Seq<char>)
    ensures
        form_decode(form_encode(text)) == text,
        is_unbroken(form_encode(text)),
{
    lemma_decode_encoded_bytes(encode_utf8(text));
    encode_utf8_decode_utf8(text);
}

/// A pair as it stands in a query string is read back as that pair, is not
/// empty and holds no `&`.
pub proof fn lemma_parse_pair(name: Seq<char>, value: Seq<char>)
    ensures
        parse_pair(pair_text(name, value)) == (name, value),
        pair_text(name, value).len() > 0,
        forall|i: int|
            0 <= i < pair_text(name, value).len() ==> pair_text(name, value)[i] != '&',
{
    let left = form_encode(name);
    let right = form_encode(value);
    let text = pair_text(name, value);
    lemma_decode_encode(name);
    lemma_decode_encode(value);
    assert(text[left.len() as int] == '=');
    lemma_first_at_is(text, '=', left.len() as int);
    assert(before(text, '=') == left);
    assert(behind(text, '=') == right);
}

/// A query string made of two, with `&` between them, stands for the pairs of
/// the first and then those of the second.
proof fn lemma_parse_joined(left: Seq<char>, right: Seq<char>)
    ensures
        parse_query(left + seq!['&'] + right) == parse_query(left) + parse_query(right),
    decreases left.len(),
{
    let text = left + seq!['&'] + right;
    let at = first_at(left, '&');
    lemma_first_at_bounds(left, '&');
    assert(text[at] == '&') by {
        if at < left.len() {
            assert(text[at] == left[at]);
        }
    }
    assert forall|i: int| 0 <= i < at implies text[i] != '&' by {
        assert(text[i] == left[i]);
    }
    lemma_first_at_is(text, '&', at);
    assert(before(text, '&') == before(left, '&'));
    if at < left.len() {
        let rest = behind(left, '&');
        assert(behind(text, '&') == rest + seq!['&'] + right);
        lemma_parse_joined(rest, right);
        assert(parse_query(text) == parse_query(left) + parse_query(right)) by {
            if before(left, '&').len() == 0 {
            } else {
                let head = seq![parse_pair(before(left, '&'))];
                assert(head + (parse_query(rest) + parse_query(right)) == (head + parse_query(
                    rest,
                )) + parse_query(right));
            }
        }
    } else {
        assert(before(left, '&') == left);
        assert(behind(text, '&') == right);
        assert(behind(left, '&') == Seq::<char>::empty());
        if left.len() == 0 {
            assert(parse_query(left) + parse_query(right) == parse_query(right));
        } else {
            assert(parse_query(left) == seq![parse_pair(left)]) by {
                let none = Seq::<(Seq<char>, Seq<char>)>::empty();
                assert(parse_query(Seq::<char>::empty()) == none);
                assert(seq![parse_pair(left)] + none == seq![parse_pair(left)]);
            }
        }
    }
}

/// A query string is empty only where it holds no pair.
pub proof fn lemma_serialized_len(pairs: Seq<(Seq<char>, Seq<char>)>)
    ensures
        serialize_pairs(pairs).len() > 0 <==> pairs.len() > 0,
{
    if pairs.len() > 0 {
        lemma_parse_pair(pairs.last().0, pairs.last().1);
    }
}

/// One pair more, with a name of unreserved characters, adds to a query
/// string that is not empty its `lead`, which is `&`, the name and `=`, and
/// then the encoded value.
pub proof fn lemma_serialize_plain_name(
    pairs: Seq<(Seq<char>, Seq<char>)>,
    name: Seq<char>,
    value: Seq<char>,
    lead: Seq<char>,
)
    requires
        is_plain(name),
        pairs.len() > 0,
        lead == seq!['&'] + name + seq!['='],
    ensures
        serialize_pairs(pairs.push((name, value))) == serialize_pairs(pairs) + lead + form_encode(
            value,
        ),
{
    let query = serialize_pairs(pairs);
    lemma_serialize_push(pairs, name, value);
    lemma_serialized_len(pairs);
    lemma_encode_plain(name);
    assert(query + seq!['&'] + (name + seq!['='] + form_encode(value)) =~= query + lead
        + form_encode(value));
}

/// Reading the query string of a list of pairs gives the list back, whatever
/// characters its names and values hold.
pub proof fn lemma_parse_serialized(pairs: Seq<(Seq<char>, Seq<char>)>)
    ensures
        parse_query(serialize_pairs(pairs)) == pairs,
    decreases pairs.len(),
{
    if pairs.len() > 0 {
        let front = pairs.drop_last();
        let (name, value) = pairs.last();
        let last = pair_text(name, value);
        lemma_parse_serialized(front);
        lemma_serialized_len(front);
        lemma_parse_pair(name, value);
        assert(parse_query(last) == seq![(name, value)]) by {
            lemma_first_at_is(last, '&', last.len() as int);
            assert(before(last, '&') == last);
            assert(behind(last, '&') == Seq::<char>::empty());
            let none = Seq::<(Seq<char>, Seq<char>)>::empty();
            assert(parse_query(Seq::<char>::empty()) == none);
            assert(seq![(name, value)] + none == seq![(name, value)]);
        }
        if front.len() > 0 {
            lemma_parse_joined(serialize_pairs(front), last);
        }
        assert(front + seq![(name, value)] == pairs);
    }
}

} // verus!
