//! Documents as text.
//!
//! The text is a list of tokens: bytes, and floating-point numbers that are
//! left to be written by whoever holds the text, since their digits are not
//! decided here. A document without floating-point numbers is all bytes.
use vstd::prelude::*;
use crate::json::{lemma_array_view, lemma_object_view, spec_items, spec_members, Json, JsonValue};

verus! {

/// The quotation mark.
pub const QUOTE: u8 = 0x22;

/// The backslash.
pub const BACKSLASH: u8 = 0x5c;

/// The comma between the parts of a list or an object.
pub const COMMA: u8 = 0x2c;

/// The colon between a name and its value.
pub const COLON: u8 = 0x3a;

/// The bracket that opens a list.
pub const OPEN_BRACKET: u8 = 0x5b;

/// The bracket that closes a list.
pub const CLOSE_BRACKET: u8 = 0x5d;

/// The brace that opens an object.
pub const OPEN_BRACE: u8 = 0x7b;

/// The brace that closes an object.
pub const CLOSE_BRACE: u8 = 0x7d;

/// The minus sign.
pub const MINUS: u8 = 0x2d;

/// The digit zero.
pub const DIGIT_ZERO: u8 = 0x30;

/// One piece of the text of a document.
#[derive(Debug, Clone, Copy, PartialEq, Eq, Structural)]
pub enum Token {
    /// A byte of the text.
    Byte(u8),
    /// A single-precision number to be written in its place, by its bits.
    Single(u32),
    /// A double-precision number to be written in its place, by its bits.
    Double(u64),
}

/// Bytes as tokens.
pub open spec fn spec_bytes(bytes: Seq<u8>) -> Seq<Token> {
    Seq::new(bytes.len(), |i: int| Token::Byte(bytes[i]))
}

/// The byte of a hexadecimal digit, in lower case.
pub open spec fn spec_hex(d: u8) -> u8 {
    if d < 10 {
        (DIGIT_ZERO + d) as u8
    } else {
        (0x61 + d - 10) as u8
    }
}

/// How a byte of a text is written between quotes: the quote and the
/// backslash after a backslash, the control bytes by their short names or
/// by their number, every other byte as it is.
pub open spec fn spec_escape_byte(b: u8) -> Seq<u8> {
    if b == QUOTE {
        seq![BACKSLASH, QUOTE]
    } else if b == BACKSLASH {
        seq![BACKSLASH, BACKSLASH]
    } else if b == 0x08 {
        seq![BACKSLASH, 0x62u8]
    } else if b == 0x0c {
        seq![BACKSLASH, 0x66u8]
    } else if b == 0x0a {
        seq![BACKSLASH, 0x6eu8]
    } else if b == 0x0d {
        seq![BACKSLASH, 0x72u8]
    } else if b == 0x09 {
        seq![BACKSLASH, 0x74u8]
    } else if b < 0x20 {
        seq![BACKSLASH, 0x75u8, DIGIT_ZERO, DIGIT_ZERO, spec_hex(b / 16), spec_hex(b % 16)]
    } else {
        seq![b]
    }
}

/// The bytes of a text as they are written between quotes.
pub open spec fn spec_escape(bytes: Seq<u8>) -> Seq<u8>
    decreases bytes.len(),
{
    if bytes.len() == 0 {
        Seq::empty()
    } else {
        spec_escape(bytes.drop_last()) + spec_escape_byte(bytes.last())
    }
}

/// A text between quotes.
pub open spec fn spec_string(text: Seq<char>) -> Seq<u8> {
    seq![QUOTE] + spec_escape(vstd::utf8::encode_utf8(text)) + seq![QUOTE]
}

/// A number in decimal digits, without leading zeros.
pub open spec fn spec_digits(n: nat) -> Seq<u8>
    decreases n,
{
    if n < 10 {
        seq![(DIGIT_ZERO + n) as u8]
    } else {
        spec_digits(n / 10).push((DIGIT_ZERO + n % 10) as u8)
    }
}

/// A whole number: a minus sign if it is negative, then its digits.
pub open spec fn spec_integer(n: int) -> Seq<u8> {
    if n < 0 {
        seq![MINUS] + spec_digits((-n) as nat)
    } else {
        spec_digits(n as nat)
    }
}

/// The word `null`.
pub open spec fn spec_null() -> Seq<u8> {
    seq![0x6eu8, 0x75u8, 0x6cu8, 0x6cu8]
}

/// The word `true`.
pub open spec fn spec_true() -> Seq<u8> {
    seq![0x74u8, 0x72u8, 0x75u8, 0x65u8]
}

/// The word `false`.
pub open spec fn spec_false() -> Seq<u8> {
    seq![0x66u8, 0x61u8, 0x6cu8, 0x73u8, 0x65u8]
}

/// Texts in a row with commas between them.
pub open spec fn spec_join(parts: Seq<Seq<Token>>) -> Seq<Token>
    decreases parts.len(),
{
    if parts.len() == 0 {
        Seq::empty()
    } else if parts.len() == 1 {
        parts[0]
    } else {
        spec_join(parts.drop_last()) + seq![Token::Byte(COMMA)] + parts.last()
    }
}

/// The text of a document, without any space: `null`, `true` and `false`,
/// whole numbers in decimal digits, floating-point numbers as tokens of
/// their own, texts between quotes, lists between square brackets and
/// objects between braces, their members in their order.
pub open spec fn spec_text(document: Json) -> Seq<Token>
    decreases document,
{
    match document {
        Json::Null => spec_bytes(spec_null()),
        Json::Bool(b) => if b {
            spec_bytes(spec_true())
        } else {
            spec_bytes(spec_false())
        },
        Json::Unsigned(n) => spec_bytes(spec_integer(n as int)),
        Json::Signed(n) => spec_bytes(spec_integer(n as int)),
        Json::Single(bits) => seq![Token::Single(bits)],
        Json::Double(bits) => seq![Token::Double(bits)],
        Json::Text(text) => spec_bytes(spec_string(text)),
        Json::Array(items) => seq![Token::Byte(OPEN_BRACKET)] + spec_join(spec_item_texts(items)) + seq![
            Token::Byte(CLOSE_BRACKET),
        ],
        Json::Object(members) => seq![Token::Byte(OPEN_BRACE)] + spec_join(spec_member_texts(members))
            + seq![Token::Byte(CLOSE_BRACE)],
    }
}

/// The texts of a list of documents.
pub open spec fn spec_item_texts(items: Seq<Json>) -> Seq<Seq<Token>>
    decreases items,
{
    Seq::new(
        items.len(),
        |i: int| if 0 <= i < items.len() { spec_text(items[i]) } else { Seq::empty() },
    )
}

/// The texts of a list of members: of each its name between quotes, a
/// colon, and its value.
pub open spec fn spec_member_texts(members: Seq<(Seq<char>, Json)>) -> Seq<Seq<Token>>
    decreases members,
{
    Seq::new(
        members.len(),
        |i: int| if 0 <= i < members.len() {
            spec_bytes(spec_string(members[i].0)) + seq![Token::Byte(COLON)] + spec_text(
                members[i].1,
            )
        } else {
            Seq::empty()
        },
    )
}

/// One more part is joined with a comma, unless it is the first.
pub proof fn lemma_join_push(parts: Seq<Seq<Token>>, part: Seq<Token>)
    ensures
        spec_join(parts.push(part)) == if parts.len() == 0 {
            part
        } else {
            spec_join(parts) + seq![Token::Byte(COMMA)] + part
        },
{
    assert(parts.push(part).drop_last() =~= parts);
}

/// Adds bytes to a text.
fn push_bytes(out: &mut Vec<Token>, bytes: &[u8])
    ensures
        final(out)@ == old(out)@ + spec_bytes(bytes@),
{
    let mut i: usize = 0;
    while i < bytes.len()
        invariant
            i <= bytes.len(),
            out@ == old(out)@ + spec_bytes(bytes@.take(i as int)),
        decreases bytes.len() - i,
    {
        out.push(Token::Byte(bytes[i]));
        i += 1;
    }
}

/// The byte of a hexadecimal digit, in lower case.
fn hex(d: u8) -> (r: u8)
    requires
        d < 16,
    ensures
        r == spec_hex(d),
{
    if d < 10 {
        DIGIT_ZERO + d
    } else {
        0x61 + d - 10
    }
}

/// Adds a byte of a text as it is written between quotes.
fn push_escaped_byte(out: &mut Vec<Token>, b: u8)
    ensures
        final(out)@ == old(out)@ + spec_bytes(spec_escape_byte(b)),
{
    if b == QUOTE || b == BACKSLASH {
        out.push(Token::Byte(BACKSLASH));
        out.push(Token::Byte(b));
    } else if b == 0x08 {
        out.push(Token::Byte(BACKSLASH));
        out.push(Token::Byte(0x62));
    } else if b == 0x0c {
        out.push(Token::Byte(BACKSLASH));
        out.push(Token::Byte(0x66));
    } else if b == 0x0a {
        out.push(Token::Byte(BACKSLASH));
        out.push(Token::Byte(0x6e));
    } else if b == 0x0d {
        out.push(Token::Byte(BACKSLASH));
        out.push(Token::Byte(0x72));
    } else if b == 0x09 {
        out.push(Token::Byte(BACKSLASH));
        out.push(Token::Byte(0x74));
    } else if b < 0x20 {
        out.push(Token::Byte(BACKSLASH));
        out.push(Token::Byte(0x75));
        out.push(Token::Byte(DIGIT_ZERO));
        out.push(Token::Byte(DIGIT_ZERO));
        out.push(Token::Byte(hex(b / 16)));
        out.push(Token::Byte(hex(b % 16)));
    } else {
        out.push(Token::Byte(b));
    }
}

/// Adds a text between quotes.
fn push_string(out: &mut Vec<Token>, text: &str)
    ensures
        final(out)@ == old(out)@ + spec_bytes(spec_string(text@)),
{
    let bytes = text.as_bytes();
    out.push(Token::Byte(QUOTE));
    let ghost start = out@;
    let mut i: usize = 0;
    while i < bytes.len()
        invariant
            i <= bytes.len(),
            out@ == start + spec_bytes(spec_escape(bytes@.take(i as int))),
        decreases bytes.len() - i,
    {
        let ghost so_far = bytes@.take(i as int);
        let ghost next = bytes@.take(i as int + 1);
        proof {
            assert(next.drop_last() =~= so_far);
        }
        push_escaped_byte(out, bytes[i]);
        i += 1;
    }
    assert(bytes@.take(i as int) =~= bytes@);
    out.push(Token::Byte(QUOTE));
    proof {
        let inner = spec_escape(bytes@);
        assert(spec_bytes(spec_string(text@)) =~= seq![Token::Byte(QUOTE)] + spec_bytes(inner)
            + seq![Token::Byte(QUOTE)]);
    }
}

/// Adds a number in decimal digits.
fn push_digits(out: &mut Vec<Token>, n: u64)
    ensures
        final(out)@ == old(out)@ + spec_bytes(spec_digits(n as nat)),
    decreases n,
{
    if n >= 10 {
        push_digits(out, n / 10);
    }
    out.push(Token::Byte(DIGIT_ZERO + (n % 10) as u8));
}

/// Adds a whole number.
fn push_signed(out: &mut Vec<Token>, n: i64)
    ensures
        final(out)@ == old(out)@ + spec_bytes(spec_integer(n as int)),
{
    if n < 0 {
        out.push(Token::Byte(MINUS));
        let magnitude: u64 = (-(n as i128)) as u64;
        push_digits(out, magnitude);
    } else {
        push_digits(out, n as u64);
    }
}

impl JsonValue {
    /// Adds the text of the document to a text.
    pub fn write(&self, out: &mut Vec<Token>)
        ensures
            final(out)@ == old(out)@ + spec_text(self@),
        decreases self,
    {
        match self {
            JsonValue::Null => {
                let word: [u8; 4] = [0x6e, 0x75, 0x6c, 0x6c];
                push_bytes(out, word.as_slice());
            },
            JsonValue::Bool(b) => {
                if *b {
                    let word: [u8; 4] = [0x74, 0x72, 0x75, 0x65];
                    push_bytes(out, word.as_slice());
                } else {
                    let word: [u8; 5] = [0x66, 0x61, 0x6c, 0x73, 0x65];
                    push_bytes(out, word.as_slice());
                }
            },
            JsonValue::Unsigned(n) => {
                push_digits(out, *n);
            },
            JsonValue::Signed(n) => {
                push_signed(out, *n);
            },
            JsonValue::Single(bits) => {
                out.push(Token::Single(*bits));
            },
            JsonValue::Double(bits) => {
                out.push(Token::Double(*bits));
            },
            JsonValue::Text(text) => {
                push_string(out, text.as_str());
            },
            JsonValue::Array(items) => {
                proof {
                    lemma_array_view(*items);
                }
                out.push(Token::Byte(OPEN_BRACKET));
                let ghost start = out@;
                let ghost texts = spec_item_texts(spec_items(items@));
                let mut i: usize = 0;
                while i < items.len()
                    invariant
                        i <= items.len(),
                        texts == spec_item_texts(spec_items(items@)),
                        texts.len() == items@.len(),
                        forall|k: int|
                            0 <= k < items@.len() ==> (#[trigger] texts[k]) == spec_text(
                                items@[k]@,
                            ),
                        out@ == start + spec_join(texts.take(i as int)),
                        *self == JsonValue::Array(*items),
                    decreases items.len() - i,
                {
                    if i > 0 {
                        out.push(Token::Byte(COMMA));
                    }
                    proof {
                        assert(self->Array_0 == *items);
                    }
                    items[i].write(out);
                    proof {
                        assert(texts.take(i as int + 1) =~= texts.take(i as int).push(
                            texts[i as int],
                        ));
                        lemma_join_push(texts.take(i as int), texts[i as int]);
                    }
                    i += 1;
                }
                assert(texts.take(i as int) =~= texts);
                out.push(Token::Byte(CLOSE_BRACKET));
            },
            JsonValue::Object(members) => {
                proof {
                    lemma_object_view(*members);
                }
                out.push(Token::Byte(OPEN_BRACE));
                let ghost start = out@;
                let ghost texts = spec_member_texts(spec_members(members@));
                let mut i: usize = 0;
                while i < members.len()
                    invariant
                        i <= members.len(),
                        texts == spec_member_texts(spec_members(members@)),
                        texts.len() == members@.len(),
                        forall|k: int|
                            0 <= k < members@.len() ==> (#[trigger] texts[k]) == spec_bytes(
                                spec_string(members@[k].0@),
                            ) + seq![Token::Byte(COLON)] + spec_text(members@[k].1@),
                        out@ == start + spec_join(texts.take(i as int)),
                        *self == JsonValue::Object(*members),
                    decreases members.len() - i,
                {
                    if i > 0 {
                        out.push(Token::Byte(COMMA));
                    }
                    push_string(out, members[i].0.as_str());
                    out.push(Token::Byte(COLON));
                    proof {
                        assert(self->Object_0 == *members);
                    }
                    members[i].1.write(out);
                    proof {
                        assert(texts.take(i as int + 1) =~= texts.take(i as int).push(
                            texts[i as int],
                        ));
                        lemma_join_push(texts.take(i as int), texts[i as int]);
                    }
                    i += 1;
                }
                assert(texts.take(i as int) =~= texts);
                out.push(Token::Byte(CLOSE_BRACE));
            },
        }
    }

    /// The text of the document.
    pub fn to_text(&self) -> (text: Vec<Token>)
        ensures
            text@ == spec_text(self@),
    {
        let mut text = Vec::new();
        self.write(&mut text);
        text
    }
}

/// The bytes of a text that holds no floating-point number.
pub fn text_bytes(text: &Vec<Token>) -> (r: Option<Vec<u8>>)
    ensures
        r is Some <==> forall|i: int| 0 <= i < text@.len() ==> text@[i] is Byte,
        r is Some ==> spec_bytes(r->Some_0@) == text@,
{
    let mut bytes: Vec<u8> = Vec::new();
    let mut i: usize = 0;
    while i < text.len()
        invariant
            i <= text.len(),
            spec_bytes(bytes@) == text@.take(i as int),
        decreases text.len() - i,
    {
        match text[i] {
            Token::Byte(b) => {
                bytes.push(b);
                assert(text@.take(i as int + 1) =~= text@.take(i as int).push(text@[i as int]));
            },
            _ => {
                return None;
            },
        }
        i += 1;
    }
    assert(text@.take(i as int) =~= text@);
    assert forall|j: int| 0 <= j < text@.len() implies text@[j] is Byte by {
    }
    Some(bytes)
}

} // verus!
