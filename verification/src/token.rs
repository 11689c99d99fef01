//! The `x-api-token` header: the token it carries, and how the token is
//! written into and read from the headers of a request.

use crate::error::ParseError;
use vstd::prelude::*;
use vstd::slice::slice_to_vec;
use vstd::string::*;
use vstd::utf8::*;

verus! {

/// One header line of a request: its name, and its value as raw bytes.
#[derive(Clone, Debug)]
pub struct HeaderField {
    pub name: String,
    pub value: Vec<u8>,
}

/// A token that cannot be written as a header value.
#[derive(Clone, Copy, Debug, PartialEq, Eq, Structural)]
pub struct InvalidHeaderValue;

/// The token that a caller presents: the header's value, as it came.
#[derive(Debug)]
pub struct XApiToken(String);

impl View for XApiToken {
    type V = Seq<char>;

    closed spec fn view(&self) -> Seq<char> {
        self.0@
    }
}

/// An ASCII capital as its small letter, every other character as itself.
pub open spec fn ascii_lower(c: char) -> char {
    if 'A' <= c && c <= 'Z' {
        ((c as u8) + 32) as char
    } else {
        c
    }
}

/// The name is `x-api-token`, in whatever case its letters are written.
pub open spec fn names_token(name: Seq<char>) -> bool {
    name.map_values(|c: char| ascii_lower(c)) =~= "x-api-token"@
}

/// The values of the token headers among `headers`, in their order.
pub open spec fn token_values(headers: Seq<HeaderField>) -> Seq<Seq<u8>>
    decreases headers.len(),
{
    if headers.len() == 0 {
        Seq::empty()
    } else if names_token(headers.last().name@) {
        token_values(headers.drop_last()).push(headers.last().value@)
    } else {
        token_values(headers.drop_last())
    }
}

/// A byte that may stand in a header value that is read as text: visible
/// ASCII, a space or a tab.
pub open spec fn is_visible_ascii(b: u8) -> bool {
    (32 <= b && b < 127) || b == 9
}

/// A byte that may stand in a header value at all: anything but a control
/// character other than the tab.
pub open spec fn is_value_byte(b: u8) -> bool {
    (32 <= b && b != 127) || b == 9
}

/// Every byte is visible ASCII, a space or a tab.
pub open spec fn is_text(raw: Seq<u8>) -> bool {
    forall|i: int| 0 <= i < raw.len() ==> is_visible_ascii(#[trigger] raw[i])
}

/// Every byte may stand in a header value.
pub open spec fn is_value(raw: Seq<u8>) -> bool {
    forall|i: int| 0 <= i < raw.len() ==> is_value_byte(#[trigger] raw[i])
}

/// ASCII bytes as the characters they stand for.
pub open spec fn text_of(raw: Seq<u8>) -> Seq<char> {
    Seq::new(raw.len(), |i: int| raw[i] as char)
}

/// The token that one header value carries: the value must not be empty and
/// must be text; the token is then that text.
pub open spec fn decode_value(raw: Seq<u8>) -> Result<Seq<char>, ParseError> {
    if raw.len() > 0 && is_text(raw) {
        Ok(text_of(raw))
    } else {
        Err(ParseError::Malformed)
    }
}

/// The token that the headers of a request carry. The token header must
/// occur exactly once: none is `Missing`, two or more are `Malformed`,
/// whatever their values are.
pub open spec fn decode(headers: Seq<HeaderField>) -> Result<Seq<char>, ParseError> {
    let found = token_values(headers);
    if found.len() == 0 {
        Err(ParseError::Missing)
    } else if found.len() == 1 {
        decode_value(found[0])
    } else {
        Err(ParseError::Malformed)
    }
}

/// The header value that carries a token: the bytes of the token's UTF-8
/// form, where each of them may stand in a header value.
pub open spec fn encode(token: Seq<char>) -> Result<Seq<u8>, InvalidHeaderValue> {
    if is_value(encode_utf8(token)) {
        Ok(encode_utf8(token))
    } else {
        Err(InvalidHeaderValue)
    }
}

/// `String::from_utf8` of std. Trusted: the bytes become a string exactly
/// where they are valid UTF-8, and the string is then what they decode to.
#[verifier::external_body]
fn string_from_utf8(bytes: Vec<u8>) -> (text: Option<String>)
    ensures
        match text {
            Some(s) => valid_utf8(bytes@) && s@ == decode_utf8(bytes@),
            None => !valid_utf8(bytes@),
        },
{
    match String::from_utf8(bytes) {
        Ok(s) => Some(s),
        Err(_) => None,
    }
}

/// Text is valid UTF-8, and decodes to one character for each byte.
pub proof fn lemma_text_is_utf8(raw: Seq<u8>)
    requires
        is_text(raw),
    ensures
        is_ascii_chars(text_of(raw)),
        encode_utf8(text_of(raw)) == raw,
        valid_utf8(raw),
        decode_utf8(raw) == text_of(raw),
{
    let chars = text_of(raw);
    assert forall|i: int| 0 <= i < chars.len() implies 0 <= #[trigger] chars[i] as nat <= 127 by {
        assert(is_visible_ascii(raw[i]));
    }
    is_ascii_chars_encode_utf8(chars);
    assert(encode_utf8(chars) =~= raw) by {
        assert forall|i: int| 0 <= i < raw.len() implies chars[i] as u8 == raw[i] by {
            assert(is_visible_ascii(raw[i]));
        }
    }
    encode_utf8_valid_utf8(chars);
    encode_utf8_decode_utf8(chars);
}

/// A token that was written as a header value is read back from it as it
/// was, exactly where it is not empty and holds ASCII only. (The empty
/// token and one with a character beyond ASCII can be written; they are
/// not read back.)
pub proof fn law_value_round_trip(token: Seq<char>)
    requires
        encode(token) is Ok,
    ensures
        decode_value(encode(token)->Ok_0) == Ok::<Seq<char>, ParseError>(token) <==> token.len() > 0
            && is_ascii_chars(token),
{
    let value = encode_utf8(token);
    if token.len() > 0 && is_ascii_chars(token) {
        is_ascii_chars_encode_utf8(token);
        assert forall|i: int| 0 <= i < value.len() implies is_visible_ascii(#[trigger] value[i]) by {
            assert(is_value_byte(value[i]));
            assert(value[i] == token[i] as u8);
        }
        assert(text_of(value) =~= token);
    }
    if decode_value(value) == Ok::<Seq<char>, ParseError>(token) {
        assert(text_of(value) == token);
        assert forall|i: int| 0 <= i < token.len() implies 0 <= #[trigger] token[i] as nat
            <= 127 by {
            assert(is_visible_ascii(value[i]));
            assert(token[i] == text_of(value)[i]);
        }
    }
}

/// Round trip through the codec: a request that carries the written token
/// as its one token header gives the token back, exactly where the token is
/// not empty and holds ASCII only.
pub proof fn law_round_trip(token: Seq<char>, headers: Seq<HeaderField>)
    requires
        encode(token) is Ok,
        token_values(headers) == seq![encode(token)->Ok_0],
    ensures
        decode(headers) == Ok::<Seq<char>, ParseError>(token) <==> token.len() > 0
            && is_ascii_chars(token),
{
    law_value_round_trip(token);
}

fn to_ascii_lower(c: char) -> (lower: char)
    ensures
        lower == ascii_lower(c),
{
    if 'A' <= c && c <= 'Z' {
        ((c as u8) + 32) as char
    } else {
        c
    }
}

fn is_token_name(name: &str) -> (is: bool)
    ensures
        is == names_token(name@),
{
    let expected = "x-api-token";
    proof {
        reveal_strlit("x-api-token");
    }
    if name.unicode_len() != 11 {
        return false;
    }
    let mut i: usize = 0;
    while i < 11
        invariant
            i <= 11,
            name@.len() == 11,
            expected@ == "x-api-token"@,
            expected@.len() == 11,
            forall|j: int| 0 <= j < i ==> ascii_lower(#[trigger] name@[j]) == expected@[j],
        decreases 11 - i,
    {
        if to_ascii_lower(name.get_char(i)) != expected.get_char(i) {
            assert(name@.map_values(|c: char| ascii_lower(c))[i as int] != expected@[i as int]);
            return false;
        }
        i += 1;
    }
    true
}

impl core::str::FromStr for XApiToken {
    type Err = core::convert::Infallible;

    /// Every string is a token.
    fn from_str(s: &str) -> (result: Result<Self, Self::Err>)
        ensures
            result is Ok,
            result->Ok_0@ == s@,
    {
        Ok(XApiToken(s.to_owned()))
    }
}

impl HeaderField {
    /// A header line with the given name and value.
    pub fn new(name: &str, value: &[u8]) -> (field: Self)
        ensures
            field.name@ == name@,
            field.value@ == value@,
    {
        HeaderField { name: String::from_str(name), value: slice_to_vec(value) }
    }
}

impl XApiToken {
    /// Wraps a token string, unchanged.
    pub fn new(token: String) -> (t: Self)
        ensures
            t@ == token@,
    {
        Self(token)
    }

    /// The token string.
    pub fn as_str(&self) -> (s: &str)
        ensures
            s@ == self@,
    {
        self.0.as_str()
    }

    /// The name of the header, in the small letters in which it is sent.
    pub fn name() -> (name: &'static str)
        ensures
            name@ == "x-api-token"@,
            names_token(name@),
    {
        proof {
            reveal_strlit("x-api-token");
            assert("x-api-token"@.map_values(|c: char| ascii_lower(c)) =~= "x-api-token"@);
        }
        "x-api-token"
    }

    /// Reads the token from one header value.
    pub fn from_value(raw: &[u8]) -> (result: Result<XApiToken, ParseError>)
        ensures
            match decode_value(raw@) {
                Ok(token) => result is Ok && result->Ok_0@ == token,
                Err(e) => result == Err::<XApiToken, ParseError>(e),
            },
    {
        if raw.len() == 0 {
            return Err(ParseError::Malformed);
        }
        let mut i: usize = 0;
        while i < raw.len()
            invariant
                i <= raw.len(),
                forall|j: int| 0 <= j < i ==> is_visible_ascii(#[trigger] raw@[j]),
            decreases raw.len() - i,
        {
            let b = raw[i];
            if !((32 <= b && b < 127) || b == 9) {
                return Err(ParseError::Malformed);
            }
            i += 1;
        }
        proof {
            lemma_text_is_utf8(raw@);
        }
        // Text is valid UTF-8, so the second arm is never taken.
        match string_from_utf8(slice_to_vec(raw)) {
            Some(text) => Ok(XApiToken(text)),
            None => Err(ParseError::Malformed),
        }
    }

    /// Reads the token from the headers of a request.
    pub fn parse(headers: &[HeaderField]) -> (result: Result<XApiToken, ParseError>)
        ensures
            match decode(headers@) {
                Ok(token) => result is Ok && result->Ok_0@ == token,
                Err(e) => result == Err::<XApiToken, ParseError>(e),
            },
    {
        let mut count: usize = 0;
        let mut first: usize = 0;
        let mut i: usize = 0;
        while i < headers.len()
            invariant
                i <= headers.len(),
                count <= i,
                count == token_values(headers@.take(i as int)).len(),
                count > 0 ==> first < i && token_values(headers@.take(i as int))[0]
                    == headers@[first as int].value@,
            decreases headers.len() - i,
        {
            proof {
                let next = headers@.take(i + 1);
                assert(next.drop_last() =~= headers@.take(i as int));
                assert(next.last() == headers@[i as int]);
            }
            if is_token_name(headers[i].name.as_str()) {
                if count == 0 {
                    first = i;
                }
                count += 1;
            }
            i += 1;
        }
        assert(headers@.take(i as int) =~= headers@);
        if count == 0 {
            Err(ParseError::Missing)
        } else if count == 1 {
            Self::from_value(headers[first].value.as_slice())
        } else {
            Err(ParseError::Malformed)
        }
    }

    /// Writes the token as a header value.
    pub fn try_into_value(self) -> (result: Result<Vec<u8>, InvalidHeaderValue>)
        ensures
            match encode(self@) {
                Ok(value) => result is Ok && result->Ok_0@ == value,
                Err(e) => result == Err::<Vec<u8>, InvalidHeaderValue>(e),
            },
    {
        let bytes = self.0.as_str().as_bytes();
        let mut i: usize = 0;
        while i < bytes.len()
            invariant
                i <= bytes.len(),
                bytes@ == encode_utf8(self@),
                forall|j: int| 0 <= j < i ==> is_value_byte(#[trigger] bytes@[j]),
            decreases bytes.len() - i,
        {
            let b = bytes[i];
            if !((32 <= b && b != 127) || b == 9) {
                return Err(InvalidHeaderValue);
            }
            i += 1;
        }
        Ok(slice_to_vec(bytes))
    }
}

} // verus!
