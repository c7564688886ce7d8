//! HTTP headers: reading them from text, collecting them, and finding the authorization.
use crate::text::{
    all_whitespace, is_whitespace, joined, lemma_split_at_first, lemma_trimmed, split_at_first,
    split_once, splits_at_first, trim, trimmed,
};
use reqwest::header::{
    HeaderMap, HeaderName, HeaderValue, InvalidHeaderName, InvalidHeaderValue, MaxSizeReached,
    ToStrError,
};
use vstd::prelude::*;
use vstd::utf8::{
    decode_utf8, decode_utf8_encode_utf8, encode_scalar, encode_utf8, encode_utf8_decode_utf8,
    is_ascii_chars, is_ascii_chars_encode_utf8, pop_first_scalar, valid_utf8,
};

verus! {

/// The value of a header, `http::HeaderValue`, which only header maps hold here.
#[verifier::external_type_specification]
#[verifier::external_body]
pub struct ExHeaderValue(HeaderValue);

/// A collection of headers, `http::HeaderMap`; what it holds is named `header_fields`.
#[verifier::external_type_specification]
#[verifier::external_body]
#[verifier::reject_recursive_types(T)]
pub struct ExHeaderMap<T>(HeaderMap<T>);

/// The error of `HeaderName::try_from`; nothing is claimed of it.
#[verifier::external_type_specification]
#[verifier::external_body]
pub struct ExInvalidHeaderName(InvalidHeaderName);

/// The error of `HeaderValue::try_from`; nothing is claimed of it.
#[verifier::external_type_specification]
#[verifier::external_body]
pub struct ExInvalidHeaderValue(InvalidHeaderValue);

/// The error of `HeaderMap::try_insert`; nothing is claimed of it.
#[verifier::external_type_specification]
#[verifier::external_body]
pub struct ExMaxSizeReached(MaxSizeReached);

/// The error of `HeaderValue::to_str`; nothing is claimed of it.
#[verifier::external_type_specification]
#[verifier::external_body]
pub struct ExToStrError(ToStrError);

/// The fields that a header map holds: each name with its values, in the order in which
/// `HeaderMap::get_all` gives them.
pub uninterp spec fn header_fields(map: HeaderMap<HeaderValue>) -> Map<Seq<char>, Seq<Seq<u8>>>;

/// The fields of a map without fields.
pub open spec fn no_fields() -> Map<Seq<char>, Seq<Seq<u8>>> {
    Map::empty()
}

/// The characters that RFC 9110 allows in a header name.
pub open spec fn is_token_char(c: char) -> bool {
    ||| 'a' <= c <= 'z'
    ||| 'A' <= c <= 'Z'
    ||| '0' <= c <= '9'
    ||| c == '!' || c == '#' || c == '$' || c == '%' || c == '&' || c == '\'' || c == '*'
    ||| c == '+' || c == '-' || c == '.' || c == '^' || c == '_' || c == '`' || c == '|'
    ||| c == '~'
}

/// A header name is a token that is neither empty nor longer than 65535 characters.
pub open spec fn valid_header_name(text: Seq<char>) -> bool {
    &&& 1 <= text.len() <= 0xffff
    &&& forall|i: int| 0 <= i < text.len() ==> is_token_char(#[trigger] text[i])
}

/// The lower case of an ASCII letter; any other character is left alone.
pub open spec fn lower_char(c: char) -> char {
    if 'A' <= c <= 'Z' {
        (c as u32 + 32) as char
    } else {
        c
    }
}

/// `text` with its ASCII letters in lower case.
pub open spec fn lower(text: Seq<char>) -> Seq<char> {
    text.map_values(|c: char| lower_char(c))
}

/// A header value holds no ASCII control characters but the tab.
pub open spec fn valid_header_value(text: Seq<char>) -> bool {
    forall|i: int|
        0 <= i < text.len() ==> {
            ||| #[trigger] text[i] == '\t'
            ||| text[i] >= ' ' && text[i] != '\u{7f}'
        }
}

/// The bytes that a header value may hold: none is an ASCII control character but the
/// tab.
pub open spec fn valid_value_bytes(bytes: Seq<u8>) -> bool {
    forall|i: int|
        0 <= i < bytes.len() ==> {
            ||| #[trigger] bytes[i] == 9
            ||| bytes[i] >= 32 && bytes[i] != 127
        }
}

/// Every byte is a visible ASCII character, a space or a tab.
pub open spec fn visible_ascii(bytes: Seq<u8>) -> bool {
    forall|i: int| 0 <= i < bytes.len() ==> #[trigger] bytes[i] == 9 || 32 <= bytes[i] < 127
}

/// Calls `HeaderName::try_from`, which takes exactly the valid names, in upper or lower case, and
/// keeps them in lower case.
#[verifier::external_body]
fn header_name(text: &str) -> (name: Result<String, InvalidHeaderName>)
    ensures
        name is Ok <==> valid_header_name(text@),
        name matches Ok(name) ==> name@ == lower(text@),
{
    HeaderName::try_from(text).map(|name| name.as_str().to_owned())
}

/// Calls `HeaderValue::try_from`, which takes exactly the texts without ASCII control characters
/// other than the tab, and keeps their UTF-8 bytes.
#[verifier::external_body]
fn header_value(text: &str) -> (value: Result<Vec<u8>, InvalidHeaderValue>)
    ensures
        value is Ok <==> valid_header_value(text@),
        value matches Ok(value) ==> value@ == encode_utf8(text@),
{
    HeaderValue::try_from(text).map(|value| value.as_bytes().to_vec())
}

/// Calls `InvalidHeaderName::to_string`, which says the same of every rejected name.
#[verifier::external_body]
fn describe_invalid_name(error: &InvalidHeaderName) -> (text: String)
    ensures
        text@ == "invalid HTTP header name"@,
{
    error.to_string()
}

/// Calls `InvalidHeaderValue::to_string`, which says the same of every rejected value.
#[verifier::external_body]
fn describe_invalid_value(error: &InvalidHeaderValue) -> (text: String)
    ensures
        text@ == "failed to parse header value"@,
{
    error.to_string()
}

/// Writes the `Debug` form of a `MaxSizeReached`, which is the name of its type.
#[verifier::external_body]
fn describe_max_size_reached(error: &MaxSizeReached) -> (text: String)
    ensures
        text@ == "MaxSizeReached"@,
{
    format!("{error:?}")
}

/// Calls `HeaderMap::new`, which makes a map without fields.
#[verifier::external_body]
fn no_headers() -> (map: HeaderMap<HeaderValue>)
    ensures
        header_fields(map) == no_fields(),
{
    HeaderMap::new()
}

/// Calls `HeaderMap::try_insert`, which makes the value the only one of its name, whatever values
/// the name had before, or fails and leaves the fields as they were. The map never has more than
/// 32768 slots, of which it fills three quarters: with so many names it always fails, and with
/// fewer than a fifth of the slots filled it never does. Between the two it depends on how the
/// hashes of the names collide, which is left open.
#[verifier::external_body]
fn insert_header(
    map: &mut HeaderMap<HeaderValue>,
    name: &str,
    value: &[u8],
) -> (inserted: Result<(), MaxSizeReached>)
    requires
        valid_header_name(name@),
        lower(name@) == name@,
        valid_value_bytes(value@),
    ensures
        inserted is Ok ==> header_fields(*final(map)) == header_fields(*old(map)).insert(
            name@,
            seq![value@],
        ),
        inserted is Err ==> header_fields(*final(map)) == header_fields(*old(map)),
        header_fields(*final(map)).dom().finite(),
        header_fields(*old(map)).dom().len() * 5 < 32768 ==> inserted is Ok,
        header_fields(*old(map)).dom().len() >= 24576 ==> inserted is Err,
{
    let name = HeaderName::from_bytes(name.as_bytes()).unwrap();
    let value = HeaderValue::from_bytes(value).unwrap();
    map.try_insert(name, value).map(|_| ())
}

/// Calls `HeaderMap::get` with a name in lower case, which finds the first value of that name, and
/// `HeaderValue::to_str`, which gives the text of exactly the values that are visible ASCII.
#[verifier::external_body]
fn find_header_text(map: &HeaderMap<HeaderValue>, name: &str) -> (found: Option<
    Result<String, ToStrError>,
>)
    requires
        valid_header_name(name@),
        lower(name@) == name@,
    ensures
        found is Some <==> header_fields(*map).contains_key(name@),
        found is Some ==> header_fields(*map)[name@].len() > 0,
        found matches Some(text) ==> (text is Ok <==> visible_ascii(
            header_fields(*map)[name@].first(),
        )),
        found matches Some(Ok(text)) ==> encode_utf8(text@) == header_fields(*map)[name@].first(),
{
    match map.get(name) {
        Some(value) => Some(value.to_str().map(|text| text.to_owned())),
        None => None,
    }
}

proof fn lemma_char_bytes(written: char)
    requires
        written == '\t' || written >= ' ' && written != '\u{7f}',
    ensures
        valid_value_bytes(encode_scalar(written as u32)),
{
    let c = written as u32;
    assert(c <= 0x7f ==> (c & 0x7f) as u8 == c) by (bit_vector);
    assert(0xc0u8 | ((c >> 6) & 0x1f) as u8 >= 0x80) by (bit_vector);
    assert(0xe0u8 | ((c >> 12) & 0x0f) as u8 >= 0x80) by (bit_vector);
    assert(0xf0u8 | ((c >> 18) & 0x7) as u8 >= 0x80) by (bit_vector);
    assert(0x80u8 | (c & 0x3f) as u8 >= 0x80) by (bit_vector);
    assert(0x80u8 | ((c >> 6) & 0x3f) as u8 >= 0x80) by (bit_vector);
    assert(0x80u8 | ((c >> 12) & 0x3f) as u8 >= 0x80) by (bit_vector);
}

proof fn lemma_value_bytes(text: Seq<char>)
    requires
        valid_header_value(text),
    ensures
        valid_value_bytes(encode_utf8(text)),
    decreases text.len(),
{
    if text.len() > 0 {
        let rest = text.drop_first();
        assert(text[0] == '\t' || text[0] >= ' ' && text[0] != '\u{7f}');
        lemma_char_bytes(text[0]);
        assert(forall|i: int| 0 <= i < rest.len() ==> #[trigger] rest[i] == text[i + 1]);
        lemma_value_bytes(rest);
        assert(encode_utf8(text) == encode_scalar(text[0] as u32) + encode_utf8(rest));
    }
}

/// A header: a name in lower case and the bytes of its value.
#[derive(Debug)]
pub struct Header {
    name: String,
    value: Vec<u8>,
}

impl View for Header {
    type V = (Seq<char>, Seq<u8>);

    closed spec fn view(&self) -> (Seq<char>, Seq<u8>) {
        (self.name@, self.value@)
    }
}

impl Header {
    #[verifier::type_invariant]
    spec fn well_formed(self) -> bool {
        &&& valid_header_name(self.name@)
        &&& lower(self.name@) == self.name@
        &&& valid_value_bytes(self.value@)
    }

    /// The name, in lower case.
    pub fn name(&self) -> (name: &str)
        ensures
            name@ == self@.0,
    {
        self.name.as_str()
    }

    /// The bytes of the value.
    pub fn value(&self) -> (value: &[u8])
        ensures
            value@ == self@.1,
    {
        self.value.as_slice()
    }
}

impl Clone for Header {
    fn clone(&self) -> (copy: Self)
        ensures
            copy@ == self@,
    {
        proof {
            use_type_invariant(self);
        }
        let value = self.value.clone();
        proof {
            assert(value@ =~= self.value@);
        }
        Header { name: self.name.clone(), value }
    }
}

/// Why a text is not a header.
#[derive(Debug)]
pub enum HeaderError {
    /// The text holds no colon.
    MissingColon { got: String },
    /// What stands before the colon is no header name; `reason` says so in words.
    InvalidName { name: String, reason: String },
    /// What stands after the colon is no header value; `reason` says so in words.
    InvalidValue { value: String, reason: String },
}

impl HeaderError {
    /// What `message` says.
    pub open spec fn message_text(self) -> Seq<char> {
        match self {
            HeaderError::MissingColon { got } => "expected NAME:VALUE, got "@ + got@,
            HeaderError::InvalidName { name, reason } => "invalid header name `"@ + name@ + "`: "@
                + reason@,
            HeaderError::InvalidValue { value, reason } => "invalid header value `"@ + value@
                + "`: "@ + reason@,
        }
    }

    /// The error in words.
    pub fn message(&self) -> (text: String)
        ensures
            text@ == self.message_text(),
    {
        match self {
            HeaderError::MissingColon { got } => joined("expected NAME:VALUE, got ", got.as_str()),
            HeaderError::InvalidName { name, reason } => joined(
                "invalid header name `",
                name.as_str(),
            ).concat("`: ").concat(reason.as_str()),
            HeaderError::InvalidValue { value, reason } => joined(
                "invalid header value `",
                value.as_str(),
            ).concat("`: ").concat(reason.as_str()),
        }
    }
}

/// What a text gives when it is read as a header.
pub open spec fn reads_as_header(
    text: Seq<char>,
    header: Result<Header, HeaderError>,
) -> bool {
    match split_at_first(text, ':') {
        None => header matches Err(HeaderError::MissingColon { got }) && got@ == text,
        Some((name, value)) => if !valid_header_name(trimmed(name)) {
            &&& header matches Err(HeaderError::InvalidName { name: got, reason })
            &&& got@ == name
            &&& reason@ == "invalid HTTP header name"@
        } else if !valid_header_value(trimmed(value)) {
            &&& header matches Err(HeaderError::InvalidValue { value: got, reason })
            &&& got@ == value
            &&& reason@ == "failed to parse header value"@
        } else {
            &&& header matches Ok(header)
            &&& header@ == (lower(trimmed(name)), encode_utf8(trimmed(value)))
        },
    }
}

/// Reads a header written as `NAME:VALUE`. Whitespace around the name and the value is dropped.
pub fn parse_header(s: &str) -> (header: Result<Header, HeaderError>)
    ensures
        reads_as_header(s@, header),
        !s@.contains(':') <==> header matches Err(HeaderError::MissingColon { .. }),
        header matches Err(HeaderError::MissingColon { got }) ==> got@ == s@,
{
    proof {
        s@.index_of_first_ensures(':');
    }
    match split_once(s, ':') {
        None => Err(HeaderError::MissingColon { got: s.to_owned() }),
        Some((name, value)) => match header_name(trim(name)) {
            Err(error) => Err(
                HeaderError::InvalidName {
                    name: name.to_owned(),
                    reason: describe_invalid_name(&error),
                },
            ),
            Ok(lower_name) => match header_value(trim(value)) {
                Err(error) => Err(
                    HeaderError::InvalidValue {
                        value: value.to_owned(),
                        reason: describe_invalid_value(&error),
                    },
                ),
                Ok(bytes) => {
                    proof {
                        lemma_lower(trimmed(name@));
                        lemma_value_bytes(trimmed(value@));
                    }
                    Ok(Header { name: lower_name, value: bytes })
                },
            },
        },
    }
}

/// The fields that are left when `headers` are inserted one after the other, each in place of the
/// earlier ones with its name.
pub open spec fn inserted_fields(headers: Seq<Header>) -> Map<Seq<char>, Seq<Seq<u8>>>
    decreases headers.len(),
{
    if headers.len() == 0 {
        no_fields()
    } else {
        inserted_fields(headers.drop_last()).insert(headers.last()@.0, seq![headers.last()@.1])
    }
}

/// The number of different names among `headers`.
pub open spec fn name_count(headers: Seq<Header>) -> nat {
    inserted_fields(headers).dom().len()
}

/// Before each of `headers` there are so few names that the next one surely fits into a header map.
pub open spec fn surely_fits(headers: Seq<Header>) -> bool {
    forall|i: int| 0 <= i < headers.len() ==> name_count(#[trigger] headers.take(i)) * 5 < 32768
}

/// Before one of `headers` there are as many names as a header map can hold.
pub open spec fn surely_overflows(headers: Seq<Header>) -> bool {
    exists|i: int| 0 <= i < headers.len() && name_count(#[trigger] headers.take(i)) >= 24576
}

/// There are no more names than headers, so that up to 6554 headers surely fit.
pub proof fn law_few_headers_fit(headers: Seq<Header>)
    requires
        headers.len() <= 6554,
    ensures
        surely_fits(headers),
{
    assert forall|i: int| 0 <= i < headers.len() implies name_count(#[trigger] headers.take(i)) * 5
        < 32768 by {
        lemma_name_count(headers.take(i));
    }
}

proof fn lemma_name_count(headers: Seq<Header>)
    ensures
        inserted_fields(headers).dom().finite(),
        name_count(headers) <= headers.len(),
    decreases headers.len(),
{
    if headers.len() > 0 {
        lemma_name_count(headers.drop_last());
    }
}

/// More headers than a header map can hold; `reason` is what the map says of it.
#[derive(Debug)]
pub struct TooManyHeaders {
    pub reason: String,
}

/// Inserts `headers` into a header map, in their order. Whether they fit is sure only where there
/// are few enough or too many names; between the two it depends on the hashes of the names.
pub fn collect_headers(headers: &Vec<Header>) -> (map: Result<
    HeaderMap<HeaderValue>,
    TooManyHeaders,
>)
    ensures
        map matches Ok(map) ==> header_fields(map) == inserted_fields(headers@),
        map matches Err(error) ==> error.reason@ == "MaxSizeReached"@,
        surely_fits(headers@) ==> map is Ok,
        surely_overflows(headers@) ==> map is Err,
{
    let mut map = no_headers();
    for i in 0..headers.len()
        invariant
            header_fields(map) == inserted_fields(headers@.take(i as int)),
            forall|j: int|
                0 <= j < i ==> name_count(#[trigger] headers@.take(j)) < 24576,
    {
        let header = &headers[i];
        proof {
            use_type_invariant(header);
            assert(headers@.take(i + 1).drop_last() =~= headers@.take(i as int));
        }
        match insert_header(&mut map, header.name.as_str(), header.value.as_slice()) {
            Ok(_) => {},
            Err(error) => {
                return Err(TooManyHeaders { reason: describe_max_size_reached(&error) });
            },
        }
    }
    proof {
        assert(headers@.take(headers@.len() as int) =~= headers@);
    }
    Ok(map)
}

/// The authorization among `fields`: the first value of the field `authorization`, where that value
/// is visible ASCII.
pub open spec fn authorization_text(fields: Map<Seq<char>, Seq<Seq<u8>>>) -> Option<Seq<char>> {
    let name = "authorization"@;
    if fields.contains_key(name) && visible_ascii(fields[name].first()) {
        Some(decode_utf8(fields[name].first()))
    } else {
        None
    }
}

/// The authorization among `headers`, if it is there and can be written as text.
pub fn authorization(headers: &HeaderMap<HeaderValue>) -> (value: Option<String>)
    ensures
        value.deep_view() == authorization_text(header_fields(*headers)),
        value matches Some(text) ==> encode_utf8(text@) == header_fields(
            *headers,
        )["authorization"@].first(),
{
    proof {
        reveal_strlit("authorization");
        assert(lower("authorization"@) =~= "authorization"@);
    }
    match find_header_text(headers, "authorization") {
        Some(Ok(text)) => {
            proof {
                encode_utf8_decode_utf8(text@);
            }
            Some(text)
        },
        _ => None,
    }
}

/// Visible ASCII is text: decoded and encoded again it is what it was.
pub proof fn lemma_visible_ascii_is_text(bytes: Seq<u8>)
    requires
        visible_ascii(bytes),
    ensures
        valid_utf8(bytes),
        encode_utf8(decode_utf8(bytes)) == bytes,
    decreases bytes.len(),
{
    if bytes.len() > 0 {
        let first = bytes[0];
        let rest = bytes.drop_first();
        assert(first == 9 || 32 <= first < 127);
        assert(first < 128 ==> first & 0x80 == 0 && (first & 0x7f) as u32 <= 0x7f) by (bit_vector);
        assert(forall|i: int| 0 <= i < rest.len() ==> #[trigger] rest[i] == bytes[i + 1]);
        lemma_visible_ascii_is_text(rest);
        assert(pop_first_scalar(bytes) =~= rest);
    }
    decode_utf8_encode_utf8(bytes);
}

proof fn lemma_lower(text: Seq<char>)
    ensures
        lower(lower(text)) == lower(text),
        valid_header_name(text) ==> valid_header_name(lower(text)),
{
    let lowered = lower(text);
    assert(forall|i: int| 0 <= i < text.len() ==> lowered[i] == lower_char(text[i]));
    assert(lower(lowered) =~= lowered);
    if valid_header_name(text) {
        assert forall|i: int| 0 <= i < lowered.len() implies is_token_char(#[trigger] lowered[i]) by {
            assert(is_token_char(text[i]));
        }
    }
}

/// A name and a value are read back from `NAME:VALUE` as they were written, the name in lower case,
/// with whatever whitespace there is around the two.
pub proof fn law_written_header_is_read_back(
    before_name: Seq<char>,
    name: Seq<char>,
    after_name: Seq<char>,
    before_value: Seq<char>,
    value: Seq<char>,
    after_value: Seq<char>,
    header: Result<Header, HeaderError>,
)
    requires
        valid_header_name(name),
        valid_header_value(value),
        value.len() > 0 ==> !is_whitespace(value.first()) && !is_whitespace(value.last()),
        all_whitespace(before_name),
        all_whitespace(after_name),
        all_whitespace(before_value),
        all_whitespace(after_value),
        reads_as_header(
            (before_name + name + after_name) + seq![':'] + (before_value + value + after_value),
            header,
        ),
    ensures
        header matches Ok(header) && header@ == (lower(name), encode_utf8(value)),
{
    let left = before_name + name + after_name;
    let right = before_value + value + after_value;
    assert forall|i: int| 0 <= i < left.len() implies left[i] != ':' by {
        if i < before_name.len() {
            assert(is_whitespace(before_name[i]));
        } else if i < before_name.len() + name.len() {
            assert(is_token_char(name[i - before_name.len()]));
        } else {
            assert(is_whitespace(after_name[i - before_name.len() - name.len()]));
        }
    }
    lemma_split_at_first(left + seq![':'] + right, ':', left, right);
    assert(is_token_char(name[0]) && is_token_char(name[name.len() - 1]));
    lemma_trimmed(left, before_name, name, after_name);
    lemma_trimmed(right, before_value, value, after_value);
}

proof fn lemma_lower_keeps_trimming(text: Seq<char>)
    ensures
        lower(trimmed(text)) == trimmed(lower(text)),
    decreases text.len(),
{
    let lowered = lower(text);
    assert(forall|i: int| 0 <= i < text.len() ==> lowered[i] == lower_char(text[i]));
    if text.len() > 0 {
        if is_whitespace(text.first()) {
            assert(lowered.drop_first() =~= lower(text.drop_first()));
            lemma_lower_keeps_trimming(text.drop_first());
        } else if is_whitespace(text.last()) {
            assert(lowered.drop_last() =~= lower(text.drop_last()));
            lemma_lower_keeps_trimming(text.drop_last());
        }
    }
}

proof fn lemma_same_lower_same_validity(first: Seq<char>, second: Seq<char>)
    requires
        lower(first) == lower(second),
        valid_header_name(first),
    ensures
        valid_header_name(second),
{
    assert(first.len() == lower(first).len());
    assert(second.len() == lower(second).len());
    assert forall|i: int| 0 <= i < second.len() implies is_token_char(#[trigger] second[i]) by {
        assert(lower(first)[i] == lower_char(first[i]));
        assert(lower(second)[i] == lower_char(second[i]));
        assert(is_token_char(first[i]));
    }
}

/// The case of a header's name does not matter: two headers whose names differ in nothing else
/// are both refused, or both read as one name and one value.
pub proof fn law_header_names_ignore_case(
    first_name: Seq<char>,
    second_name: Seq<char>,
    value: Seq<char>,
    first: Result<Header, HeaderError>,
    second: Result<Header, HeaderError>,
)
    requires
        lower(first_name) == lower(second_name),
        !first_name.contains(':'),
        reads_as_header(first_name + seq![':'] + value, first),
        reads_as_header(second_name + seq![':'] + value, second),
    ensures
        first is Ok <==> second is Ok,
        first is Ok ==> first->Ok_0@ == second->Ok_0@,
{
    assert(first_name.len() == lower(first_name).len());
    assert(second_name.len() == lower(second_name).len());
    assert forall|i: int| 0 <= i < second_name.len() implies second_name[i] != ':' by {
        assert(lower(first_name)[i] == lower_char(first_name[i]));
        assert(lower(second_name)[i] == lower_char(second_name[i]));
        assert(first_name.contains(first_name[i]));
    }
    lemma_split_at_first(first_name + seq![':'] + value, ':', first_name, value);
    lemma_split_at_first(second_name + seq![':'] + value, ':', second_name, value);
    lemma_lower_keeps_trimming(first_name);
    lemma_lower_keeps_trimming(second_name);
    if valid_header_name(trimmed(first_name)) {
        lemma_same_lower_same_validity(trimmed(first_name), trimmed(second_name));
    }
    if valid_header_name(trimmed(second_name)) {
        lemma_same_lower_same_validity(trimmed(second_name), trimmed(first_name));
    }
}

/// Of several headers with one name the last one counts: its value is the only one that is left.
pub proof fn law_last_header_wins(headers: Seq<Header>, at: int)
    requires
        0 <= at < headers.len(),
        forall|j: int|
            at < j < headers.len() ==> (#[trigger] headers[j])@.0
                != headers[at]@.0,
    ensures
        inserted_fields(headers).contains_key(headers[at]@.0),
        inserted_fields(headers)[headers[at]@.0] == seq![headers[at]@.1],
    decreases headers.len(),
{
    if at < headers.len() - 1 {
        let rest = headers.drop_last();
        assert forall|j: int| at < j < rest.len() implies (#[trigger] rest[j])@.0
            != rest[at]@.0 by {
            assert(rest[j] == headers[j]);
        }
        law_last_header_wins(rest, at);
        assert(headers.last() == headers[headers.len() - 1]);
    }
}

/// Every collected field comes from one of the headers, and has that header's value alone.
pub proof fn law_fields_come_from_headers(
    headers: Seq<Header>,
    name: Seq<char>,
)
    requires
        inserted_fields(headers).contains_key(name),
    ensures
        exists|i: int|
            0 <= i < headers.len() && (#[trigger] headers[i])@.0 == name
                && inserted_fields(headers)[name] == seq![headers[i]@.1],
    decreases headers.len(),
{
    let rest = headers.drop_last();
    if headers.last()@.0 == name {
        assert(headers.last() == headers[headers.len() - 1]);
    } else {
        law_fields_come_from_headers(rest, name);
        let i = choose|i: int|
            0 <= i < rest.len() && (#[trigger] rest[i])@.0 == name
                && inserted_fields(rest)[name] == seq![rest[i]@.1];
        assert(rest[i] == headers[i]);
    }
}

/// An authorization written as a header, whatever the case of its name, is the authorization that
/// is found among the collected headers, provided that its value is visible ASCII and that no
/// later header has the same name.
pub proof fn law_written_authorization_is_found(
    headers: Seq<Header>,
    at: int,
    text: Seq<char>,
    name: Seq<char>,
    value: Seq<char>,
)
    requires
        0 <= at < headers.len(),
        reads_as_header(text, Ok(headers[at])),
        splits_at_first(text, ':', name, value),
        lower(trimmed(name)) == "authorization"@,
        is_ascii_chars(trimmed(value)),
        forall|j: int|
            at < j < headers.len() ==> (#[trigger] headers[j])@.0
                != "authorization"@,
    ensures
        authorization_text(inserted_fields(headers)) == Some(trimmed(value)),
{
    let written = trimmed(value);
    lemma_split_at_first(text, ':', name, value);
    law_last_header_wins(headers, at);
    is_ascii_chars_encode_utf8(written);
    encode_utf8_decode_utf8(written);
    let bytes = encode_utf8(written);
    assert forall|i: int| 0 <= i < bytes.len() implies #[trigger] bytes[i] == 9 || 32 <= bytes[i]
        < 127 by {
        assert(bytes[i] == written[i] as u8);
        assert(written[i] == '\t' || written[i] >= ' ' && written[i] != '\u{7f}');
    }
}

/// A text without a colon is no header. It is refused, and handed back as it is.
pub proof fn law_header_needs_a_colon(s: &str, header: Result<Header, HeaderError>)
    requires
        call_ensures(parse_header, (s,), header),
        forall|i: int| 0 <= i < s@.len() ==> #[trigger] s@[i] != ':',
    ensures
        header matches Err(HeaderError::MissingColon { got }) && got@ == s@,
{
    s@.index_of_first_ensures(':');
}

/// What is read as a header has a colon, and is made of the two parts around the first one.
pub proof fn law_header_comes_from_two_parts(text: Seq<char>, header: Result<Header, HeaderError>)
    requires
        reads_as_header(text, header),
    ensures
        !text.contains(':') ==> (header matches Err(HeaderError::MissingColon { got }) && got@
            == text),
        header matches Err(HeaderError::MissingColon { .. }) ==> !text.contains(':'),
        header matches Ok(header) ==> exists|name: Seq<char>, value: Seq<char>|
            text == #[trigger] (name + seq![':'] + value) && !name.contains(':') && header@ == (
                lower(trimmed(name)),
                encode_utf8(trimmed(value)),
            ),
{
    text.index_of_first_ensures(':');
    if let Some((name, value)) = split_at_first(text, ':') {
        lemma_split_at_first(text, ':', name, value);
        assert(text == name + seq![':'] + value);
    }
}

/// How a text with a colon is read. `name` and `value` are the parts around its first colon
/// without the whitespace around them: if both are valid they make the header, the name with its
/// letters in lower case and the value in UTF-8. If the name is not valid the part before the colon
/// is refused, whatever the value, and otherwise the part after it, each with its whitespace.
pub proof fn law_header_is_made_of_name_and_value(
    s: &str,
    before_name: Seq<char>,
    name: Seq<char>,
    after_name: Seq<char>,
    before_value: Seq<char>,
    value: Seq<char>,
    after_value: Seq<char>,
    header: Result<Header, HeaderError>,
)
    requires
        call_ensures(parse_header, (s,), header),
        s@ == (before_name + name + after_name) + seq![':'] + (before_value + value + after_value),
        !name.contains(':'),
        all_whitespace(before_name),
        all_whitespace(after_name),
        all_whitespace(before_value),
        all_whitespace(after_value),
        name.len() > 0 ==> !is_whitespace(name.first()) && !is_whitespace(name.last()),
        value.len() > 0 ==> !is_whitespace(value.first()) && !is_whitespace(value.last()),
    ensures
        match header {
            Ok(header) => {
                &&& valid_header_name(name)
                &&& valid_header_value(value)
                &&& header@.0 == lower(name)
                &&& header@.1 == encode_utf8(value)
            },
            Err(HeaderError::MissingColon { .. }) => false,
            Err(HeaderError::InvalidName { name: got, reason }) => {
                &&& !valid_header_name(name)
                &&& got@ == before_name + name + after_name
                &&& reason@ == "invalid HTTP header name"@
            },
            Err(HeaderError::InvalidValue { value: got, reason }) => {
                &&& valid_header_name(name)
                &&& !valid_header_value(value)
                &&& got@ == before_value + value + after_value
                &&& reason@ == "failed to parse header value"@
            },
        },
{
    let left = before_name + name + after_name;
    let right = before_value + value + after_value;
    assert forall|i: int| 0 <= i < left.len() implies left[i] != ':' by {
        if i < before_name.len() {
            assert(is_whitespace(before_name[i]));
        } else if i < before_name.len() + name.len() {
            assert(name.contains(name[i - before_name.len()]));
        } else {
            assert(is_whitespace(after_name[i - before_name.len() - name.len()]));
        }
    }
    lemma_split_at_first(s@, ':', left, right);
    lemma_trimmed(left, before_name, name, after_name);
    lemma_trimmed(right, before_value, value, after_value);
}

/// Lower case is a matter of ASCII letters alone: each of `A` to `Z` becomes the letter 32 places
/// further on, and everything else stays where and as it is.
pub proof fn law_lower_case(text: Seq<char>, at: int, written: char)
    requires
        0 <= at < text.len(),
        text[at] == written,
    ensures
        lower(text).len() == text.len(),
        !('A' <= written <= 'Z') ==> lower(text)[at] == written,
        'A' <= written <= 'Z' ==> lower(text)[at] == (written as u32 + 32) as char,
        !('A' <= lower(text)[at] <= 'Z'),
{
}

/// A name is valid exactly when it has one to 65535 characters, all of them visible ASCII and none
/// of them a delimiter.
pub proof fn law_header_names_are_tokens(name: Seq<char>)
    ensures
        valid_header_name(name) <==> 1 <= name.len() <= 65535 && (forall|i: int|
            0 <= i < name.len() ==> {
                &&& '!' <= #[trigger] name[i] <= '~'
                &&& name[i] != '"' && name[i] != '(' && name[i] != ')' && name[i] != ','
                &&& name[i] != '/' && name[i] != ':' && name[i] != ';' && name[i] != '<'
                &&& name[i] != '=' && name[i] != '>' && name[i] != '?' && name[i] != '@'
                &&& name[i] != '[' && name[i] != '\\' && name[i] != ']' && name[i] != '{'
                &&& name[i] != '}'
            }),
{
    if valid_header_name(name) {
        assert(forall|i: int| 0 <= i < name.len() ==> is_token_char(#[trigger] name[i]));
    }
}

/// A value is refused exactly when one of its characters is an ASCII control character other than
/// the tab.
pub proof fn law_header_values_have_no_control_characters(value: Seq<char>)
    ensures
        !valid_header_value(value) <==> exists|i: int|
            0 <= i < value.len() && (#[trigger] value[i] < '\t' || '\t' < value[i] < ' ' || value[i]
                == '\u{7f}'),
{
}

/// The parts of a header can be looked at, and are the same in a copy of it.
pub proof fn law_header_can_be_looked_at(
    header: Header,
    copy: Header,
    name: &str,
    copied_name: &str,
    value: &[u8],
    copied_value: &[u8],
)
    requires
        call_ensures(<Header as Clone>::clone, (&header,), copy),
        call_ensures(Header::name, (&header,), name),
        call_ensures(Header::name, (&copy,), copied_name),
        call_ensures(Header::value, (&header,), value),
        call_ensures(Header::value, (&copy,), copied_value),
    ensures
        header@ == (name@, value@),
        copied_name@ == name@,
        copied_value@ == value@,
{
}

/// What is said of a refused header quotes what was refused, and ends with the reason.
pub proof fn law_header_message(error: HeaderError, text: String)
    requires
        call_ensures(HeaderError::message, (&error,), text),
    ensures
        match error {
            HeaderError::MissingColon { got } => text@ == "expected NAME:VALUE, got "@ + got@,
            HeaderError::InvalidName { name, reason } => text@ == "invalid header name `"@ + name@
                + "`: "@ + reason@,
            HeaderError::InvalidValue { value, reason } => text@ == "invalid header value `"@
                + value@ + "`: "@ + reason@,
        },
{
}

/// A collected map has, for the name of each header that is the last of its name, the value of that
/// header alone.
pub proof fn law_collected_headers_are_found(
    headers: Vec<Header>,
    map: HeaderMap<HeaderValue>,
    at: int,
)
    requires
        call_ensures(collect_headers, (&headers,), Ok(map)),
        0 <= at < headers@.len(),
        forall|j: int| at < j < headers@.len() ==> (#[trigger] headers@[j])@.0 != headers@[at]@.0,
    ensures
        header_fields(map).contains_key(headers@[at]@.0),
        header_fields(map)[headers@[at]@.0].len() == 1,
        header_fields(map)[headers@[at]@.0][0] == headers@[at]@.1,
{
    law_last_header_wins(headers@, at);
}

/// A collected map has no field whose name none of the headers has.
pub proof fn law_nothing_else_is_collected(
    headers: Vec<Header>,
    map: HeaderMap<HeaderValue>,
    name: Seq<char>,
)
    requires
        call_ensures(collect_headers, (&headers,), Ok(map)),
        forall|i: int| 0 <= i < headers@.len() ==> (#[trigger] headers@[i])@.0 != name,
    ensures
        !header_fields(map).contains_key(name),
{
    if inserted_fields(headers@).contains_key(name) {
        law_fields_come_from_headers(headers@, name);
    }
}

proof fn lemma_names_among(headers: Seq<Header>, names: Set<Seq<char>>)
    requires
        names.finite(),
        forall|i: int| 0 <= i < headers.len() ==> names.contains((#[trigger] headers[i])@.0),
    ensures
        name_count(headers) <= names.len(),
{
    let fields = inserted_fields(headers);
    assert forall|name: Seq<char>| fields.dom().contains(name) implies names.contains(name) by {
        law_fields_come_from_headers(headers, name);
    }
    vstd::set_lib::lemma_len_subset(fields.dom(), names);
}

/// Headers with no more than 6553 different names before the last one surely fit into a header map.
pub proof fn lemma_few_names_fit(headers: Seq<Header>, names: Set<Seq<char>>)
    requires
        names.finite(),
        names.len() <= 6553,
        forall|i: int| 0 <= i < headers.len() - 1 ==> names.contains((#[trigger] headers[i])@.0),
    ensures
        surely_fits(headers),
{
    assert forall|i: int| 0 <= i < headers.len() implies name_count(#[trigger] headers.take(i)) * 5
        < 32768 by {
        let some = headers.take(i);
        assert forall|j: int| 0 <= j < some.len() implies names.contains((#[trigger] some[j])@.0) by {
            assert(some[j] == headers[j]);
        }
        lemma_names_among(some, names);
    }
}

/// Headers with no more than 6553 different names before the last one are collected, however many
/// headers there are.
pub proof fn law_few_names_fit(
    headers: Vec<Header>,
    names: Set<Seq<char>>,
    map: Result<HeaderMap<HeaderValue>, TooManyHeaders>,
)
    requires
        call_ensures(collect_headers, (&headers,), map),
        names.finite(),
        names.len() <= 6553,
        forall|i: int| 0 <= i < headers@.len() - 1 ==> names.contains((#[trigger] headers@[i])@.0),
    ensures
        map is Ok,
{
    lemma_few_names_fit(headers@, names);
}

proof fn lemma_all_names_count(headers: Seq<Header>)
    requires
        forall|i: int, j: int|
            0 <= i < j < headers.len() ==> (#[trigger] headers[i])@.0 != (#[trigger] headers[j])@.0,
    ensures
        name_count(headers) == headers.len(),
    decreases headers.len(),
{
    lemma_name_count(headers);
    if headers.len() > 0 {
        let rest = headers.drop_last();
        assert(forall|i: int| 0 <= i < rest.len() ==> #[trigger] rest[i] == headers[i]);
        lemma_name_count(rest);
        lemma_all_names_count(rest);
        let last = headers.last()@.0;
        assert(headers.last() == headers[headers.len() - 1]);
        if inserted_fields(rest).contains_key(last) {
            law_fields_come_from_headers(rest, last);
        }
        assert(inserted_fields(headers).dom() =~= inserted_fields(rest).dom().insert(last));
    }
}

/// Headers that begin with more than 24576 different names are refused, with what a header map says
/// when it is full.
pub proof fn law_too_many_names_are_refused(
    headers: Vec<Header>,
    map: Result<HeaderMap<HeaderValue>, TooManyHeaders>,
)
    requires
        call_ensures(collect_headers, (&headers,), map),
        headers@.len() > 24576,
        forall|i: int, j: int|
            0 <= i < j < 24576 ==> (#[trigger] headers@[i])@.0 != (#[trigger] headers@[j])@.0,
    ensures
        map matches Err(error) && error.reason@ == "MaxSizeReached"@,
{
    let first = headers@.take(24576);
    assert(forall|i: int| 0 <= i < first.len() ==> #[trigger] first[i] == headers@[i]);
    lemma_all_names_count(first);
    assert(name_count(headers@.take(24576)) >= 24576);
}

/// The authorization that is found is the first value of that field, byte for byte. It is found
/// exactly when there is such a field and all bytes of that value are visible ASCII characters,
/// spaces or tabs.
pub proof fn law_authorization_is_the_first_value(
    map: HeaderMap<HeaderValue>,
    found: Option<String>,
)
    requires
        call_ensures(authorization, (&map,), found),
    ensures
        found matches Some(text) ==> encode_utf8(text@) == header_fields(
            map,
        )["authorization"@].first(),
        found is Some <==> header_fields(map).contains_key("authorization"@) && (forall|i: int|
            0 <= i < header_fields(map)["authorization"@].first().len() ==> {
                let byte = #[trigger] header_fields(map)["authorization"@].first()[i];
                byte == 9 || 32 <= byte <= 126
            }),
{
}

} // verus!
