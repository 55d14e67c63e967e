use vstd::prelude::*;
use crate::types::ChatParams;

verus! {

/// serde_json's encoding error, carried unread.
#[verifier::external_type_specification]
#[verifier::external_body]
pub struct ExJsonError(serde_json::Error);

/// A URL parsed by the url crate, carried unread to the transport.
#[verifier::external_type_specification]
#[verifier::external_body]
pub struct ExUrl(url::Url);

/// The url crate's parse error, carried unread.
#[verifier::external_type_specification]
#[verifier::external_body]
pub struct ExUrlParseError(url::ParseError);

/// Lower-case hexadecimal digit of `n`, for `0 <= n < 16`.
pub open spec fn hex_digit(n: int) -> char {
    seq!['0', '1', '2', '3', '4', '5', '6', '7', '8', '9', 'a', 'b', 'c', 'd', 'e', 'f'][n]
}

/// The JSON escape of one character: quote, backslash and control characters
/// are escaped, the short forms where JSON has one; all else stands as it is.
pub open spec fn escaped_char(c: char) -> Seq<char> {
    if c == '"' {
        seq!['\\', '"']
    } else if c == '\\' {
        seq!['\\', '\\']
    } else if c == '\u{08}' {
        seq!['\\', 'b']
    } else if c == '\t' {
        seq!['\\', 't']
    } else if c == '\n' {
        seq!['\\', 'n']
    } else if c == '\u{0c}' {
        seq!['\\', 'f']
    } else if c == '\r' {
        seq!['\\', 'r']
    } else if (c as int) < 0x20 {
        seq!['\\', 'u', '0', '0', hex_digit((c as int) / 16), hex_digit((c as int) % 16)]
    } else {
        seq![c]
    }
}

/// The characters of `s`, each escaped.
pub open spec fn escaped_text(s: Seq<char>) -> Seq<char>
    decreases s.len(),
{
    if s.len() == 0 {
        Seq::empty()
    } else {
        escaped_text(s.drop_last()) + escaped_char(s.last())
    }
}

/// Whether `c` stands unescaped in JSON text.
pub open spec fn is_plain_char(c: char) -> bool {
    c != '"' && c != '\\' && (c as int) >= 0x20
}

/// A text with no quote, backslash or control character is its own escape.
pub proof fn lemma_plain_text_unescaped(s: Seq<char>)
    requires
        forall|i: int| 0 <= i < s.len() ==> is_plain_char(#[trigger] s[i]),
    ensures
        escaped_text(s) == s,
    decreases s.len(),
{
    if s.len() > 0 {
        let init = s.drop_last();
        assert forall|i: int| 0 <= i < init.len() implies is_plain_char(#[trigger] init[i]) by {
            assert(init[i] == s[i]);
        }
        lemma_plain_text_unescaped(init);
        assert(is_plain_char(s[s.len() - 1]));
        assert(s =~= init.push(s.last()));
    }
}

/// The JSON text of the string `s`: its escaped characters between quotes.
pub open spec fn json_string_text(s: Seq<char>) -> Seq<char> {
    seq!['"'] + escaped_text(s) + seq!['"']
}

/// Whether the url crate accepts `s` as an absolute URL.
pub uninterp spec fn url_accepts(s: Seq<char>) -> bool;

/// The URL that the url crate parses from `s`.
pub uninterp spec fn parsed_url(s: Seq<char>) -> url::Url;

/// Relies on serde_json::to_string on a `str`: the string between quotes,
/// escaped as `escaped_char` says. It writes into a `Vec<u8>` and cannot fail.
#[verifier::external_body]
fn json_string(s: &str) -> (r: Result<String, serde_json::Error>)
    ensures
        r is Ok,
        r matches Ok(t) ==> t@ == json_string_text(s@),
{
    serde_json::to_string(s)
}

/// Relies on url::Url::parse: it succeeds exactly on the inputs it accepts,
/// and its result depends on the input alone.
#[verifier::external_body]
pub(crate) fn parse_url(s: &str) -> (r: Result<url::Url, url::ParseError>)
    ensures
        r is Ok <==> url_accepts(s@),
        r matches Ok(u) ==> u == parsed_url(s@),
{
    url::Url::parse(s)
}

/// JSON text of an optional string: `null` when absent.
pub open spec fn optional_json_text(o: Option<String>) -> Seq<char> {
    match o {
        Some(s) => json_string_text(s@),
        None => "null"@,
    }
}

/// The frame of a chat request, from the JSON texts of its parts.
pub open spec fn request_frame(
    id: Seq<char>,
    message: Seq<char>,
    session_key: Seq<char>,
    model: Seq<char>,
    thinking: Seq<char>,
) -> Seq<char> {
    "{\"id\":"@ + id + ",\"method\":\"chat.send\",\"params\":{\"message\":"@ + message
        + ",\"sessionKey\":"@ + session_key + ",\"model\":"@ + model + ",\"thinking\":"@
        + thinking + "}}"@
}

/// The frame of the chat request with correlation id `id` and parameters `p`.
pub open spec fn request_text(id: Seq<char>, p: ChatParams) -> Seq<char> {
    request_frame(
        json_string_text(id),
        json_string_text(p.message@),
        optional_json_text(p.session_key),
        optional_json_text(p.model),
        optional_json_text(p.thinking),
    )
}

/// The endpoint address: the base URL with the credential as `token` query.
pub open spec fn endpoint_text(url: Seq<char>, token: Seq<char>) -> Seq<char> {
    url + "?token="@ + token
}

/// Lays out a chat request frame from the JSON texts of its parts.
pub fn assemble_request(
    id: &str,
    message: &str,
    session_key: &str,
    model: &str,
    thinking: &str,
) -> (r: String)
    ensures
        r@ == request_frame(id@, message@, session_key@, model@, thinking@),
{
    let mut out = String::from_str("{\"id\":");
    out.append(id);
    out.append(",\"method\":\"chat.send\",\"params\":{\"message\":");
    out.append(message);
    out.append(",\"sessionKey\":");
    out.append(session_key);
    out.append(",\"model\":");
    out.append(model);
    out.append(",\"thinking\":");
    out.append(thinking);
    out.append("}}");
    out
}

/// JSON text of an optional string.
pub fn optional_json(o: &Option<String>) -> (r: Result<String, serde_json::Error>)
    ensures
        r is Ok,
        r matches Ok(t) ==> t@ == optional_json_text(*o),
{
    match o {
        Some(s) => json_string(s.as_str()),
        None => Ok(String::from_str("null")),
    }
}

/// Encodes the chat request with correlation id `id` and parameters `p`.
pub fn encode_request(id: &str, p: &ChatParams) -> (r: Result<String, serde_json::Error>)
    ensures
        r is Ok,
        r matches Ok(t) ==> t@ == request_text(id@, *p),
{
    let id_json = json_string(id)?;
    let message = json_string(p.message.as_str())?;
    let session_key = optional_json(&p.session_key)?;
    let model = optional_json(&p.model)?;
    let thinking = optional_json(&p.thinking)?;
    Ok(assemble_request(
        id_json.as_str(),
        message.as_str(),
        session_key.as_str(),
        model.as_str(),
        thinking.as_str(),
    ))
}

/// The endpoint address for `url` and the credential `token`.
pub fn endpoint_address(url: &str, token: &str) -> (r: String)
    ensures
        r@ == endpoint_text(url@, token@),
{
    let mut out = String::from_str(url);
    out.append("?token=");
    out.append(token);
    out
}

} // verus!
