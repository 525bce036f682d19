//! Speech-to-text via OpenRouter: the JSON request that carries the audio as
//! base64 (not multipart), the language hint, and the reading of the reply.
//! The HTTP exchange itself is the caller's.
use vstd::prelude::*;

use base64::Engine;

use crate::config::opt_view;
use crate::text::{same_text, trim, trim_whitespace};

verus! {

broadcast use vstd::string::group_string_axioms;

/// The error type of `serde_json`.
#[verifier::external_type_specification]
#[verifier::external_body]
pub struct ExJsonError(serde_json::Error);

/// The base64 digit for the six-bit value `v`, in the standard alphabet of
/// RFC 4648: `A`-`Z`, `a`-`z`, `0`-`9`, `+`, `/`.
pub open spec fn base64_digit(v: int) -> char {
    if v < 26 {
        (65 + v) as char
    } else if v < 52 {
        (97 + v - 26) as char
    } else if v < 62 {
        (48 + v - 52) as char
    } else if v == 62 {
        '+'
    } else {
        '/'
    }
}

/// Standard base64 with `=` padding (RFC 4648): each group of three bytes
/// becomes four digits; a last group of one or two bytes is padded to four
/// characters with `=`.
pub open spec fn base64_standard(b: Seq<u8>) -> Seq<char>
    decreases b.len(),
{
    if b.len() == 0 {
        Seq::empty()
    } else {
        let b0 = b[0] as int;
        if b.len() == 1 {
            seq![base64_digit(b0 / 4), base64_digit((b0 % 4) * 16), '=', '=']
        } else {
            let b1 = b[1] as int;
            if b.len() == 2 {
                seq![
                    base64_digit(b0 / 4),
                    base64_digit((b0 % 4) * 16 + b1 / 16),
                    base64_digit((b1 % 16) * 4),
                    '=',
                ]
            } else {
                let b2 = b[2] as int;
                seq![
                    base64_digit(b0 / 4),
                    base64_digit((b0 % 4) * 16 + b1 / 16),
                    base64_digit((b1 % 16) * 4 + b2 / 64),
                    base64_digit(b2 % 64),
                ] + base64_standard(b.skip(3))
            }
        }
    }
}

/// The lower-case hexadecimal digit for `v` (0 to 15).
pub open spec fn hex_digit(v: int) -> char {
    if v < 10 {
        (48 + v) as char
    } else {
        (97 + v - 10) as char
    }
}

/// How `serde_json` writes the character `c` inside a string literal: `"`
/// and `\` behind a backslash; backspace, tab, line feed, form feed and
/// carriage return as `\b`, `\t`, `\n`, `\f`, `\r`; other characters below
/// U+0020 as `\u00` and two lower-case hex digits; any other character as
/// itself.
pub open spec fn json_escaped_char(c: char) -> Seq<char> {
    let u = c as int;
    if c == '"' {
        seq!['\\', '"']
    } else if c == '\\' {
        seq!['\\', '\\']
    } else if u == 0x08 {
        seq!['\\', 'b']
    } else if u == 0x09 {
        seq!['\\', 't']
    } else if u == 0x0a {
        seq!['\\', 'n']
    } else if u == 0x0c {
        seq!['\\', 'f']
    } else if u == 0x0d {
        seq!['\\', 'r']
    } else if u < 0x20 {
        seq!['\\', 'u', '0', '0', hex_digit(u / 16), hex_digit(u % 16)]
    } else {
        seq![c]
    }
}

/// The characters of `s`, each escaped as in a JSON string literal.
pub open spec fn json_escaped(s: Seq<char>) -> Seq<char>
    decreases s.len(),
{
    if s.len() == 0 {
        Seq::empty()
    } else {
        json_escaped_char(s[0]) + json_escaped(s.drop_first())
    }
}

/// The JSON string literal that `serde_json` writes for the text `s`: the
/// escaped text between double quotes.
pub open spec fn json_string_literal(s: Seq<char>) -> Seq<char> {
    seq!['"'] + json_escaped(s) + seq!['"']
}

/// What `serde_json` reads from the document `doc`: `Err(message)` where
/// `doc` is not valid JSON, the message being the error's text; otherwise
/// `Ok(m)`, where `m` is the string value of the member `key` of the
/// top-level object, or `None` where the top level is not an object, has no
/// such member, or the member is not a string.
pub uninterp spec fn json_string_member(doc: Seq<char>, key: Seq<char>) -> Result<
    Option<Seq<char>>,
    Seq<char>,
>;

/// The view of what `json_member` returns.
pub open spec fn member_view(r: Result<Option<String>, String>) -> Result<
    Option<Seq<char>>,
    Seq<char>,
> {
    match r {
        Ok(m) => Ok(opt_view(m)),
        Err(msg) => Err(msg@),
    }
}

/// Encodes `bytes` with `base64::engine::general_purpose::STANDARD`
/// (`Engine::encode`): standard alphabet, padded. `encode` panics where
/// the encoded length overflows `usize`, which the `requires` rules out.
#[verifier::external_body]
fn base64_encode(bytes: &[u8]) -> (b64: String)
    requires
        bytes@.len() <= usize::MAX / 2,
    ensures
        b64@ == base64_standard(bytes@),
{
    base64::engine::general_purpose::STANDARD.encode(bytes)
}

/// Writes `s` as a JSON string with `serde_json::to_string`. Serializing a
/// `str` writes into a `Vec` and does not fail, so the result is `Ok`.
#[verifier::external_body]
fn json_quote(s: &str) -> (q: Result<String, serde_json::Error>)
    ensures
        q is Ok,
        q.unwrap()@ == json_string_literal(s@),
{
    serde_json::to_string(s)
}

/// Parses `doc` with `serde_json::from_str` into a `serde_json::Value` and
/// reads the string member `key` of it (`Value::get`, then the `String`
/// variant); a parse error is handed back as its `Display` text.
#[verifier::external_body]
fn json_member(doc: &str, key: &str) -> (r: Result<Option<String>, String>)
    ensures
        member_view(r) == json_string_member(doc@, key@),
{
    match serde_json::from_str::<serde_json::Value>(doc) {
        Ok(v) => Ok(
            match v.get(key) {
                Some(serde_json::Value::String(s)) => Some(s.clone()),
                _ => None,
            },
        ),
        Err(e) => Err(e.to_string()),
    }
}

/// Why a transcription failed.
#[derive(Debug, Clone)]
pub enum SttError {
    /// The service answered with a status outside 200..=299.
    Http { status: u16, body: String },
    /// The reply is not valid JSON; the parser's message.
    Json(String),
}

/// Whether an HTTP status is a success (200..=299).
pub open spec fn is_success(status: u16) -> bool {
    200 <= status <= 299
}

/// The JSON request body around already-written JSON string literals: the
/// audio data, the language hint where there is one, and the model. Members
/// come in the order `serde_json` writes an object's keys.
pub open spec fn request_frame(data_lit: Seq<char>, language_lit: Option<Seq<char>>, model_lit: Seq<
    char,
>) -> Seq<char> {
    "{\"input_audio\":{\"data\":"@ + data_lit + ",\"format\":\"wav\"}"@ + (match language_lit {
        None => Seq::empty(),
        Some(l) => ",\"language\":"@ + l,
    }) + ",\"model\":"@ + model_lit + "}"@
}

/// The JSON request body for transcribing `audio` (WAV bytes) with `model`;
/// the `language` member is present only where `language` is not empty.
pub open spec fn transcription_request(audio: Seq<u8>, model: Seq<char>, language: Seq<char>) -> Seq<
    char,
> {
    request_frame(
        json_string_literal(base64_standard(audio)),
        if language.len() == 0 {
            None
        } else {
            Some(json_string_literal(language))
        },
        json_string_literal(model),
    )
}

/// The transcript in a successful reply: its `text` member, trimmed, or the
/// empty text where there is no such string member; `Err` with the parse
/// error's text where the reply is not valid JSON.
pub open spec fn reply_transcript(body: Seq<char>) -> Result<Seq<char>, Seq<char>> {
    match json_string_member(body, "text"@) {
        Err(msg) => Err(msg),
        Ok(None) => Ok(Seq::empty()),
        Ok(Some(t)) => Ok(trim(t)),
    }
}

/// Assembles the request body from JSON string literals already written for
/// the audio data, the language hint (where one is sent) and the model.
pub fn frame_request_body(data_lit: &str, language_lit: Option<String>, model_lit: &str) -> (body:
    String)
    ensures
        body@ == request_frame(data_lit@, opt_view(language_lit), model_lit@),
{
    let mut body = "{\"input_audio\":{\"data\":".to_owned();
    body.append(data_lit);
    body.append(",\"format\":\"wav\"}");
    if let Some(l) = language_lit {
        body.append(",\"language\":");
        body.append(l.as_str());
    }
    body.append(",\"model\":");
    body.append(model_lit);
    body.append("}");
    assert(body@ =~= request_frame(data_lit@, opt_view(language_lit), model_lit@));
    body
}

/// Builds the JSON body of a transcription request: the audio as standard
/// base64 under `input_audio.data` with format `wav`, the `model`, and the
/// `language` hint where it is not empty.
pub fn request_body(audio: &[u8], model: &str, language: &str) -> (body: String)
    requires
        audio@.len() <= usize::MAX / 2,
    ensures
        body@ == transcription_request(audio@, model@, language@),
{
    let b64 = base64_encode(audio);
    let data = match json_quote(b64.as_str()) {
        Ok(q) => q,
        Err(_) => String::new(),
    };
    let model_lit = match json_quote(model) {
        Ok(q) => q,
        Err(_) => String::new(),
    };
    let language_lit = if language.is_empty() {
        None
    } else {
        match json_quote(language) {
            Ok(q) => Some(q),
            Err(_) => None,
        }
    };
    frame_request_body(data.as_str(), language_lit, model_lit.as_str())
}

/// The transcript held by the reply's `text` member: the member trimmed, or
/// the empty text where there is no such string member.
pub fn transcript_from_member(member: Option<String>) -> (text: String)
    ensures
        text@ == (match member {
            None => Seq::<char>::empty(),
            Some(t) => trim(t@),
        }),
{
    match member {
        None => String::new(),
        Some(t) => trim_whitespace(t.as_str()),
    }
}

/// Reads the service's reply: a status outside 200..=299 is an `Http` error
/// carrying the status and body; a body that is not JSON is a `Json` error;
/// otherwise the trimmed `text` member (empty where there is none).
pub fn read_transcript(status: u16, body: &str) -> (r: Result<String, SttError>)
    ensures
        !is_success(status) ==> (r matches Err(SttError::Http { status: s, body: b }) && s
            == status && b@ == body@),
        is_success(status) ==> (match reply_transcript(body@) {
            Err(msg) => r matches Err(SttError::Json(m)) && m@ == msg,
            Ok(t) => r matches Ok(text) && text@ == t,
        }),
{
    if !(200 <= status && status <= 299) {
        return Err(SttError::Http { status, body: body.to_owned() });
    }
    proof {
        reveal_strlit("text");
    }
    match json_member(body, "text") {
        Err(msg) => Err(SttError::Json(msg)),
        Ok(member) => Ok(transcript_from_member(member)),
    }
}

/// The language hint sent for the `stt.language` setting: nothing (the
/// model detects the language) for `""` and `"auto"`; the keyboard layout's
/// language for `"layout"`, nothing where it is unknown; otherwise the
/// setting itself, a fixed code such as `"ru"` or `"en"`.
pub open spec fn language_hint(setting: Seq<char>, layout_language: Option<Seq<char>>) -> Seq<char> {
    if setting == "auto"@ {
        Seq::empty()
    } else if setting == "layout"@ {
        match layout_language {
            Some(l) => l,
            None => Seq::empty(),
        }
    } else {
        setting
    }
}

/// The language hint to send, given the `stt.language` setting and the
/// language of the active keyboard layout (`None` where it is not known).
pub fn request_language(setting: &str, layout_language: Option<String>) -> (lang: String)
    ensures
        lang@ == language_hint(setting@, opt_view(layout_language)),
{
    if same_text(setting, "auto") {
        return String::new();
    }
    if same_text(setting, "layout") {
        return match layout_language {
            Some(l) => l,
            None => String::new(),
        };
    }
    setting.to_owned()
}

/// A fixed language setting (anything but `"auto"` and `"layout"`) is sent
/// as it stands, whatever the keyboard layout; `"auto"` sends no hint; and
/// `"layout"` sends the layout's language where it is known.
pub proof fn law_language_settings(setting: Seq<char>, layout: Option<Seq<char>>)
    ensures
        setting != "auto"@ && setting != "layout"@ ==> language_hint(setting, layout) == setting,
        language_hint("auto"@, layout).len() == 0,
        layout matches Some(l) ==> language_hint("layout"@, layout) == l,
        layout is None ==> language_hint("layout"@, layout).len() == 0,
{
    reveal_strlit("auto");
    reveal_strlit("layout");
    assert("auto"@ != "layout"@) by {
        assert("auto"@.len() != "layout"@.len());
    }
}

/// The language of a keyboard layout, by the primary language of its
/// language identifier (the low ten bits): Russian gives `"ru"`, English
/// gives `"en"`, any other gives `None`.
pub open spec fn layout_language(lang_id: u16) -> Option<Seq<char>> {
    let primary = lang_id % 1024;
    if primary == 0x19 {
        Some("ru"@)
    } else if primary == 0x09 {
        Some("en"@)
    } else {
        None
    }
}

/// The language code for the keyboard layout with language identifier
/// `lang_id`.
pub fn language_for_layout(lang_id: u16) -> (lang: Option<String>)
    ensures
        opt_view(lang) == layout_language(lang_id),
{
    let primary = lang_id % 1024;
    if primary == 0x19 {
        Some("ru".to_owned())
    } else if primary == 0x09 {
        Some("en".to_owned())
    } else {
        None
    }
}

} // verus!
