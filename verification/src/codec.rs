//! Encodings computed by outside code: base64, JSON and UTF-8.

use vstd::prelude::*;
use vstd::string::*;
use vstd::utf8::{decode_utf8, valid_utf8};

use crate::pipe::{JsonData, JsonDataView};

verus! {

/// The standard base64 encoding (with padding) of `bytes`, as
/// `base64::encode` computes it.
pub uninterp spec fn base64_encoding(bytes: Seq<u8>) -> Seq<char>;

/// Calls `base64::encode`. The contract claims that the text depends on the
/// bytes alone, and that `base64::decode` gives the bytes back from it (the
/// crate's round-trip property, which its tests check for the standard
/// configuration that both functions use). Encoding panics only when the
/// encoded length overflows `usize`, which no slice that can exist reaches.
#[verifier::external_body]
pub(crate) fn base64_encode(bytes: &[u8]) -> (text: String)
    ensures
        text@ == base64_encoding(bytes@),
        base64_decoding(text@) is Ok && base64_decoding(text@)->Ok_0 == bytes@,
{
    base64::encode(bytes)
}

/// What `base64::decode` gives for the UTF-8 bytes of `text`: the decoded
/// bytes, or the message of the decoding error.
pub uninterp spec fn base64_decoding(text: Seq<char>) -> Result<Seq<u8>, Seq<char>>;

/// Calls `base64::decode`. The contract claims that the outcome, the bytes
/// or the error's message, depends on the text alone.
#[verifier::external_body]
pub(crate) fn base64_decode(text: &str) -> (res: Result<Vec<u8>, String>)
    ensures
        match res {
            Ok(bytes) => base64_decoding(text@) == Ok::<Seq<u8>, Seq<char>>(bytes@),
            Err(m) => base64_decoding(text@) == Err::<Seq<u8>, Seq<char>>(m@),
        },
{
    match base64::decode(text) {
        Ok(bytes) => Ok(bytes),
        Err(e) => Err(e.to_string()),
    }
}

/// What `rustc_serialize`'s `FromBase64::from_base64` gives for `text`: the
/// decoded bytes, or the message of the decoding error.
pub uninterp spec fn rustc_base64_decoding(text: Seq<char>) -> Result<Seq<u8>, Seq<char>>;

/// Calls `rustc_serialize::base64::FromBase64::from_base64` on a string.
/// The contract claims that the outcome, the bytes or the error's message,
/// depends on the text alone.
#[verifier::external_body]
pub(crate) fn rustc_base64_decode(text: &str) -> (res: Result<Vec<u8>, String>)
    ensures
        match res {
            Ok(bytes) => rustc_base64_decoding(text@) == Ok::<Seq<u8>, Seq<char>>(bytes@),
            Err(m) => rustc_base64_decoding(text@) == Err::<Seq<u8>, Seq<char>>(m@),
        },
{
    match rustc_serialize::base64::FromBase64::from_base64(text) {
        Ok(bytes) => Ok(bytes),
        Err(e) => Err(e.to_string()),
    }
}

/// The base64 text that `rustc_serialize`'s `ToBase64::to_base64` gives for
/// `bytes` with the standard character set, padding and no line wrapping.
pub uninterp spec fn rustc_base64_encoding(bytes: Seq<u8>) -> Seq<char>;

/// Calls `rustc_serialize::base64::ToBase64::to_base64` with the crate's
/// `STANDARD` configuration (standard characters, padding, no line
/// wrapping). The contract claims that the text depends on the bytes alone.
#[verifier::external_body]
pub(crate) fn rustc_base64_encode(bytes: &[u8]) -> (text: String)
    ensures
        text@ == rustc_base64_encoding(bytes@),
{
    rustc_serialize::base64::ToBase64::to_base64(bytes, rustc_serialize::base64::STANDARD)
}

/// The literal that `rustc_serialize::json::encode` writes for `text`: the
/// same escapes as JSON's own, and DEL (0x7f) written as `\u007f` too.
pub open spec fn rustc_json_string_encoding(text: Seq<char>) -> Seq<char> {
    seq!['"'] + escaped_text(text, true) + seq!['"']
}

/// Calls `rustc_serialize::json::encode` on a string. Its `escape_str`
/// writes `"` and `\` after a backslash, 0x08, tab, line feed, 0x0c and
/// carriage return as `\b`, `\t`, `\n`, `\f`, `\r`, the other bytes
/// below 0x20 and 0x7f as `\u00` and two lower-case hex digits, and any
/// other character as it is, between quotes. Encoding a string cannot fail,
/// so the error arm is never taken.
#[verifier::external_body]
pub(crate) fn rustc_json_quote(text: &str) -> (literal: String)
    ensures
        literal@ == rustc_json_string_encoding(text@),
{
    match rustc_serialize::json::encode(&text) {
        Ok(literal) => literal,
        Err(_) => String::new(),
    }
}

/// The most JSON arrays and objects that `rustc_serialize` may be asked to
/// nest: its tree builder and its encoder recurse once per level, with no
/// limit of their own.
pub const MAX_JSON_NESTING: usize = 512;

/// Where a left-to-right scan of JSON text stands: how many arrays and
/// objects are open, the most that were open at once, whether it is inside
/// a string literal, and whether the byte before was a backslash there.
pub struct JsonScan {
    pub depth: nat,
    pub peak: nat,
    pub in_string: bool,
    pub escaped: bool,
}

/// One byte of the scan. Brackets and braces count only outside string
/// literals; a closing one below depth 0 leaves it at 0.
pub open spec fn scan_step(s: JsonScan, b: u8) -> JsonScan {
    if s.in_string {
        if s.escaped {
            JsonScan { escaped: false, ..s }
        } else if b == 0x5c {
            JsonScan { escaped: true, ..s }
        } else if b == 0x22 {
            JsonScan { in_string: false, ..s }
        } else {
            s
        }
    } else if b == 0x22 {
        JsonScan { in_string: true, ..s }
    } else if b == 0x5b || b == 0x7b {
        let depth = s.depth + 1;
        JsonScan { depth, peak: if depth > s.peak { depth } else { s.peak }, ..s }
    } else if b == 0x5d || b == 0x7d {
        JsonScan { depth: if s.depth > 0 { (s.depth - 1) as nat } else { 0 }, ..s }
    } else {
        s
    }
}

/// The scan after all of `bytes`.
pub open spec fn scan_json(bytes: Seq<u8>) -> JsonScan
    decreases bytes.len(),
{
    if bytes.len() == 0 {
        JsonScan { depth: 0, peak: 0, in_string: false, escaped: false }
    } else {
        scan_step(scan_json(bytes.drop_last()), bytes.last())
    }
}

/// How deeply arrays and objects nest in JSON text: the most that are open
/// at once, reading left to right.
pub open spec fn json_nesting(bytes: Seq<u8>) -> nat {
    scan_json(bytes).peak
}

/// How deeply the arrays and objects of `text` nest.
pub fn nesting_depth(text: &str) -> (d: usize)
    ensures
        d == json_nesting(text.spec_bytes()),
{
    let bytes = text.as_bytes();
    let n = bytes.len();
    let mut depth: usize = 0;
    let mut peak: usize = 0;
    let mut in_string = false;
    let mut escaped = false;
    let mut i: usize = 0;
    while i < n
        invariant
            n == bytes@.len(),
            bytes@ == text.spec_bytes(),
            i <= n,
            depth <= i,
            peak <= i,
            scan_json(bytes@.take(i as int)) == (JsonScan {
                depth: depth as nat,
                peak: peak as nat,
                in_string,
                escaped,
            }),
        decreases n - i,
    {
        let b = bytes[i];
        if in_string {
            if escaped {
                escaped = false;
            } else if b == 0x5c {
                escaped = true;
            } else if b == 0x22 {
                in_string = false;
            }
        } else if b == 0x22 {
            in_string = true;
        } else if b == 0x5b || b == 0x7b {
            depth = depth + 1;
            if depth > peak {
                peak = depth;
            }
        } else if b == 0x5d || b == 0x7d {
            if depth > 0 {
                depth = depth - 1;
            }
        }
        assert(bytes@.take(i + 1).drop_last() =~= bytes@.take(i as int));
        i = i + 1;
    }
    assert(bytes@.take(n as int) =~= bytes@);
    peak
}

/// What `rustc_serialize` finds in `line` under `key`: `None` when the line
/// is not JSON, `Some(None)` when its value is not an object or has no
/// member `key`, and otherwise the member, a string or any other value as
/// its compact JSON text.
pub uninterp spec fn rustc_json_member_of(line: Seq<char>, key: Seq<char>) -> Option<Option<JsonDataView>>;

/// Calls `rustc_serialize::json::Json::from_str` on `line` and `Json::find`
/// with `key`; a member that is not a string is handed out as its
/// `Display` text, the compact encoding, which begins with `"` only for a
/// string. The contract claims that the outcome depends on the line and the
/// key alone. The tree builder recurses once per nesting level, so the
/// nesting is bounded.
#[verifier::external_body]
pub(crate) fn rustc_json_member(line: &str, key: &str) -> (res: Option<Option<JsonData>>)
    requires
        json_nesting(line.spec_bytes()) <= MAX_JSON_NESTING,
    ensures
        match res {
            None => rustc_json_member_of(line@, key@) is None,
            Some(None) => rustc_json_member_of(line@, key@) == Some(None::<JsonDataView>),
            Some(Some(v)) => rustc_json_member_of(line@, key@) == Some(Some(v@)) && v@.is_canonical(),
        },
{
    match rustc_serialize::json::Json::from_str(line) {
        Err(_) => None,
        Ok(json) => match json.find(key) {
            None => Some(None),
            Some(rustc_serialize::json::Json::String(s)) => Some(Some(JsonData::Str(s.clone()))),
            Some(other) => Some(Some(JsonData::Other(other.to_string()))),
        },
    }
}

/// What reading `bytes` as one JSON value with `serde_json` and writing that
/// value back out compactly gives: the compact text, or the message of the
/// parse error.
pub uninterp spec fn json_reencoding(bytes: Seq<u8>) -> Result<Seq<char>, Seq<char>>;

/// Calls `serde_json::from_slice` for a `serde_json::Value` and renders the
/// value with `to_string`. The contract claims that the outcome depends on
/// the bytes alone.
#[verifier::external_body]
pub(crate) fn json_reencode(bytes: &[u8]) -> (res: Result<String, String>)
    ensures
        match res {
            Ok(t) => json_reencoding(bytes@) == Ok::<Seq<char>, Seq<char>>(t@),
            Err(m) => json_reencoding(bytes@) == Err::<Seq<char>, Seq<char>>(m@),
        },
{
    match serde_json::from_slice::<serde_json::Value>(bytes) {
        Ok(value) => Ok(value.to_string()),
        Err(e) => Err(e.to_string()),
    }
}

/// Six characters for a control character: `\u00` and its two hex digits,
/// lower case.
pub open spec fn unicode_escape(c: char) -> Seq<char> {
    seq!['\\', 'u', '0', '0', hex_digit(c as int / 16), hex_digit(c as int % 16)]
}

/// The lower-case hex digit for `n` below 16.
pub open spec fn hex_digit(n: int) -> char {
    if n < 10 {
        (('0' as int) + n) as char
    } else {
        (('a' as int) + n - 10) as char
    }
}

/// How a character stands inside a JSON string literal: `"` and `\` after
/// a backslash, 0x08, tab, line feed, 0x0c and carriage return by their
/// short escapes, the other characters below 0x20 (and DEL where
/// `escape_del` holds) by `\u00XX`, and any other character as it is.
pub open spec fn escaped_char(c: char, escape_del: bool) -> Seq<char> {
    if c == '"' {
        seq!['\\', '"']
    } else if c == '\\' {
        seq!['\\', '\\']
    } else if c == '\u{8}' {
        seq!['\\', 'b']
    } else if c == '\t' {
        seq!['\\', 't']
    } else if c == '\n' {
        seq!['\\', 'n']
    } else if c == '\u{c}' {
        seq!['\\', 'f']
    } else if c == '\r' {
        seq!['\\', 'r']
    } else if (c as int) < 0x20 || (escape_del && c == '\u{7f}') {
        unicode_escape(c)
    } else {
        seq![c]
    }
}

/// The characters of `text`, each escaped as inside a JSON string literal.
pub open spec fn escaped_text(text: Seq<char>, escape_del: bool) -> Seq<char>
    decreases text.len(),
{
    if text.len() == 0 {
        Seq::empty()
    } else {
        escaped_text(text.drop_last(), escape_del) + escaped_char(text.last(), escape_del)
    }
}

/// The JSON string literal for `text`, as `serde_json::to_string` writes
/// it.
pub open spec fn json_string_encoding(text: Seq<char>) -> Seq<char> {
    seq!['"'] + escaped_text(text, false) + seq!['"']
}

/// Calls `serde_json::to_string` on a string. Its `format_escaped_str`
/// writes `"` and `\` after a backslash, 0x08, tab, line feed, 0x0c and
/// carriage return as `\b`, `\t`, `\n`, `\f`, `\r`, the other bytes
/// below 0x20 as `\u00` and two lower-case hex digits, and any other
/// character as it is, between quotes. Encoding a string cannot fail, so
/// the error arm is never taken.
#[verifier::external_body]
pub(crate) fn json_quote(text: &str) -> (literal: String)
    ensures
        literal@ == json_string_encoding(text@),
{
    match serde_json::to_string(text) {
        Ok(literal) => literal,
        Err(_) => String::new(),
    }
}

/// Calls `std::str::from_utf8`, which accepts exactly the valid UTF-8 byte
/// sequences, and copies the text it gives.
#[verifier::external_body]
pub(crate) fn utf8_decode(bytes: &[u8]) -> (res: Option<String>)
    ensures
        res is Some <==> valid_utf8(bytes@),
        res matches Some(s) ==> s@ == decode_utf8(bytes@),
{
    match std::str::from_utf8(bytes) {
        Ok(text) => Some(text.to_owned()),
        Err(_) => None,
    }
}

} // verus!
