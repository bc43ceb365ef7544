//! Texts as parts of URLs.

use crate::text;
use vstd::prelude::*;
use vstd::utf8::encode_utf8;

verus! {

/// A digit below sixteen, in upper case.
pub open spec fn hex_char(d: int) -> char {
    if d < 10 {
        ((48 + d) as u32) as char
    } else {
        ((55 + d) as u32) as char
    }
}

/// A percent sign and the two hexadecimal digits of the byte.
pub open spec fn percent(b: u8) -> Seq<char> {
    seq!['%', hex_char(b as int / 16), hex_char(b as int % 16)]
}

/// Whether the byte is an ASCII letter or digit.
pub open spec fn is_alphanumeric(b: u8) -> bool {
    (0x30 <= b <= 0x39) || (0x41 <= b <= 0x5A) || (0x61 <= b <= 0x7A)
}

/// A byte in a path: letters, digits and `-`, `.`, `_`, `~` stand for
/// themselves.
pub open spec fn path_byte(b: u8) -> Seq<char> {
    if is_alphanumeric(b) || b == 0x2D || b == 0x2E || b == 0x5F || b == 0x7E {
        seq![b as char]
    } else {
        percent(b)
    }
}

/// A byte in a query: letters, digits and `*`, `-`, `.`, `_` stand for
/// themselves, and a space becomes a plus sign.
pub open spec fn query_byte(b: u8) -> Seq<char> {
    if is_alphanumeric(b) || b == 0x2A || b == 0x2D || b == 0x2E || b == 0x5F {
        seq![b as char]
    } else if b == 0x20 {
        seq!['+']
    } else {
        percent(b)
    }
}

/// The bytes in a path, one after the other.
pub open spec fn path_bytes(bytes: Seq<u8>) -> Seq<char>
    decreases bytes.len(),
{
    if bytes.len() == 0 {
        Seq::empty()
    } else {
        path_bytes(bytes.drop_last()) + path_byte(bytes.last())
    }
}

/// The bytes in a query, one after the other.
pub open spec fn query_bytes(bytes: Seq<u8>) -> Seq<char>
    decreases bytes.len(),
{
    if bytes.len() == 0 {
        Seq::empty()
    } else {
        query_bytes(bytes.drop_last()) + query_byte(bytes.last())
    }
}

/// A text as one segment of a path.
pub open spec fn path_segment(s: Seq<char>) -> Seq<char> {
    path_bytes(encode_utf8(s))
}

/// Calls `urlencoding::encode`, which escapes each byte of the text but letters,
/// digits and `-`, `.`, `_`, `~`.
#[verifier::external_body]
pub(crate) fn encode_segment(s: &str) -> (r: String)
    ensures
        r@ == path_segment(s@),
{
    urlencoding::encode(s).into_owned()
}

/// A parameter of a query.
#[derive(Debug)]
pub struct Param {
    pub key: &'static str,
    pub value: String,
}

/// The keys and values of parameters.
pub open spec fn param_pairs(params: Seq<Param>) -> Seq<(Seq<char>, Seq<char>)> {
    params.map_values(|p: Param| (p.key@, p.value@))
}

/// A parameter of a query, as it stands in a URL.
pub open spec fn param_text(p: (Seq<char>, Seq<char>)) -> Seq<char> {
    query_bytes(encode_utf8(p.0)) + "="@ + query_bytes(encode_utf8(p.1))
}

/// The parameters of a query, as they stand in a URL.
pub open spec fn query_text(pairs: Seq<(Seq<char>, Seq<char>)>) -> Seq<char> {
    text::joined(pairs.map_values(|p: (Seq<char>, Seq<char>)| param_text(p)), "&"@)
}

/// Where a login by device code is started.
pub const DEVICE_CODE_URL: &'static str = "https://github.com/login/device/code";

/// Where the token of such a login is asked for.
pub const ACCESS_TOKEN_URL: &'static str = "https://github.com/login/oauth/access_token";

/// Calls `url::Url::parse_with_params` on one of the two addresses of a login.
/// Both are URLs in normal form and without a query, so the parameters come
/// behind a question mark, encoded as in a form.
#[verifier::external_body]
pub(crate) fn with_query(address: &str, params: &Vec<Param>) -> (r: String)
    requires
        address@ == DEVICE_CODE_URL@ || address@ == ACCESS_TOKEN_URL@,
    ensures
        r@ == address@ + "?"@ + query_text(param_pairs(params@)),
{
    let pairs = params.iter().map(|p| (p.key, p.value.as_str()));
    url::Url::parse_with_params(address, pairs).unwrap().into()
}

proof fn lemma_path_bytes(bytes: Seq<u8>, i: int)
    requires
        0 <= i < path_bytes(bytes).len(),
    ensures
        ({
            let c = path_bytes(bytes)[i];
            ||| '0' <= c && c <= '9'
            ||| 'A' <= c && c <= 'Z'
            ||| 'a' <= c && c <= 'z'
            ||| c == '-' || c == '.' || c == '_' || c == '~' || c == '%'
        }),
    decreases bytes.len(),
{
    if bytes.len() > 0 {
        let rest = path_bytes(bytes.drop_last());
        if i < rest.len() {
            lemma_path_bytes(bytes.drop_last(), i);
            assert(path_bytes(bytes)[i] == rest[i]);
        } else {
            let b = bytes.last();
            assert(path_bytes(bytes)[i] == path_byte(b)[i - rest.len()]);
            let high = b as int / 16;
            let low = b as int % 16;
            assert(0 <= high < 16 && 0 <= low < 16);
        }
    }
}

/// What is encoded as a segment of a path neither ends the segment nor the path.
pub proof fn segment_stays_one(s: Seq<char>)
    ensures
        !path_segment(s).contains('/'),
        !path_segment(s).contains('?'),
        !path_segment(s).contains('#'),
{
    let t = path_segment(s);
    if t.contains('/') || t.contains('?') || t.contains('#') {
        let i = choose|i: int| 0 <= i < t.len() && (t[i] == '/' || t[i] == '?' || t[i] == '#');
        lemma_path_bytes(encode_utf8(s), i);
    }
}

} // verus!
