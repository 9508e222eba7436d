//! The text of the pipeline's addresses: normalization of the caller's
//! source URL, the form-urlencoded proxy address used for the fallback
//! fetch, and the two favicon provider addresses.

use vstd::prelude::*;

verus! {

use vstd::string::*;

/// A protocol-relative URL: one that begins with two slashes.
pub open spec fn spec_protocol_relative(u: Seq<char>) -> bool {
    u.len() >= 2 && u[0] == '/' && u[1] == '/'
}

/// Normalization prefixes `https:` to a protocol-relative URL and leaves
/// every other URL alone.
pub open spec fn spec_normalized(u: Seq<char>) -> Seq<char> {
    if spec_protocol_relative(u) {
        "https:"@ + u
    } else {
        u
    }
}

/// Whether a URL begins with `http` (which admits both `http:` and
/// `https:` schemes).
pub open spec fn spec_http_like(u: Seq<char>) -> bool {
    u.len() >= 4 && u[0] == 'h' && u[1] == 't' && u[2] == 't' && u[3] == 'p'
}

/// Whether the URL begins with two slashes.
pub fn protocol_relative(url: &str) -> (r: bool)
    ensures
        r == spec_protocol_relative(url@),
{
    let n = url.unicode_len();
    if n < 2 {
        false
    } else {
        url.get_char(0) == '/' && url.get_char(1) == '/'
    }
}

/// Prefix `https:` to a protocol-relative URL; leave any other URL alone.
pub fn normalize_protocol(url: &str) -> (r: String)
    ensures
        r@ == spec_normalized(url@),
{
    if protocol_relative(url) {
        let mut out = String::from_str("https:");
        out.append(url);
        out
    } else {
        url.to_owned()
    }
}

/// Whether the URL begins with `http`.
pub fn is_http_like(url: &str) -> (r: bool)
    ensures
        r == spec_http_like(url@),
{
    let n = url.unicode_len();
    if n < 4 {
        false
    } else {
        url.get_char(0) == 'h' && url.get_char(1) == 't' && url.get_char(2) == 't' && url.get_char(
            3,
        ) == 'p'
    }
}

/// The bytes the form-urlencoded byte serializer keeps verbatim:
/// alphanumerics and `*`, `-`, `.`, `_`.
pub open spec fn spec_urlencode_unchanged(b: u8) -> bool {
    ||| b == 42
    ||| b == 45
    ||| b == 46
    ||| (48 <= b && b <= 57)
    ||| (65 <= b && b <= 90)
    ||| b == 95
    ||| (97 <= b && b <= 122)
}

/// The uppercase hexadecimal digit of a value below sixteen.
pub open spec fn spec_hex_upper(n: u8) -> char
    recommends
        n < 16,
{
    if n < 10 {
        ((48 + n) as u8) as char
    } else {
        ((55 + n) as u8) as char
    }
}

/// The application/x-www-form-urlencoded serialization of one byte: kept
/// when unreserved, `+` for a space, and `%` with two uppercase hex digits
/// for anything else.
pub open spec fn spec_encoded_byte(b: u8) -> Seq<char> {
    if spec_urlencode_unchanged(b) {
        seq![b as char]
    } else if b == 32 {
        seq!['+']
    } else {
        seq!['%', spec_hex_upper(b / 16), spec_hex_upper(b % 16)]
    }
}

/// The application/x-www-form-urlencoded serialization of a byte sequence.
pub open spec fn spec_form_urlencoded(bs: Seq<u8>) -> Seq<char>
    decreases bs.len(),
{
    if bs.len() == 0 {
        Seq::<char>::empty()
    } else {
        spec_encoded_byte(bs[0]) + spec_form_urlencoded(bs.skip(1))
    }
}

/// Relies on `url::form_urlencoded::byte_serialize`: each input byte is kept
/// verbatim when it is alphanumeric or one of `*-._`, a space becomes `+`,
/// and any other byte becomes `%` followed by its two uppercase hex digits.
#[verifier::external_body]
fn urlencode(s: &str) -> (r: String)
    ensures
        r@ == spec_form_urlencoded(s.spec_bytes()),
{
    url::form_urlencoded::byte_serialize(s.as_bytes()).collect()
}

/// The address of the fallback fetch for a source URL whose primary fetch
/// failed: the proxy base with the URL form-urlencoded as its query value.
pub open spec fn spec_proxy_url(u: &str) -> Seq<char> {
    "https://expander.iavian.net/proxy?url="@ + spec_form_urlencoded(u.spec_bytes())
}

/// Build the proxy fallback address for a source URL.
pub fn proxy_url(url: &str) -> (r: String)
    ensures
        r@ == spec_proxy_url(url),
{
    let mut out = String::from_str("https://expander.iavian.net/proxy?url=");
    let encoded = urlencode(url);
    out.append(encoded.as_str());
    out
}

/// The primary favicon provider's address for a domain: the metadata
/// service asked for a small fixed icon size.
pub open spec fn spec_favicon_primary_url(domain: &str) -> Seq<char> {
    "https://t0.gstatic.com/faviconV2?client=SOCIAL&type=FAVICON&size=12&fallback_opts=TYPE,SIZE,URL&url=http://"@
        + domain@
}

/// The secondary favicon provider's address for a domain.
pub open spec fn spec_favicon_fallback_url(domain: &str) -> Seq<char> {
    "https://www.faviconextractor.com/favicon/"@ + domain@
}

/// Build the primary favicon provider's address for a domain.
pub fn favicon_primary_url(domain: &str) -> (r: String)
    ensures
        r@ == spec_favicon_primary_url(domain),
{
    let mut out = String::from_str(
        "https://t0.gstatic.com/faviconV2?client=SOCIAL&type=FAVICON&size=12&fallback_opts=TYPE,SIZE,URL&url=http://",
    );
    out.append(domain);
    out
}

/// Build the secondary favicon provider's address for a domain.
pub fn favicon_fallback_url(domain: &str) -> (r: String)
    ensures
        r@ == spec_favicon_fallback_url(domain),
{
    let mut out = String::from_str("https://www.faviconextractor.com/favicon/");
    out.append(domain);
    out
}

} // verus!
