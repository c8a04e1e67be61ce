//! The trusted surface towards the URL parsing engine. Nothing in this
//! module is proved: each item states what the engine is taken to do.
use vstd::prelude::*;
use vstd::string::StringSliceAdditionalSpecFns;
use vstd::utf8::valid_utf8;
use url::{ParseError, Url};
use crate::host::{host_model, violet_net_host_t, HostModel};

verus! {

/// The parsing engine's own error kinds (`url::ParseError`): a closed list of
/// unit variants that later versions of the engine may extend.
#[verifier::external_type_specification]
pub struct ExParseError(url::ParseError);

/// A parsed URL record of the engine (`url::Url`), opaque to the verifier.
#[verifier::external_type_specification]
#[verifier::external_body]
pub struct ExUrl(url::Url);

/// What a parsed URL holds, as plain values. Every text is given by its
/// bytes.
pub struct UrlParts {
    /// The canonical serialization.
    pub text: Seq<u8>,
    pub scheme: Seq<u8>,
    pub has_authority: bool,
    pub authority: Seq<u8>,
    /// The user name; empty where the URL has none.
    pub username: Seq<u8>,
    pub password: Option<Seq<u8>>,
    pub host: Option<HostModel>,
    /// The port that the URL spells out.
    pub port: Option<u16>,
    pub path: Seq<u8>,
    pub query: Option<Seq<u8>>,
    pub fragment: Option<Seq<u8>>,
}

/// The largest serialization that the engine supports, in bytes: its
/// records keep their positions in 32 bits.
pub const URL_LIMIT: u64 = 0xffff_ffff;

/// The contents of a URL record of the engine.
pub uninterp spec fn url_parts(url: Url) -> UrlParts;

/// What `Url::parse` makes of a text.
pub uninterp spec fn parse_outcome(input: Seq<u8>) -> Result<UrlParts, ParseError>;

/// What `Url::parse_with_params` makes of a text and a sequence of key/value
/// pairs.
pub uninterp spec fn parse_with_params_outcome(
    input: Seq<u8>,
    pairs: Seq<(Seq<u8>, Seq<u8>)>,
) -> Result<UrlParts, ParseError>;

/// What `Url::join` makes of a base URL and a text.
pub uninterp spec fn join_outcome(base: UrlParts, input: Seq<u8>) -> Result<UrlParts, ParseError>;

/// The bytes of each key and value.
pub open spec fn pairs_model(pairs: Seq<(&str, &str)>) -> Seq<(Seq<u8>, Seq<u8>)> {
    Seq::new(pairs.len(), |i: int| (pairs[i].0.spec_bytes(), pairs[i].1.spec_bytes()))
}

/// Whether the form encoding writes a byte as it is: `*`, `-`, `.`, `_`,
/// a digit or an ASCII letter.
pub open spec fn is_kept_byte(byte: u8) -> bool {
    ||| byte == 0x2a
    ||| byte == 0x2d
    ||| byte == 0x2e
    ||| byte == 0x5f
    ||| 0x30 <= byte <= 0x39
    ||| 0x41 <= byte <= 0x5a
    ||| 0x61 <= byte <= 0x7a
}

/// The number of bytes that the form encoding writes for one byte: one for
/// a kept byte and for a space, which becomes `+`, and three for any other,
/// which becomes `%` and two hexadecimal digits.
pub open spec fn encoded_byte_len(byte: u8) -> nat {
    if is_kept_byte(byte) || byte == 0x20 {
        1
    } else {
        3
    }
}

/// The number of bytes that the form encoding writes for a text.
pub open spec fn encoded_len(bytes: Seq<u8>) -> nat
    decreases bytes.len(),
{
    if bytes.len() == 0 {
        0
    } else {
        encoded_len(bytes.drop_last()) + encoded_byte_len(bytes.last())
    }
}

/// The number of bytes that the pairs themselves take in a query: each key
/// and value in the form encoding, with `=` between the two.
pub open spec fn pairs_encoded_len(pairs: Seq<(Seq<u8>, Seq<u8>)>) -> nat
    decreases pairs.len(),
{
    if pairs.len() == 0 {
        0
    } else {
        pairs_encoded_len(pairs.drop_last()) + encoded_len(pairs.last().0) + 1 + encoded_len(
            pairs.last().1,
        )
    }
}

/// The number of bytes by which appending the pairs lengthens a URL whose
/// query is `query`: a `?` where the URL has no query yet, the pairs
/// themselves, `&` between two pairs, and `&` before the first pair where
/// the query is not empty.
pub open spec fn appended_len(query: Option<Seq<u8>>, pairs: Seq<(Seq<u8>, Seq<u8>)>) -> nat {
    let opening: nat = if query is None {
        1
    } else {
        0
    };
    let joint: nat = if query is Some && query.unwrap().len() > 0 {
        1
    } else {
        0
    };
    if pairs.len() == 0 {
        opening
    } else {
        opening + joint + (pairs.len() - 1) as nat + pairs_encoded_len(pairs)
    }
}

/// Whether `scheme` spells one of the special schemes: `http`, `https`,
/// `ws`, `wss`, `ftp` or `file`.
pub open spec fn is_special_scheme(scheme: Seq<u8>) -> bool {
    ||| scheme == seq![0x68u8, 0x74, 0x74, 0x70]
    ||| scheme == seq![0x68u8, 0x74, 0x74, 0x70, 0x73]
    ||| scheme == seq![0x77u8, 0x73]
    ||| scheme == seq![0x77u8, 0x73, 0x73]
    ||| scheme == seq![0x66u8, 0x74, 0x70]
    ||| scheme == seq![0x66u8, 0x69, 0x6c, 0x65]
}

/// The well-known port of a scheme: 80 for `http` and `ws`, 443 for `https`
/// and `wss`, 21 for `ftp`, none for any other.
pub open spec fn default_port(scheme: Seq<u8>) -> Option<u16> {
    if scheme == seq![0x68u8, 0x74, 0x74, 0x70] || scheme == seq![0x77u8, 0x73] {
        Some(80u16)
    } else if scheme == seq![0x68u8, 0x74, 0x74, 0x70, 0x73] || scheme == seq![0x77u8, 0x73, 0x73] {
        Some(443u16)
    } else if scheme == seq![0x66u8, 0x74, 0x70] {
        Some(21u16)
    } else {
        None
    }
}

/// `core::str::from_utf8`: the bytes as text where they are valid UTF-8, and
/// nothing where they are not.
#[verifier::external_body]
pub(crate) fn text_of<'a>(bytes: &'a [u8]) -> (text: Option<&'a str>)
    ensures
        match text {
            Some(t) => valid_utf8(bytes@) && t.spec_bytes() == bytes@,
            None => !valid_utf8(bytes@),
        },
{
    match core::str::from_utf8(bytes) {
        Ok(text) => Some(text),
        Err(_) => None,
    }
}

/// `Url::parse`: parses an absolute URL. The outcome depends on the text
/// alone.
pub assume_specification[ Url::parse ](input: &str) -> (outcome: Result<Url, ParseError>)
    ensures
        match outcome {
            Ok(url) => parse_outcome(input.spec_bytes()) == Ok::<UrlParts, ParseError>(
                url_parts(url),
            ),
            Err(error) => parse_outcome(input.spec_bytes()) == Err::<UrlParts, ParseError>(error),
        },
;

/// `Url::parse_with_params`: parses an absolute URL and appends the pairs to
/// its query. The outcome depends on the text and the pairs alone, and it
/// fails exactly where `Url::parse` fails on the text, with the same error.
/// After the pairs are appended the engine takes the length of the
/// serialization for a 32-bit position and stops the program where it does
/// not fit, so a text that parses comes here only where the serialization
/// with the pairs stays within `URL_LIMIT`.
#[verifier::external_body]
pub(crate) fn parse_with_params(input: &str, pairs: &Vec<(&str, &str)>) -> (outcome: Result<
    Url,
    ParseError,
>)
    requires
        parse_outcome(input.spec_bytes()) matches Ok(plain) ==> plain.text.len() + appended_len(
            plain.query,
            pairs_model(pairs@),
        ) <= URL_LIMIT,
    ensures
        match outcome {
            Ok(url) => {
                &&& parse_with_params_outcome(input.spec_bytes(), pairs_model(pairs@)) == Ok::<
                    UrlParts,
                    ParseError,
                >(url_parts(url))
                &&& parse_outcome(input.spec_bytes()) is Ok
            },
            Err(error) => {
                &&& parse_with_params_outcome(input.spec_bytes(), pairs_model(pairs@)) == Err::<
                    UrlParts,
                    ParseError,
                >(error)
                &&& parse_outcome(input.spec_bytes()) == Err::<UrlParts, ParseError>(error)
            },
        },
{
    Url::parse_with_params(input, pairs)
}

/// `Url::join`: resolves a text against a base URL. The outcome depends on
/// the base and the text alone; the base is left as it was.
pub assume_specification<'a>[ Url::join ](base: &'a Url, input: &str) -> (outcome: Result<
    Url,
    ParseError,
>)
    ensures
        match outcome {
            Ok(url) => join_outcome(url_parts(*base), input.spec_bytes()) == Ok::<
                UrlParts,
                ParseError,
            >(url_parts(url)),
            Err(error) => join_outcome(url_parts(*base), input.spec_bytes()) == Err::<
                UrlParts,
                ParseError,
            >(error),
        },
;

/// `Url::as_str`: the serialization of the URL.
pub assume_specification<'a>[ Url::as_str ](url: &'a Url) -> (text: &'a str)
    ensures
        text.spec_bytes() == url_parts(*url).text,
;

/// `Url::scheme`: the scheme, without the `:` that follows it.
pub assume_specification<'a>[ Url::scheme ](url: &'a Url) -> (text: &'a str)
    ensures
        text.spec_bytes() == url_parts(*url).scheme,
;

/// `Url::is_special`: whether the scheme is one of the special schemes.
pub assume_specification<'a>[ Url::is_special ](url: &'a Url) -> (special: bool)
    ensures
        special == is_special_scheme(url_parts(*url).scheme),
;

/// `Url::has_authority`: whether the URL has an authority.
pub assume_specification<'a>[ Url::has_authority ](url: &'a Url) -> (present: bool)
    ensures
        present == url_parts(*url).has_authority,
;

/// `Url::authority`: the authority, empty where the URL has none.
pub assume_specification<'a>[ Url::authority ](url: &'a Url) -> (text: &'a str)
    ensures
        text.spec_bytes() == url_parts(*url).authority,
;

/// `Url::username`: the user name, empty where the URL has none.
pub assume_specification<'a>[ Url::username ](url: &'a Url) -> (text: &'a str)
    ensures
        text.spec_bytes() == url_parts(*url).username,
;

/// `Url::password`: the password, where the URL has one.
pub assume_specification<'a>[ Url::password ](url: &'a Url) -> (text: Option<&'a str>)
    ensures
        match url_parts(*url).password {
            Some(bytes) => text is Some && text.unwrap().spec_bytes() == bytes,
            None => text is None,
        },
;

/// `Url::port`: the port that the URL spells out.
pub assume_specification<'a>[ Url::port ](url: &'a Url) -> (port: Option<u16>)
    ensures
        port == url_parts(*url).port,
;

/// `Url::port_or_known_default`: the port that the URL spells out, or else
/// the well-known port of its scheme.
pub assume_specification<'a>[ Url::port_or_known_default ](url: &'a Url) -> (port: Option<u16>)
    ensures
        port == (match url_parts(*url).port {
            Some(p) => Some(p),
            None => default_port(url_parts(*url).scheme),
        }),
;

/// `Url::has_host`: whether the URL has a host.
pub assume_specification<'a>[ Url::has_host ](url: &'a Url) -> (present: bool)
    ensures
        present == url_parts(*url).host is Some,
;

/// `Url::host`: the host, where the URL has one. The engine's addresses are
/// handed on as their octets and pieces.
#[verifier::external_body]
pub(crate) fn host_of<'a>(url: &'a Url) -> (host: Option<violet_net_host_t<'a>>)
    ensures
        host_model(host) == url_parts(*url).host,
{
    match url.host() {
        Some(url::Host::Domain(name)) => Some(violet_net_host_t::Domain(name)),
        Some(url::Host::Ipv4(address)) => Some(violet_net_host_t::Ipv4(address.octets())),
        Some(url::Host::Ipv6(address)) => Some(violet_net_host_t::Ipv6(address.segments())),
        None => None,
    }
}

/// `Url::domain`: the host where it is a domain name, and nothing where it
/// is an address or absent.
pub assume_specification<'a>[ Url::domain ](url: &'a Url) -> (text: Option<&'a str>)
    ensures
        match url_parts(*url).host {
            Some(HostModel::Domain(name)) => text is Some && text.unwrap().spec_bytes() == name,
            _ => text is None,
        },
;

/// `Url::path`: the path.
pub assume_specification<'a>[ Url::path ](url: &'a Url) -> (text: &'a str)
    ensures
        text.spec_bytes() == url_parts(*url).path,
;

/// `Url::query`: the query, where the URL has one, without the `?` before
/// it.
pub assume_specification<'a>[ Url::query ](url: &'a Url) -> (text: Option<&'a str>)
    ensures
        match url_parts(*url).query {
            Some(bytes) => text is Some && text.unwrap().spec_bytes() == bytes,
            None => text is None,
        },
;

/// `Url::fragment`: the fragment, where the URL has one, without the `#`
/// before it.
pub assume_specification<'a>[ Url::fragment ](url: &'a Url) -> (text: Option<&'a str>)
    ensures
        match url_parts(*url).fragment {
            Some(bytes) => text is Some && text.unwrap().spec_bytes() == bytes,
            None => text is None,
        },
;

} // verus!
