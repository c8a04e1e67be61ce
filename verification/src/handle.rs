//! The URL handle: construction, relative resolution and the read-only
//! accessors. An absent handle is answered with a sentinel, never with a
//! failure.
use vstd::prelude::*;
use vstd::string::StringSliceAdditionalSpecFns;
use vstd::utf8::*;
use url::{ParseError, Url};
use crate::engine::{
    appended_len, default_port, host_of, is_special_scheme, join_outcome, pairs_model,
    parse_outcome, parse_with_params, parse_with_params_outcome, text_of, url_parts, UrlParts,
    URL_LIMIT,
};
use crate::error::{mapped, violet_net_url_error_t};
use crate::host::{host_text, render_host, HostModel};
use crate::params::{params_fit, split_outcome, split_pair};
use crate::span::{
    violet_net_optional_string_view, violet_net_optional_uint16, violet_net_string_view,
};

verus! {

/// One parsed URL. A handle is made only by a successful construction or
/// resolution and never changes afterwards.
pub struct violet_net_url_t(Url);

impl View for violet_net_url_t {
    type V = UrlParts;

    /// What the URL holds.
    closed spec fn view(&self) -> UrlParts {
        url_parts(self.0)
    }
}

/// The bytes of an input that may be absent.
pub open spec fn bytes_of(input: Option<&[u8]>) -> Option<Seq<u8>> {
    match input {
        Some(bytes) => Some(bytes@),
        None => None,
    }
}

/// The bytes of each fragment of a list that may be absent; a fragment of
/// the list may be absent too.
pub open spec fn fragments_of(query: Option<&[Option<&[u8]>]>) -> Option<Seq<Option<Seq<u8>>>> {
    match query {
        Some(list) => Some(Seq::new(list@.len(), |i: int| bytes_of(list@[i]))),
        None => None,
    }
}

/// The contents of the handle of a successful outcome, or its error.
pub open spec fn contents(outcome: Result<violet_net_url_t, violet_net_url_error_t>) -> Result<
    UrlParts,
    violet_net_url_error_t,
> {
    match outcome {
        Ok(handle) => Ok(handle@),
        Err(kind) => Err(kind),
    }
}

/// A parser outcome with its error mapped into the taxonomy.
pub open spec fn flattened(outcome: Result<UrlParts, ParseError>) -> Result<
    UrlParts,
    violet_net_url_error_t,
> {
    match outcome {
        Ok(parts) => Ok(parts),
        Err(error) => Err(mapped(error)),
    }
}

/// The local check of a text: `URL_EMPTY` without a text, `URL_NOT_UNICODE`
/// for bytes that are not valid UTF-8, and else the bytes.
pub open spec fn text_outcome(input: Option<Seq<u8>>) -> Result<Seq<u8>, violet_net_url_error_t> {
    match input {
        None => Err(violet_net_url_error_t::URL_EMPTY),
        Some(bytes) => if !valid_utf8(bytes) {
            Err(violet_net_url_error_t::URL_NOT_UNICODE)
        } else {
            Ok(bytes)
        },
    }
}

/// What construction from a text gives: the local error of the text, and
/// else what the parser makes of it.
pub open spec fn new_outcome(input: Option<Seq<u8>>) -> Result<UrlParts, violet_net_url_error_t> {
    match text_outcome(input) {
        Err(kind) => Err(kind),
        Ok(bytes) => flattened(parse_outcome(bytes)),
    }
}

/// What one fragment gives: its local error as a text, and else its key and
/// value or the reason why it has the wrong shape.
pub open spec fn fragment_outcome(fragment: Option<Seq<u8>>) -> Result<
    (Seq<u8>, Seq<u8>),
    violet_net_url_error_t,
> {
    match text_outcome(fragment) {
        Err(kind) => Err(kind),
        Ok(bytes) => split_outcome(bytes),
    }
}

/// The pairs of a list of fragments, taken from the first to the last. The
/// first faulty fragment decides the error.
pub open spec fn split_all(fragments: Seq<Option<Seq<u8>>>) -> Result<
    Seq<(Seq<u8>, Seq<u8>)>,
    violet_net_url_error_t,
>
    decreases fragments.len(),
{
    if fragments.len() == 0 {
        Ok(Seq::empty())
    } else {
        match split_all(fragments.drop_last()) {
            Err(kind) => Err(kind),
            Ok(pairs) => match fragment_outcome(fragments.last()) {
                Err(kind) => Err(kind),
                Ok(pair) => Ok(pairs.push(pair)),
            },
        }
    }
}

/// What construction from a text and a list of `key=value` fragments gives.
/// Local errors come first, in this order: a missing text or list, a text
/// that is not valid UTF-8, the first faulty fragment. Then the text alone
/// decides whether the parser fails, and with which error. Where the text
/// parses, the URL with the pairs is the parser's, unless its serialization
/// would pass `URL_LIMIT`: that alone is refused as `URL_OVERFLOW`.
pub open spec fn new_with_params_outcome(
    input: Option<Seq<u8>>,
    query: Option<Seq<Option<Seq<u8>>>>,
) -> Result<UrlParts, violet_net_url_error_t> {
    if input is None || query is None {
        Err(violet_net_url_error_t::URL_EMPTY)
    } else if !valid_utf8(input.unwrap()) {
        Err(violet_net_url_error_t::URL_NOT_UNICODE)
    } else {
        match split_all(query.unwrap()) {
            Err(kind) => Err(kind),
            Ok(pairs) => match parse_outcome(input.unwrap()) {
                Err(error) => Err(mapped(error)),
                Ok(plain) => if plain.text.len() + appended_len(plain.query, pairs) > URL_LIMIT {
                    Err(violet_net_url_error_t::URL_OVERFLOW)
                } else {
                    flattened(parse_with_params_outcome(input.unwrap(), pairs))
                },
            },
        }
    }
}

/// The inputs on which construction with parameters owes a handle: a text
/// and a list are there, every fragment splits, the parser accepts the text,
/// and the serialization with the pairs stays within `URL_LIMIT`.
pub open spec fn params_accepted(input: Option<Seq<u8>>, query: Option<Seq<Option<Seq<u8>>>>) -> bool {
    &&& text_outcome(input) is Ok
    &&& query is Some
    &&& split_all(query.unwrap()) is Ok
    &&& parse_outcome(input.unwrap()) is Ok
    &&& parse_outcome(input.unwrap()).unwrap().text.len() + appended_len(
        parse_outcome(input.unwrap()).unwrap().query,
        split_all(query.unwrap()).unwrap(),
    ) <= URL_LIMIT
}

/// What resolving a text against a base gives: the local error of the
/// text, `URL_EMPTY` without a base, and else what the parser makes of the
/// two.
pub open spec fn join_result(base: Option<UrlParts>, input: Option<Seq<u8>>) -> Result<
    UrlParts,
    violet_net_url_error_t,
> {
    match text_outcome(input) {
        Err(kind) => Err(kind),
        Ok(bytes) => match base {
            None => Err(violet_net_url_error_t::URL_EMPTY),
            Some(parts) => flattened(join_outcome(parts, bytes)),
        },
    }
}

/// The contents of a handle that may be absent.
pub open spec fn parts_of(handle: Option<&violet_net_url_t>) -> Option<UrlParts> {
    match handle {
        Some(h) => Some(h@),
        None => None,
    }
}

/// An error that a prefix of the fragments gives is the error of the whole
/// list.
proof fn lemma_split_all_prefix_error(fragments: Seq<Option<Seq<u8>>>, n: int)
    requires
        0 <= n <= fragments.len(),
        split_all(fragments.take(n)) is Err,
    ensures
        split_all(fragments) == split_all(fragments.take(n)),
    decreases fragments.len(),
{
    if n == fragments.len() {
        assert(fragments.take(n) =~= fragments);
    } else {
        assert(fragments.drop_last().take(n) =~= fragments.take(n));
        lemma_split_all_prefix_error(fragments.drop_last(), n);
    }
}

/// Splitting keeps the order and the number of the fragments: the list of
/// pairs exists exactly where every fragment splits, and it then has one
/// pair for each fragment, at the fragment's place, repeated keys included.
pub proof fn lemma_split_all_keeps_order(fragments: Seq<Option<Seq<u8>>>)
    ensures
        split_all(fragments) is Ok <==> (forall|i: int|
            0 <= i < fragments.len() ==> fragment_outcome(#[trigger] fragments[i]) is Ok),
        split_all(fragments) is Ok ==> split_all(fragments).unwrap().len() == fragments.len(),
        split_all(fragments) is Ok ==> (forall|i: int|
            0 <= i < fragments.len() ==> fragment_outcome(#[trigger] fragments[i]) == Ok::<
                (Seq<u8>, Seq<u8>),
                violet_net_url_error_t,
            >(split_all(fragments).unwrap()[i])),
    decreases fragments.len(),
{
    if fragments.len() > 0 {
        let front = fragments.drop_last();
        lemma_split_all_keeps_order(front);
        assert forall|i: int| 0 <= i < front.len() implies front[i] == fragments[i] by {}
        if split_all(fragments) is Ok {
            assert forall|i: int| 0 <= i < fragments.len() implies fragment_outcome(
                #[trigger] fragments[i],
            ) is Ok by {
                if i < front.len() {
                    assert(front[i] == fragments[i]);
                }
            }
        }
        if split_all(front) is Err {
            let i = choose|i: int|
                0 <= i < front.len() && !(fragment_outcome(#[trigger] front[i]) is Ok);
            assert(front[i] == fragments[i]);
        }
    }
}

/// The local check of a text that may be absent: its bytes as text, or the
/// local error.
pub fn checked_text<'a>(input: Option<&'a [u8]>) -> (text: Result<&'a str, violet_net_url_error_t>)
    ensures
        match text {
            Ok(t) => text_outcome(bytes_of(input)) == Ok::<Seq<u8>, violet_net_url_error_t>(
                t.spec_bytes(),
            ),
            Err(kind) => text_outcome(bytes_of(input)) == Err::<Seq<u8>, violet_net_url_error_t>(
                kind,
            ),
        },
{
    match input {
        None => Err(violet_net_url_error_t::URL_EMPTY),
        Some(bytes) => match text_of(bytes) {
            Some(text) => Ok(text),
            None => Err(violet_net_url_error_t::URL_NOT_UNICODE),
        },
    }
}

impl violet_net_url_t {
    /// Turns what the parser returned into a handle or a taxonomy error.
    pub fn from_parsed(outcome: Result<Url, ParseError>) -> (made: Result<
        violet_net_url_t,
        violet_net_url_error_t,
    >)
        ensures
            match outcome {
                Ok(url) => made is Ok && made.unwrap()@ == url_parts(url),
                Err(error) => made == Err::<violet_net_url_t, violet_net_url_error_t>(
                    mapped(error),
                ),
            },
    {
        match outcome {
            Ok(url) => Ok(violet_net_url_t(url)),
            Err(error) => Err(violet_net_url_error_t::map(error)),
        }
    }

    /// Constructs a handle from the text of an absolute URL.
    pub fn new(input: Option<&[u8]>) -> (made: Result<violet_net_url_t, violet_net_url_error_t>)
        ensures
            contents(made) == new_outcome(bytes_of(input)),
    {
        match checked_text(input) {
            Ok(text) => Self::from_parsed(Url::parse(text)),
            Err(kind) => Err(kind),
        }
    }

    /// Constructs a handle from the text of an absolute URL and appends the
    /// given `key=value` fragments to its query, in their order and with
    /// repeated keys kept. With fragments that all split, it fails exactly
    /// where `new` fails on the text, and with the same error, but for a
    /// URL that would pass `URL_LIMIT`.
    pub fn new_with_params(input: Option<&[u8]>, query: Option<&[Option<&[u8]>]>) -> (made: Result<
        violet_net_url_t,
        violet_net_url_error_t,
    >)
        ensures
            contents(made) == new_with_params_outcome(bytes_of(input), fragments_of(query)),
            made is Ok <==> params_accepted(bytes_of(input), fragments_of(query)),
    {
        let list = match query {
            Some(list) => list,
            None => { return Err(violet_net_url_error_t::URL_EMPTY); },
        };
        let text = match input {
            Some(_) => match checked_text(input) {
                Ok(text) => text,
                Err(kind) => { return Err(kind); },
            },
            None => { return Err(violet_net_url_error_t::URL_EMPTY); },
        };
        let ghost fragments = fragments_of(query).unwrap();
        let mut pairs: Vec<(&str, &str)> = Vec::new();
        let mut i: usize = 0;
        assert(fragments.take(0) =~= Seq::empty());
        assert(pairs_model(pairs@) =~= Seq::empty());
        while i < list.len()
            invariant
                i <= list@.len(),
                input is Some,
                query == Some(list),
                text_outcome(bytes_of(input)) is Ok,
                fragments == Seq::new(list@.len(), |k: int| bytes_of(list@[k])),
                split_all(fragments.take(i as int)) == Ok::<
                    Seq<(Seq<u8>, Seq<u8>)>,
                    violet_net_url_error_t,
                >(pairs_model(pairs@)),
            decreases list@.len() - i,
        {
            let ghost upto = fragments.take(i + 1);
            proof {
                assert(upto.drop_last() =~= fragments.take(i as int));
                assert(upto.last() == bytes_of(list@[i as int]));
            }
            let split = match checked_text(list[i]) {
                Ok(fragment) => split_pair(fragment),
                Err(kind) => Err(kind),
            };
            let (key, value) = match split {
                Ok(pair) => pair,
                Err(kind) => {
                    proof {
                        lemma_split_all_prefix_error(fragments, i + 1);
                    }
                    return Err(kind);
                },
            };
            let ghost old_pairs = pairs_model(pairs@);
            pairs.push((key, value));
            proof {
                assert(pairs_model(pairs@) =~= old_pairs.push(
                    (key.spec_bytes(), value.spec_bytes()),
                ));
            }
            i += 1;
        }
        assert(fragments.take(i as int) =~= fragments);
        let plain = match Url::parse(text) {
            Ok(plain) => plain,
            Err(error) => { return Err(violet_net_url_error_t::map(error)); },
        };
        if !params_fit(plain.as_str().as_bytes().len(), plain.query(), &pairs) {
            return Err(violet_net_url_error_t::URL_OVERFLOW);
        }
        Self::from_parsed(parse_with_params(text, &pairs))
    }
}

/// Resolves `input` against the URL of `handle` and gives the result a
/// handle of its own; `handle` is left as it was. Without a handle there is
/// nothing to resolve against: `URL_EMPTY`.
pub fn violet_net_url_join(handle: Option<&violet_net_url_t>, input: Option<&[u8]>) -> (made: Result<
    violet_net_url_t,
    violet_net_url_error_t,
>)
    ensures
        contents(made) == join_result(parts_of(handle), bytes_of(input)),
{
    let text = match checked_text(input) {
        Ok(text) => text,
        Err(kind) => { return Err(kind); },
    };
    match handle {
        Some(base) => violet_net_url_t::from_parsed(base.0.join(text)),
        None => Err(violet_net_url_error_t::URL_EMPTY),
    }
}

/// The canonical serialization of the URL; the empty span without a handle.
pub fn violet_net_url_as_str<'a>(handle: Option<&'a violet_net_url_t>) -> (span:
    violet_net_string_view<'a>)
    ensures
        span.wf(),
        match handle {
            Some(h) => span.data is Some && span@ == h@.text,
            None => span.is_canonical_empty(),
        },
{
    match handle {
        Some(h) => violet_net_string_view::from_str(h.0.as_str()),
        None => violet_net_string_view::empty(),
    }
}

/// The scheme of the URL; the empty span without a handle.
pub fn violet_net_url_scheme<'a>(handle: Option<&'a violet_net_url_t>) -> (span:
    violet_net_string_view<'a>)
    ensures
        span.wf(),
        match handle {
            Some(h) => span.data is Some && span@ == h@.scheme,
            None => span.is_canonical_empty(),
        },
{
    match handle {
        Some(h) => violet_net_string_view::from_str(h.0.scheme()),
        None => violet_net_string_view::empty(),
    }
}

/// Whether the scheme is one of `http`, `https`, `ws`, `wss`, `ftp` and
/// `file`; false without a handle.
pub fn violet_net_url_is_special(handle: Option<&violet_net_url_t>) -> (special: bool)
    ensures
        special == (match handle {
            Some(h) => is_special_scheme(h@.scheme),
            None => false,
        }),
{
    match handle {
        Some(h) => h.0.is_special(),
        None => false,
    }
}

/// Whether the URL has an authority; false without a handle.
pub fn violet_net_url_has_authority(handle: Option<&violet_net_url_t>) -> (present: bool)
    ensures
        present == (match handle {
            Some(h) => h@.has_authority,
            None => false,
        }),
{
    match handle {
        Some(h) => h.0.has_authority(),
        None => false,
    }
}

/// The authority of the URL, empty where it has none; the empty span
/// without a handle.
pub fn violet_net_url_authority<'a>(url: Option<&'a violet_net_url_t>) -> (span:
    violet_net_string_view<'a>)
    ensures
        span.wf(),
        match url {
            Some(h) => span.data is Some && span@ == h@.authority,
            None => span.is_canonical_empty(),
        },
{
    match url {
        Some(h) => violet_net_string_view::from_str(h.0.authority()),
        None => violet_net_string_view::empty(),
    }
}

/// The user name of a URL that may be absent: nothing where it is empty.
pub open spec fn username_of(parts: Option<UrlParts>) -> Option<Seq<u8>> {
    match parts {
        Some(p) => if p.username.len() == 0 {
            None
        } else {
            Some(p.username)
        },
        None => None,
    }
}

/// The user name; nothing where it is empty, and nothing without a handle.
/// A user name that is present is never empty.
pub fn violet_net_url_username<'a>(url: Option<&'a violet_net_url_t>) -> (span:
    violet_net_optional_string_view<'a>)
    ensures
        span.wf(),
        span.something ==> span.data.data is Some,
        span@ == username_of(parts_of(url)),
        span.something ==> span.data.len > 0,
{
    match url {
        Some(h) => {
            let username = h.0.username();
            if username.as_bytes().len() == 0 {
                violet_net_optional_string_view::from_opt(None)
            } else {
                violet_net_optional_string_view::from_opt(Some(username))
            }
        },
        None => violet_net_optional_string_view::nothing(),
    }
}

/// The password, which may be present and empty; nothing where the URL has
/// none, and nothing without a handle.
pub fn violet_net_url_password<'a>(url: Option<&'a violet_net_url_t>) -> (span:
    violet_net_optional_string_view<'a>)
    ensures
        span.wf(),
        span.something ==> span.data.data is Some,
        span@ == (match url {
            Some(h) => h@.password,
            None => None,
        }),
{
    match url {
        Some(h) => violet_net_optional_string_view::from_opt(h.0.password()),
        None => violet_net_optional_string_view::nothing(),
    }
}

/// The port that the URL spells out; nothing where it spells none, and
/// nothing without a handle.
pub fn violet_net_url_port(url: Option<&violet_net_url_t>) -> (port: violet_net_optional_uint16)
    ensures
        port.wf(),
        port@ == (match url {
            Some(h) => h@.port,
            None => None,
        }),
{
    match url {
        Some(h) => violet_net_optional_uint16::from_opt(h.0.port()),
        None => violet_net_optional_uint16::nothing(),
    }
}

/// The port of a URL that may be absent: the one it spells out, or else the
/// well-known port of its scheme.
pub open spec fn port_or_default_of(parts: Option<UrlParts>) -> Option<u16> {
    match parts {
        Some(p) => match p.port {
            Some(port) => Some(port),
            None => default_port(p.scheme),
        },
        None => None,
    }
}

/// The port that the URL spells out, or else the well-known port of its
/// scheme; nothing where there is neither, and nothing without a handle.
pub fn violet_net_url_port_or_known_default(url: Option<&violet_net_url_t>) -> (port:
    violet_net_optional_uint16)
    ensures
        port.wf(),
        port@ == port_or_default_of(parts_of(url)),
{
    match url {
        Some(h) => violet_net_optional_uint16::from_opt(h.0.port_or_known_default()),
        None => violet_net_optional_uint16::nothing(),
    }
}

/// Whether the URL has a host; false without a handle.
pub fn violet_net_url_has_host(handle: Option<&violet_net_url_t>) -> (present: bool)
    ensures
        present == (match handle {
            Some(h) => h@.host is Some,
            None => false,
        }),
{
    match handle {
        Some(h) => h.0.has_host(),
        None => false,
    }
}

/// The domain of a URL that may be absent: its host where that is a domain
/// name.
pub open spec fn domain_of(parts: Option<UrlParts>) -> Option<Seq<u8>> {
    match parts {
        Some(p) => match p.host {
            Some(HostModel::Domain(name)) => Some(name),
            _ => None,
        },
        None => None,
    }
}

/// The host where it is a domain name; nothing for an address or a URL
/// without a host, and nothing without a handle.
pub fn violet_net_url_domain<'a>(url: Option<&'a violet_net_url_t>) -> (span:
    violet_net_optional_string_view<'a>)
    ensures
        span.wf(),
        span.something ==> span.data.data is Some,
        span@ == domain_of(parts_of(url)),
{
    match url {
        Some(h) => violet_net_optional_string_view::from_opt(h.0.domain()),
        None => violet_net_optional_string_view::nothing(),
    }
}

/// The path, which is always present; the empty span without a handle.
pub fn violet_net_url_path<'a>(url: Option<&'a violet_net_url_t>) -> (span:
    violet_net_string_view<'a>)
    ensures
        span.wf(),
        match url {
            Some(h) => span.data is Some && span@ == h@.path,
            None => span.is_canonical_empty(),
        },
{
    match url {
        Some(h) => violet_net_string_view::from_str(h.0.path()),
        None => violet_net_string_view::empty(),
    }
}

/// The raw query; nothing where the URL has none, and nothing without a
/// handle.
pub fn violet_net_url_query<'a>(url: Option<&'a violet_net_url_t>) -> (span:
    violet_net_optional_string_view<'a>)
    ensures
        span.wf(),
        span.something ==> span.data.data is Some,
        span@ == (match url {
            Some(h) => h@.query,
            None => None,
        }),
{
    match url {
        Some(h) => violet_net_optional_string_view::from_opt(h.0.query()),
        None => violet_net_optional_string_view::nothing(),
    }
}

/// The fragment; nothing where the URL has none, and nothing without a
/// handle.
pub fn violet_net_url_fragment<'a>(url: Option<&'a violet_net_url_t>) -> (span:
    violet_net_optional_string_view<'a>)
    ensures
        span.wf(),
        span.something ==> span.data.data is Some,
        span@ == (match url {
            Some(h) => h@.fragment,
            None => None,
        }),
{
    match url {
        Some(h) => violet_net_optional_string_view::from_opt(h.0.fragment()),
        None => violet_net_optional_string_view::nothing(),
    }
}

/// The host of a URL that may be absent, in its one textual form.
pub open spec fn host_text_of(parts: Option<UrlParts>) -> Option<Seq<u8>> {
    match parts {
        Some(p) => match p.host {
            Some(host) => Some(host_text(host)),
            None => None,
        },
        None => None,
    }
}

/// The bytes of a text that may be absent.
pub open spec fn owned_bytes(text: Option<Vec<u8>>) -> Option<Seq<u8>> {
    match text {
        Some(bytes) => Some(bytes@),
        None => None,
    }
}

/// The host as text: a domain name as it stands, an IPv4 address in dotted
/// decimal, an IPv6 address in compressed colon-hexadecimal, which is the
/// text between the brackets of the URL's own serialization; nothing where
/// the URL has no host, and nothing without a handle. An IPv6 address that
/// embeds an IPv4 address is written in hexadecimal pieces like any other. Whatever the kind of
/// host, the text is a buffer of its own that belongs to the caller and
/// outlives the handle.
pub fn violet_net_url_host(url: Option<&violet_net_url_t>) -> (text: Option<Vec<u8>>)
    ensures
        owned_bytes(text) == host_text_of(parts_of(url)),
{
    match url {
        Some(h) => match host_of(&h.0) {
            Some(host) => Some(render_host(&host)),
            None => None,
        },
        None => None,
    }
}

/// The host accessors agree: a URL has a host exactly where its host text is
/// present, and where its domain is present the host text is that domain.
pub proof fn lemma_host_accessors_agree(parts: Option<UrlParts>)
    ensures
        host_text_of(parts) is Some <==> parts is Some && parts.unwrap().host is Some,
        domain_of(parts) is Some ==> host_text_of(parts) == domain_of(parts),
{
}

/// An explicit port is the port that is reported with defaults, and without
/// an explicit port the answer depends on the scheme alone.
pub proof fn lemma_port_or_default_extends_port(parts: UrlParts)
    ensures
        parts.port is Some ==> port_or_default_of(Some(parts)) == parts.port,
        parts.port is None ==> port_or_default_of(Some(parts)) == default_port(parts.scheme),
{
}

/// Local errors come before the parser: without a text construction gives
/// `URL_EMPTY`, and for bytes that are not valid UTF-8 it gives
/// `URL_NOT_UNICODE`, with or without parameters and in resolution alike.
pub proof fn lemma_local_errors(
    bytes: Seq<u8>,
    query: Option<Seq<Option<Seq<u8>>>>,
    base: Option<UrlParts>,
)
    ensures
        new_outcome(None) == Err::<UrlParts, violet_net_url_error_t>(
            violet_net_url_error_t::URL_EMPTY,
        ),
        new_with_params_outcome(None, query) == Err::<UrlParts, violet_net_url_error_t>(
            violet_net_url_error_t::URL_EMPTY,
        ),
        new_with_params_outcome(Some(bytes), None) == Err::<UrlParts, violet_net_url_error_t>(
            violet_net_url_error_t::URL_EMPTY,
        ),
        join_result(base, None) == Err::<UrlParts, violet_net_url_error_t>(
            violet_net_url_error_t::URL_EMPTY,
        ),
        !valid_utf8(bytes) ==> new_outcome(Some(bytes)) == Err::<UrlParts, violet_net_url_error_t>(
            violet_net_url_error_t::URL_NOT_UNICODE,
        ),
        !valid_utf8(bytes) && query is Some ==> new_with_params_outcome(Some(bytes), query) == Err::<
            UrlParts,
            violet_net_url_error_t,
        >(violet_net_url_error_t::URL_NOT_UNICODE),
        !valid_utf8(bytes) ==> join_result(base, Some(bytes)) == Err::<
            UrlParts,
            violet_net_url_error_t,
        >(violet_net_url_error_t::URL_NOT_UNICODE),
{
}

/// With a text and fragments that all split, construction with parameters
/// fails wherever plain construction fails on the text, with the same
/// error; and where plain construction gives a handle, the only failure
/// left is `URL_OVERFLOW`, for a URL that would pass `URL_LIMIT`.
pub proof fn lemma_params_fail_as_plain(input: Seq<u8>, query: Seq<Option<Seq<u8>>>)
    requires
        split_all(query) is Ok,
    ensures
        new_outcome(Some(input)) is Err ==> new_with_params_outcome(Some(input), Some(query))
            == new_outcome(Some(input)),
        new_outcome(Some(input)) is Ok && !params_accepted(Some(input), Some(query))
            ==> new_with_params_outcome(Some(input), Some(query)) == Err::<
            UrlParts,
            violet_net_url_error_t,
        >(violet_net_url_error_t::URL_OVERFLOW),
{
}

} // verus!
