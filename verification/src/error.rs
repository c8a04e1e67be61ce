//! The flat error taxonomy of the boundary.
use vstd::prelude::*;
use url::ParseError;

verus! {

/// Every failure the boundary can report, local or parser-reported.
#[derive(Clone, Copy, Debug, PartialEq, Eq, Structural)]
#[non_exhaustive]
pub enum violet_net_url_error_t {
    URL_OK,
    URL_EMPTY,
    URL_NOT_UNICODE,
    URL_INVALID_PARAM_STRING,
    URL_EXTRA_CHAR_IN_PARAM_STRING,
    URL_EMPTY_HOST,
    URL_IDNA_ERROR,
    URL_INVALID_PORT,
    URL_INVALID_IPV4_ADDRESS,
    URL_INVALID_IPV6_ADDRESS,
    URL_INVALID_DOMAIN_CHARACTER,
    URL_RELATIVE_URL_WITHOUT_BASE,
    URL_RELATIVE_URL_WITH_CANNOT_BE_A_BASE_BASE,
    URL_SET_HOST_ON_CANNOT_BE_A_BASE_URL,
    URL_OVERFLOW,
    URL_UNKNOWN,
}

/// The taxonomy value that stands for a parser error kind.
pub open spec fn mapped(error: ParseError) -> violet_net_url_error_t {
    match error {
        ParseError::EmptyHost => violet_net_url_error_t::URL_EMPTY_HOST,
        ParseError::IdnaError => violet_net_url_error_t::URL_IDNA_ERROR,
        ParseError::InvalidPort => violet_net_url_error_t::URL_INVALID_PORT,
        ParseError::InvalidIpv4Address => violet_net_url_error_t::URL_INVALID_IPV4_ADDRESS,
        ParseError::InvalidIpv6Address => violet_net_url_error_t::URL_INVALID_IPV6_ADDRESS,
        ParseError::InvalidDomainCharacter => violet_net_url_error_t::URL_INVALID_DOMAIN_CHARACTER,
        ParseError::RelativeUrlWithoutBase => violet_net_url_error_t::URL_RELATIVE_URL_WITHOUT_BASE,
        ParseError::RelativeUrlWithCannotBeABaseBase => violet_net_url_error_t::URL_RELATIVE_URL_WITH_CANNOT_BE_A_BASE_BASE,
        ParseError::SetHostOnCannotBeABaseUrl => violet_net_url_error_t::URL_SET_HOST_ON_CANNOT_BE_A_BASE_URL,
        ParseError::Overflow => violet_net_url_error_t::URL_OVERFLOW,
        _ => violet_net_url_error_t::URL_UNKNOWN,
    }
}


/// The stable number of a taxonomy value: `URL_OK` is 0, the kinds that
/// follow count upwards in declaration order, and `URL_UNKNOWN` is -1.
pub open spec fn code_of(kind: violet_net_url_error_t) -> int {
    match kind {
        violet_net_url_error_t::URL_OK => 0,
        violet_net_url_error_t::URL_EMPTY => 1,
        violet_net_url_error_t::URL_NOT_UNICODE => 2,
        violet_net_url_error_t::URL_INVALID_PARAM_STRING => 3,
        violet_net_url_error_t::URL_EXTRA_CHAR_IN_PARAM_STRING => 4,
        violet_net_url_error_t::URL_EMPTY_HOST => 5,
        violet_net_url_error_t::URL_IDNA_ERROR => 6,
        violet_net_url_error_t::URL_INVALID_PORT => 7,
        violet_net_url_error_t::URL_INVALID_IPV4_ADDRESS => 8,
        violet_net_url_error_t::URL_INVALID_IPV6_ADDRESS => 9,
        violet_net_url_error_t::URL_INVALID_DOMAIN_CHARACTER => 10,
        violet_net_url_error_t::URL_RELATIVE_URL_WITHOUT_BASE => 11,
        violet_net_url_error_t::URL_RELATIVE_URL_WITH_CANNOT_BE_A_BASE_BASE => 12,
        violet_net_url_error_t::URL_SET_HOST_ON_CANNOT_BE_A_BASE_URL => 13,
        violet_net_url_error_t::URL_OVERFLOW => 14,
        violet_net_url_error_t::URL_UNKNOWN => -1,
    }
}

/// The taxonomy value that a number stands for; a number outside the
/// taxonomy stands for `URL_UNKNOWN`.
pub open spec fn kind_of(code: int) -> violet_net_url_error_t {
    if code == 0 {
        violet_net_url_error_t::URL_OK
    } else if code == 1 {
        violet_net_url_error_t::URL_EMPTY
    } else if code == 2 {
        violet_net_url_error_t::URL_NOT_UNICODE
    } else if code == 3 {
        violet_net_url_error_t::URL_INVALID_PARAM_STRING
    } else if code == 4 {
        violet_net_url_error_t::URL_EXTRA_CHAR_IN_PARAM_STRING
    } else if code == 5 {
        violet_net_url_error_t::URL_EMPTY_HOST
    } else if code == 6 {
        violet_net_url_error_t::URL_IDNA_ERROR
    } else if code == 7 {
        violet_net_url_error_t::URL_INVALID_PORT
    } else if code == 8 {
        violet_net_url_error_t::URL_INVALID_IPV4_ADDRESS
    } else if code == 9 {
        violet_net_url_error_t::URL_INVALID_IPV6_ADDRESS
    } else if code == 10 {
        violet_net_url_error_t::URL_INVALID_DOMAIN_CHARACTER
    } else if code == 11 {
        violet_net_url_error_t::URL_RELATIVE_URL_WITHOUT_BASE
    } else if code == 12 {
        violet_net_url_error_t::URL_RELATIVE_URL_WITH_CANNOT_BE_A_BASE_BASE
    } else if code == 13 {
        violet_net_url_error_t::URL_SET_HOST_ON_CANNOT_BE_A_BASE_URL
    } else if code == 14 {
        violet_net_url_error_t::URL_OVERFLOW
    } else {
        violet_net_url_error_t::URL_UNKNOWN
    }
}

/// The English text that describes a taxonomy value.
pub open spec fn description(kind: violet_net_url_error_t) -> Seq<char> {
    match kind {
        violet_net_url_error_t::URL_OK => "ok"@,
        violet_net_url_error_t::URL_EMPTY => "empty input provided"@,
        violet_net_url_error_t::URL_NOT_UNICODE => "input was not valid unicode"@,
        violet_net_url_error_t::URL_INVALID_PARAM_STRING => "`Url::parse_with_params()': parameter didn't have `=` sign"@,
        violet_net_url_error_t::URL_EXTRA_CHAR_IN_PARAM_STRING => "`Url::parse_with_params()': parameter with pair had extra `=`"@,
        violet_net_url_error_t::URL_EMPTY_HOST => "empty host"@,
        violet_net_url_error_t::URL_IDNA_ERROR => "invalid international domain name"@,
        violet_net_url_error_t::URL_INVALID_PORT => "invalid port number"@,
        violet_net_url_error_t::URL_INVALID_IPV4_ADDRESS => "invalid IPv4 address"@,
        violet_net_url_error_t::URL_INVALID_IPV6_ADDRESS => "invalid IPv6 address"@,
        violet_net_url_error_t::URL_INVALID_DOMAIN_CHARACTER => "invalid domain character"@,
        violet_net_url_error_t::URL_RELATIVE_URL_WITHOUT_BASE => "relative URL without a base"@,
        violet_net_url_error_t::URL_RELATIVE_URL_WITH_CANNOT_BE_A_BASE_BASE => "relative URL with a cannot-be-a-base base"@,
        violet_net_url_error_t::URL_SET_HOST_ON_CANNOT_BE_A_BASE_URL => "a cannot-be-a-base URL doesn’t have a host to set"@,
        violet_net_url_error_t::URL_OVERFLOW => "URLs more than 4 GB are not supported"@,
        violet_net_url_error_t::URL_UNKNOWN => "unknown error: should never happen"@,
    }
}

impl violet_net_url_error_t {
    /// Maps a parser error kind to its taxonomy value; kinds that the
    /// taxonomy does not know become `URL_UNKNOWN`.
    pub fn map(error: ParseError) -> (kind: violet_net_url_error_t)
        ensures
            kind == mapped(error),
    {
        match error {
            ParseError::EmptyHost => violet_net_url_error_t::URL_EMPTY_HOST,
            ParseError::IdnaError => violet_net_url_error_t::URL_IDNA_ERROR,
            ParseError::InvalidPort => violet_net_url_error_t::URL_INVALID_PORT,
            ParseError::InvalidIpv4Address => violet_net_url_error_t::URL_INVALID_IPV4_ADDRESS,
            ParseError::InvalidIpv6Address => violet_net_url_error_t::URL_INVALID_IPV6_ADDRESS,
            ParseError::InvalidDomainCharacter => violet_net_url_error_t::URL_INVALID_DOMAIN_CHARACTER,
            ParseError::RelativeUrlWithoutBase => violet_net_url_error_t::URL_RELATIVE_URL_WITHOUT_BASE,
            ParseError::RelativeUrlWithCannotBeABaseBase => violet_net_url_error_t::URL_RELATIVE_URL_WITH_CANNOT_BE_A_BASE_BASE,
            ParseError::SetHostOnCannotBeABaseUrl => violet_net_url_error_t::URL_SET_HOST_ON_CANNOT_BE_A_BASE_URL,
            ParseError::Overflow => violet_net_url_error_t::URL_OVERFLOW,
            _ => violet_net_url_error_t::URL_UNKNOWN,
        }
    }
    /// The stable number of this value.
    pub fn code(self) -> (code: i32)
        ensures
            code == code_of(self),
    {
        match self {
            violet_net_url_error_t::URL_OK => 0,
            violet_net_url_error_t::URL_EMPTY => 1,
            violet_net_url_error_t::URL_NOT_UNICODE => 2,
            violet_net_url_error_t::URL_INVALID_PARAM_STRING => 3,
            violet_net_url_error_t::URL_EXTRA_CHAR_IN_PARAM_STRING => 4,
            violet_net_url_error_t::URL_EMPTY_HOST => 5,
            violet_net_url_error_t::URL_IDNA_ERROR => 6,
            violet_net_url_error_t::URL_INVALID_PORT => 7,
            violet_net_url_error_t::URL_INVALID_IPV4_ADDRESS => 8,
            violet_net_url_error_t::URL_INVALID_IPV6_ADDRESS => 9,
            violet_net_url_error_t::URL_INVALID_DOMAIN_CHARACTER => 10,
            violet_net_url_error_t::URL_RELATIVE_URL_WITHOUT_BASE => 11,
            violet_net_url_error_t::URL_RELATIVE_URL_WITH_CANNOT_BE_A_BASE_BASE => 12,
            violet_net_url_error_t::URL_SET_HOST_ON_CANNOT_BE_A_BASE_URL => 13,
            violet_net_url_error_t::URL_OVERFLOW => 14,
            violet_net_url_error_t::URL_UNKNOWN => -1,
        }
    }

    /// The value that `code` stands for, `URL_UNKNOWN` for any number outside
    /// the taxonomy.
    pub fn from_code(code: i32) -> (kind: violet_net_url_error_t)
        ensures
            kind == kind_of(code as int),
    {
        match code {
            0 => violet_net_url_error_t::URL_OK,
            1 => violet_net_url_error_t::URL_EMPTY,
            2 => violet_net_url_error_t::URL_NOT_UNICODE,
            3 => violet_net_url_error_t::URL_INVALID_PARAM_STRING,
            4 => violet_net_url_error_t::URL_EXTRA_CHAR_IN_PARAM_STRING,
            5 => violet_net_url_error_t::URL_EMPTY_HOST,
            6 => violet_net_url_error_t::URL_IDNA_ERROR,
            7 => violet_net_url_error_t::URL_INVALID_PORT,
            8 => violet_net_url_error_t::URL_INVALID_IPV4_ADDRESS,
            9 => violet_net_url_error_t::URL_INVALID_IPV6_ADDRESS,
            10 => violet_net_url_error_t::URL_INVALID_DOMAIN_CHARACTER,
            11 => violet_net_url_error_t::URL_RELATIVE_URL_WITHOUT_BASE,
            12 => violet_net_url_error_t::URL_RELATIVE_URL_WITH_CANNOT_BE_A_BASE_BASE,
            13 => violet_net_url_error_t::URL_SET_HOST_ON_CANNOT_BE_A_BASE_URL,
            14 => violet_net_url_error_t::URL_OVERFLOW,
            _ => violet_net_url_error_t::URL_UNKNOWN,
        }
    }

    /// The static English description of this value.
    pub fn to_str(self) -> (text: &'static str)
        ensures
            text@ == description(self),
    {
        match self {
            violet_net_url_error_t::URL_OK => "ok",
            violet_net_url_error_t::URL_EMPTY => "empty input provided",
            violet_net_url_error_t::URL_NOT_UNICODE => "input was not valid unicode",
            violet_net_url_error_t::URL_INVALID_PARAM_STRING => "`Url::parse_with_params()': parameter didn't have `=` sign",
            violet_net_url_error_t::URL_EXTRA_CHAR_IN_PARAM_STRING => "`Url::parse_with_params()': parameter with pair had extra `=`",
            violet_net_url_error_t::URL_EMPTY_HOST => "empty host",
            violet_net_url_error_t::URL_IDNA_ERROR => "invalid international domain name",
            violet_net_url_error_t::URL_INVALID_PORT => "invalid port number",
            violet_net_url_error_t::URL_INVALID_IPV4_ADDRESS => "invalid IPv4 address",
            violet_net_url_error_t::URL_INVALID_IPV6_ADDRESS => "invalid IPv6 address",
            violet_net_url_error_t::URL_INVALID_DOMAIN_CHARACTER => "invalid domain character",
            violet_net_url_error_t::URL_RELATIVE_URL_WITHOUT_BASE => "relative URL without a base",
            violet_net_url_error_t::URL_RELATIVE_URL_WITH_CANNOT_BE_A_BASE_BASE => "relative URL with a cannot-be-a-base base",
            violet_net_url_error_t::URL_SET_HOST_ON_CANNOT_BE_A_BASE_URL => "a cannot-be-a-base URL doesn’t have a host to set",
            violet_net_url_error_t::URL_OVERFLOW => "URLs more than 4 GB are not supported",
            violet_net_url_error_t::URL_UNKNOWN => "unknown error: should never happen",
        }
    }
}

/// Numbering is faithful: the number of a taxonomy value stands for that
/// value again, so no two values share a number.
pub proof fn lemma_code_round_trip(kind: violet_net_url_error_t)
    ensures
        kind_of(code_of(kind)) == kind,
        -1 <= code_of(kind) <= 14,
        code_of(kind) == 0 <==> kind == violet_net_url_error_t::URL_OK,
{
}

/// Every taxonomy value, `URL_UNKNOWN` included, has a description that is
/// not empty and holds no NUL character, so it can always be handed out as
/// NUL-terminated text.
pub proof fn lemma_description_is_terminable(kind: violet_net_url_error_t)
    ensures
        description(kind).len() > 0,
        forall|i: int| 0 <= i < description(kind).len() ==> description(kind)[i] != '\0',
{
    reveal_strlit("ok");
    reveal_strlit("empty input provided");
    reveal_strlit("input was not valid unicode");
    reveal_strlit("`Url::parse_with_params()': parameter didn't have `=` sign");
    reveal_strlit("`Url::parse_with_params()': parameter with pair had extra `=`");
    reveal_strlit("empty host");
    reveal_strlit("invalid international domain name");
    reveal_strlit("invalid port number");
    reveal_strlit("invalid IPv4 address");
    reveal_strlit("invalid IPv6 address");
    reveal_strlit("invalid domain character");
    reveal_strlit("relative URL without a base");
    reveal_strlit("relative URL with a cannot-be-a-base base");
    reveal_strlit("a cannot-be-a-base URL doesn’t have a host to set");
    reveal_strlit("URLs more than 4 GB are not supported");
    reveal_strlit("unknown error: should never happen");
}

} // verus!
