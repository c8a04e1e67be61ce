use url::ParseError;
use violet_net_url::violet_net_url_error_t;

fn all_kinds() -> Vec<violet_net_url_error_t> {
    vec![
        violet_net_url_error_t::URL_OK,
        violet_net_url_error_t::URL_EMPTY,
        violet_net_url_error_t::URL_NOT_UNICODE,
        violet_net_url_error_t::URL_INVALID_PARAM_STRING,
        violet_net_url_error_t::URL_EXTRA_CHAR_IN_PARAM_STRING,
        violet_net_url_error_t::URL_EMPTY_HOST,
        violet_net_url_error_t::URL_IDNA_ERROR,
        violet_net_url_error_t::URL_INVALID_PORT,
        violet_net_url_error_t::URL_INVALID_IPV4_ADDRESS,
        violet_net_url_error_t::URL_INVALID_IPV6_ADDRESS,
        violet_net_url_error_t::URL_INVALID_DOMAIN_CHARACTER,
        violet_net_url_error_t::URL_RELATIVE_URL_WITHOUT_BASE,
        violet_net_url_error_t::URL_RELATIVE_URL_WITH_CANNOT_BE_A_BASE_BASE,
        violet_net_url_error_t::URL_SET_HOST_ON_CANNOT_BE_A_BASE_URL,
        violet_net_url_error_t::URL_OVERFLOW,
        violet_net_url_error_t::URL_UNKNOWN,
    ]
}

#[test]
fn codes_are_stable() {
    let expected: [i32; 16] = [0, 1, 2, 3, 4, 5, 6, 7, 8, 9, 10, 11, 12, 13, 14, -1];
    for (kind, code) in all_kinds().into_iter().zip(expected) {
        assert_eq!(kind.code(), code);
    }
}

#[test]
fn codes_round_trip() {
    for kind in all_kinds() {
        assert_eq!(violet_net_url_error_t::from_code(kind.code()), kind);
    }
}

#[test]
fn foreign_codes_are_unknown() {
    for code in [-2, 15, 16, 1000, i32::MAX, i32::MIN] {
        assert_eq!(violet_net_url_error_t::from_code(code), violet_net_url_error_t::URL_UNKNOWN);
    }
    assert_eq!(violet_net_url_error_t::from_code(-1), violet_net_url_error_t::URL_UNKNOWN);
}

#[test]
fn parser_errors_map_one_to_one() {
    let table = [
        (ParseError::EmptyHost, violet_net_url_error_t::URL_EMPTY_HOST),
        (ParseError::IdnaError, violet_net_url_error_t::URL_IDNA_ERROR),
        (ParseError::InvalidPort, violet_net_url_error_t::URL_INVALID_PORT),
        (ParseError::InvalidIpv4Address, violet_net_url_error_t::URL_INVALID_IPV4_ADDRESS),
        (ParseError::InvalidIpv6Address, violet_net_url_error_t::URL_INVALID_IPV6_ADDRESS),
        (ParseError::InvalidDomainCharacter, violet_net_url_error_t::URL_INVALID_DOMAIN_CHARACTER),
        (ParseError::RelativeUrlWithoutBase, violet_net_url_error_t::URL_RELATIVE_URL_WITHOUT_BASE),
        (
            ParseError::RelativeUrlWithCannotBeABaseBase,
            violet_net_url_error_t::URL_RELATIVE_URL_WITH_CANNOT_BE_A_BASE_BASE,
        ),
        (
            ParseError::SetHostOnCannotBeABaseUrl,
            violet_net_url_error_t::URL_SET_HOST_ON_CANNOT_BE_A_BASE_URL,
        ),
        (ParseError::Overflow, violet_net_url_error_t::URL_OVERFLOW),
    ];
    for (error, kind) in table {
        assert_eq!(violet_net_url_error_t::map(error), kind);
    }
}

#[test]
fn descriptions_are_exact() {
    let expected = [
        "ok",
        "empty input provided",
        "input was not valid unicode",
        "`Url::parse_with_params()': parameter didn't have `=` sign",
        "`Url::parse_with_params()': parameter with pair had extra `=`",
        "empty host",
        "invalid international domain name",
        "invalid port number",
        "invalid IPv4 address",
        "invalid IPv6 address",
        "invalid domain character",
        "relative URL without a base",
        "relative URL with a cannot-be-a-base base",
        "a cannot-be-a-base URL doesn\u{2019}t have a host to set",
        "URLs more than 4 GB are not supported",
        "unknown error: should never happen",
    ];
    for (kind, text) in all_kinds().into_iter().zip(expected) {
        assert_eq!(kind.to_str(), text);
    }
}

#[test]
fn descriptions_can_be_terminated() {
    for kind in all_kinds() {
        let text = kind.to_str();
        assert!(!text.is_empty());
        assert!(!text.as_bytes().contains(&0));
    }
}

#[test]
fn parser_descriptions_match_the_parser() {
    let errors = [
        ParseError::EmptyHost,
        ParseError::IdnaError,
        ParseError::InvalidPort,
        ParseError::InvalidIpv4Address,
        ParseError::InvalidIpv6Address,
        ParseError::InvalidDomainCharacter,
        ParseError::RelativeUrlWithoutBase,
        ParseError::RelativeUrlWithCannotBeABaseBase,
        ParseError::SetHostOnCannotBeABaseUrl,
        ParseError::Overflow,
    ];
    for error in errors {
        assert_eq!(violet_net_url_error_t::map(error).to_str(), format!("{}", error));
    }
}
