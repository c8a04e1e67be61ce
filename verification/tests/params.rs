use url::Url;
use violet_net_url::params::{params_fit, split_pair};
use violet_net_url::violet_net_url_error_t;

#[test]
fn splits_at_the_separator() {
    assert_eq!(split_pair("a=1"), Ok(("a", "1")));
    assert_eq!(split_pair("lang=rust"), Ok(("lang", "rust")));
}

#[test]
fn empty_key_or_value_is_kept() {
    assert_eq!(split_pair("=v"), Ok(("", "v")));
    assert_eq!(split_pair("k="), Ok(("k", "")));
    assert_eq!(split_pair("="), Ok(("", "")));
}

#[test]
fn text_beyond_ascii_is_split_on_the_separator_alone() {
    assert_eq!(split_pair("clé=valeur é"), Ok(("clé", "valeur é")));
    assert_eq!(split_pair("日本=語"), Ok(("日本", "語")));
}

#[test]
fn fragment_without_separator_is_invalid() {
    assert_eq!(split_pair("noequals"), Err(violet_net_url_error_t::URL_INVALID_PARAM_STRING));
    assert_eq!(split_pair(""), Err(violet_net_url_error_t::URL_INVALID_PARAM_STRING));
}

#[test]
fn second_separator_is_an_extra_character() {
    assert_eq!(split_pair("a=1=2"), Err(violet_net_url_error_t::URL_EXTRA_CHAR_IN_PARAM_STRING));
    assert_eq!(split_pair("a=="), Err(violet_net_url_error_t::URL_EXTRA_CHAR_IN_PARAM_STRING));
    assert_eq!(split_pair("=="), Err(violet_net_url_error_t::URL_EXTRA_CHAR_IN_PARAM_STRING));
    assert_eq!(split_pair("a=b=c=d"), Err(violet_net_url_error_t::URL_EXTRA_CHAR_IN_PARAM_STRING));
}

const LIMIT: usize = 0xffff_ffff;

#[test]
fn a_url_alone_fits_up_to_the_limit() {
    assert!(params_fit(0, Some(""), &vec![]));
    assert!(params_fit(LIMIT, Some(""), &vec![]));
    assert!(params_fit(LIMIT, Some("q=1"), &vec![]));
    assert!(!params_fit(LIMIT + 1, Some(""), &vec![]));
    assert!(!params_fit(usize::MAX, Some(""), &vec![]));
}

#[test]
fn a_missing_query_costs_its_opening() {
    assert!(params_fit(LIMIT - 1, None, &vec![]));
    assert!(!params_fit(LIMIT, None, &vec![]));
}

#[test]
fn a_pair_costs_its_bytes_and_its_separators() {
    let one = vec![("a", "1")];
    assert!(params_fit(LIMIT - 4, None, &one));
    assert!(!params_fit(LIMIT - 3, None, &one));
    assert!(params_fit(LIMIT - 3, Some(""), &one));
    assert!(!params_fit(LIMIT - 2, Some(""), &one));
    assert!(params_fit(LIMIT - 4, Some("x"), &one));
    assert!(!params_fit(LIMIT - 3, Some("x"), &one));
    let two = vec![("a", "1"), ("b", "2")];
    assert!(params_fit(LIMIT - 8, None, &two));
    assert!(!params_fit(LIMIT - 7, None, &two));
    assert!(params_fit(LIMIT - 7, Some(""), &two));
    assert!(!params_fit(LIMIT - 6, Some(""), &two));
}

#[test]
fn encoded_bytes_cost_one_or_three() {
    let mixed = vec![(" ", "/")];
    assert!(params_fit(LIMIT - 5, Some(""), &mixed));
    assert!(!params_fit(LIMIT - 4, Some(""), &mixed));
    let accent = vec![("\u{e9}", "")];
    assert!(params_fit(LIMIT - 7, Some(""), &accent));
    assert!(!params_fit(LIMIT - 6, Some(""), &accent));
    let kept = vec![("AZaz09*-._", "")];
    assert!(params_fit(LIMIT - 11, Some(""), &kept));
    assert!(!params_fit(LIMIT - 10, Some(""), &kept));
    let others = vec![("~!'()+%&=", "")];
    assert!(params_fit(LIMIT - 28, Some(""), &others));
    assert!(!params_fit(LIMIT - 27, Some(""), &others));
}

#[test]
fn the_count_is_what_the_engine_appends() {
    let texts = [
        "https://example.com",
        "https://example.com/?",
        "https://example.com/?x",
        "https://example.com/p?x=1#frag",
        "https://example.com/p#frag",
        "data:text/plain,hi",
    ];
    let lists: [Vec<(&str, &str)>; 5] = [
        vec![],
        vec![("a", "1")],
        vec![("a", "1"), ("b", "2"), ("a", "1")],
        vec![("k\u{e9}y", "a b&c=d/e"), ("", "")],
        vec![("~!'()*+,-./09:;<=>?@AZ[\\]^_`az{|}\u{7f}", "\u{0}\u{1f}\u{20ac}")],
    ];
    for text in texts {
        let plain = Url::parse(text).unwrap();
        for pairs in &lists {
            let full = Url::parse_with_params(text, pairs).unwrap();
            let appended = full.as_str().len() - plain.as_str().len();
            let room = LIMIT - plain.as_str().len();
            assert!(room >= appended);
            let spare = room - appended;
            assert!(params_fit(plain.as_str().len() + spare, plain.query(), pairs));
            assert!(!params_fit(plain.as_str().len() + spare + 1, plain.query(), pairs));
        }
    }
}
