use violet_net_url::{
    violet_net_optional_string_view, violet_net_optional_uint16, violet_net_string_view,
};

#[test]
fn span_of_text_covers_its_bytes() {
    let span = violet_net_string_view::from_str("héllo");
    assert_eq!(span.len, 6);
    assert_eq!(span.data, Some("héllo".as_bytes()));
}

#[test]
fn span_of_empty_text_has_data_and_no_length() {
    let span = violet_net_string_view::from_str("");
    assert_eq!(span.len, 0);
    assert_eq!(span.data, Some(&b""[..]));
}

#[test]
fn empty_span_is_canonical() {
    let span = violet_net_string_view::empty();
    assert_eq!(span.len, 0);
    assert!(span.data.is_none());
}

#[test]
fn optional_span_from_present_text() {
    let span = violet_net_optional_string_view::from_opt(Some("abc"));
    assert!(span.something);
    assert_eq!(span.data.len, 3);
    assert_eq!(span.data.data, Some(&b"abc"[..]));
}

#[test]
fn optional_span_from_absent_text() {
    let span = violet_net_optional_string_view::from_opt(None);
    assert!(!span.something);
    assert_eq!(span.data.len, 0);
    assert!(span.data.data.is_none());
}

#[test]
fn optional_span_some_keeps_empty_text_present() {
    let span = violet_net_optional_string_view::some("");
    assert!(span.something);
    assert_eq!(span.data.len, 0);
    assert!(span.data.data.is_some());
}

#[test]
fn optional_span_nothing_holds_the_empty_span() {
    let span = violet_net_optional_string_view::nothing();
    assert!(!span.something);
    assert_eq!(span.data.len, 0);
    assert!(span.data.data.is_none());
}

#[test]
fn optional_number_from_present_value() {
    let port = violet_net_optional_uint16::from_opt(Some(8080));
    assert!(port.something);
    assert_eq!(port.value, 8080);
}

#[test]
fn optional_number_from_absent_value() {
    let port = violet_net_optional_uint16::from_opt(None);
    assert!(!port.something);
    assert_eq!(port.value, u16::MAX);
}

#[test]
fn optional_number_from_u16() {
    let zero = violet_net_optional_uint16::from_u16(0);
    assert!(zero.something);
    assert_eq!(zero.value, 0);
    let top = violet_net_optional_uint16::from_u16(u16::MAX);
    assert!(top.something);
    assert_eq!(top.value, u16::MAX);
}

#[test]
fn optional_number_nothing_holds_the_sentinel() {
    let port = violet_net_optional_uint16::nothing();
    assert!(!port.something);
    assert_eq!(port.value, 65535);
}
