use url::Url;
use violet_net_url::host::{render_host, render_ipv4, render_ipv6};
use violet_net_url::violet_net_host_t;

fn text(bytes: Vec<u8>) -> String {
    String::from_utf8(bytes).unwrap()
}

#[test]
fn ipv4_is_dotted_decimal() {
    assert_eq!(text(render_ipv4(&[192, 0, 2, 1])), "192.0.2.1");
    assert_eq!(text(render_ipv4(&[0, 0, 0, 0])), "0.0.0.0");
    assert_eq!(text(render_ipv4(&[255, 255, 255, 255])), "255.255.255.255");
    assert_eq!(text(render_ipv4(&[10, 99, 100, 9])), "10.99.100.9");
    assert_eq!(text(render_ipv4(&[127, 0, 0, 1])), "127.0.0.1");
}

#[test]
fn ipv6_compresses_the_longest_zero_run() {
    assert_eq!(text(render_ipv6(&[0, 0, 0, 0, 0, 0, 0, 1])), "::1");
    assert_eq!(text(render_ipv6(&[0, 0, 0, 0, 0, 0, 0, 0])), "::");
    assert_eq!(text(render_ipv6(&[1, 0, 0, 0, 0, 0, 0, 0])), "1::");
    assert_eq!(text(render_ipv6(&[0x2001, 0xdb8, 0, 0, 0, 0, 0, 1])), "2001:db8::1");
    assert_eq!(text(render_ipv6(&[1, 0, 0, 2, 0, 0, 0, 3])), "1:0:0:2::3");
}

#[test]
fn ipv6_compresses_the_first_of_equal_runs() {
    assert_eq!(text(render_ipv6(&[1, 0, 0, 2, 0, 0, 3, 4])), "1::2:0:0:3:4");
    assert_eq!(text(render_ipv6(&[0, 0, 1, 0, 0, 2, 3, 4])), "::1:0:0:2:3:4");
}

#[test]
fn ipv6_leaves_a_lone_zero() {
    assert_eq!(text(render_ipv6(&[1, 0, 2, 3, 4, 5, 6, 7])), "1:0:2:3:4:5:6:7");
    assert_eq!(text(render_ipv6(&[0, 1, 0, 1, 0, 1, 0, 1])), "0:1:0:1:0:1:0:1");
}

#[test]
fn ipv6_is_lower_case_without_leading_zeros() {
    assert_eq!(
        text(render_ipv6(&[0xffff, 0xABCD, 0x0a, 0x100, 0x10, 0xf, 0x1000, 0x0fff])),
        "ffff:abcd:a:100:10:f:1000:fff"
    );
    assert_eq!(text(render_ipv6(&[0, 0, 0, 0, 0, 0xffff, 0xc000, 0x0201])), "::ffff:c000:201");
}

#[test]
fn ipv6_without_zeros_is_written_in_full() {
    assert_eq!(
        text(render_ipv6(&[0xffff; 8])),
        "ffff:ffff:ffff:ffff:ffff:ffff:ffff:ffff"
    );
}

#[test]
fn domain_is_handed_on_as_it_is() {
    assert_eq!(text(render_host(&violet_net_host_t::Domain("example.com"))), "example.com");
    assert_eq!(text(render_host(&violet_net_host_t::Domain(""))), "");
}

#[test]
fn host_kinds_render_alike() {
    assert_eq!(text(render_host(&violet_net_host_t::Ipv4([192, 0, 2, 1]))), "192.0.2.1");
    assert_eq!(text(render_host(&violet_net_host_t::Ipv6([0, 0, 0, 0, 0, 0, 0, 1]))), "::1");
}

#[test]
fn ipv6_text_is_what_the_serialization_holds() {
    let samples: [[u16; 8]; 8] = [
        [0, 0, 0, 0, 0, 0, 0, 1],
        [0, 0, 0, 0, 0, 0, 0, 0],
        [0x2001, 0xdb8, 0, 0, 0, 0, 0, 1],
        [1, 0, 0, 2, 0, 0, 3, 4],
        [1, 0, 2, 3, 4, 5, 6, 7],
        [0, 0, 0, 0, 0, 0xffff, 0xc000, 0x0201],
        [0xfe80, 0, 0, 0, 0x1, 0, 0, 0],
        [1, 2, 3, 4, 5, 6, 0, 0],
    ];
    for pieces in samples {
        let rendered = text(render_ipv6(&pieces));
        let url = Url::parse(&format!("http://[{}]/", rendered)).unwrap();
        assert_eq!(url.host_str(), Some(format!("[{}]", rendered).as_str()));
        match url.host() {
            Some(url::Host::Ipv6(address)) => assert_eq!(address.segments(), pieces),
            _ => panic!("an IPv6 host was expected"),
        }
    }
}

#[test]
fn ipv4_text_is_what_the_serialization_holds() {
    let samples: [[u8; 4]; 4] = [[192, 0, 2, 1], [0, 0, 0, 0], [255, 255, 255, 255], [1, 20, 213, 99]];
    for octets in samples {
        let rendered = text(render_ipv4(&octets));
        let url = Url::parse(&format!("http://{}/", rendered)).unwrap();
        assert_eq!(url.host_str(), Some(rendered.as_str()));
    }
}
