use gqa_l9::{parse_url, ErrorKind, UrlBuilder, UrlParseError};

fn url_error(s: &str) -> Option<UrlParseError> {
    match parse_url(s) {
        Ok(_) => None,
        Err(ErrorKind::UrlError(e)) => Some(e),
        Err(other) => panic!("unexpected error {:?}", other),
    }
}

#[test]
fn built_url_parses() {
    let u = parse_url(&UrlBuilder::new().build_string()).unwrap();
    assert_eq!(
        u,
        "https://gentooqa.levelnine.at/results/gentoo/stats/EAC-STA-ebuild_cleanup_candidates/full.txt"
    );
}

#[test]
fn parsed_url_is_normalised() {
    assert_eq!(parse_url("HTTP://Example.COM").unwrap(), "http://example.com/");
    assert_eq!(parse_url("https://example.com:443/a/./b/../c").unwrap(), "https://example.com/a/c");
}

#[test]
fn parsed_url_is_the_parse_of_the_input() {
    assert_eq!(parse_url("http://one.example/x").unwrap(), "http://one.example/x");
    assert_eq!(parse_url("http://two.example/y").unwrap(), "http://two.example/y");
}

#[test]
fn relative_url_is_refused() {
    assert_eq!(url_error("not a url"), Some(UrlParseError::RelativeUrlWithoutBase));
    assert_eq!(url_error(""), Some(UrlParseError::RelativeUrlWithoutBase));
}

#[test]
fn empty_host_is_refused() {
    assert_eq!(url_error("http://"), Some(UrlParseError::EmptyHost));
}

#[test]
fn bad_port_is_refused() {
    assert_eq!(url_error("http://example.com:99999/"), Some(UrlParseError::InvalidPort));
}

#[test]
fn bad_ipv6_is_refused() {
    assert_eq!(url_error("http://[::1/"), Some(UrlParseError::InvalidIpv6Address));
}

#[test]
fn url_error_converts() {
    match ErrorKind::from(UrlParseError::Overflow) {
        ErrorKind::UrlError(UrlParseError::Overflow) => {}
        other => panic!("unexpected {:?}", other),
    }
}

#[test]
fn io_error_converts() {
    let e = std::io::Error::new(std::io::ErrorKind::NotFound, "gone");
    match ErrorKind::from(e) {
        ErrorKind::StdIoError(inner) => assert_eq!(inner.kind(), std::io::ErrorKind::NotFound),
        other => panic!("unexpected {:?}", other),
    }
}
