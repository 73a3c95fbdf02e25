use authgate::redirect_service::{get_host_header, has_host, RedirectService};
use authgate::request::{Headers, Request, Uri};
use authgate::response::Response;
use std::str::FromStr;

fn uri(text: &str) -> Uri {
    let uri = http::Uri::from_str(text).unwrap();
    Uri {
        host: uri.host().map(String::from),
        port: uri.port_u16(),
        path: String::from(uri.path()),
        query: uri.query().map(String::from),
    }
}

fn host(value: &str) -> Headers {
    Headers { host: Some(value.as_bytes().to_vec()), session: None }
}

fn no_headers() -> Headers {
    Headers { host: None, session: None }
}

#[test]
fn test_rewrite_uri_uri_host_primary() {
    let service = RedirectService::new(99);
    let uri = uri("http://host.foo.com/path/to/thing?param=value&param2=value2");
    let headers = host("other.com");

    assert_eq!(
        "https://host.foo.com/path/to/thing?param=value&param2=value2",
        service.rewrite_uri(uri, get_host_header(&headers))
    );
}

#[test]
fn test_rewrite_uri_header_host_secondary() {
    let service = RedirectService::new(99);
    let uri = uri("/path/to/thing?param=value&param2=value2");
    let headers = host("other.com");

    assert_eq!(
        "https://other.com/path/to/thing?param=value&param2=value2",
        service.rewrite_uri(uri, get_host_header(&headers))
    );
}

#[test]
fn test_rewrite_uri_includes_port_if_uri_has_port() {
    let service = RedirectService::new(99);
    let uri = uri("http://host.foo.com:20/path/to/thing?param=value&param2=value2");
    let headers = host("other.com");

    assert_eq!(
        "https://host.foo.com:99/path/to/thing?param=value&param2=value2",
        service.rewrite_uri(uri, get_host_header(&headers))
    );
}

#[test]
fn test_rewrite_uri_includes_port_if_header_has_port() {
    let service = RedirectService::new(99);
    let uri = uri("/path/to/thing?param=value&param2=value2");
    let headers = host("other.com:20");

    assert_eq!(
        "https://other.com:99/path/to/thing?param=value&param2=value2",
        service.rewrite_uri(uri, get_host_header(&headers))
    );
}

#[test]
fn uri_without_port_gets_none() {
    let service = RedirectService::new(99);
    assert_eq!(
        service.rewrite_uri(uri("http://host.foo.com/path?x=1"), get_host_header(&host("other.com"))),
        "https://host.foo.com/path?x=1"
    );
}

#[test]
fn host_header_stands_in_for_a_missing_authority() {
    let service = RedirectService::new(99);
    assert_eq!(
        service.rewrite_uri(uri("/path?x=1"), get_host_header(&host("other.com"))),
        "https://other.com/path?x=1"
    );
}

#[test]
fn port_of_the_uri_is_replaced() {
    let service = RedirectService::new(99);
    assert_eq!(
        service.rewrite_uri(uri("http://host.foo.com:20/path"), None),
        "https://host.foo.com:99/path"
    );
}

#[test]
fn port_of_the_host_header_is_replaced() {
    let service = RedirectService::new(99);
    assert_eq!(
        service.rewrite_uri(uri("/path"), get_host_header(&host("other.com:20"))),
        "https://other.com:99/path"
    );
}

#[test]
fn port_of_the_header_does_not_count_beside_an_authority() {
    let service = RedirectService::new(99);
    assert_eq!(
        service.rewrite_uri(uri("http://host.foo.com/path"), get_host_header(&host("other.com:20"))),
        "https://host.foo.com/path"
    );
}

#[test]
fn no_host_anywhere_gives_none() {
    let service = RedirectService::new(99);
    assert_eq!(service.rewrite_uri(uri("/path?x=1"), None), "https:///path?x=1");
    assert_eq!(
        service.rewrite_uri(uri("/path"), get_host_header(&no_headers())),
        "https:///path"
    );
}

#[test]
fn https_port_is_written_in_decimal() {
    let with_port = || uri("http://h:1/");
    assert_eq!(RedirectService::new(0).rewrite_uri(with_port(), None), "https://h:0/");
    assert_eq!(RedirectService::new(7).rewrite_uri(with_port(), None), "https://h:7/");
    assert_eq!(RedirectService::new(10).rewrite_uri(with_port(), None), "https://h:10/");
    assert_eq!(RedirectService::new(443).rewrite_uri(with_port(), None), "https://h:443/");
    assert_eq!(RedirectService::new(8443).rewrite_uri(with_port(), None), "https://h:8443/");
    assert_eq!(RedirectService::new(10000).rewrite_uri(with_port(), None), "https://h:10000/");
    assert_eq!(RedirectService::new(65535).rewrite_uri(with_port(), None), "https://h:65535/");
}

#[test]
fn path_and_query_are_copied_as_they_came() {
    let service = RedirectService::new(99);
    assert_eq!(
        service.rewrite_uri(uri("http://h/a%20b/c?q=%2F&r=a+b"), None),
        "https://h/a%20b/c?q=%2F&r=a+b"
    );
    assert_eq!(service.rewrite_uri(uri("http://h/p?"), None), "https://h/p?");
}

#[test]
fn service_keeps_its_port() {
    assert_eq!(RedirectService::new(8443).https_port, 8443);
}

#[test]
fn host_header_is_read_as_a_uri() {
    assert_eq!(
        get_host_header(&host("other.com:20")),
        Some(Uri { host: Some("other.com".to_string()), port: Some(20), path: String::new(), query: None })
    );
    assert_eq!(
        get_host_header(&host("other.com")),
        Some(Uri { host: Some("other.com".to_string()), port: None, path: String::new(), query: None })
    );
    assert_eq!(
        get_host_header(&host("[::1]:8080")),
        Some(Uri { host: Some("[::1]".to_string()), port: Some(8080), path: String::new(), query: None })
    );
}

#[test]
fn host_header_that_is_missing_or_unreadable_gives_nothing() {
    assert_eq!(get_host_header(&no_headers()), None);
    assert_eq!(get_host_header(&host("")), None);
    assert_eq!(get_host_header(&host("two words")), None);
    assert_eq!(get_host_header(&host("a:1:2")), None);
    let opaque = Headers { host: Some(vec![b'h', 0xfa]), session: None };
    assert_eq!(get_host_header(&opaque), None);
    let control = Headers { host: Some(vec![b'h', 0x7f]), session: None };
    assert_eq!(get_host_header(&control), None);
}

#[test]
fn handle_redirects_for_good() {
    let service = RedirectService::new(99);
    let request = Request { uri: uri("/path?x=1"), headers: host("other.com:20") };
    assert_eq!(
        service.handle(request),
        Response {
            status: 301,
            json: false,
            body: String::new(),
            location: Some("https://other.com:99/path?x=1".to_string()),
        }
    );
}

#[test]
fn respond_takes_what_a_header_can_hold() {
    let service = RedirectService::new(99);
    let response = service.respond("https://h/\tp\u{e9}".to_string());
    assert_eq!(response.status, 301);
    assert_eq!(response.location, Some("https://h/\tp\u{e9}".to_string()));
}

#[test]
fn handle_fails_on_a_url_that_no_header_can_hold() {
    let service = RedirectService::new(99);
    let broken = Uri { host: Some("h".to_string()), port: None, path: "/a\nb".to_string(), query: None };
    let request = Request { uri: broken, headers: no_headers() };
    assert_eq!(
        service.handle(request),
        Response { status: 500, json: false, body: String::new(), location: None }
    );
    assert_eq!(service.respond("https://h/\u{7f}".to_string()).status, 500);
    assert_eq!(service.respond("https://h/\0".to_string()).status, 500);
}

#[test]
fn handle_fails_where_no_host_is_known() {
    let service = RedirectService::new(99);
    let server_error = Response { status: 500, json: false, body: String::new(), location: None };
    let request = Request { uri: uri("/path?x=1"), headers: no_headers() };
    assert_eq!(service.handle(request), server_error);
    let request = Request { uri: uri("/path"), headers: host("two words") };
    assert_eq!(service.handle(request), server_error);
    let request = Request { uri: uri("/path"), headers: host("/only/a/path") };
    assert_eq!(service.handle(request), server_error);
}

#[test]
fn host_is_known_from_the_uri_or_from_the_header() {
    assert!(has_host(&uri("http://h/p"), &None));
    assert!(has_host(&uri("http://h/p"), &get_host_header(&host("other.com"))));
    assert!(has_host(&uri("/p"), &get_host_header(&host("other.com"))));
    assert!(!has_host(&uri("/p"), &None));
    assert!(!has_host(&uri("/p"), &get_host_header(&host("/q"))));
}

#[test]
fn handle_takes_the_host_of_the_uri_first() {
    let service = RedirectService::new(99);
    let request = Request { uri: uri("http://host.foo.com:20/path"), headers: host("other.com") };
    assert_eq!(
        service.handle(request).location,
        Some("https://host.foo.com:99/path".to_string())
    );
}

#[test]
fn answer_is_the_redirect_or_a_server_error() {
    let service = RedirectService::new(8443);
    assert_eq!(
        service.answer(uri("http://h:80/p?q"), None),
        Response {
            status: 301,
            json: false,
            body: String::new(),
            location: Some("https://h:8443/p?q".to_string()),
        }
    );
    assert_eq!(service.answer(uri("/p?q"), None).status, 500);
    assert_eq!(service.answer(uri("/p?q"), None).location, None);
}
