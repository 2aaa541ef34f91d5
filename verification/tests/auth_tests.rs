use vidify::api::spotifyweb::{
    ack_response, get_code, run_listener, to_bind_format, CodeListener, SpotifyWeb,
};
use vidify::config::{CliValues, Config, FileValues};
use vidify::error::Error;

#[test]
fn correct_bind_format() {
    assert_eq!(to_bind_format("http://localhost:0000").unwrap(), "localhost:0000",);
    assert_eq!(to_bind_format("https://localhost:1234").unwrap(), "localhost:1234",);
    assert_eq!(
        to_bind_format("http://localhost:8888/callback/").unwrap(),
        "localhost:8888",
    );
    assert_eq!(
        to_bind_format("http://localhost:0/callback/").unwrap(),
        "localhost:0",
    );
}

#[test]
#[should_panic]
fn incorrect_bind_format() {
    to_bind_format("localhost:8888").unwrap();
}

#[test]
fn bind_format_requires_a_port() {
    assert!(matches!(
        to_bind_format("http://localhost/callback/"),
        Err(Error::InvalidRedirectUri)
    ));
    assert!(matches!(
        to_bind_format("http://:8888/"),
        Err(Error::InvalidRedirectUri)
    ));
    assert!(matches!(
        to_bind_format("http://localhost:port/"),
        Err(Error::InvalidRedirectUri)
    ));
    assert!(matches!(to_bind_format(""), Err(Error::InvalidRedirectUri)));
}

#[test]
fn code_is_read_from_the_query_string() {
    let req = "GET /callback/?code=abc123 HTTP/1.1\r\nHost: localhost\r\n\r\n";
    assert_eq!(get_code(req).unwrap(), "abc123");
}

#[test]
fn code_is_found_among_other_parameters() {
    let req = "GET /callback/?state=xyz&code=tok42&foo=1 HTTP/1.1\r\n\r\n";
    assert_eq!(get_code(req).unwrap(), "tok42");
}

#[test]
fn requests_without_a_code_fail_extraction_only() {
    assert!(matches!(
        get_code("GET /favicon.ico HTTP/1.1\r\n\r\n"),
        Err(Error::SpotifyWebAuth)
    ));
    assert!(matches!(
        get_code("GET /callback/?code= HTTP/1.1\r\n\r\n"),
        Err(Error::SpotifyWebAuth)
    ));
    assert!(matches!(get_code(""), Err(Error::SpotifyWebAuth)));
}

#[test]
fn listener_answers_every_connection_and_delivers_once() {
    let mut listener = CodeListener::new();
    let (ack, none) = listener.handle("GET /favicon.ico HTTP/1.1\r\n\r\n");
    assert!(ack.starts_with("HTTP/1.1 200 OK"));
    assert!(none.is_none());
    let (ack2, code) = listener.handle("GET /callback/?code=one HTTP/1.1\r\n\r\n");
    assert_eq!(ack2, ack_response());
    assert_eq!(code, Some(String::from("one")));
}

#[test]
fn a_malformed_first_connection_does_not_block_the_second() {
    let requests = vec![
        String::from("GET /favicon.ico HTTP/1.1\r\n\r\n"),
        String::from("GET /callback/?code=good HTTP/1.1\r\n\r\n"),
        String::from("GET /callback/?code=late HTTP/1.1\r\n\r\n"),
    ];
    assert_eq!(run_listener(&requests), Some(String::from("good")));
}

#[test]
fn no_connection_ever_carries_a_code() {
    let requests = vec![String::from("GET / HTTP/1.1\r\n\r\n")];
    assert_eq!(run_listener(&requests), None);
    assert_eq!(run_listener(&Vec::new()), None);
}

#[test]
fn the_acknowledgement_is_the_fixed_page() {
    let ack = ack_response();
    assert!(ack.starts_with("HTTP/1.1 200 OK"));
    assert!(ack.contains("Content-Type: text/html; charset=UTF-8"));
    assert!(ack.contains("Authentication complete"));
}

#[test]
fn cached_refresh_token_skips_the_browser_flow() {
    let mut f = FileValues::empty();
    f.client_id = Some(String::from("id"));
    f.client_secret = Some(String::from("secret"));
    let without = Config::resolve(&CliValues::empty(), &f).unwrap();
    assert!(SpotifyWeb::needs_auth_flow(&without));
    f.refresh_token = Some(String::from("cached"));
    let with = Config::resolve(&CliValues::empty(), &f).unwrap();
    assert!(!SpotifyWeb::needs_auth_flow(&with));
}
