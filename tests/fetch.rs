use web_fetch::allow::{bytes_start_with, AllowList, API_ORIGIN, SEARCH_ORIGIN};
use web_fetch::body::{decode_body, snippet, SNIPPET_LIMIT};
use web_fetch::error::FetchError;
use web_fetch::fetch::{status_is_success, Action, Event, Fetcher, Stage};
use web_fetch::greeting::greet;

fn only(prefixes: &[&str]) -> AllowList {
    AllowList::new(prefixes.iter().map(|p| p.to_string()).collect())
}

/// Drives a fetch against a stub that answers `code` and `body`, and returns
/// the result together with the number of requests sent.
fn fetch_with_stub(
    allow_list: Option<AllowList>,
    url: &str,
    code: u16,
    body: &[u8],
) -> (Result<String, FetchError>, usize) {
    let mut fetcher = Fetcher::new(allow_list);
    let mut sent = 0;
    let mut action = fetcher.step(Event::Start(url.to_string()));
    loop {
        let event = match action {
            Action::BuildClient => Event::ClientBuilt,
            Action::SendGet(target) => {
                assert_eq!(target, url);
                sent += 1;
                Event::Responded(code)
            }
            Action::ReadBody => Event::BodyArrived(body.to_vec()),
            Action::Finish(result) => return (result, sent),
            Action::Ignore => panic!("event out of order"),
        };
        action = fetcher.step(event);
    }
}

fn decode_error_snippet(r: Result<String, FetchError>) -> String {
    match r {
        Err(FetchError::DecodeError { snippet, .. }) => snippet,
        other => panic!("expected a decode error, got {:?}", other),
    }
}

#[test]
fn ok_body_is_returned() {
    let (r, sent) = fetch_with_stub(
        Some(AllowList::default_domains()),
        "https://api.example.com/ok",
        200,
        b"hello",
    );
    assert_eq!(r, Ok("hello".to_string()));
    assert_eq!(sent, 1);
}

#[test]
fn refused_domain_sends_nothing() {
    let (r, sent) = fetch_with_stub(
        Some(only(&["https://api.example.com"])),
        "https://evil.test/x",
        200,
        b"hello",
    );
    assert_eq!(r, Err(FetchError::DomainNotAllowed));
    assert_eq!(sent, 0);
}

#[test]
fn server_error_reports_its_code() {
    let (r, sent) = fetch_with_stub(
        Some(AllowList::default_domains()),
        "https://api.example.com/broken",
        500,
        b"oops",
    );
    assert_eq!(r, Err(FetchError::HttpStatusError(500)));
    assert_eq!(sent, 1);
}

#[test]
fn refused_fetch_ignores_later_events() {
    let mut f = Fetcher::new(Some(only(&["https://api.example.com"])));
    let a = f.step(Event::Start("https://evil.test/x".to_string()));
    assert_eq!(a, Action::Finish(Err(FetchError::DomainNotAllowed)));
    assert_eq!(f.stage, Stage::Done);
    assert_eq!(f.step(Event::ClientBuilt), Action::Ignore);
    assert_eq!(f.step(Event::Responded(200)), Action::Ignore);
    assert_eq!(f.step(Event::BodyArrived(b"x".to_vec())), Action::Ignore);
    assert_eq!(f.stage, Stage::Done);
}

#[test]
fn failed_status_never_reads_the_body() {
    let mut f = Fetcher::new(None);
    assert_eq!(f.step(Event::Start("http://x".to_string())), Action::BuildClient);
    assert_eq!(f.step(Event::ClientBuilt), Action::SendGet("http://x".to_string()));
    assert_eq!(f.step(Event::Responded(404)), Action::Finish(Err(FetchError::HttpStatusError(404))));
    assert_eq!(f.step(Event::BodyArrived(vec![0xff])), Action::Ignore);
}

#[test]
fn success_range_bounds() {
    for code in [199u16, 300, 301, 404, 500, 0, 65535] {
        assert!(!status_is_success(code));
    }
    for code in [200u16, 204, 299] {
        assert!(status_is_success(code));
    }
}

#[test]
fn every_success_status_reads_the_body() {
    for code in [200u16, 201, 299] {
        let (r, _) = fetch_with_stub(None, "https://a.test/", code, b"ok");
        assert_eq!(r, Ok("ok".to_string()));
    }
    let (r, _) = fetch_with_stub(None, "https://a.test/", 300, b"ok");
    assert_eq!(r, Err(FetchError::HttpStatusError(300)));
}

#[test]
fn client_build_failure_is_reported() {
    let mut f = Fetcher::new(None);
    f.step(Event::Start("https://a.test/".to_string()));
    let a = f.step(Event::ClientFailed("no tls".to_string()));
    assert_eq!(a, Action::Finish(Err(FetchError::ClientBuildError("no tls".to_string()))));
}

#[test]
fn transport_failure_is_reported() {
    let mut f = Fetcher::new(None);
    f.step(Event::Start("https://a.test/".to_string()));
    f.step(Event::ClientBuilt);
    let a = f.step(Event::SendFailed("dns".to_string()));
    assert_eq!(a, Action::Finish(Err(FetchError::RequestError("dns".to_string()))));
}

#[test]
fn body_read_failure_is_reported() {
    let mut f = Fetcher::new(None);
    f.step(Event::Start("https://a.test/".to_string()));
    f.step(Event::ClientBuilt);
    assert_eq!(f.step(Event::Responded(200)), Action::ReadBody);
    let a = f.step(Event::BodyFailed("reset".to_string()));
    assert_eq!(a, Action::Finish(Err(FetchError::BodyReadError("reset".to_string()))));
}

#[test]
fn events_out_of_order_are_ignored() {
    let mut f = Fetcher::new(None);
    assert_eq!(f.step(Event::ClientBuilt), Action::Ignore);
    assert_eq!(f.step(Event::Responded(200)), Action::Ignore);
    assert_eq!(f.stage, Stage::Idle);
    f.step(Event::Start("https://a.test/".to_string()));
    assert_eq!(f.step(Event::Start("https://b.test/".to_string())), Action::Ignore);
    assert_eq!(f.url, "https://a.test/");
}

#[test]
fn text_round_trips_to_the_bytes() {
    let bytes = "h\u{e9}llo \u{20ac} \u{1f600}".as_bytes().to_vec();
    let (r, _) = fetch_with_stub(None, "https://a.test/", 200, &bytes);
    assert_eq!(r.unwrap().into_bytes(), bytes);
}

#[test]
fn empty_body_is_empty_text() {
    let (r, _) = fetch_with_stub(None, "https://a.test/", 200, b"");
    assert_eq!(r, Ok(String::new()));
}

#[test]
fn invalid_first_byte_gives_snippet() {
    let (r, _) = fetch_with_stub(None, "https://a.test/", 200, &[0xff, b'a', b'b']);
    assert_eq!(decode_error_snippet(r), "\u{fffd}ab");
}

#[test]
fn invalid_byte_at_127_is_in_snippet() {
    let mut body = vec![b'a'; 127];
    body.push(0xff);
    body.extend_from_slice(b"tail");
    let s = decode_error_snippet(decode_body(&body));
    assert_eq!(s, format!("{}\u{fffd}", "a".repeat(127)));
}

#[test]
fn invalid_byte_at_128_is_past_snippet() {
    let mut body = vec![b'a'; 128];
    body.push(0xff);
    let s = decode_error_snippet(decode_body(&body));
    assert_eq!(s, "a".repeat(128));
}

#[test]
fn snippet_cuts_a_character_in_two() {
    let mut body = vec![b'a'; 127];
    body.extend_from_slice("\u{20ac}".as_bytes());
    body.push(0xc0);
    let s = decode_error_snippet(decode_body(&body));
    assert_eq!(s, format!("{}\u{fffd}", "a".repeat(127)));
}

#[test]
fn decode_error_has_a_reason() {
    match decode_body(&[0x80]) {
        Err(FetchError::DecodeError { reason, snippet }) => {
            assert!(!reason.is_empty());
            assert_eq!(snippet, "\u{fffd}");
        }
        other => panic!("expected a decode error, got {:?}", other),
    }
}

#[test]
fn snippet_is_at_most_the_limit() {
    assert_eq!(SNIPPET_LIMIT, 128);
    assert_eq!(snippet(&vec![b'z'; 1000]), "z".repeat(128));
    assert_eq!(snippet(b"short"), "short");
    assert_eq!(snippet(b""), "");
}

#[test]
fn same_resource_twice_gives_same_text() {
    let (r1, _) = fetch_with_stub(None, "https://a.test/page", 200, "same \u{e9}".as_bytes());
    let (r2, _) = fetch_with_stub(None, "https://a.test/page", 200, "same \u{e9}".as_bytes());
    assert!(r1.is_ok());
    assert_eq!(r1, r2);
}

#[test]
fn default_domains_admit_their_origins() {
    let list = AllowList::default_domains();
    assert_eq!(list.prefixes, vec![SEARCH_ORIGIN.to_string(), API_ORIGIN.to_string()]);
    assert!(list.permits("https://www.baidu.com/s?wd=x"));
    assert!(list.permits("https://api.example.com"));
    assert!(!list.permits("https://api.example.co"));
    assert!(!list.permits("http://api.example.com/"));
    assert!(!list.permits(""));
}

#[test]
fn empty_allow_list_admits_nothing() {
    let f = Fetcher::new(Some(AllowList::new(vec![])));
    assert!(!f.admits("https://api.example.com/ok"));
    let open = Fetcher::new(None);
    assert!(open.admits("https://anything.test/"));
    assert!(open.admits(""));
}

#[test]
fn prefixes_compare_bytes() {
    assert!(bytes_start_with(b"abc", b""));
    assert!(bytes_start_with(b"abc", b"ab"));
    assert!(bytes_start_with(b"abc", b"abc"));
    assert!(!bytes_start_with(b"abc", b"abcd"));
    assert!(!bytes_start_with(b"abc", b"b"));
    let list = only(&["https://\u{e9}.test"]);
    assert!(list.permits("https://\u{e9}.test/x"));
    assert!(!list.permits("https://e.test/x"));
}

#[test]
fn greeting_names_the_caller() {
    assert_eq!(greet("Ada"), "Hello, Ada! You've been greeted from Rust!");
}
