use unibox_core::http_client::{
    finish_response, forward_headers, group_headers, is_hop_header_exec, strip_secrets,
    ClientHttpAction, ClientHttpEvent, ClientHttpPhase, ClientHttpState, LocationHeader, UrlPolicy,
    MAX_CLIENT_HTTP_REQUESTS,
};
use unibox_core::model::ClientHttpRequest;
use unibox_core::net::IpAddress;

fn header(name: &str, values: &[&str]) -> (String, Vec<String>) {
    (name.to_string(), values.iter().map(|v| v.to_string()).collect())
}

fn request(method: &str, url: &str, body: Option<&str>, headers: Vec<(String, Vec<String>)>) -> ClientHttpRequest {
    ClientHttpRequest {
        request_id: "r1".to_string(),
        method: method.to_string(),
        url: url.to_string(),
        headers,
        body: body.map(|b| b.to_string()),
    }
}

const PUBLIC: [u8; 4] = [93, 184, 216, 34];

/// Starts an exchange and answers the host lookup with a public address.
fn start(req: &ClientHttpRequest, policy: UrlPolicy) -> (ClientHttpState, ClientHttpAction) {
    let (state, action) = ClientHttpState::begin(req, policy).unwrap();
    match action {
        ClientHttpAction::Resolve { .. } => state.step(ClientHttpEvent::Resolved(Some(vec![IpAddress::V4(PUBLIC)]))),
        other => (state, other),
    }
}

fn fail_message(action: ClientHttpAction) -> String {
    match action {
        ClientHttpAction::Fail(m) => m,
        _ => panic!("expected a failure"),
    }
}

/// Answers a sent request with a redirect and the target's lookup with a
/// public address; returns the state once the next request is sent.
fn redirect(state: ClientHttpState, status: u16, location: &str) -> ClientHttpState {
    assert!(matches!(state.phase, ClientHttpPhase::AwaitResponse));
    let (state, action) = state.step(ClientHttpEvent::Responded {
        status,
        location: LocationHeader::Value(location.to_string()),
    });
    let (state, action) = match action {
        ClientHttpAction::Resolve { .. } => state.step(ClientHttpEvent::Resolved(Some(vec![IpAddress::V4(PUBLIC)]))),
        other => (state, other),
    };
    let (state, action) = match action {
        ClientHttpAction::Resolve { .. } => state.step(ClientHttpEvent::Resolved(Some(vec![IpAddress::V4(PUBLIC)]))),
        other => (state, other),
    };
    assert!(matches!(action, ClientHttpAction::Send));
    state
}

#[test]
fn hop_by_hop_headers_are_recognised_in_any_case() {
    for name in ["Host", "CONTENT-LENGTH", "connection"] {
        assert!(is_hop_header_exec(name));
    }
    for name in ["Accept", "X-Host", "Content-Type"] {
        assert!(!is_hop_header_exec(name));
    }
}

#[test]
fn forwarded_headers_skip_hop_by_hop_and_keep_every_value() {
    let headers = vec![
        header("Accept", &["a", "b"]),
        header("Host", &["evil.example"]),
        header("content-length", &["10"]),
        header("X-Token", &["t"]),
        header("Connection", &["close"]),
    ];
    let lines = forward_headers(&headers).unwrap();
    assert_eq!(
        lines,
        vec![
            ("Accept".to_string(), "a".to_string()),
            ("Accept".to_string(), "b".to_string()),
            ("X-Token".to_string(), "t".to_string()),
        ]
    );
}

#[test]
fn invalid_forwarded_header_name_is_refused_but_hop_headers_are_not_checked() {
    assert!(forward_headers(&vec![header("Bad Name", &["x"])]).is_none());
    assert!(forward_headers(&vec![header("", &["x"])]).is_none());
    assert!(forward_headers(&vec![header("Host", &[])]).is_some());
}

#[test]
fn received_header_lines_are_grouped_by_name_in_order() {
    let lines = vec![
        ("set-cookie".to_string(), "a=1".to_string()),
        ("content-type".to_string(), "text/html".to_string()),
        ("set-cookie".to_string(), "b=2".to_string()),
    ];
    let grouped = group_headers(&lines);
    assert_eq!(grouped.len(), 2);
    let cookies = grouped.iter().find(|(name, _)| name == "set-cookie").unwrap();
    assert_eq!(cookies.1, vec!["a=1".to_string(), "b=2".to_string()]);
    let types = grouped.iter().find(|(name, _)| name == "content-type").unwrap();
    assert_eq!(types.1, vec!["text/html".to_string()]);
}

#[test]
fn response_body_is_base64_and_headers_grouped() {
    let lines = vec![("x".to_string(), "1".to_string()), ("x".to_string(), "2".to_string())];
    let response = finish_response(200, "https://example.com/done", &lines, b"hello");
    assert_eq!(response.status_code, 200);
    assert_eq!(response.final_url, "https://example.com/done");
    assert_eq!(response.body, "aGVsbG8=");
    assert_eq!(response.headers, vec![("x".to_string(), vec!["1".to_string(), "2".to_string()])]);
    assert_eq!(finish_response(204, "https://e.org/", &vec![], b"").body, "");
}

#[test]
fn begin_validates_url_method_and_body() {
    let bad_url = ClientHttpState::begin(&request("GET", "not a url", None, vec![]), UrlPolicy::Native);
    assert_eq!(bad_url.err().unwrap(), "invalid connector client HTTP URL");
    let bad_method = ClientHttpState::begin(&request("GE T", "https://example.com/", None, vec![]), UrlPolicy::Native);
    assert_eq!(bad_method.err().unwrap(), "invalid client HTTP method");
    let bad_body = ClientHttpState::begin(&request("POST", "https://example.com/", Some("%%%"), vec![]), UrlPolicy::Wsl);
    assert_eq!(bad_body.err().unwrap(), "invalid base64 client HTTP body");

    let (state, action) =
        ClientHttpState::begin(&request("POST", "https://example.com/login", Some("aGk="), vec![]), UrlPolicy::Native).unwrap();
    match action {
        ClientHttpAction::Resolve { host, port } => {
            assert_eq!(host, "example.com");
            assert_eq!(port, 443);
        }
        _ => panic!("a host name is looked up first"),
    }
    assert_eq!(state.body, Some(b"hi".to_vec()));
    assert_eq!(state.redirects, 0);
}

#[test]
fn refused_urls_fail_before_anything_is_sent() {
    for (policy, url, message) in [
        (UrlPolicy::Native, "http://example.com/", "connector client HTTP only permits public HTTPS URLs"),
        (UrlPolicy::Native, "https://localhost/", "connector client HTTP blocks local hosts"),
        (UrlPolicy::Native, "https://10.0.0.1/", "connector client HTTP blocks private or local addresses"),
        (UrlPolicy::Wsl, "https://[::ffff:127.0.0.1]/", "connector client HTTP only permits public HTTPS URLs"),
    ] {
        let (_, action) = ClientHttpState::begin(&request("GET", url, None, vec![]), policy).unwrap();
        assert_eq!(fail_message(action), message, "{url}");
    }
}

#[test]
fn ip_literal_is_sent_without_lookup() {
    let (state, action) =
        ClientHttpState::begin(&request("GET", "https://8.8.8.8/dns-query", None, vec![]), UrlPolicy::Wsl).unwrap();
    assert!(matches!(action, ClientHttpAction::Send));
    assert!(state.pinned.is_empty());
}

#[test]
fn request_is_pinned_to_the_checked_addresses() {
    let (state, _) =
        ClientHttpState::begin(&request("GET", "https://example.com/", None, vec![]), UrlPolicy::Native).unwrap();
    let addresses = vec![IpAddress::V4(PUBLIC), IpAddress::V4([1, 1, 1, 1])];
    let (state, action) = state.step(ClientHttpEvent::Resolved(Some(addresses.clone())));
    assert!(matches!(action, ClientHttpAction::Send));
    assert!(matches!(state.phase, ClientHttpPhase::AwaitResponse));
    assert_eq!(state.pinned.len(), 2);
    assert!(matches!(state.pinned[1], IpAddress::V4([1, 1, 1, 1])));
}

#[test]
fn private_or_failed_resolution_fails() {
    let begin = |policy| {
        ClientHttpState::begin(&request("GET", "https://example.com/", None, vec![]), policy).unwrap().0
    };
    let (_, action) = begin(UrlPolicy::Native).step(ClientHttpEvent::Resolved(None));
    assert_eq!(fail_message(action), "failed to resolve connector HTTP host example.com");
    let (_, action) =
        begin(UrlPolicy::Wsl).step(ClientHttpEvent::Resolved(Some(vec![IpAddress::V4([127, 0, 0, 1])])));
    assert_eq!(fail_message(action), "connector client HTTP host resolves to a private or local address");
    let (_, action) = begin(UrlPolicy::Wsl).step(ClientHttpEvent::Resolved(Some(vec![])));
    assert_eq!(fail_message(action), "connector HTTP host did not resolve");
    let (_, action) = begin(UrlPolicy::Native).step(ClientHttpEvent::Resolved(Some(vec![
        IpAddress::V4(PUBLIC),
        IpAddress::V6([0, 0, 0, 0, 0, 0xffff, 0x0a00, 1]),
    ])));
    assert_eq!(fail_message(action), "connector client HTTP host resolves to a private/local or empty address set");
}

#[test]
fn invalid_header_fails_after_the_url_check() {
    let (state, _) = ClientHttpState::begin(
        &request("GET", "https://example.com/", None, vec![header("Bad Name", &["x"])]),
        UrlPolicy::Native,
    )
    .unwrap();
    let (_, action) = state.step(ClientHttpEvent::Resolved(Some(vec![IpAddress::V4(PUBLIC)])));
    assert_eq!(fail_message(action), "invalid client HTTP header");
}

#[test]
fn plain_response_is_delivered() {
    let (state, action) = start(&request("GET", "https://example.com/", None, vec![]), UrlPolicy::Native);
    assert!(matches!(action, ClientHttpAction::Send));
    let (_, action) = state.step(ClientHttpEvent::Responded { status: 200, location: LocationHeader::Missing });
    assert!(matches!(action, ClientHttpAction::Deliver));
}

#[test]
fn see_other_turns_post_into_get_without_body() {
    let (state, _) = start(&request("POST", "https://example.com/a/login", Some("aGk="), vec![]), UrlPolicy::Native);
    let state = redirect(state, 303, "next");
    assert_eq!(state.url.href(), "https://example.com/a/next");
    assert_eq!(state.method, "GET");
    assert_eq!(state.body, None);
    assert_eq!(state.redirects, 1);
}

#[test]
fn temporary_redirect_keeps_method_and_body() {
    let (state, _) = start(&request("POST", "https://example.com/login", Some("aGk="), vec![]), UrlPolicy::Native);
    let state = redirect(state, 307, "https://other.example/login");
    assert_eq!(state.url.href(), "https://other.example/login");
    assert_eq!(state.method, "POST");
    assert_eq!(state.body, Some(b"hi".to_vec()));
}

#[test]
fn credentials_stay_on_their_origin() {
    let headers = vec![
        header("Authorization", &["Bearer t"]),
        header("Cookie", &["a=1"]),
        header("Accept", &["*/*"]),
    ];
    let (state, _) = start(&request("GET", "https://example.com/a", None, headers), UrlPolicy::Native);
    let same = redirect(state, 302, "/b");
    assert_eq!(same.headers.as_ref().unwrap().len(), 3);
    let other = redirect(same, 302, "https://other.example/c");
    assert_eq!(other.headers.unwrap(), vec![("Accept".to_string(), "*/*".to_string())]);
}

#[test]
fn secret_headers_are_stripped() {
    let lines = vec![
        ("authorization".to_string(), "x".to_string()),
        ("X-Token".to_string(), "y".to_string()),
        ("COOKIE2".to_string(), "z".to_string()),
        ("Proxy-Authorization".to_string(), "p".to_string()),
        ("WWW-Authenticate".to_string(), "w".to_string()),
    ];
    assert_eq!(strip_secrets(&lines), vec![("X-Token".to_string(), "y".to_string())]);
}

#[test]
fn redirect_without_usable_location_fails() {
    for (location, message) in [
        (LocationHeader::Missing, "redirect response is missing Location header"),
        (LocationHeader::Unreadable, "invalid redirect Location header"),
        (LocationHeader::Value("https://[::1".to_string()), "invalid redirect URL"),
        (LocationHeader::Value("http://plain.example/".to_string()), "connector client HTTP only permits public HTTPS URLs"),
    ] {
        let (state, _) = start(&request("GET", "https://example.com/", None, vec![]), UrlPolicy::Native);
        let (_, action) = state.step(ClientHttpEvent::Responded { status: 302, location });
        assert_eq!(fail_message(action), message);
    }
}

#[test]
fn redirects_stop_at_the_request_budget() {
    let (mut state, _) = start(&request("GET", "https://example.com/0", None, vec![]), UrlPolicy::Native);
    for hop in 1..MAX_CLIENT_HTTP_REQUESTS {
        state = redirect(state, 302, &format!("/{hop}"));
        assert_eq!(state.redirects, hop);
    }
    let (state, action) =
        state.step(ClientHttpEvent::Responded { status: 302, location: LocationHeader::Value("/again".to_string()) });
    assert!(matches!(action, ClientHttpAction::Resolve { .. }));
    let (_, action) = state.step(ClientHttpEvent::Resolved(Some(vec![IpAddress::V4(PUBLIC)])));
    assert_eq!(fail_message(action), "connector client HTTP exceeded redirect limit");
}
