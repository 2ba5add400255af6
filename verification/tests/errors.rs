use batch_proxy::ProxyError;

#[test]
fn unavailable_and_shutdown_are_503() {
    assert_eq!(ProxyError::BatcherUnavailable.status_code(), 503);
    assert_eq!(ProxyError::ServiceShutdown.status_code(), 503);
}

#[test]
fn request_mismatch_and_receiver_are_502() {
    assert_eq!(ProxyError::Request("boom".to_string()).status_code(), 502);
    assert_eq!(ProxyError::CountMismatch { expected: 3, got: 2 }.status_code(), 502);
    assert_eq!(ProxyError::Receiver.status_code(), 502);
}

#[test]
fn upstream_failure_is_502_whatever_its_code() {
    let upstream = |code: u16| ProxyError::Upstream { code, body: "nf".to_string() };
    for code in [0, 99, 100, 404, 500, 502, 503, 999, 1000, u16::MAX] {
        assert_eq!(upstream(code).status_code(), 502, "for {code}");
    }
}

#[test]
fn only_the_two_unavailable_failures_are_503() {
    let failures = [
        ProxyError::BatcherUnavailable,
        ProxyError::ServiceShutdown,
        ProxyError::Upstream { code: 503, body: String::new() },
        ProxyError::Request("x".to_string()),
        ProxyError::CountMismatch { expected: 1, got: 0 },
        ProxyError::Receiver,
    ];
    let codes: Vec<u16> = failures.iter().map(|f| f.status_code()).collect();
    assert_eq!(codes, vec![503, 503, 502, 502, 502, 502]);
}

#[test]
fn client_failure_becomes_request_with_its_text() {
    let failure = reqwest::Client::new().get("not a url").build().expect_err("no such url");
    let text = failure.to_string();
    let err = ProxyError::from(failure);
    assert!(matches!(err, ProxyError::Request(ref message) if *message == text));
    assert!(matches!(err, ProxyError::Request(ref message) if message.contains("builder error")));
}

#[test]
fn clone_keeps_the_failure() {
    let err = ProxyError::Upstream { code: 418, body: "teapot".to_string() };
    let copy = err.clone();
    assert!(matches!(copy, ProxyError::Upstream { code: 418, ref body } if body == "teapot"));
    let copy = ProxyError::CountMismatch { expected: 3, got: 2 }.clone();
    assert!(matches!(copy, ProxyError::CountMismatch { expected: 3, got: 2 }));
    let copy = ProxyError::Request("x".to_string()).clone();
    assert!(matches!(copy, ProxyError::Request(ref text) if text == "x"));
}
