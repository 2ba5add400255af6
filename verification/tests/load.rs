use batch_proxy::loadgen::DEFAULT_TOKENS;
use batch_proxy::{make_base_text, Args, Service};

#[test]
fn base_text_repeats_the_word() {
    assert_eq!(make_base_text(0), "");
    assert_eq!(make_base_text(1), "word ");
    assert_eq!(make_base_text(3), "word word word ");
    assert_eq!(make_base_text(128).len(), 640);
}

#[test]
fn each_service_has_its_endpoint() {
    assert_eq!(Service::Proxy.url(), "http://localhost:3000/embed");
    assert_eq!(Service::Native.url(), "http://localhost:8080/embed");
}

#[test]
fn load_settings_hold_what_they_were_given() {
    let args = Args { requests: 100, concurrency: 8, service: Service::Proxy, tokens: DEFAULT_TOKENS };
    assert_eq!(args.requests, 100);
    assert_eq!(args.concurrency, 8);
    assert_eq!(args.service, Service::Proxy);
    assert_eq!(args.tokens, 128);
}
