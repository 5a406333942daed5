use httpstime_rs::request::{probe_url, user_agent};

#[test]
fn url_of_a_host() {
    assert_eq!(probe_url("example.org"), "https://example.org/.well-known/time");
}

#[test]
fn url_of_a_host_with_a_port() {
    assert_eq!(probe_url("example.org:8443"), "https://example.org:8443/.well-known/time");
}

#[test]
fn url_of_an_empty_host() {
    assert_eq!(probe_url(""), "https:///.well-known/time");
}

#[test]
fn user_agent_names_the_version() {
    assert_eq!(user_agent("0.1.0"), "httpstime-rs/0.1.0");
    assert_eq!(user_agent(""), "httpstime-rs/");
}
