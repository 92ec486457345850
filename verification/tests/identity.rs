use quiccat::error::ConnectionError;
use quiccat::identity::{host_of, infer_identity};

#[test]
fn infers_the_host_before_the_port() {
    assert_eq!(infer_identity("example.com:4433", &None), Ok("example.com".to_string()));
}

#[test]
fn infers_an_ip_literal_as_identity() {
    assert_eq!(infer_identity("10.0.0.5:4433", &None), Ok("10.0.0.5".to_string()));
}

#[test]
fn inference_stops_at_the_first_colon() {
    assert_eq!(infer_identity("host:44:33", &None), Ok("host".to_string()));
}

#[test]
fn inference_fails_without_a_colon() {
    assert_eq!(infer_identity("example.com", &None), Err(ConnectionError::IdentityInference));
}

#[test]
fn inference_fails_on_an_empty_endpoint() {
    assert_eq!(infer_identity("", &None), Err(ConnectionError::IdentityInference));
}

#[test]
fn inference_fails_on_an_empty_host() {
    assert_eq!(infer_identity(":4433", &None), Err(ConnectionError::IdentityInference));
}

#[test]
fn explicit_name_takes_precedence() {
    let name = Some("server.internal".to_string());
    assert_eq!(infer_identity("example.com:4433", &name), Ok("server.internal".to_string()));
}

#[test]
fn explicit_name_needs_no_colon_in_the_endpoint() {
    let name = Some("server.internal".to_string());
    assert_eq!(infer_identity("no-port-here", &name), Ok("server.internal".to_string()));
    assert_eq!(infer_identity("", &name), Ok("server.internal".to_string()));
}

#[test]
fn empty_explicit_name_falls_back_to_inference() {
    let name = Some(String::new());
    assert_eq!(infer_identity("example.com:4433", &name), Ok("example.com".to_string()));
    assert_eq!(infer_identity("example.com", &name), Err(ConnectionError::IdentityInference));
}

#[test]
fn host_part_of_a_non_ascii_endpoint() {
    assert_eq!(host_of("bücher.example:443"), Some("bücher.example".to_string()));
    assert_eq!(infer_identity("bücher.example:443", &None), Ok("bücher.example".to_string()));
}

#[test]
fn host_part_is_absent_without_a_colon() {
    assert_eq!(host_of("localhost"), None);
}

#[test]
fn host_part_may_be_empty() {
    assert_eq!(host_of(":1"), Some(String::new()));
    assert_eq!(host_of(":"), Some(String::new()));
}

#[test]
fn host_part_with_a_trailing_colon() {
    assert_eq!(host_of("localhost:"), Some("localhost".to_string()));
}
