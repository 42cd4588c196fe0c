use pingbot::providers::slack::Error;
use pingbot::providers::slack::Message;
use pingbot::providers::slack::Response;
use pingbot::providers::slack::Slack;
use pingbot::providers::Header;
use pingbot::providers::Method;
use pingbot::providers::Request;

fn headers(req: &Request) -> Vec<(String, String)> {
    req.headers.iter().map(|h| (h.key.clone(), h.value.clone())).collect()
}

fn pair(k: &str, v: &str) -> (String, String) {
    (k.to_string(), v.to_string())
}

#[test]
fn a_message_is_posted_as_json_with_the_bearer_token() {
    let slack = Slack::new("xoxb-1".to_string());
    let req = slack.send_message("{\"text\":\"hi\",\"channel\":\"C1\"}".to_string());
    assert!(matches!(req.method, Method::Post));
    assert_eq!(req.url, "https://slack.com/api/chat.postMessage");
    assert_eq!(
        headers(&req),
        vec![
            pair("user-agent", "pingbot"),
            pair("authorization", "Bearer xoxb-1"),
            pair("content-type", "application/json"),
        ]
    );
    assert_eq!(req.body.as_deref(), Some("{\"text\":\"hi\",\"channel\":\"C1\"}"));
}

#[test]
fn a_post_carries_the_fixed_headers_first() {
    let slack = Slack::new("".to_string());
    let extra = vec![Header { key: "X-One".to_string(), value: "1".to_string() }];
    let req = slack.request("https://example.org/x".to_string(), extra, "body".to_string());
    assert_eq!(req.url, "https://example.org/x");
    assert_eq!(
        headers(&req),
        vec![
            pair("user-agent", "pingbot"),
            pair("authorization", "Bearer "),
            pair("content-type", "application/json"),
            pair("X-One", "1"),
        ]
    );
    assert_eq!(req.body.as_deref(), Some("body"));
}

#[test]
fn a_message_has_a_text_and_a_channel() {
    let m: Message = Slack::message("C1".to_string(), "hi".to_string());
    assert_eq!(m.channel, "C1");
    assert_eq!(m.text, "hi");
}

#[test]
fn the_service_says_when_a_message_arrived() {
    assert!(Response { ok: true, error: None }.into_result().is_ok());
    assert!(Response { ok: true, error: Some("ignored".to_string()) }.into_result().is_ok());
}

#[test]
fn a_refusal_carries_the_reason_of_the_service() {
    let e = Response { ok: false, error: Some("channel_not_found".to_string()) }
        .into_result()
        .err()
        .unwrap();
    assert_eq!(e.to_string(), "channel_not_found");
}

#[test]
fn a_refusal_without_a_reason_is_an_unknown_error() {
    let e = Response { ok: false, error: None }.into_result().err().unwrap();
    assert_eq!(e.to_string(), "unknown error");
}

#[test]
fn an_error_is_made_from_its_reason() {
    let e: Error = "boom".to_string().into();
    assert_eq!(e.to_string(), "boom");
    assert_eq!(Error::from("x".to_string()).to_string(), "x");
    assert_eq!(Error::new("timed out".to_string()).to_string(), "timed out");
}
