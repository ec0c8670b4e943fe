use rupushdeer::{MessageKind, PushDeer, PushRequest, DEFAULT_SERVER, PUSH_ENDPOINT};

const KEY: &str = "PDU5315TCkMN0KiBRqbceaXxpYx3DvdbiZ3JpAIE";

fn pairs(r: &PushRequest) -> Vec<(&str, &str)> {
    r.query.iter().map(|(k, v)| (k.as_str(), v.as_str())).collect()
}

#[test]
fn set_server() -> Result<(), Box<dyn std::error::Error>> {
    PushDeer::new("PDU5315TCkMN0KiBRqbceaXxpYx3DvdbiZ3JpAIE")
        .set_server("http://127.0.0.1:12345");
    Ok(())
}

#[test]
fn new_uses_public_service() {
    let deer = PushDeer::new(KEY);
    assert_eq!(deer.server(), "https://api2.pushdeer.com");
    assert_eq!(deer.server(), DEFAULT_SERVER);
    assert_eq!(deer.endpoint(), "/message/push");
    assert_eq!(deer.endpoint(), PUSH_ENDPOINT);
    assert_eq!(deer.push_key(), KEY);
    assert_eq!(deer.timeout_secs(), None);
    assert_eq!(deer.send_text("x").url, "https://api2.pushdeer.com/message/push");
    assert_eq!(deer.send_text("x").timeout_secs, None);
}

#[test]
fn set_timeout_is_carried_by_requests() {
    let deer = PushDeer::new(KEY).set_timeout(30).set_server("http://127.0.0.1:12345");
    assert_eq!(deer.timeout_secs(), Some(30));
    assert_eq!(deer.push_key(), KEY);
    assert_eq!(deer.server(), "http://127.0.0.1:12345");
    assert_eq!(deer.send_markdown("m").timeout_secs, Some(30));
}

#[test]
fn set_server_changes_only_server() {
    let deer = PushDeer::new(KEY).set_server("http://127.0.0.1:12345");
    assert_eq!(deer.server(), "http://127.0.0.1:12345");
    assert_eq!(deer.endpoint(), "/message/push");
    assert_eq!(deer.push_key(), KEY);
    assert_eq!(deer.send_image("i").url, "http://127.0.0.1:12345/message/push");
}

#[test]
fn server_and_endpoint_join_without_a_separator() {
    let deer = PushDeer::new(KEY).set_server("http://example.org/");
    assert_eq!(deer.send_text("x").url, "http://example.org//message/push");
}

#[test]
fn send_text_query_is_key_and_text() {
    let deer = PushDeer::new(KEY);
    let r = deer.send_text("title");
    assert_eq!(pairs(&r), vec![("pushkey", KEY), ("text", "title")]);
}

#[test]
fn send_text_with_desp_query() {
    let r = PushDeer::new(KEY).send_text_with_desp("Hello", "send_text_with_desp");
    assert_eq!(
        pairs(&r),
        vec![("pushkey", KEY), ("text", "Hello"), ("desp", "send_text_with_desp")]
    );
}

#[test]
fn send_text_with_empty_desp_leaves_it_out() {
    let r = PushDeer::new(KEY).send_text_with_desp("Hello", "");
    assert_eq!(pairs(&r), vec![("pushkey", KEY), ("text", "Hello")]);
}

#[test]
fn send_markdown_query_names_type() {
    let r = PushDeer::new(KEY).send_markdown("# markdown\npushdeer");
    assert_eq!(
        pairs(&r),
        vec![("pushkey", KEY), ("text", "# markdown\npushdeer"), ("type", "markdown")]
    );
}

#[test]
fn send_markdown_with_desp_query() {
    let r = PushDeer::new(KEY).send_markdown_with_desp("# markdown\npushdeer", "d");
    assert_eq!(
        pairs(&r),
        vec![
            ("pushkey", KEY),
            ("text", "# markdown\npushdeer"),
            ("desp", "d"),
            ("type", "markdown")
        ]
    );
}

#[test]
fn send_image_query_names_type() {
    let url = "https://gitee.com/easychen/pushdeer/raw/main/doc/image/clipcode.png";
    let r = PushDeer::new(KEY).send_image(url);
    assert_eq!(pairs(&r), vec![("pushkey", KEY), ("text", url), ("type", "image")]);
}

#[test]
fn push_with_empty_body_keeps_text() {
    let r = PushDeer::new("").push("", None, MessageKind::Text);
    assert_eq!(pairs(&r), vec![("pushkey", ""), ("text", "")]);
}

#[test]
fn push_fields_for_every_kind_and_description() {
    let deer = PushDeer::new(KEY);
    for kind in [MessageKind::Text, MessageKind::Markdown, MessageKind::Image] {
        for desp in [None, Some(""), Some("more")] {
            let r = deer.push("body", desp, kind);
            let q = pairs(&r);
            assert_eq!(q[0], ("pushkey", KEY));
            assert_eq!(q[1], ("text", "body"));
            let d = q.iter().find(|p| p.0 == "desp").map(|p| p.1);
            assert_eq!(d, desp.filter(|s| !s.is_empty()));
            let t = q.iter().find(|p| p.0 == "type").map(|p| p.1);
            let want = if kind == MessageKind::Text { None } else { Some(kind.tag()) };
            assert_eq!(t, want);
        }
    }
}

#[test]
fn kind_tags() {
    assert_eq!(MessageKind::Text.tag(), "text");
    assert_eq!(MessageKind::Markdown.tag(), "markdown");
    assert_eq!(MessageKind::Image.tag(), "image");
}
