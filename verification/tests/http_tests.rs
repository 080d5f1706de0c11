use slack_unfurl::classify::Headers;
use slack_unfurl::http::{dispatch, link_summary, resolve_port, ConfigError, Dispatch, Method, Reply, DEFAULT_PORT};
use slack_unfurl::orchestrator::{handle_link_shared_event, plan_unfurl, Exchange, LinkPlan, UnfurlPlan};
use slack_unfurl::slack::Link;

fn stamped() -> Headers {
    let mut h = Headers::new();
    h.append("x-slack-request-timestamp", "1700000000");
    h
}

fn shared(url: &str) -> String {
    format!(
        r#"{{"token":"tok","api_app_id":"A","type":"event_callback","event_id":"E","event_time":1,
        "event":{{"type":"link_shared","channel":"C123","is_bot_user_member":true,
        "message_ts":"1700000000.000100","unfurl_id":"u","source":"s",
        "links":[{{"domain":"studio.example.com","url":"{}"}}]}}}}"#,
        url
    )
}

fn answer(status: u16, body: &str) -> Dispatch {
    Dispatch::Answer(Reply { status, body: body.to_string() })
}

#[test]
fn methods_are_told_apart_by_name() {
    assert_eq!(Method::from_name("GET"), Method::Get);
    assert_eq!(Method::from_name("POST"), Method::Post);
    assert_eq!(Method::from_name("PUT"), Method::Other);
    assert_eq!(Method::from_name("get"), Method::Other);
    assert_eq!(Method::from_name(""), Method::Other);
}

#[test]
fn get_is_acknowledged() {
    assert_eq!(dispatch(Method::Get, &Headers::new(), String::new()), answer(200, "GET /"));
    assert_eq!(dispatch(Method::Get, &stamped(), "{}".to_string()), answer(200, "GET /"));
}

#[test]
fn other_methods_get_a_notice() {
    assert_eq!(
        dispatch(Method::Other, &stamped(), String::new()),
        answer(200, "Method Not Supported")
    );
}

#[test]
fn a_handshake_is_answered_with_exactly_its_challenge() {
    let body = r#"{"challenge":"abc","token":"t","type":"url_verification"}"#.to_string();
    assert_eq!(dispatch(Method::Post, &stamped(), body), answer(200, "abc"));
}

#[test]
fn what_is_no_event_is_a_bad_request() {
    let handshake = r#"{"challenge":"abc","token":"t","type":"url_verification"}"#.to_string();
    assert_eq!(dispatch(Method::Post, &Headers::new(), handshake), answer(400, "Bad Request"));
    assert_eq!(dispatch(Method::Post, &stamped(), "{oops".to_string()), answer(400, "Bad Request"));
    assert_eq!(dispatch(Method::Post, &stamped(), "{}".to_string()), answer(400, "Bad Request"));
    assert_eq!(
        dispatch(Method::Post, &stamped(), r#"{"challenge":1}"#.to_string()),
        answer(400, "Bad Request")
    );
}

#[test]
fn a_shared_creative_is_fetched_and_posted_once() {
    let link = "https://studio.example.com/creatives/12/6666/preview";
    let (event, reply) = match dispatch(Method::Post, &stamped(), shared(link)) {
        Dispatch::Unfurl(event, reply) => (event, reply),
        other => panic!("unexpected: {:?}", other),
    };
    assert_eq!(reply.status, 200);
    assert_eq!(reply.body, "Link object received successfully. Got IDs: , (12, 6666)");
    let plan = match handle_link_shared_event(&event) {
        Ok(LinkPlan::Fetch(plan)) => plan,
        other => panic!("unexpected: {:?}", other),
    };
    assert!(plan.metadata_url.contains("creativeset=12&creative=6666"));
    let fetched = Exchange::Answered { status: 200, body: r#"{"brand":"b"}"#.to_string() };
    match plan_unfurl(&event, &plan, fetched) {
        Ok(UnfurlPlan::Post(body)) => match body.get("unfurls") {
            Some(slack_unfurl::json::JsonValue::Object(unfurls)) => {
                assert_eq!(unfurls.len(), 1);
                assert_eq!(unfurls[0].0, link);
            }
            other => panic!("unexpected: {:?}", other),
        },
        other => panic!("unexpected: {:?}", other),
    }
}

#[test]
fn another_shared_link_is_answered_and_nothing_is_fetched() {
    let (event, reply) = match dispatch(Method::Post, &stamped(), shared("https://h/other/1/2")) {
        Dispatch::Unfurl(event, reply) => (event, reply),
        other => panic!("unexpected: {:?}", other),
    };
    assert_eq!(reply.status, 200);
    assert_eq!(reply.body, "Link object received successfully. Got IDs: ");
    assert_eq!(handle_link_shared_event(&event), Ok(LinkPlan::Ignore));
}

#[test]
fn failing_metadata_still_answers_200_and_posts_nothing() {
    let link = "https://studio.example.com/creatives/12/6666";
    let (event, reply) = match dispatch(Method::Post, &stamped(), shared(link)) {
        Dispatch::Unfurl(event, reply) => (event, reply),
        other => panic!("unexpected: {:?}", other),
    };
    assert_eq!(reply.status, 200);
    let plan = match handle_link_shared_event(&event) {
        Ok(LinkPlan::Fetch(plan)) => plan,
        other => panic!("unexpected: {:?}", other),
    };
    let fetched = Exchange::Answered { status: 500, body: "Internal Server Error".to_string() };
    assert_eq!(plan_unfurl(&event, &plan, fetched), Ok(UnfurlPlan::Skip));
}

#[test]
fn the_summary_lists_the_ids_of_every_creative_link() {
    let links: Vec<Link> = ["https://h/creatives/1/2", "https://h/x", "https://h/creatives/30/40/z"]
        .iter()
        .map(|u| Link { domain: "h".to_string(), url: u.to_string() })
        .collect();
    assert_eq!(link_summary(&links), "Link object received successfully. Got IDs: , (1, 2), (30, 40)");
    assert_eq!(link_summary(&vec![]), "Link object received successfully. Got IDs: ");
}

#[test]
fn the_port_defaults_to_3000() {
    assert_eq!(DEFAULT_PORT, 3000);
    assert_eq!(resolve_port(None), Ok(3000));
    assert_eq!(resolve_port(Some("8080")), Ok(8080));
    assert_eq!(resolve_port(Some("65535")), Ok(65535));
    assert_eq!(resolve_port(Some("1")), Ok(1));
}

#[test]
fn a_port_that_is_no_positive_number_is_refused() {
    for text in ["", "abc", "0", "65536", "-1", "80 ", "8080.0", "99999999999999999999999"] {
        assert_eq!(resolve_port(Some(text)), Err(ConfigError::InvalidPort), "{:?}", text);
    }
}
