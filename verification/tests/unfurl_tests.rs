use slack_unfurl::json::{parse_json, render_json, JsonValue};
use slack_unfurl::unfurl::{
    build_unfurl_message, build_unfurl_request, editor_url, field_texts, get_image_url, is_success,
    metadata_url, read_metadata, unfurl_accepted, Environment, ResourceMetadata,
};

const META: &str = r#"{
  "brand": "b-77",
  "creativeset": "Summer sale",
  "size": {"width": 300, "height": 250},
  "version": "v3",
  "elements": 14,
  "duration": 7.5,
  "preloadImage": "https://cdn.example.com/p.png"
}"#;

fn shown() -> ResourceMetadata {
    read_metadata(&parse_json(META).unwrap()).unwrap()
}

#[test]
fn the_studio_follows_from_the_host() {
    assert_eq!(Environment::of_host(&Some("sandbox-studio.bannerflow.com".to_string())), Environment::Sandbox);
    assert_eq!(Environment::of_host(&Some("eu.sandbox-studio.bannerflow.com.x".to_string())), Environment::Sandbox);
    assert_eq!(Environment::of_host(&Some("studio.bannerflow.com".to_string())), Environment::Production);
    assert_eq!(Environment::of_host(&Some("studio.example.com".to_string())), Environment::Production);
    assert_eq!(Environment::of_host(&None), Environment::Production);
    assert_eq!(Environment::Sandbox.base_url(), "https://sandbox-studio.bannerflow.com");
    assert_eq!(Environment::Production.base_url(), "https://studio.bannerflow.com");
}

#[test]
fn metadata_is_fetched_with_both_ids_in_the_query() {
    assert_eq!(
        metadata_url(Environment::Production, 12, 6666),
        "https://studio.bannerflow.com/creatives/creative-metadata?creativeset=12&creative=6666"
    );
    assert_eq!(
        metadata_url(Environment::Sandbox, 0, u64::MAX),
        "https://sandbox-studio.bannerflow.com/creatives/creative-metadata?creativeset=0&creative=18446744073709551615"
    );
}

#[test]
fn the_editor_opens_the_set_of_the_brand() {
    assert_eq!(
        editor_url(Environment::Production, "b-77", 12),
        "https://studio.bannerflow.com/brand/b-77/creativeset/12"
    );
    assert_eq!(
        editor_url(Environment::Sandbox, "", 1),
        "https://sandbox-studio.bannerflow.com/brand//creativeset/1"
    );
}

#[test]
fn images_go_through_the_optimizer() {
    assert_eq!(
        get_image_url("https://cdn.example.com/p.png"),
        "https://c.bannerflow.net/io/api/image/optimize?u=https://cdn.example.com/p.png&w=200&h=200&q=85&f=webp&rt=contain"
    );
    assert_eq!(
        get_image_url(""),
        "https://c.bannerflow.net/io/api/image/optimize?u=&w=200&h=200&q=85&f=webp&rt=contain"
    );
}

#[test]
fn metadata_is_read_as_it_is_shown() {
    assert_eq!(
        shown(),
        ResourceMetadata {
            brand: "b-77".to_string(),
            creativeset: "\"Summer sale\"".to_string(),
            size: Some(("300".to_string(), "250".to_string())),
            version: "v3".to_string(),
            elements: "14".to_string(),
            duration: "7.5".to_string(),
            preload_image: "https://cdn.example.com/p.png".to_string(),
        }
    );
}

#[test]
fn missing_metadata_reads_as_blank_or_null() {
    let m = read_metadata(&parse_json(r#"{"brand": 5, "size": null}"#).unwrap()).unwrap();
    assert_eq!(
        m,
        ResourceMetadata {
            brand: "".to_string(),
            creativeset: "null".to_string(),
            size: None,
            version: "".to_string(),
            elements: "null".to_string(),
            duration: "null".to_string(),
            preload_image: "".to_string(),
        }
    );
    let m = read_metadata(&parse_json(r#"{"size": {"width": 1}}"#).unwrap()).unwrap();
    assert_eq!(m.size, Some(("1".to_string(), "null".to_string())));
    let m = read_metadata(&parse_json(r#"{"size": "big"}"#).unwrap()).unwrap();
    assert_eq!(m.size, Some(("null".to_string(), "null".to_string())));
}

#[test]
fn metadata_must_be_an_object() {
    assert_eq!(read_metadata(&parse_json("[]").unwrap()), None);
    assert_eq!(read_metadata(&parse_json("\"x\"").unwrap()), None);
    assert_eq!(read_metadata(&JsonValue::Null), None);
}

#[test]
fn the_fields_come_in_order() {
    assert_eq!(
        field_texts(&shown(), 12, 6666),
        vec![
            "*Creativeset:* \"Summer sale\"\n12",
            "*Creative:*\n6666",
            "*Size:*\n300 x 250",
            "*Version:*\nv3",
            "*Brand:*\nb-77",
            "*Elements:* 14\n*Duration:* 7.5",
        ]
    );
    let mut without_size = shown();
    without_size.size = None;
    assert_eq!(
        field_texts(&without_size, 12, 6666),
        vec![
            "*Creativeset:* \"Summer sale\"\n12",
            "*Creative:*\n6666",
            "*Version:*\nv3",
            "*Brand:*\nb-77",
            "*Elements:* 14\n*Duration:* 7.5",
        ]
    );
}

#[test]
fn the_message_has_header_fields_preview_and_image() {
    let link = "https://studio.example.com/creatives/12/6666/preview";
    let message = build_unfurl_message(&shown(), link, 12, 6666, Environment::Production);
    let expected = parse_json(
        r#"{"blocks":[
          {"type":"header","text":{"type":"plain_text","text":"Creative Preview - Bannerflow","emoji":true}},
          {"type":"section","fields":[
            {"type":"mrkdwn","text":"*Creativeset:* \"Summer sale\"\n12"},
            {"type":"mrkdwn","text":"*Creative:*\n6666"},
            {"type":"mrkdwn","text":"*Size:*\n300 x 250"},
            {"type":"mrkdwn","text":"*Version:*\nv3"},
            {"type":"mrkdwn","text":"*Brand:*\nb-77"},
            {"type":"mrkdwn","text":"*Elements:* 14\n*Duration:* 7.5"}]},
          {"type":"section",
           "text":{"type":"mrkdwn","text":"<https://studio.example.com/creatives/12/6666/preview|View preview>"},
           "accessory":{"type":"button","text":{"type":"plain_text","text":"Go To MV","emoji":true},
                        "url":"https://studio.bannerflow.com/brand/b-77/creativeset/12",
                        "action_id":"button-action"}},
          {"type":"image","title":{"type":"plain_text","text":"12 - 6666","emoji":true},
           "image_url":"https://c.bannerflow.net/io/api/image/optimize?u=https://cdn.example.com/p.png&w=200&h=200&q=85&f=webp&rt=contain",
           "alt_text":"preload image"}]}"#,
    )
    .unwrap();
    assert_eq!(render_json(&message), render_json(&expected));
}

#[test]
fn the_request_files_the_message_under_the_link() {
    let body = build_unfurl_request("C123", "1700000000.000100", "https://l/creatives/1/2", JsonValue::Null);
    assert_eq!(
        render_json(&body),
        r#"{"channel":"C123","ts":"1700000000.000100","unfurls":{"https://l/creatives/1/2":null}}"#
    );
    match body.get("unfurls") {
        Some(JsonValue::Object(unfurls)) => {
            assert_eq!(unfurls.len(), 1);
            assert_eq!(unfurls[0].0, "https://l/creatives/1/2");
        }
        other => panic!("unexpected: {:?}", other),
    }
}

#[test]
fn success_is_status_200_to_299() {
    assert!(!is_success(199));
    assert!(is_success(200));
    assert!(is_success(204));
    assert!(is_success(299));
    assert!(!is_success(300));
    assert!(!is_success(404));
    assert!(!is_success(500));
    assert!(!is_success(0));
}

#[test]
fn a_preview_is_taken_when_ok_is_true() {
    assert!(unfurl_accepted(&parse_json(r#"{"ok":true}"#).unwrap()));
    assert!(!unfurl_accepted(&parse_json(r#"{"ok":false,"error":"cannot_unfurl_url"}"#).unwrap()));
    assert!(!unfurl_accepted(&parse_json(r#"{"ok":"true"}"#).unwrap()));
    assert!(!unfurl_accepted(&parse_json(r#"{}"#).unwrap()));
    assert!(!unfurl_accepted(&parse_json(r#"[true]"#).unwrap()));
}
