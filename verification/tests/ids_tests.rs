use slack_unfurl::ids::{get_ids_from_url, ids_from_path, parse_url};

#[test]
fn creative_links_hold_their_ids() {
    assert_eq!(get_ids_from_url("https://h/creatives/12/6666"), Some((12, 6666)));
    assert_eq!(
        get_ids_from_url("https://studio.example.com/creatives/12/6666/preview"),
        Some((12, 6666))
    );
    assert_eq!(get_ids_from_url("https://h/creatives/1/2/a/b/c"), Some((1, 2)));
    assert_eq!(get_ids_from_url("https://h/creatives/0/18446744073709551615"), Some((0, u64::MAX)));
}

#[test]
fn query_and_fragment_do_not_matter() {
    assert_eq!(get_ids_from_url("https://h/creatives/12/6666?x=1&y=/2"), Some((12, 6666)));
    assert_eq!(get_ids_from_url("https://h/creatives/12/6666/preview?x=1#frag"), Some((12, 6666)));
    assert_eq!(get_ids_from_url("https://h:8080/creatives/12/6666#frag"), Some((12, 6666)));
}

#[test]
fn other_links_hold_no_ids() {
    assert_eq!(get_ids_from_url("https://h/other/1/2"), None);
    assert_eq!(get_ids_from_url("https://h/"), None);
    assert_eq!(get_ids_from_url("https://h"), None);
    assert_eq!(get_ids_from_url("https://h/creatives"), None);
    assert_eq!(get_ids_from_url("https://h/creatives/12"), None);
    assert_eq!(get_ids_from_url("https://h/creatives/12/"), None);
    assert_eq!(get_ids_from_url("https://h/creatives/a/b"), None);
    assert_eq!(get_ids_from_url("https://h/creatives/12/x6"), None);
    assert_eq!(get_ids_from_url("https://h/creatives/-1/2"), None);
    assert_eq!(get_ids_from_url("https://h/creativesX/1/2"), None);
    assert_eq!(get_ids_from_url("https://h/x/creatives/1/2"), None);
    assert_eq!(get_ids_from_url("https://h/creatives/1/18446744073709551616"), None);
}

#[test]
fn what_is_no_url_holds_no_ids() {
    assert_eq!(get_ids_from_url(""), None);
    assert_eq!(get_ids_from_url("not a url"), None);
    assert_eq!(get_ids_from_url("/creatives/1/2"), None);
}

#[test]
fn extraction_gives_the_same_answer_each_time() {
    let url = "https://studio.example.com/creatives/12/6666/preview";
    assert_eq!(get_ids_from_url(url), get_ids_from_url(url));
    assert_eq!(get_ids_from_url("nope"), get_ids_from_url("nope"));
}

#[test]
fn paths_are_read_without_a_url_around_them() {
    assert_eq!(ids_from_path("/creatives/12/6666"), Some((12, 6666)));
    assert_eq!(ids_from_path("/creatives/+12/6666/preview"), Some((12, 6666)));
    assert_eq!(ids_from_path("/creatives/12"), None);
    assert_eq!(ids_from_path("creatives/12/6666"), None);
    assert_eq!(ids_from_path("/creatives//12/6666"), None);
    assert_eq!(ids_from_path(""), None);
}

#[test]
fn urls_are_taken_apart_by_the_url_crate() {
    let parts = parse_url("https://Studio.Example.com/creatives/12/66 66?x=1").unwrap();
    assert_eq!(parts.host.as_deref(), Some("studio.example.com"));
    assert_eq!(parts.path, "/creatives/12/66%2066");
    assert!(parse_url("no url").is_none());
    let mail = parse_url("mailto:someone@example.com").unwrap();
    assert_eq!(mail.host, None);
}
