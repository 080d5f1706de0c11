use slack_unfurl::text::{
    chars_of, contains, equal, equals_ignoring_ascii_case, split, starts_with, string_of,
};

fn pieces(s: &str, sep: char) -> Vec<String> {
    split(&chars_of(s), sep).iter().map(|p| string_of(p)).collect()
}

#[test]
fn chars_and_strings_convert_both_ways() {
    assert_eq!(chars_of("héllo"), vec!['h', 'é', 'l', 'l', 'o']);
    assert_eq!(string_of(&['a', 'ß', 'c']), "aßc");
    assert_eq!(string_of(&chars_of("")), "");
}

#[test]
fn split_keeps_empty_pieces() {
    assert_eq!(pieces("", '/'), vec![""]);
    assert_eq!(pieces("a", '/'), vec!["a"]);
    assert_eq!(pieces("a/b", '/'), vec!["a", "b"]);
    assert_eq!(pieces("/a//b/", '/'), vec!["", "a", "", "b", ""]);
    assert_eq!(pieces("creatives/12/6666/preview", '/'), vec!["creatives", "12", "6666", "preview"]);
}

#[test]
fn finds_prefixes_and_occurrences() {
    let hay = chars_of("sandbox-studio.bannerflow.com");
    assert!(starts_with(&hay, &chars_of("sandbox")));
    assert!(!starts_with(&hay, &chars_of("studio")));
    assert!(starts_with(&hay, &chars_of("")));
    assert!(contains(&hay, &chars_of("studio.banner")));
    assert!(contains(&hay, &chars_of(".com")));
    assert!(contains(&hay, &chars_of("")));
    assert!(!contains(&hay, &chars_of("studio.bannerflow.net")));
    assert!(!contains(&chars_of("ab"), &chars_of("abc")));
}

#[test]
fn compares_texts() {
    assert!(equal(&chars_of("creatives"), &chars_of("creatives")));
    assert!(!equal(&chars_of("creatives"), &chars_of("creative")));
    assert!(!equal(&chars_of("creatives"), &chars_of("Creatives")));
    assert!(equals_ignoring_ascii_case(&chars_of("X-Slack-Request-Timestamp"), &chars_of("x-slack-request-timestamp")));
    assert!(!equals_ignoring_ascii_case(&chars_of("x-slack-request"), &chars_of("x-slack-request-timestamp")));
    assert!(!equals_ignoring_ascii_case(&chars_of("[a"), &chars_of("{a")));
}
