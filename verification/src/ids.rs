//! The two identifiers in the path of a link to a creative.
//!
//! A link to a creative has a path of the shape `/creatives/<set>/<item>`,
//! possibly with more segments after it. The `url` crate takes the link apart;
//! what the path means is decided here.

use vstd::prelude::*;
use vstd::slice::slice_subrange;
use crate::decimal::{
    all_digits,
    decimal_text,
    digits_value,
    is_digit,
    lemma_decimal_text_value,
    parse_u64,
    parse_u64_spec,
};
use crate::text::{
    chars_of,
    equal,
    lemma_split_joined,
    lemma_split_nonempty,
    lemma_split_without_separator,
    split,
    split_spec,
    starts_with,
};

verus! {

/// The parts of an absolute URL that the library reads.
#[derive(Debug, Clone, PartialEq)]
pub struct ParsedUrl {
    /// The host, where the URL has one.
    pub host: Option<String>,
    /// The path, without query and fragment.
    pub path: String,
}

pub struct ParsedUrlView {
    pub host: Option<Seq<char>>,
    pub path: Seq<char>,
}

impl View for ParsedUrl {
    type V = ParsedUrlView;

    open spec fn view(&self) -> ParsedUrlView {
        ParsedUrlView {
            host: match self.host {
                Some(h) => Some(h@),
                None => None,
            },
            path: self.path@,
        }
    }
}

/// What `url::Url::parse` makes of a text: host and path of the URL, or
/// `None` where the text is no absolute URL.
pub uninterp spec fn url_parts(input: Seq<char>) -> Option<ParsedUrlView>;

/// `url::Url::parse`, with `Url::host_str` and `Url::path` of the URL that it
/// gives. The result depends on the text alone, so it has the name
/// `url_parts`; a text that does not parse gives `None`.
#[verifier::external_body]
fn split_url(input: &str) -> (r: Option<ParsedUrl>)
    ensures
        match r {
            Some(p) => url_parts(input@) == Some(p@),
            None => url_parts(input@) is None,
        },
{
    match url::Url::parse(input) {
        Ok(u) => Some(
            ParsedUrl { host: u.host_str().map(|h| h.to_string()), path: u.path().to_string() },
        ),
        Err(_) => None,
    }
}

/// Takes an absolute URL apart; `None` where `input` is none.
pub fn parse_url(input: &str) -> (r: Option<ParsedUrl>)
    ensures
        match r {
            Some(p) => url_parts(input@) == Some(p@),
            None => url_parts(input@) is None,
        },
{
    split_url(input)
}

/// The segments of a path: what stands between the slashes after the first.
pub open spec fn path_segments(path: Seq<char>) -> Seq<Seq<char>> {
    split_spec(path.skip(1), '/')
}

/// The identifiers in a path.
///
/// The path starts with `/creatives`, has at least three segments, its first
/// segment is exactly `creatives`, and the second and third are unsigned
/// 64-bit decimal numbers: the set and the item. Further segments are ignored.
pub open spec fn ids_of_path(path: Seq<char>) -> Option<(u64, u64)> {
    let segments = path_segments(path);
    if "/creatives"@.is_prefix_of(path) && segments.len() >= 3 && segments[0] == "creatives"@ {
        match (parse_u64_spec(segments[1]), parse_u64_spec(segments[2])) {
            (Some(set), Some(item)) => Some((set, item)),
            _ => None,
        }
    } else {
        None
    }
}

/// The identifiers in a link: those of its path, where it is an absolute URL.
pub open spec fn ids_of_url(url: Seq<char>) -> Option<(u64, u64)> {
    match url_parts(url) {
        Some(parts) => ids_of_path(parts.path),
        None => None,
    }
}

/// Reads the identifiers from the path of a URL.
pub fn ids_from_path(path: &str) -> (r: Option<(u64, u64)>)
    ensures
        r == ids_of_path(path@),
{
    let chars = chars_of(path);
    let prefix = chars_of("/creatives");
    proof {
        reveal_strlit("/creatives");
    }
    if !starts_with(chars.as_slice(), prefix.as_slice()) {
        return None;
    }
    let rest = slice_subrange(chars.as_slice(), 1, chars.len());
    let segments = split(rest, '/');
    proof {
        assert(rest@ == path@.skip(1));
        assert(crate::text::pieces_view(segments@) == path_segments(path@));
        assert(segments@.len() == path_segments(path@).len());
    }
    if segments.len() < 3 {
        return None;
    }
    let first = chars_of("creatives");
    proof {
        assert(crate::text::pieces_view(segments@)[0] == segments@[0]@);
        assert(crate::text::pieces_view(segments@)[1] == segments@[1]@);
        assert(crate::text::pieces_view(segments@)[2] == segments@[2]@);
    }
    if !equal(segments[0].as_slice(), first.as_slice()) {
        return None;
    }
    let set = parse_u64(segments[1].as_slice());
    let item = parse_u64(segments[2].as_slice());
    match (set, item) {
        (Some(a), Some(b)) => Some((a, b)),
        _ => None,
    }
}

/// Reads the identifiers of set and item from a link to a creative; `None`
/// for any other text.
pub fn get_ids_from_url(url: &str) -> (r: Option<(u64, u64)>)
    ensures
        r == ids_of_url(url@),
{
    match parse_url(url) {
        Some(parts) => ids_from_path(parts.path.as_str()),
        None => None,
    }
}

/// A path `/creatives/<set>/<item>`, alone or followed by further segments,
/// holds the numbers that the two runs of digits write.
pub proof fn lemma_creative_path_has_ids(set: Seq<char>, item: Seq<char>, rest: Seq<char>)
    requires
        digits_value(set) is Some,
        digits_value(item) is Some,
        rest.len() == 0 || rest[0] == '/',
    ensures
        ids_of_path("/creatives/"@ + set + seq!['/'] + item + rest) == Some(
            (digits_value(set).unwrap(), digits_value(item).unwrap()),
        ),
{
    reveal_strlit("/creatives/");
    reveal_strlit("/creatives");
    reveal_strlit("creatives");
    let path = "/creatives/"@ + set + seq!['/'] + item + rest;
    let name = "creatives"@;
    assert("/creatives"@.is_prefix_of(path)) by {
        assert(path.subrange(0, 10) =~= "/creatives"@);
    }
    assert(forall|i: int| 0 <= i < name.len() ==> name[i] != '/');
    assert forall|i: int| 0 <= i < set.len() implies set[i] != '/' by {
        assert(is_digit(set[i]));
    }
    assert forall|i: int| 0 <= i < item.len() implies item[i] != '/' by {
        assert(is_digit(item[i]));
    }
    lemma_split_without_separator(name, '/');
    lemma_split_without_separator(set, '/');
    lemma_split_without_separator(item, '/');
    assert(set[0] != '+') by {
        assert(is_digit(set[0]));
    }
    assert(item[0] != '+') by {
        assert(is_digit(item[0]));
    }
    if rest.len() == 0 {
        let tail = set + seq!['/'] + item;
        assert(path.skip(1) =~= name + seq!['/'] + tail);
        lemma_split_joined(name, tail, '/');
        lemma_split_joined(set, item, '/');
        let segments = path_segments(path);
        assert(segments =~= seq![name, set, item]);
    } else {
        let after = rest.skip(1);
        let tail = set + seq!['/'] + (item + seq!['/'] + after);
        assert(path.skip(1) =~= name + seq!['/'] + tail);
        lemma_split_joined(name, tail, '/');
        lemma_split_joined(set, item + seq!['/'] + after, '/');
        lemma_split_joined(item, after, '/');
        lemma_split_nonempty(after, '/');
        let segments = path_segments(path);
        assert(segments =~= seq![name, set, item] + split_spec(after, '/'));
    }
}

/// A link whose path is `/creatives/<a>/<b>`, alone or followed by further
/// segments, with `a` and `b` written in decimal, holds `a` and `b`, whatever
/// else the link has around its path.
pub proof fn lemma_creative_url_has_ids(url: Seq<char>, a: u64, b: u64, rest: Seq<char>)
    requires
        url_parts(url) is Some,
        url_parts(url).unwrap().path == "/creatives/"@ + decimal_text(a as nat) + seq!['/']
            + decimal_text(b as nat) + rest,
        rest.len() == 0 || rest[0] == '/',
    ensures
        ids_of_url(url) == Some((a, b)),
{
    lemma_decimal_text_value(a as nat);
    lemma_decimal_text_value(b as nat);
    lemma_creative_path_has_ids(decimal_text(a as nat), decimal_text(b as nat), rest);
}

/// A link holds no identifiers where it is no absolute URL, where its path
/// does not start with `/creatives`, where the path has fewer than three
/// segments or another first segment than `creatives`, and where the second
/// or the third segment is no number.
pub proof fn lemma_other_url_has_no_ids(url: Seq<char>)
    ensures
        url_parts(url) is None ==> ids_of_url(url) is None,
        url_parts(url) matches Some(parts) ==> {
            let segments = path_segments(parts.path);
            (!"/creatives"@.is_prefix_of(parts.path) || segments.len() < 3 || segments[0]
                != "creatives"@ || parse_u64_spec(segments[1]) is None || parse_u64_spec(
                segments[2],
            ) is None) ==> ids_of_url(url) is None
        },
{
}

/// The identifiers depend on the text of the link alone: equal texts hold
/// equal identifiers.
pub proof fn lemma_ids_depend_on_text_alone(first: Seq<char>, second: Seq<char>)
    requires
        first == second,
    ensures
        ids_of_url(first) == ids_of_url(second),
{
}

} // verus!
