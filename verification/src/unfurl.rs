//! The preview of a creative: where its metadata is fetched, and the message
//! that is posted back to the chat platform.

use vstd::prelude::*;
use crate::decimal::{append_decimal, decimal_text};
use crate::json::{
    items_view,
    json_text,
    lookup,
    members_view,
    render_json,
    JsonValue,
    JsonView,
};
use crate::text::{chars_of, contains, occurs_in, texts_view};

verus! {

/// The studio that a link belongs to.
#[derive(Debug, Clone, Copy, PartialEq, Eq, Structural)]
pub enum Environment {
    Sandbox,
    Production,
}

/// The studio of a host: the sandbox where the host holds the sandbox's name,
/// production otherwise and for a link without a host.
pub open spec fn environment_of_host(host: Option<Seq<char>>) -> Environment {
    match host {
        Some(h) => if occurs_in("sandbox-studio.bannerflow.com"@, h) {
            Environment::Sandbox
        } else {
            Environment::Production
        },
        None => Environment::Production,
    }
}

/// The address of a studio, without a path.
pub open spec fn studio_base(environment: Environment) -> Seq<char> {
    match environment {
        Environment::Sandbox => "https://sandbox-studio.bannerflow.com"@,
        Environment::Production => "https://studio.bannerflow.com"@,
    }
}

/// Where the metadata of a creative is fetched.
pub open spec fn metadata_url_spec(environment: Environment, set: u64, item: u64) -> Seq<char> {
    studio_base(environment) + "/creatives/creative-metadata?creativeset="@ + decimal_text(
        set as nat,
    ) + "&creative="@ + decimal_text(item as nat)
}

/// Where a set of creatives is opened in the editor.
pub open spec fn editor_url_spec(environment: Environment, brand: Seq<char>, set: u64) -> Seq<
    char,
> {
    studio_base(environment) + "/brand/"@ + brand + "/creativeset/"@ + decimal_text(set as nat)
}

/// The address of an image, wrapped in the image optimisation endpoint. The
/// address is put in as it is.
pub open spec fn image_url_spec(url: Seq<char>) -> Seq<char> {
    "https://c.bannerflow.net/io/api/image/optimize?u="@ + url
        + "&w=200&h=200&q=85&f=webp&rt=contain"@
}

impl Environment {
    /// Decides the studio from the host of a link.
    pub fn of_host(host: &Option<String>) -> (environment: Environment)
        ensures
            environment == environment_of_host(
                match *host {
                    Some(h) => Some(h@),
                    None => None,
                },
            ),
    {
        match host {
            Some(h) => {
                let hay = chars_of(h.as_str());
                let needle = chars_of("sandbox-studio.bannerflow.com");
                if contains(hay.as_slice(), needle.as_slice()) {
                    Environment::Sandbox
                } else {
                    Environment::Production
                }
            },
            None => Environment::Production,
        }
    }

    /// The address of the studio, without a path.
    pub fn base_url(&self) -> (base: &'static str)
        ensures
            base@ == studio_base(*self),
    {
        match self {
            Environment::Sandbox => "https://sandbox-studio.bannerflow.com",
            Environment::Production => "https://studio.bannerflow.com",
        }
    }
}

/// The address from which the metadata of a creative is fetched.
pub fn metadata_url(environment: Environment, creativeset: u64, creative: u64) -> (url: String)
    ensures
        url@ == metadata_url_spec(environment, creativeset, creative),
{
    let mut url = environment.base_url().to_owned();
    url.append("/creatives/creative-metadata?creativeset=");
    append_decimal(&mut url, creativeset);
    url.append("&creative=");
    append_decimal(&mut url, creative);
    url
}

/// The address at which the set of a creative opens in the editor.
pub fn editor_url(environment: Environment, brand: &str, creativeset: u64) -> (url: String)
    ensures
        url@ == editor_url_spec(environment, brand@, creativeset),
{
    let mut url = environment.base_url().to_owned();
    url.append("/brand/");
    url.append(brand);
    url.append("/creativeset/");
    append_decimal(&mut url, creativeset);
    url
}

/// The address of the optimised form of an image.
pub fn get_image_url(url: &str) -> (wrapped: String)
    ensures
        wrapped@ == image_url_spec(url@),
{
    let mut wrapped = "https://c.bannerflow.net/io/api/image/optimize?u=".to_owned();
    wrapped.append(url);
    wrapped.append("&w=200&h=200&q=85&f=webp&rt=contain");
    wrapped
}

/// What the preview shows of the metadata of a creative.
///
/// `brand`, `version` and `preload_image` are strings of the metadata, blank
/// where the metadata has none. The others are the JSON text of a member, as
/// it is shown; `size` is there only if the metadata has a size.
#[derive(Default, Debug, Clone, PartialEq)]
pub struct ResourceMetadata {
    pub brand: String,
    pub creativeset: String,
    pub size: Option<(String, String)>,
    pub version: String,
    pub elements: String,
    pub duration: String,
    pub preload_image: String,
}

pub struct ResourceMetadataView {
    pub brand: Seq<char>,
    pub creativeset: Seq<char>,
    pub size: Option<(Seq<char>, Seq<char>)>,
    pub version: Seq<char>,
    pub elements: Seq<char>,
    pub duration: Seq<char>,
    pub preload_image: Seq<char>,
}

impl View for ResourceMetadata {
    type V = ResourceMetadataView;

    open spec fn view(&self) -> ResourceMetadataView {
        ResourceMetadataView {
            brand: self.brand@,
            creativeset: self.creativeset@,
            size: match self.size {
                Some((w, h)) => Some((w@, h@)),
                None => None,
            },
            version: self.version@,
            elements: self.elements@,
            duration: self.duration@,
            preload_image: self.preload_image@,
        }
    }
}

/// A string member, blank where it is missing or no string.
pub open spec fn text_or_blank(obj: JsonView, key: Seq<char>) -> Seq<char> {
    match obj.member(key) {
        Some(JsonView::Text(s)) => s,
        _ => Seq::<char>::empty(),
    }
}

/// The JSON text of a member, `null` where it is missing.
pub open spec fn shown_member(obj: JsonView, key: Seq<char>) -> Seq<char> {
    json_text(obj.member_or_null(key))
}

/// Width and height as they are shown, where the metadata has a size.
pub open spec fn shown_size(meta: JsonView) -> Option<(Seq<char>, Seq<char>)> {
    match meta.member("size"@) {
        None => None,
        Some(JsonView::Null) => None,
        Some(size) => Some((shown_member(size, "width"@), shown_member(size, "height"@))),
    }
}

/// What the preview shows of a metadata document; `None` where the document
/// is no JSON object.
pub open spec fn metadata_of(meta: JsonView) -> Option<ResourceMetadataView> {
    if meta is Object {
        Some(
            ResourceMetadataView {
                brand: text_or_blank(meta, "brand"@),
                creativeset: shown_member(meta, "creativeset"@),
                size: shown_size(meta),
                version: text_or_blank(meta, "version"@),
                elements: shown_member(meta, "elements"@),
                duration: shown_member(meta, "duration"@),
                preload_image: text_or_blank(meta, "preloadImage"@),
            },
        )
    } else {
        None
    }
}

/// Reads a string member, blank where it is missing or no string.
pub fn read_text_or_blank(obj: &JsonValue, key: &str) -> (s: String)
    ensures
        s@ == text_or_blank(obj@, key@),
{
    match obj.get(key) {
        Some(v) => match v.as_str() {
            Some(t) => t.to_owned(),
            None => String::new(),
        },
        None => String::new(),
    }
}

/// Writes the JSON text of a member, `null` where it is missing.
pub fn show_member(obj: &JsonValue, key: &str) -> (s: String)
    ensures
        s@ == shown_member(obj@, key@),
{
    match obj.get(key) {
        Some(v) => render_json(v),
        None => render_json(&JsonValue::Null),
    }
}

/// Reads from a metadata document what the preview shows.
pub fn read_metadata(meta: &JsonValue) -> (r: Option<ResourceMetadata>)
    ensures
        match r {
            Some(m) => metadata_of(meta@) == Some(m@),
            None => metadata_of(meta@) is None,
        },
{
    match meta {
        JsonValue::Object(_) => {},
        _ => {
            return None;
        },
    }
    let size = match meta.get("size") {
        None => None,
        Some(size) => {
            if size.is_null() {
                None
            } else {
                Some((show_member(size, "width"), show_member(size, "height")))
            }
        },
    };
    Some(
        ResourceMetadata {
            brand: read_text_or_blank(meta, "brand"),
            creativeset: show_member(meta, "creativeset"),
            size,
            version: read_text_or_blank(meta, "version"),
            elements: show_member(meta, "elements"),
            duration: show_member(meta, "duration"),
            preload_image: read_text_or_blank(meta, "preloadImage"),
        },
    )
}

/// A text object of the platform without markup.
pub open spec fn plain_text_spec(text: Seq<char>) -> JsonView {
    JsonView::Object(
        seq![
            ("type"@, JsonView::Text("plain_text"@)),
            ("text"@, JsonView::Text(text)),
            ("emoji"@, JsonView::Bool(true)),
        ],
    )
}

/// A text object of the platform with markup.
pub open spec fn markdown_spec(text: Seq<char>) -> JsonView {
    JsonView::Object(seq![("type"@, JsonView::Text("mrkdwn"@)), ("text"@, JsonView::Text(text))])
}

/// The header block, with the fixed title.
pub open spec fn header_block_spec() -> JsonView {
    JsonView::Object(
        seq![
            ("type"@, JsonView::Text("header"@)),
            ("text"@, plain_text_spec("Creative Preview - Bannerflow"@)),
        ],
    )
}

/// The line that names the set.
pub open spec fn creativeset_line(meta: ResourceMetadataView, set: u64) -> Seq<char> {
    "*Creativeset:* "@ + meta.creativeset + "\n"@ + decimal_text(set as nat)
}

/// The line that names the item.
pub open spec fn creative_line(item: u64) -> Seq<char> {
    "*Creative:*\n"@ + decimal_text(item as nat)
}

/// The line that gives the size.
pub open spec fn size_line(width: Seq<char>, height: Seq<char>) -> Seq<char> {
    "*Size:*\n"@ + width + " x "@ + height
}

/// The line that gives the version.
pub open spec fn version_line(meta: ResourceMetadataView) -> Seq<char> {
    "*Version:*\n"@ + meta.version
}

/// The line that gives the brand.
pub open spec fn brand_line(meta: ResourceMetadataView) -> Seq<char> {
    "*Brand:*\n"@ + meta.brand
}

/// The line that gives the number of elements and the duration.
pub open spec fn elements_line(meta: ResourceMetadataView) -> Seq<char> {
    "*Elements:* "@ + meta.elements + "\n*Duration:* "@ + meta.duration
}

/// The lines of the fields section, in order: set, item, size if there is
/// one, version, brand, elements and duration.
pub open spec fn field_lines(meta: ResourceMetadataView, set: u64, item: u64) -> Seq<Seq<char>> {
    let size = match meta.size {
        Some((w, h)) => seq![size_line(w, h)],
        None => Seq::<Seq<char>>::empty(),
    };
    seq![creativeset_line(meta, set), creative_line(item)] + size + seq![
        version_line(meta),
        brand_line(meta),
        elements_line(meta),
    ]
}

/// The fields section: one markup text for each line.
pub open spec fn fields_block_spec(lines: Seq<Seq<char>>) -> JsonView {
    JsonView::Object(
        seq![
            ("type"@, JsonView::Text("section"@)),
            ("fields"@, JsonView::Array(Seq::new(lines.len(), |i: int| markdown_spec(lines[i])))),
        ],
    )
}

/// The button that opens the set in the editor.
pub open spec fn editor_button_spec(editor_url: Seq<char>) -> JsonView {
    JsonView::Object(
        seq![
            ("type"@, JsonView::Text("button"@)),
            ("text"@, plain_text_spec("Go To MV"@)),
            ("url"@, JsonView::Text(editor_url)),
            ("action_id"@, JsonView::Text("button-action"@)),
        ],
    )
}

/// The section with the link to the preview and the button to the editor.
pub open spec fn preview_block_spec(link: Seq<char>, editor_url: Seq<char>) -> JsonView {
    JsonView::Object(
        seq![
            ("type"@, JsonView::Text("section"@)),
            ("text"@, markdown_spec("<"@ + link + "|View preview>"@)),
            ("accessory"@, editor_button_spec(editor_url)),
        ],
    )
}

/// The title of the image: set and item.
pub open spec fn image_title(set: u64, item: u64) -> Seq<char> {
    decimal_text(set as nat) + " - "@ + decimal_text(item as nat)
}

/// The image block.
pub open spec fn image_block_spec(title: Seq<char>, image_url: Seq<char>) -> JsonView {
    JsonView::Object(
        seq![
            ("type"@, JsonView::Text("image"@)),
            ("title"@, plain_text_spec(title)),
            ("image_url"@, JsonView::Text(image_url)),
            ("alt_text"@, JsonView::Text("preload image"@)),
        ],
    )
}

/// The message that previews a creative: header, fields, link with button,
/// image.
pub open spec fn unfurl_message_spec(
    meta: ResourceMetadataView,
    link: Seq<char>,
    set: u64,
    item: u64,
    environment: Environment,
) -> JsonView {
    JsonView::Object(
        seq![
            (
                "blocks"@,
                JsonView::Array(
                    seq![
                        header_block_spec(),
                        fields_block_spec(field_lines(meta, set, item)),
                        preview_block_spec(link, editor_url_spec(environment, meta.brand, set)),
                        image_block_spec(image_title(set, item), image_url_spec(meta.preload_image)),
                    ],
                ),
            ),
        ],
    )
}

/// The body of the request that posts a preview: the channel and the message
/// that the link was shared in, and the preview under the link as its one key.
pub open spec fn unfurl_request_spec(
    channel: Seq<char>,
    ts: Seq<char>,
    link: Seq<char>,
    message: JsonView,
) -> JsonView {
    JsonView::Object(
        seq![
            ("channel"@, JsonView::Text(channel)),
            ("ts"@, JsonView::Text(ts)),
            ("unfurls"@, JsonView::Object(seq![(link, message)])),
        ],
    )
}

/// A member of an object.
fn named(name: &str, value: JsonValue) -> (m: (String, JsonValue))
    ensures
        m.0@ == name@,
        m.1@ == value@,
{
    (name.to_owned(), value)
}

/// A text object without markup.
pub fn plain_text(text: &str) -> (j: JsonValue)
    ensures
        j@ == plain_text_spec(text@),
{
    let mut members: Vec<(String, JsonValue)> = Vec::new();
    members.push(named("type", JsonValue::text("plain_text")));
    members.push(named("text", JsonValue::text(text)));
    members.push(named("emoji", JsonValue::Bool(true)));
    proof {
        assert(members_view(members@) =~= seq![
            ("type"@, JsonView::Text("plain_text"@)),
            ("text"@, JsonView::Text(text@)),
            ("emoji"@, JsonView::Bool(true)),
        ]);
    }
    JsonValue::object(members)
}

/// A text object with markup.
pub fn markdown(text: &str) -> (j: JsonValue)
    ensures
        j@ == markdown_spec(text@),
{
    let mut members: Vec<(String, JsonValue)> = Vec::new();
    members.push(named("type", JsonValue::text("mrkdwn")));
    members.push(named("text", JsonValue::text(text)));
    proof {
        assert(members_view(members@) =~= seq![
            ("type"@, JsonView::Text("mrkdwn"@)),
            ("text"@, JsonView::Text(text@)),
        ]);
    }
    JsonValue::object(members)
}

/// The header block.
pub fn header_block() -> (j: JsonValue)
    ensures
        j@ == header_block_spec(),
{
    let mut members: Vec<(String, JsonValue)> = Vec::new();
    members.push(named("type", JsonValue::text("header")));
    members.push(named("text", plain_text("Creative Preview - Bannerflow")));
    proof {
        assert(members_view(members@) =~= seq![
            ("type"@, JsonView::Text("header"@)),
            ("text"@, plain_text_spec("Creative Preview - Bannerflow"@)),
        ]);
    }
    JsonValue::object(members)
}

/// The lines of the fields section.
pub fn field_texts(meta: &ResourceMetadata, creativeset: u64, creative: u64) -> (lines: Vec<
    String,
>)
    ensures
        texts_view(lines@) == field_lines(meta@, creativeset, creative),
{
    let mut lines: Vec<String> = Vec::new();
    let mut set_line = "*Creativeset:* ".to_owned();
    set_line.append(meta.creativeset.as_str());
    set_line.append("\n");
    append_decimal(&mut set_line, creativeset);
    lines.push(set_line);
    let mut item_line = "*Creative:*\n".to_owned();
    append_decimal(&mut item_line, creative);
    lines.push(item_line);
    match &meta.size {
        Some((w, h)) => {
            let mut line = "*Size:*\n".to_owned();
            line.append(w.as_str());
            line.append(" x ");
            line.append(h.as_str());
            lines.push(line);
        },
        None => {},
    }
    let mut version = "*Version:*\n".to_owned();
    version.append(meta.version.as_str());
    lines.push(version);
    let mut brand = "*Brand:*\n".to_owned();
    brand.append(meta.brand.as_str());
    lines.push(brand);
    let mut elements = "*Elements:* ".to_owned();
    elements.append(meta.elements.as_str());
    elements.append("\n*Duration:* ");
    elements.append(meta.duration.as_str());
    lines.push(elements);
    proof {
        assert(texts_view(lines@) =~= field_lines(meta@, creativeset, creative));
    }
    lines
}

/// The fields section for the given lines.
pub fn fields_block(lines: &Vec<String>) -> (j: JsonValue)
    ensures
        j@ == fields_block_spec(texts_view(lines@)),
{
    let ghost texts = texts_view(lines@);
    let mut fields: Vec<JsonValue> = Vec::new();
    let mut i: usize = 0;
    while i < lines.len()
        invariant
            i <= lines.len(),
            texts == texts_view(lines@),
            fields@.len() == i,
            forall|k: int| 0 <= k < i ==> (#[trigger] fields@[k])@ == markdown_spec(texts[k]),
        decreases lines.len() - i,
    {
        fields.push(markdown(lines[i].as_str()));
        i += 1;
    }
    let mut members: Vec<(String, JsonValue)> = Vec::new();
    let ghost wanted = Seq::new(texts.len(), |i: int| markdown_spec(texts[i]));
    proof {
        assert(items_view(fields@) =~= wanted);
    }
    members.push(named("type", JsonValue::text("section")));
    members.push(named("fields", JsonValue::array(fields)));
    proof {
        assert(members_view(members@) =~= seq![
            ("type"@, JsonView::Text("section"@)),
            ("fields"@, JsonView::Array(wanted)),
        ]);
    }
    JsonValue::object(members)
}

/// The button that opens the set in the editor.
pub fn editor_button(editor_url: &str) -> (j: JsonValue)
    ensures
        j@ == editor_button_spec(editor_url@),
{
    let mut members: Vec<(String, JsonValue)> = Vec::new();
    members.push(named("type", JsonValue::text("button")));
    members.push(named("text", plain_text("Go To MV")));
    members.push(named("url", JsonValue::text(editor_url)));
    members.push(named("action_id", JsonValue::text("button-action")));
    proof {
        assert(members_view(members@) =~= seq![
            ("type"@, JsonView::Text("button"@)),
            ("text"@, plain_text_spec("Go To MV"@)),
            ("url"@, JsonView::Text(editor_url@)),
            ("action_id"@, JsonView::Text("button-action"@)),
        ]);
    }
    JsonValue::object(members)
}

/// The section with the link to the preview and the button to the editor.
pub fn preview_block(link: &str, editor_url: &str) -> (j: JsonValue)
    ensures
        j@ == preview_block_spec(link@, editor_url@),
{
    let mut text = "<".to_owned();
    text.append(link);
    text.append("|View preview>");
    let mut members: Vec<(String, JsonValue)> = Vec::new();
    members.push(named("type", JsonValue::text("section")));
    members.push(named("text", markdown(text.as_str())));
    members.push(named("accessory", editor_button(editor_url)));
    proof {
        assert(members_view(members@) =~= seq![
            ("type"@, JsonView::Text("section"@)),
            ("text"@, markdown_spec("<"@ + link@ + "|View preview>"@)),
            ("accessory"@, editor_button_spec(editor_url@)),
        ]);
    }
    JsonValue::object(members)
}

/// The image block.
pub fn image_block(title: &str, image_url: &str) -> (j: JsonValue)
    ensures
        j@ == image_block_spec(title@, image_url@),
{
    let mut members: Vec<(String, JsonValue)> = Vec::new();
    members.push(named("type", JsonValue::text("image")));
    members.push(named("title", plain_text(title)));
    members.push(named("image_url", JsonValue::text(image_url)));
    members.push(named("alt_text", JsonValue::text("preload image")));
    proof {
        assert(members_view(members@) =~= seq![
            ("type"@, JsonView::Text("image"@)),
            ("title"@, plain_text_spec(title@)),
            ("image_url"@, JsonView::Text(image_url@)),
            ("alt_text"@, JsonView::Text("preload image"@)),
        ]);
    }
    JsonValue::object(members)
}

/// Builds the message that previews a creative.
pub fn build_unfurl_message(
    meta: &ResourceMetadata,
    shared_link: &str,
    creativeset: u64,
    creative: u64,
    environment: Environment,
) -> (j: JsonValue)
    ensures
        j@ == unfurl_message_spec(meta@, shared_link@, creativeset, creative, environment),
{
    let lines = field_texts(meta, creativeset, creative);
    let editor = editor_url(environment, meta.brand.as_str(), creativeset);
    let mut title = String::new();
    append_decimal(&mut title, creativeset);
    title.append(" - ");
    append_decimal(&mut title, creative);
    let image = get_image_url(meta.preload_image.as_str());
    proof {
        assert(title@ =~= image_title(creativeset, creative));
    }
    let mut blocks: Vec<JsonValue> = Vec::new();
    blocks.push(header_block());
    blocks.push(fields_block(&lines));
    blocks.push(preview_block(shared_link, editor.as_str()));
    blocks.push(image_block(title.as_str(), image.as_str()));
    let ghost wanted = seq![
        header_block_spec(),
        fields_block_spec(field_lines(meta@, creativeset, creative)),
        preview_block_spec(shared_link@, editor_url_spec(environment, meta@.brand, creativeset)),
        image_block_spec(image_title(creativeset, creative), image_url_spec(meta@.preload_image)),
    ];
    proof {
        assert(items_view(blocks@) =~= wanted);
    }
    let mut members: Vec<(String, JsonValue)> = Vec::new();
    members.push(named("blocks", JsonValue::array(blocks)));
    proof {
        assert(members_view(members@) =~= seq![("blocks"@, JsonView::Array(wanted))]);
    }
    JsonValue::object(members)
}

/// Builds the body of the request that posts a preview.
pub fn build_unfurl_request(channel: &str, ts: &str, shared_link: &str, message: JsonValue) -> (j:
    JsonValue)
    ensures
        j@ == unfurl_request_spec(channel@, ts@, shared_link@, message@),
{
    let mut unfurls: Vec<(String, JsonValue)> = Vec::new();
    unfurls.push(named(shared_link, message));
    proof {
        assert(members_view(unfurls@) =~= seq![(shared_link@, message@)]);
    }
    let mut members: Vec<(String, JsonValue)> = Vec::new();
    members.push(named("channel", JsonValue::text(channel)));
    members.push(named("ts", JsonValue::text(ts)));
    members.push(named("unfurls", JsonValue::object(unfurls)));
    proof {
        assert(members_view(members@) =~= seq![
            ("channel"@, JsonView::Text(channel@)),
            ("ts"@, JsonView::Text(ts@)),
            ("unfurls"@, JsonView::Object(seq![(shared_link@, message@)])),
        ]);
    }
    JsonValue::object(members)
}

/// The body of a post holds the channel, the message and, under the shared
/// link as their one key, the preview.
pub proof fn lemma_unfurl_request_members(
    channel: Seq<char>,
    ts: Seq<char>,
    link: Seq<char>,
    message: JsonView,
)
    ensures
        unfurl_request_spec(channel, ts, link, message).member("channel"@) == Some(
            JsonView::Text(channel),
        ),
        unfurl_request_spec(channel, ts, link, message).member("ts"@) == Some(JsonView::Text(ts)),
        unfurl_request_spec(channel, ts, link, message).member("unfurls"@) == Some(
            JsonView::Object(seq![(link, message)]),
        ),
{
    reveal_strlit("channel");
    reveal_strlit("ts");
    reveal_strlit("unfurls");
    let members = unfurl_request_spec(channel, ts, link, message)->Object_0;
    let two = members.drop_last();
    let one = two.drop_last();
    assert(members.len() == 3 && two.len() == 2 && one.len() == 1);
    assert(members.last().0 == "unfurls"@);
    assert(two.last().0 == "ts"@);
    assert(one.last().0 == "channel"@);
    assert("channel"@ != "ts"@ && "channel"@ != "unfurls"@ && "ts"@ != "unfurls"@) by {
        assert("channel"@.len() == 7 && "ts"@.len() == 2 && "unfurls"@.len() == 7);
        assert("channel"@[0] == 'c' && "unfurls"@[0] == 'u');
    }
    assert(lookup(one, "channel"@) == Some(JsonView::Text(channel)));
    assert(lookup(two, "channel"@) == lookup(one, "channel"@));
    assert(lookup(members, "channel"@) == lookup(two, "channel"@));
    assert(lookup(two, "ts"@) == Some(JsonView::Text(ts)));
    assert(lookup(members, "ts"@) == lookup(two, "ts"@));
}

/// True for the status codes that report success: 200 to 299.
pub open spec fn is_success_status(status: u16) -> bool {
    200 <= status < 300
}

/// Decides whether a status code reports success.
pub fn is_success(status: u16) -> (r: bool)
    ensures
        r == is_success_status(status),
{
    200 <= status && status < 300
}

/// True when the platform's answer to a posted preview says that it took it:
/// a JSON object whose member `ok` is `true`.
pub open spec fn unfurl_accepted_spec(answer: JsonView) -> bool {
    answer.member("ok"@) == Some(JsonView::Bool(true))
}

/// Decides whether the platform took a posted preview.
pub fn unfurl_accepted(answer: &JsonValue) -> (r: bool)
    ensures
        r == unfurl_accepted_spec(answer@),
{
    match answer.get("ok") {
        Some(v) => match v.as_bool() {
            Some(b) => b,
            None => false,
        },
        None => false,
    }
}

} // verus!
