//! The metadata document: name, image URL and attributes, as compact JSON.

use crate::asset::{has_content_type, typed_asset, Asset};
use crate::attributes::Attributes;
use crate::event::MintEvent;
use crate::token::decimal_digits;
use vstd::prelude::*;
use vstd::slice::slice_to_vec;
use vstd::string::StringSliceAdditionalSpecFns;
use vstd::utf8::encode_utf8;

verus! {

#[verifier::external_type_specification]
#[verifier::external_body]
pub struct ExJsonError(serde_json::Error);

/// A lower-case hex digit.
pub open spec fn lower_hex_digit(d: nat) -> char {
    seq!['0', '1', '2', '3', '4', '5', '6', '7', '8', '9', 'a', 'b', 'c', 'd', 'e', 'f'][d as int]
}

/// How one character stands inside a JSON string: quote and backslash take a
/// backslash, the short control escapes are used where they exist, other
/// control characters become `\u00XX`, and the rest stand as they are.
pub open spec fn json_escape_char(c: char) -> Seq<char> {
    if c == '"' {
        seq!['\\', '"']
    } else if c == '\\' {
        seq!['\\', '\\']
    } else if c == '\x08' {
        seq!['\\', 'b']
    } else if c == '\t' {
        seq!['\\', 't']
    } else if c == '\n' {
        seq!['\\', 'n']
    } else if c == '\x0c' {
        seq!['\\', 'f']
    } else if c == '\r' {
        seq!['\\', 'r']
    } else if (c as nat) < 0x20 {
        seq!['\\', 'u', '0', '0', lower_hex_digit(c as nat / 16), lower_hex_digit(c as nat % 16)]
    } else {
        seq![c]
    }
}

/// The characters of `s`, each escaped for a JSON string.
pub open spec fn json_escaped(s: Seq<char>) -> Seq<char>
    decreases s.len(),
{
    if s.len() == 0 {
        Seq::empty()
    } else {
        json_escaped(s.drop_last()) + json_escape_char(s.last())
    }
}

/// The JSON string literal, quotes included, that stands for `s`.
pub open spec fn json_quoted(s: Seq<char>) -> Seq<char> {
    seq!['"'] + json_escaped(s) + seq!['"']
}

/// Relies on `serde_json::to_string` on a `str`: it writes into a `Vec`,
/// which cannot fail, the string quoted and escaped byte by byte from its
/// escape table (bytes from 0x80 up stand as they are).
#[verifier::external_body]
fn json_string(s: &str) -> (r: Result<String, serde_json::Error>)
    ensures
        r is Ok,
        r->Ok_0@ == json_quoted(s@),
{
    serde_json::to_string(s)
}

/// A string of the document, written as a JSON string.
fn quoted(s: &str) -> (r: String)
    ensures
        r@ == json_quoted(s@),
{
    match json_string(s) {
        Ok(q) => q,
        Err(_) => {
            proof {
                assert(false);
            }
            String::new()
        },
    }
}

/// The display name of a token.
pub open spec fn token_name(id: nat) -> Seq<char> {
    "dappcon #"@ + decimal_digits(id)
}

/// Where the image of a token is served, on the given host.
pub open spec fn image_url_of(host: Seq<char>, id: nat) -> Seq<char> {
    "http://"@ + host + ".localhost:4943/"@ + decimal_digits(id) + ".svg"@
}

/// The document, given its four strings already written as JSON strings.
/// Keys stand sorted, as serde_json writes an object.
pub open spec fn metadata_text(
    name: Seq<char>,
    image: Seq<char>,
    bg: Seq<char>,
    circle: Seq<char>,
) -> Seq<char> {
    "{\"attributes\":[{\"trait_type\":\"bg_color\",\"value\":"@ + bg
        + "},{\"trait_type\":\"circle_color\",\"value\":"@ + circle + "}],\"image\":"@ + image
        + ",\"name\":"@ + name + "}"@
}

/// The stored metadata of a token, byte for byte.
pub open spec fn metadata_body(host: Seq<char>, id: nat, bg: Seq<char>, circle: Seq<char>) -> Seq<
    u8,
> {
    encode_utf8(
        metadata_text(
            json_quoted(token_name(id)),
            json_quoted(image_url_of(host, id)),
            json_quoted(bg),
            json_quoted(circle),
        ),
    )
}

pub open spec fn json_media_type() -> Seq<char> {
    "text/json"@
}

/// The image URL holds the host once, right after `http://`, and the token
/// id once, right after `.localhost:4943/`; the rest is fixed text, and
/// `.svg` ends it.
pub proof fn lemma_image_url_slots(host: Seq<char>, id: nat)
    ensures
        ({
            let url = image_url_of(host, id);
            let d = decimal_digits(id);
            let n: int = d.len() as int;
            let h: int = 7 + host.len() as int;
            let m: int = h + 16;
            &&& url.len() == m + n + 4
            &&& url.subrange(0, 7) == "http://"@
            &&& url.subrange(7, h) == host
            &&& url.subrange(h, m) == ".localhost:4943/"@
            &&& url.subrange(m, m + n) == d
            &&& url.subrange(m + n, url.len() as int) == ".svg"@
        }),
{
    reveal_strlit("http://");
    reveal_strlit(".localhost:4943/");
    reveal_strlit(".svg");
    let url = image_url_of(host, id);
    let d = decimal_digits(id);
    let n: int = d.len() as int;
    let h: int = 7 + host.len() as int;
    let m: int = h + 16;
    assert(url.subrange(0, 7) =~= "http://"@);
    assert(url.subrange(7, h) =~= host);
    assert(url.subrange(h, m) =~= ".localhost:4943/"@);
    assert(url.subrange(m, m + n) =~= d);
    assert(url.subrange(m + n, url.len() as int) =~= ".svg"@);
}

/// The display name of the event's token.
pub fn display_name(event: &MintEvent) -> (r: String)
    ensures
        r@ == token_name(event.token_id.value()),
{
    let mut r = "dappcon #".to_string();
    r.append(event.token_id.to_decimal().as_str());
    r
}

/// The URL of the event's image on `host`.
pub fn image_url(host: &str, event: &MintEvent) -> (r: String)
    ensures
        r@ == image_url_of(host@, event.token_id.value()),
{
    let mut r = "http://".to_string();
    r.append(host);
    r.append(".localhost:4943/");
    r.append(event.token_id.to_decimal().as_str());
    r.append(".svg");
    r
}

/// Lays the four JSON strings out as the document.
pub fn frame_metadata(name: &str, image: &str, bg: &str, circle: &str) -> (r: String)
    ensures
        r@ == metadata_text(name@, image@, bg@, circle@),
{
    let mut r = "{\"attributes\":[{\"trait_type\":\"bg_color\",\"value\":".to_string();
    r.append(bg);
    r.append("},{\"trait_type\":\"circle_color\",\"value\":");
    r.append(circle);
    r.append("}],\"image\":");
    r.append(image);
    r.append(",\"name\":");
    r.append(name);
    r.append("}");
    r
}

/// Renders the metadata asset of the event on `host`.
pub fn render_metadata(host: &str, event: &MintEvent, attributes: &Attributes) -> (r: Asset)
    ensures
        has_content_type(&r, json_media_type()),
        r.body@ == metadata_body(
            host@,
            event.token_id.value(),
            attributes.bg_color@,
            attributes.circle_color@,
        ),
{
    let name = quoted(display_name(event).as_str());
    let url = quoted(image_url(host, event).as_str());
    let bg = quoted(attributes.bg_color.as_str());
    let circle = quoted(attributes.circle_color.as_str());
    let text = frame_metadata(name.as_str(), url.as_str(), bg.as_str(), circle.as_str());
    let body = slice_to_vec(text.as_str().as_bytes());
    typed_asset("text/json", body)
}

} // verus!
