//! The image: a full-canvas background rectangle under a centred circle.

use crate::asset::{has_content_type, typed_asset, Asset};
use crate::attributes::Attributes;
use crate::token::decimal_digits;
use svg::node::element::{Circle, Rectangle};
use svg::Document;
use vstd::prelude::*;
use vstd::slice::slice_to_vec;
use vstd::string::StringSliceAdditionalSpecFns;
use vstd::utf8::encode_utf8;

verus! {

/// How one character stands in an attribute value: the five XML special
/// characters become entities, the rest stand as they are.
pub open spec fn xml_escape_char(c: char) -> Seq<char> {
    if c == '&' {
        "&amp;"@
    } else if c == '<' {
        "&lt;"@
    } else if c == '>' {
        "&gt;"@
    } else if c == '"' {
        "&quot;"@
    } else if c == '\'' {
        "&apos;"@
    } else {
        seq![c]
    }
}

/// The characters of `s`, each escaped for an attribute value.
pub open spec fn xml_escaped(s: Seq<char>) -> Seq<char>
    decreases s.len(),
{
    if s.len() == 0 {
        Seq::empty()
    } else {
        xml_escaped(s.drop_last()) + xml_escape_char(s.last())
    }
}

/// The SVG text of a `view` by `view` canvas holding a rectangle of width and
/// height `extent` filled with `bg`, then a circle of the given radius centred
/// at (`center`, `center`) filled with `circle`. Attributes stand sorted by
/// name, and each child on a line of its own.
pub open spec fn svg_text(
    view: nat,
    extent: Seq<char>,
    bg: Seq<char>,
    center: nat,
    radius: nat,
    circle: Seq<char>,
) -> Seq<char> {
    "<svg viewBox=\"0 0 "@ + decimal_digits(view) + " "@ + decimal_digits(view)
        + "\" xmlns=\"http://www.w3.org/2000/svg\">\n<rect fill=\""@ + xml_escaped(bg)
        + "\" height=\""@ + xml_escaped(extent) + "\" width=\""@ + xml_escaped(extent)
        + "\"/>\n<circle cx=\""@ + decimal_digits(center) + "\" cy=\""@ + decimal_digits(center)
        + "\" fill=\""@ + xml_escaped(circle) + "\" r=\""@ + decimal_digits(radius)
        + "\"/>\n</svg>"@
}

/// Relies on svg's `Document`, `Rectangle` and `Circle` builders and on the
/// `Display` of `Document`: attributes written sorted by name, values
/// escaped, integers in decimal, `xmlns` set by `Document::new`, and a line
/// break before each child and before the closing tag.
#[verifier::external_body]
fn render_scene(view: i32, extent: &str, bg: &str, center: i32, radius: i32, circle: &str) -> (r:
    String)
    requires
        view >= 0,
        center >= 0,
        radius >= 0,
    ensures
        r@ == svg_text(view as nat, extent@, bg@, center as nat, radius as nat, circle@),
{
    let rect = Rectangle::new().set("width", extent).set("height", extent).set("fill", bg);
    let disc = Circle::new().set("cx", center).set("cy", center).set("r", radius).set(
        "fill",
        circle,
    );
    Document::new().set("viewBox", (0, 0, view, view)).add(rect).add(disc).to_string()
}

pub open spec fn full_extent() -> Seq<char> {
    seq!['1', '0', '0', '%']
}

pub open spec fn svg_media_type() -> Seq<char> {
    seq!['i', 'm', 'a', 'g', 'e', '/', 's', 'v', 'g', '+', 'x', 'm', 'l']
}

/// The image text for two colours: a 100 by 100 canvas, the background
/// filling it, and a circle of radius 48 centred at (50, 50).
pub open spec fn image_text(bg: Seq<char>, circle: Seq<char>) -> Seq<char> {
    svg_text(100, full_extent(), bg, 50, 48, circle)
}

/// The stored image for two colours, byte for byte.
pub open spec fn image_body(bg: Seq<char>, circle: Seq<char>) -> Seq<u8> {
    encode_utf8(image_text(bg, circle))
}

/// The image text up to the background fill.
pub open spec fn image_head() -> Seq<char> {
    "<svg viewBox=\"0 0 "@ + decimal_digits(100) + " "@ + decimal_digits(100)
        + "\" xmlns=\"http://www.w3.org/2000/svg\">\n<rect fill=\""@
}

/// The image text between the two fills.
pub open spec fn image_between() -> Seq<char> {
    "\" height=\""@ + xml_escaped(full_extent()) + "\" width=\""@ + xml_escaped(full_extent())
        + "\"/>\n<circle cx=\""@ + decimal_digits(50) + "\" cy=\""@ + decimal_digits(50)
        + "\" fill=\""@
}

/// The image text after the circle fill.
pub open spec fn image_tail() -> Seq<char> {
    "\" r=\""@ + decimal_digits(48) + "\"/>\n</svg>"@
}

/// Any two images differ only in the two fills: each is the same fixed text
/// around its escaped background colour and its escaped circle colour.
pub proof fn lemma_image_fills(bg: Seq<char>, circle: Seq<char>)
    ensures
        image_text(bg, circle) == image_head() + xml_escaped(bg) + image_between() + xml_escaped(
            circle,
        ) + image_tail(),
{
    assert(image_text(bg, circle) =~= image_head() + xml_escaped(bg) + image_between()
        + xml_escaped(circle) + image_tail());
}

/// Renders the attributes into an SVG asset.
pub fn render_image(attributes: &Attributes) -> (r: Asset)
    ensures
        has_content_type(&r, svg_media_type()),
        r.body@ == image_body(attributes.bg_color@, attributes.circle_color@),
{
    let extent = "100%";
    let media = "image/svg+xml";
    proof {
        reveal_strlit("100%");
        reveal_strlit("image/svg+xml");
        assert(extent@ =~= full_extent());
        assert(media@ =~= svg_media_type());
    }
    let text = render_scene(
        100,
        extent,
        attributes.bg_color.as_str(),
        50,
        48,
        attributes.circle_color.as_str(),
    );
    let body = slice_to_vec(text.as_str().as_bytes());
    typed_asset(media, body)
}

} // verus!
