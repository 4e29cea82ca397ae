use nft_job::attributes::{generate, Attributes};
use nft_job::event::MintEvent;
use nft_job::image::render_image;
use nft_job::metadata::{display_name, frame_metadata, image_url, render_metadata};
use nft_job::token::TokenId;

const PALETTE: [&str; 4] = ["blue", "red", "green", "yellow"];

fn attrs(bg: &str, circle: &str) -> Attributes {
    Attributes { bg_color: bg.to_string(), circle_color: circle.to_string() }
}

fn event(id: u64) -> MintEvent {
    MintEvent { token_id: TokenId::from_u64(id) }
}

#[test]
fn same_seed_gives_same_attributes() {
    for k in 0..50u8 {
        let seed = [k; 32];
        let a = generate(seed);
        let b = generate(seed);
        assert_eq!(a.bg_color, b.bg_color);
        assert_eq!(a.circle_color, b.circle_color);
        assert!(PALETTE.contains(&a.bg_color.as_str()));
        assert!(PALETTE.contains(&a.circle_color.as_str()));
    }
}

#[test]
fn colours_follow_the_weights() {
    let mut counts = [0usize; 4];
    let mut total = 0usize;
    for i in 0..5000u32 {
        let mut seed = [0u8; 32];
        seed[..4].copy_from_slice(&i.to_le_bytes());
        let a = generate(seed);
        for c in [a.bg_color, a.circle_color] {
            let k = PALETTE.iter().position(|p| *p == c).unwrap();
            counts[k] += 1;
            total += 1;
        }
    }
    for k in 0..3 {
        let share = counts[k] as f64 / total as f64;
        assert!((share - 0.3).abs() < 0.03, "share of {} is {}", PALETTE[k], share);
    }
    let yellow = counts[3] as f64 / total as f64;
    assert!((yellow - 0.1).abs() < 0.02, "share of yellow is {}", yellow);
}

#[test]
fn image_is_exact_svg() {
    let asset = render_image(&attrs("blue", "red"));
    assert_eq!(asset.headers, vec![("Content-Type".to_string(), "image/svg+xml".to_string())]);
    let expected = "<svg viewBox=\"0 0 100 100\" xmlns=\"http://www.w3.org/2000/svg\">\n\
                    <rect fill=\"blue\" height=\"100%\" width=\"100%\"/>\n\
                    <circle cx=\"50\" cy=\"50\" fill=\"red\" r=\"48\"/>\n\
                    </svg>";
    assert_eq!(String::from_utf8(asset.body).unwrap(), expected);
}

#[test]
fn image_repeats_and_differs_only_in_colours() {
    let a = render_image(&attrs("green", "yellow"));
    let b = render_image(&attrs("green", "yellow"));
    assert_eq!(a.body, b.body);
    assert_eq!(a.headers, b.headers);
    let c = render_image(&attrs("red", "blue"));
    let text_a = String::from_utf8(a.body).unwrap();
    let text_c = String::from_utf8(c.body).unwrap();
    assert_ne!(text_a, text_c);
    let swapped = text_a.replace("fill=\"green\"", "fill=\"red\"").replace("fill=\"yellow\"", "fill=\"blue\"");
    assert_eq!(swapped, text_c);
}

#[test]
fn image_escapes_colour_text() {
    let asset = render_image(&attrs("a\"b", "<c>"));
    let text = String::from_utf8(asset.body).unwrap();
    assert!(text.contains("fill=\"a&quot;b\""));
    assert!(text.contains("fill=\"&lt;c&gt;\""));
}

#[test]
fn name_and_url_carry_the_token_id() {
    let e = event(42);
    assert_eq!(display_name(&e), "dappcon #42");
    let url = image_url("bkyz2-fmaaa-aaaaa-qaaaq-cai", &e);
    assert_eq!(url, "http://bkyz2-fmaaa-aaaaa-qaaaq-cai.localhost:4943/42.svg");
    assert_eq!(url.matches("bkyz2-fmaaa-aaaaa-qaaaq-cai").count(), 1);
    assert_eq!(url.matches("42").count(), 1);
}

#[test]
fn frame_lays_out_sorted_keys() {
    let text = frame_metadata("\"n\"", "\"i\"", "\"b\"", "\"c\"");
    assert_eq!(
        text,
        "{\"attributes\":[{\"trait_type\":\"bg_color\",\"value\":\"b\"},\
         {\"trait_type\":\"circle_color\",\"value\":\"c\"}],\"image\":\"i\",\"name\":\"n\"}"
    );
}

#[test]
fn metadata_is_exact_json() {
    let asset = render_metadata("abc", &event(42), &attrs("blue", "red"));
    assert_eq!(asset.headers, vec![("Content-Type".to_string(), "text/json".to_string())]);
    let expected = "{\"attributes\":[{\"trait_type\":\"bg_color\",\"value\":\"blue\"},\
                    {\"trait_type\":\"circle_color\",\"value\":\"red\"}],\
                    \"image\":\"http://abc.localhost:4943/42.svg\",\"name\":\"dappcon #42\"}";
    assert_eq!(String::from_utf8(asset.body).unwrap(), expected);
}

#[test]
fn metadata_escapes_strings() {
    let asset = render_metadata("h\"x", &event(7), &attrs("a\\b", "red"));
    let text = String::from_utf8(asset.body).unwrap();
    assert!(text.contains("\"value\":\"a\\\\b\""));
    assert!(text.contains("\"image\":\"http://h\\\"x.localhost:4943/7.svg\""));
}

#[test]
fn metadata_escapes_control_characters() {
    let asset = render_metadata("h", &event(1), &attrs("a\nb", "c\u{1}d"));
    let text = String::from_utf8(asset.body).unwrap();
    assert!(text.contains("\"value\":\"a\\nb\""));
    assert!(text.contains("\"value\":\"c\\u0001d\""));
}

#[test]
fn image_escapes_ampersand_and_apostrophe() {
    let asset = render_image(&attrs("a&b", "it's"));
    let text = String::from_utf8(asset.body).unwrap();
    assert!(text.contains("<rect fill=\"a&amp;b\" height=\"100%\" width=\"100%\"/>"));
    assert!(text.contains("fill=\"it&apos;s\" r=\"48\""));
}
