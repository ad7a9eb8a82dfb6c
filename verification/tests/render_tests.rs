use dashlayer::records::Widget;
use dashlayer::render::{opacity_string, render};

fn widget_with(opacity: u8) -> Widget {
    Widget {
        id: "w1".to_string(),
        name: "clock".to_string(),
        html: "<div class=\"clock-face\">12:00</div>".to_string(),
        css: ".clock-face { font-size: 2em; }".to_string(),
        js: "document.title = 'tick';".to_string(),
        width: 300,
        height: 150,
        opacity,
        always_on_top: true,
        transparent: false,
        x: 0,
        y: 0,
        auto_start: false,
        locked: false,
    }
}

#[test]
fn rendered_document_embeds_content_verbatim() {
    let w = widget_with(35);
    let doc = render(&w);
    assert!(doc.contains("<div class=\"clock-face\">12:00</div>"));
    assert!(doc.contains(".clock-face { font-size: 2em; }"));
    assert!(doc.contains("document.title = 'tick';"));
    assert!(doc.contains("<title>clock</title>"));
}

#[test]
fn rendered_document_is_a_complete_page() {
    let w = widget_with(35);
    let doc = render(&w);
    assert!(doc.starts_with("<!DOCTYPE html>"));
    assert!(doc.ends_with("</html>"));
    assert!(doc.contains("<div id=\"widget-root\">"));
    assert!(doc.contains("try { document.title = 'tick'; } catch(e)"));
}

#[test]
fn rendered_opacity_is_the_alpha_value() {
    let doc = render(&widget_with(35));
    assert!(doc.contains("opacity: 0.35;"));
    let full = render(&widget_with(100));
    assert!(full.contains("opacity: 1;"));
    let zero = render(&widget_with(0));
    assert!(zero.contains("opacity: 0;"));
}

#[test]
fn opacity_string_formats_the_shortest_decimal() {
    assert_eq!(opacity_string(100), "1");
    assert_eq!(opacity_string(0), "0");
    assert_eq!(opacity_string(35), "0.35");
    assert_eq!(opacity_string(50), "0.5");
    assert_eq!(opacity_string(5), "0.05");
    assert_eq!(opacity_string(99), "0.99");
    assert_eq!(opacity_string(10), "0.1");
}

#[test]
fn opacity_string_matches_float_formatting() {
    for n in 0u8..=100u8 {
        let expected = format!("{}", n as f32 / 100.0);
        assert_eq!(opacity_string(n), expected, "opacity {}", n);
    }
}
