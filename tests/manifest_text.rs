use forceu8exe::manifest::{generate_manifest, manifest_element};
use forceu8exe::xml::{Attribute, Content, Element};

const EXPECTED: &str = r#"<?xml version="1.0" encoding="UTF-8" standalone="yes"?>
<assembly manifestVersion="1.0" xmlns="urn:schemas-microsoft-com:asm.v1">
  <application>
    <windowsSettings>
      <activeCodePage xmlns="http://schemas.microsoft.com/SMI/2019/WindowsSettings">UTF-8</activeCodePage>
    </windowsSettings>
  </application>
</assembly>
"#;

fn text_element(name: &str, text: &str) -> Element {
    Element {
        name: name.to_string(),
        attributes: Vec::new(),
        content: Content::Text(text.to_string()),
    }
}

#[test]
fn manifest_text_is_exact() {
    assert_eq!(generate_manifest(), EXPECTED);
}

#[test]
fn manifest_declares_utf8_code_page() {
    let text = generate_manifest();
    assert!(text.starts_with("<?xml version=\"1.0\" encoding=\"UTF-8\" standalone=\"yes\"?>\n"));
    assert!(text.contains(
        "<activeCodePage xmlns=\"http://schemas.microsoft.com/SMI/2019/WindowsSettings\">UTF-8</activeCodePage>"
    ));
    assert!(text.ends_with("</assembly>\n"));
}

#[test]
fn manifest_tags_balance() {
    let text = generate_manifest();
    for name in ["assembly", "application", "windowsSettings", "activeCodePage"] {
        let open = format!("<{}", name);
        let close = format!("</{}>", name);
        assert_eq!(text.matches(open.as_str()).count(), 1);
        assert_eq!(text.matches(close.as_str()).count(), 1);
        assert!(text.find(open.as_str()).unwrap() < text.find(close.as_str()).unwrap());
    }
}

#[test]
fn manifest_element_document_matches_generated_text() {
    assert_eq!(manifest_element().to_document(), generate_manifest());
}

#[test]
fn text_element_renders_inline() {
    let mut out = String::from(">");
    text_element("a", "hi").write_to("    ", &mut out);
    assert_eq!(out, "><a>hi</a>");
}

#[test]
fn attributes_render_in_order() {
    let e = Element {
        name: "e".to_string(),
        attributes: vec![
            Attribute { name: "x".to_string(), value: "1".to_string() },
            Attribute { name: "y".to_string(), value: "two".to_string() },
        ],
        content: Content::Text(String::new()),
    };
    let mut out = String::new();
    e.write_to("", &mut out);
    assert_eq!(out, "<e x=\"1\" y=\"two\"></e>");
}

#[test]
fn children_render_indented() {
    let inner = Element {
        name: "b".to_string(),
        attributes: Vec::new(),
        content: Content::Children(vec![text_element("c", "1")]),
    };
    let root = Element {
        name: "a".to_string(),
        attributes: Vec::new(),
        content: Content::Children(vec![inner, text_element("d", "")]),
    };
    let mut out = String::new();
    root.write_to("  ", &mut out);
    assert_eq!(out, "<a>\n    <b>\n      <c>1</c>\n    </b>\n    <d></d>\n  </a>");
}

#[test]
fn no_children_closes_on_next_line() {
    let root = Element {
        name: "a".to_string(),
        attributes: Vec::new(),
        content: Content::Children(Vec::new()),
    };
    assert_eq!(root.to_document(), "<?xml version=\"1.0\" encoding=\"UTF-8\" standalone=\"yes\"?>\n<a>\n</a>\n");
}
