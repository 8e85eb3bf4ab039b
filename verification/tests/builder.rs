use docx_core::decimal::write_decimal;
use docx_core::markup::Tag;
use docx_core::types::BreakType;
use docx_core::xml_builder::XMLBuilder;
use std::str;

#[test]
fn test_builder_open_close_without_children_is_self_closing() {
    let b = XMLBuilder::new().open_run_property().close().build();
    assert_eq!(str::from_utf8(&b).unwrap(), r#"<w:rPr />"#);
    let b = XMLBuilder::new().open_run().close().build();
    assert_eq!(str::from_utf8(&b).unwrap(), r#"<w:r />"#);
}

#[test]
fn test_builder_empty_child_still_counts() {
    let b = XMLBuilder::new()
        .open_run_property()
        .add_child(b"")
        .close()
        .build();
    assert_eq!(str::from_utf8(&b).unwrap(), r#"<w:rPr></w:rPr>"#);
}

#[test]
fn test_builder_children_in_call_order() {
    let b = XMLBuilder::new()
        .open_run()
        .add_child(b"<a />")
        .add_child(b"<b />")
        .add_child(b"<c />")
        .close()
        .build();
    assert_eq!(str::from_utf8(&b).unwrap(), r#"<w:r><a /><b /><c /></w:r>"#);
}

#[test]
fn test_builder_child_bytes_are_taken_as_they_are() {
    let b = XMLBuilder::new()
        .open_run()
        .add_child(&[0xffu8, 0x00, 0x3c])
        .close()
        .build();
    let mut expected = b"<w:r>".to_vec();
    expected.extend_from_slice(&[0xff, 0x00, 0x3c]);
    expected.extend_from_slice(b"</w:r>");
    assert_eq!(b, expected);
}

#[test]
fn test_builder_text() {
    let b = XMLBuilder::new().text(" x ").build();
    assert_eq!(
        str::from_utf8(&b).unwrap(),
        r#"<w:t xml:space="preserve"> x </w:t>"#
    );
}

#[test]
fn test_builder_delete_text() {
    let b = XMLBuilder::new().delete_text("y").build();
    assert_eq!(
        str::from_utf8(&b).unwrap(),
        r#"<w:delText xml:space="preserve">y</w:delText>"#
    );
}

#[test]
fn test_builder_markers() {
    let b = XMLBuilder::new().tab().build();
    assert_eq!(str::from_utf8(&b).unwrap(), r#"<w:tab />"#);
    let b = XMLBuilder::new().br(BreakType::Page).build();
    assert_eq!(str::from_utf8(&b).unwrap(), r#"<w:br w:type="page" />"#);
    let b = XMLBuilder::new().start(3).build();
    assert_eq!(str::from_utf8(&b).unwrap(), r#"<w:start w:val="3" />"#);
    let b = XMLBuilder::new().sz(20).build();
    assert_eq!(str::from_utf8(&b).unwrap(), r#"<w:sz w:val="20" />"#);
    let b = XMLBuilder::new().sz_cs(20).build();
    assert_eq!(str::from_utf8(&b).unwrap(), r#"<w:szCs w:val="20" />"#);
    let b = XMLBuilder::new().color("2E74B5").build();
    assert_eq!(str::from_utf8(&b).unwrap(), r#"<w:color w:val="2E74B5" />"#);
    let b = XMLBuilder::new().highlight("yellow").build();
    assert_eq!(
        str::from_utf8(&b).unwrap(),
        r#"<w:highlight w:val="yellow" />"#
    );
    let b = XMLBuilder::new().b().build();
    assert_eq!(str::from_utf8(&b).unwrap(), r#"<w:b />"#);
    let b = XMLBuilder::new().b_cs().build();
    assert_eq!(str::from_utf8(&b).unwrap(), r#"<w:bCs />"#);
    let b = XMLBuilder::new().i().build();
    assert_eq!(str::from_utf8(&b).unwrap(), r#"<w:i />"#);
    let b = XMLBuilder::new().i_cs().build();
    assert_eq!(str::from_utf8(&b).unwrap(), r#"<w:iCs />"#);
}

#[test]
fn test_builder_attribute_value_is_taken_as_it_is() {
    let b = XMLBuilder::new().color("a&b").build();
    assert_eq!(str::from_utf8(&b).unwrap(), r#"<w:color w:val="a&b" />"#);
}

#[test]
fn test_tag_names() {
    assert_eq!(Tag::Run.as_str(), "w:r");
    assert_eq!(Tag::RunProperty.as_str(), "w:rPr");
    assert_eq!(Tag::Text.as_str(), "w:t");
    assert_eq!(Tag::DeleteText.as_str(), "w:delText");
    assert_eq!(Tag::Tab.as_str(), "w:tab");
    assert_eq!(Tag::Break.as_str(), "w:br");
    assert_eq!(Tag::Start.as_str(), "w:start");
    assert_eq!(Tag::Size.as_str(), "w:sz");
    assert_eq!(Tag::SizeCs.as_str(), "w:szCs");
    assert_eq!(Tag::Color.as_str(), "w:color");
    assert_eq!(Tag::Highlight.as_str(), "w:highlight");
    assert_eq!(Tag::Bold.as_str(), "w:b");
    assert_eq!(Tag::BoldCs.as_str(), "w:bCs");
    assert_eq!(Tag::Italic.as_str(), "w:i");
    assert_eq!(Tag::ItalicCs.as_str(), "w:iCs");
}

#[test]
fn test_write_decimal() {
    let mut out = Vec::new();
    write_decimal(&mut out, 0);
    assert_eq!(out, b"0".to_vec());
    let mut out = Vec::new();
    write_decimal(&mut out, 9);
    assert_eq!(out, b"9".to_vec());
    let mut out = Vec::new();
    write_decimal(&mut out, 10);
    assert_eq!(out, b"10".to_vec());
    let mut out = Vec::new();
    write_decimal(&mut out, 1234567890);
    assert_eq!(out, b"1234567890".to_vec());
}

#[test]
fn test_write_decimal_appends() {
    let mut out = b"n=".to_vec();
    write_decimal(&mut out, 507);
    write_decimal(&mut out, 0);
    assert_eq!(out, b"n=5070".to_vec());
}

#[test]
fn test_write_decimal_largest_value() {
    let mut out = Vec::new();
    write_decimal(&mut out, usize::MAX);
    assert_eq!(out, format!("{}", usize::MAX).into_bytes());
}
