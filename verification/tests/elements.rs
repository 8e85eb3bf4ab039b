use docx_core::documents::elements::br::Break;
use docx_core::documents::elements::delete_text::DeleteText;
use docx_core::documents::elements::run::RunChild;
use docx_core::documents::elements::run_property::RunProperty;
use docx_core::documents::elements::tab::Tab;
use docx_core::documents::elements::text::Text;
use docx_core::documents::BuildXML;
use docx_core::types::BreakType;
use std::str;

#[test]
fn test_text() {
    let b = Text::new("Hello").build();
    assert_eq!(
        str::from_utf8(&b).unwrap(),
        r#"<w:t xml:space="preserve">Hello</w:t>"#
    );
}

#[test]
fn test_text_empty_payload_keeps_attribute() {
    let b = Text::new("").build();
    assert_eq!(
        str::from_utf8(&b).unwrap(),
        r#"<w:t xml:space="preserve"></w:t>"#
    );
}

#[test]
fn test_text_keeps_white_space() {
    let b = Text::new("  a  b \t").build();
    assert_eq!(
        str::from_utf8(&b).unwrap(),
        "<w:t xml:space=\"preserve\">  a  b \t</w:t>"
    );
}

#[test]
fn test_text_is_utf8() {
    let b = Text::new("héllo, 世界 🌍").build();
    assert_eq!(
        str::from_utf8(&b).unwrap(),
        "<w:t xml:space=\"preserve\">héllo, 世界 🌍</w:t>"
    );
}

#[test]
fn test_text_payload_is_taken_as_it_is() {
    let b = Text::new("a \"b\" c").build();
    assert_eq!(
        str::from_utf8(&b).unwrap(),
        "<w:t xml:space=\"preserve\">a \"b\" c</w:t>"
    );
}

#[test]
fn test_delete_text() {
    let b = DeleteText::new("gone").build();
    assert_eq!(
        str::from_utf8(&b).unwrap(),
        r#"<w:delText xml:space="preserve">gone</w:delText>"#
    );
}

#[test]
fn test_delete_text_empty_payload_keeps_attribute() {
    let b = DeleteText::new("").build();
    assert_eq!(
        str::from_utf8(&b).unwrap(),
        r#"<w:delText xml:space="preserve"></w:delText>"#
    );
}

#[test]
fn test_tab() {
    let b = Tab::new().build();
    assert_eq!(str::from_utf8(&b).unwrap(), r#"<w:tab />"#);
}

#[test]
fn test_break_page() {
    let b = Break::new(BreakType::Page).build();
    assert_eq!(str::from_utf8(&b).unwrap(), r#"<w:br w:type="page" />"#);
}

#[test]
fn test_break_column() {
    let b = Break::new(BreakType::Column).build();
    assert_eq!(str::from_utf8(&b).unwrap(), r#"<w:br w:type="column" />"#);
}

#[test]
fn test_break_text_wrapping() {
    let b = Break::new(BreakType::TextWrapping).build();
    assert_eq!(
        str::from_utf8(&b).unwrap(),
        r#"<w:br w:type="textWrapping" />"#
    );
}

#[test]
fn test_break_type_as_str() {
    assert_eq!(BreakType::Page.as_str(), "page");
    assert_eq!(BreakType::Column.as_str(), "column");
    assert_eq!(BreakType::TextWrapping.as_str(), "textWrapping");
}

#[test]
fn test_markers_never_have_close_tag() {
    let all = vec![
        Tab::new().build(),
        Break::new(BreakType::Page).build(),
        Break::new(BreakType::Column).build(),
        Break::new(BreakType::TextWrapping).build(),
    ];
    for b in all {
        let s = str::from_utf8(&b).unwrap();
        assert!(s.starts_with('<'));
        assert!(s.ends_with(" />"));
        assert!(!s.contains("</"));
        assert_eq!(s.matches('<').count(), 1);
        assert_eq!(s.matches('>').count(), 1);
    }
}

#[test]
fn test_run_child_dispatch() {
    let children = vec![
        RunChild::Text(Text::new("t")),
        RunChild::DeleteText(DeleteText::new("d")),
        RunChild::Tab(Tab::new()),
        RunChild::Break(Break::new(BreakType::Page)),
    ];
    let expected = vec![
        r#"<w:t xml:space="preserve">t</w:t>"#,
        r#"<w:delText xml:space="preserve">d</w:delText>"#,
        r#"<w:tab />"#,
        r#"<w:br w:type="page" />"#,
    ];
    for (c, e) in children.iter().zip(expected.iter()) {
        let b = c.build();
        assert_eq!(str::from_utf8(&b).unwrap(), *e);
    }
}

#[test]
fn test_run_property_empty() {
    let b = RunProperty::new().build();
    assert_eq!(str::from_utf8(&b).unwrap(), r#"<w:rPr />"#);
}

#[test]
fn test_run_property_default_is_empty() {
    let b = RunProperty::default().build();
    assert_eq!(str::from_utf8(&b).unwrap(), r#"<w:rPr />"#);
}

#[test]
fn test_run_property_size() {
    let b = RunProperty::new().size(24).build();
    assert_eq!(
        str::from_utf8(&b).unwrap(),
        r#"<w:rPr><w:sz w:val="24" /><w:szCs w:val="24" /></w:rPr>"#
    );
}

#[test]
fn test_run_property_color() {
    let b = RunProperty::new().color("FF0000").build();
    assert_eq!(
        str::from_utf8(&b).unwrap(),
        r#"<w:rPr><w:color w:val="FF0000" /></w:rPr>"#
    );
}

#[test]
fn test_run_property_highlight() {
    let b = RunProperty::new().highlight("FFFFFF").build();
    assert_eq!(
        str::from_utf8(&b).unwrap(),
        r#"<w:rPr><w:highlight w:val="FFFFFF" /></w:rPr>"#
    );
}

#[test]
fn test_run_property_bold() {
    let b = RunProperty::new().bold().build();
    assert_eq!(
        str::from_utf8(&b).unwrap(),
        r#"<w:rPr><w:b /><w:bCs /></w:rPr>"#
    );
}

#[test]
fn test_run_property_italic() {
    let b = RunProperty::new().italic().build();
    assert_eq!(
        str::from_utf8(&b).unwrap(),
        r#"<w:rPr><w:i /><w:iCs /></w:rPr>"#
    );
}

#[test]
fn test_run_property_order_does_not_follow_calls() {
    let one = RunProperty::new().bold().color("000000").size(8).build();
    let two = RunProperty::new().size(8).color("000000").bold().build();
    assert_eq!(one, two);
    assert_eq!(
        str::from_utf8(&one).unwrap(),
        r#"<w:rPr><w:sz w:val="8" /><w:szCs w:val="8" /><w:color w:val="000000" /><w:b /><w:bCs /></w:rPr>"#
    );
}

#[test]
fn test_run_property_color_set_twice_keeps_the_later() {
    let b = RunProperty::new().color("111111").color("222222").build();
    assert_eq!(
        str::from_utf8(&b).unwrap(),
        r#"<w:rPr><w:color w:val="222222" /></w:rPr>"#
    );
}

#[test]
fn test_run_property_size_zero() {
    let b = RunProperty::new().size(0).build();
    assert_eq!(
        str::from_utf8(&b).unwrap(),
        r#"<w:rPr><w:sz w:val="0" /><w:szCs w:val="0" /></w:rPr>"#
    );
}
