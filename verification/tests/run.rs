use docx_core::documents::elements::run::Run;
use docx_core::documents::BuildXML;
use docx_core::types::BreakType;
use std::str;

#[test]
fn test_build() {
    let b = Run::new().add_text("Hello").build();
    assert_eq!(
        str::from_utf8(&b).unwrap(),
        r#"<w:r><w:rPr /><w:t xml:space="preserve">Hello</w:t></w:r>"#
    );
}

#[test]
fn test_empty_run_wraps_empty_properties() {
    let b = Run::new().build();
    assert_eq!(str::from_utf8(&b).unwrap(), r#"<w:r><w:rPr /></w:r>"#);
}

#[test]
fn test_default_run_is_empty() {
    let b = Run::default().build();
    assert_eq!(str::from_utf8(&b).unwrap(), r#"<w:r><w:rPr /></w:r>"#);
}

#[test]
fn test_bold_size_page_break() {
    let b = Run::new()
        .bold()
        .size(24)
        .add_break(BreakType::Page)
        .build();
    assert_eq!(
        str::from_utf8(&b).unwrap(),
        r#"<w:r><w:rPr><w:sz w:val="24" /><w:szCs w:val="24" /><w:b /><w:bCs /></w:rPr><w:br w:type="page" /></w:r>"#
    );
}

#[test]
fn test_add_delete_text_is_not_plain_text() {
    let deleted = Run::new().add_delete_text("x").build();
    assert_eq!(
        str::from_utf8(&deleted).unwrap(),
        r#"<w:r><w:rPr /><w:delText xml:space="preserve">x</w:delText></w:r>"#
    );
    let plain = Run::new().add_text("x").build();
    assert_ne!(deleted, plain);
}

#[test]
fn test_children_keep_their_order() {
    let b = Run::new()
        .add_text("A")
        .add_tab()
        .add_break(BreakType::Column)
        .add_delete_text("B")
        .add_text("C")
        .build();
    assert_eq!(
        str::from_utf8(&b).unwrap(),
        concat_all(&[
            r#"<w:r><w:rPr />"#,
            r#"<w:t xml:space="preserve">A</w:t>"#,
            r#"<w:tab />"#,
            r#"<w:br w:type="column" />"#,
            r#"<w:delText xml:space="preserve">B</w:delText>"#,
            r#"<w:t xml:space="preserve">C</w:t>"#,
            r#"</w:r>"#,
        ])
    );
}

fn concat_all(parts: &[&str]) -> String {
    let mut s = String::new();
    for p in parts {
        s.push_str(p);
    }
    s
}

#[test]
fn test_three_children_reversed_give_reversed_markup() {
    let abc = Run::new().add_text("a").add_text("b").add_text("c").build();
    let cba = Run::new().add_text("c").add_text("b").add_text("a").build();
    assert_eq!(
        str::from_utf8(&abc).unwrap(),
        r#"<w:r><w:rPr /><w:t xml:space="preserve">a</w:t><w:t xml:space="preserve">b</w:t><w:t xml:space="preserve">c</w:t></w:r>"#
    );
    assert_eq!(
        str::from_utf8(&cba).unwrap(),
        r#"<w:r><w:rPr /><w:t xml:space="preserve">c</w:t><w:t xml:space="preserve">b</w:t><w:t xml:space="preserve">a</w:t></w:r>"#
    );
}

#[test]
fn test_same_steps_give_same_bytes() {
    let make = || {
        Run::new()
            .italic()
            .add_text("one")
            .color("FF0000")
            .add_tab()
            .highlight("yellow")
            .add_break(BreakType::TextWrapping)
            .size(30)
            .add_delete_text("two")
            .bold()
    };
    let first = make().build();
    let second = make().build();
    assert_eq!(first, second);
}

#[test]
fn test_build_twice_gives_same_bytes() {
    let run = Run::new().add_text("again").bold();
    let first = run.build();
    let second = run.build();
    assert_eq!(first, second);
}

#[test]
fn test_clone_serialises_alike() {
    let run = Run::new().add_text("copy").size(12).add_tab();
    let copy = run.clone();
    assert_eq!(run.build(), copy.build());
}

#[test]
fn test_all_properties_in_fixed_order() {
    let b = Run::new()
        .italic()
        .bold()
        .highlight("yellow")
        .color("00FF00")
        .size(21)
        .build();
    assert_eq!(
        str::from_utf8(&b).unwrap(),
        r#"<w:r><w:rPr><w:sz w:val="21" /><w:szCs w:val="21" /><w:color w:val="00FF00" /><w:highlight w:val="yellow" /><w:b /><w:bCs /><w:i /><w:iCs /></w:rPr></w:r>"#
    );
}

#[test]
fn test_style_does_not_touch_children() {
    let b = Run::new().add_text("t").bold().add_tab().italic().build();
    assert_eq!(
        str::from_utf8(&b).unwrap(),
        r#"<w:r><w:rPr><w:b /><w:bCs /><w:i /><w:iCs /></w:rPr><w:t xml:space="preserve">t</w:t><w:tab /></w:r>"#
    );
}

#[test]
fn test_run_size_set_twice_keeps_the_later() {
    let b = Run::new().size(10).size(48).build();
    assert_eq!(
        str::from_utf8(&b).unwrap(),
        r#"<w:r><w:rPr><w:sz w:val="48" /><w:szCs w:val="48" /></w:rPr></w:r>"#
    );
}

#[test]
fn test_run_text_with_empty_payload() {
    let b = Run::new().add_text("").build();
    assert_eq!(
        str::from_utf8(&b).unwrap(),
        r#"<w:r><w:rPr /><w:t xml:space="preserve"></w:t></w:r>"#
    );
}

#[test]
fn test_run_all_break_kinds() {
    let b = Run::new()
        .add_break(BreakType::Page)
        .add_break(BreakType::Column)
        .add_break(BreakType::TextWrapping)
        .build();
    assert_eq!(
        str::from_utf8(&b).unwrap(),
        r#"<w:r><w:rPr /><w:br w:type="page" /><w:br w:type="column" /><w:br w:type="textWrapping" /></w:r>"#
    );
}
