use docx_core::documents::elements::start::Start;
use docx_core::documents::BuildXML;
use std::str;

#[test]
fn test_start() {
    let c = Start::new(1);
    let b = c.build();
    assert_eq!(str::from_utf8(&b).unwrap(), r#"<w:start w:val="1" />"#);
}

#[test]
fn test_start_zero() {
    let b = Start::new(0).build();
    assert_eq!(str::from_utf8(&b).unwrap(), r#"<w:start w:val="0" />"#);
}

#[test]
fn test_start_has_no_leading_zeros() {
    let b = Start::new(1000).build();
    assert_eq!(str::from_utf8(&b).unwrap(), r#"<w:start w:val="1000" />"#);
    let b = Start::new(907).build();
    assert_eq!(str::from_utf8(&b).unwrap(), r#"<w:start w:val="907" />"#);
}

#[test]
fn test_start_largest_value() {
    let b = Start::new(usize::MAX).build();
    assert_eq!(
        str::from_utf8(&b).unwrap(),
        format!("<w:start w:val=\"{}\" />", usize::MAX)
    );
}

#[test]
fn test_start_matches_std_rendering() {
    for v in [2usize, 9, 10, 11, 99, 100, 101, 12345, 4294967295] {
        let b = Start::new(v).build();
        assert_eq!(
            str::from_utf8(&b).unwrap(),
            format!("<w:start w:val=\"{}\" />", v)
        );
    }
}

#[test]
fn test_start_never_has_close_tag() {
    for v in [0usize, 7, 65535] {
        let b = Start::new(v).build();
        let s = str::from_utf8(&b).unwrap();
        assert!(s.ends_with(" />"));
        assert!(!s.contains("</"));
        assert_eq!(s.matches('<').count(), 1);
        assert_eq!(s.matches('>').count(), 1);
    }
}

#[test]
fn test_start_clone_serialises_alike() {
    let s = Start::new(42);
    assert_eq!(s.clone().build(), s.build());
}
