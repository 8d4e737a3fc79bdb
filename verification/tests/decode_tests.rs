use termbg::decode_x11_color;
use termbg::Error;

#[test]
fn test_decode_x11_color() {
    let s = "0000/0000/0000";
    assert_eq!((0, 0, 0), decode_x11_color(s).unwrap());

    let s = "1111/2222/3333";
    assert_eq!((0x1111, 0x2222, 0x3333), decode_x11_color(s).unwrap());

    let s = "111/222/333";
    assert_eq!((0x1110, 0x2220, 0x3330), decode_x11_color(s).unwrap());

    let s = "11/22/33";
    assert_eq!((0x1100, 0x2200, 0x3300), decode_x11_color(s).unwrap());

    let s = "1/2/3";
    assert_eq!((0x1000, 0x2000, 0x3000), decode_x11_color(s).unwrap());
}

#[test]
fn decode_expands_each_width_by_left_shift() {
    assert_eq!((0x3000, 0x3000, 0x3000), decode_x11_color("3/3/3").unwrap());
    assert_eq!((0x3300, 0x3300, 0x3300), decode_x11_color("33/33/33").unwrap());
    assert_eq!((0x3330, 0x3330, 0x3330), decode_x11_color("333/333/333").unwrap());
    assert_eq!((0x3333, 0x3333, 0x3333), decode_x11_color("3333/3333/3333").unwrap());
}

#[test]
fn decode_accepts_mixed_case_hex() {
    assert_eq!((0xab00, 0xcd00, 0xef00), decode_x11_color("ab/CD/eF").unwrap());
    assert_eq!((0xffff, 0xffff, 0xffff), decode_x11_color("ffff/FFFF/ffff").unwrap());
}

#[test]
fn decode_rejects_too_few_components() {
    assert!(matches!(decode_x11_color("11/22"), Err(Error::Parse(_))));
    assert!(matches!(decode_x11_color("1122"), Err(Error::Parse(_))));
    assert!(matches!(decode_x11_color(""), Err(Error::Parse(_))));
}

#[test]
fn decode_rejects_too_many_components() {
    assert!(matches!(
        decode_x11_color("1111/2222/3333/4444"),
        Err(Error::Parse(_))
    ));
}

#[test]
fn decode_rejects_non_hex_component() {
    assert!(matches!(decode_x11_color("xx/22/33"), Err(Error::Parse(_))));
    assert!(matches!(decode_x11_color("11/2g/33"), Err(Error::Parse(_))));
    assert!(matches!(decode_x11_color("+1/22/33"), Err(Error::Parse(_))));
}

#[test]
fn decode_rejects_empty_component() {
    assert!(matches!(decode_x11_color("/22/33"), Err(Error::Parse(_))));
    assert!(matches!(decode_x11_color("11//33"), Err(Error::Parse(_))));
    assert!(matches!(decode_x11_color("11/22/"), Err(Error::Parse(_))));
}

#[test]
fn decode_rejects_component_wider_than_four_digits() {
    assert!(matches!(decode_x11_color("33333/1/1"), Err(Error::Parse(_))));
}

#[test]
fn decode_error_carries_offending_text() {
    match decode_x11_color("not a reply") {
        Err(Error::Parse(t)) => assert_eq!(t, "not a reply"),
        other => panic!("expected a parse failure, got {:?}", other),
    }
}
