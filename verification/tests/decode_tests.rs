use spectec_parse::decode::Decode;
use spectec_parse::decode::can_decode_iter;
use spectec_parse::decode::can_decode_option;
use spectec_parse::decode::decode_iter;
use spectec_parse::decode::decode_option;
use spectec_parse::decode::parse_i64_str;
use spectec_parse::decode::parse_u64_str;
use spectec_parse::sexpr::SExprItem;
use spectec_parse::spectec::SpecTecUnOp;

fn atom(t: &str) -> SExprItem {
    SExprItem::Atom(t.to_string())
}

#[test]
fn test_hex_integer_parsing() {
    assert_eq!(parse_u64_str("0x1f"), Some(31));
    assert_eq!(parse_i64_str("0x1f"), Some(31));
    assert_eq!(parse_u64_str("1f"), None);
    assert_eq!(parse_i64_str("1f"), None);
    assert_eq!(u64::decode(&atom("0x1f")).ok(), Some(31));
    assert!(u64::decode(&atom("1f")).is_err());
    assert_eq!(i64::decode(&atom("0x1f")).ok(), Some(31));
    assert!(i64::decode(&atom("1f")).is_err());
}

#[test]
fn test_integer_ranges_and_signs() {
    assert_eq!(parse_u64_str("0"), Some(0));
    assert_eq!(parse_u64_str("+7"), Some(7));
    assert_eq!(parse_u64_str("-7"), None);
    assert_eq!(parse_u64_str("18446744073709551615"), Some(u64::MAX));
    assert_eq!(parse_u64_str("18446744073709551616"), None);
    assert_eq!(parse_u64_str(""), None);
    assert_eq!(parse_u64_str("0x"), None);
    assert_eq!(parse_i64_str("-42"), Some(-42));
    assert_eq!(parse_i64_str("+42"), Some(42));
    assert_eq!(parse_i64_str("9223372036854775807"), Some(i64::MAX));
    assert_eq!(parse_i64_str("9223372036854775808"), None);
    assert_eq!(parse_i64_str("-9223372036854775808"), Some(i64::MIN));
    assert_eq!(parse_i64_str("-9223372036854775809"), None);
    assert_eq!(parse_i64_str("0xfF"), Some(255));
}

#[test]
fn test_bool_decoding() {
    assert_eq!(bool::decode(&atom("true")).ok(), Some(true));
    assert_eq!(bool::decode(&atom("false")).ok(), Some(false));
    assert!(bool::decode(&atom("True")).is_err());
    assert!(!bool::can_decode(&SExprItem::Text("true".to_string())));
}

#[test]
fn test_string_decoding() {
    let item = SExprItem::Text("hello".to_string());
    assert!(String::can_decode(&item));
    assert_eq!(String::decode(&item).ok(), Some("hello".to_string()));
    assert!(String::decode(&atom("hello")).is_err());
}

#[test]
fn test_box_and_option_passthrough() {
    let item = atom("7");
    assert!(Box::<u64>::can_decode(&item));
    assert_eq!(Box::<u64>::decode(&item).ok(), Some(Box::new(7)));
    assert!(Option::<u64>::can_decode(&item));
    assert_eq!(Option::<u64>::decode(&item).ok(), Some(Some(7)));
}

#[test]
fn test_greedy_list_consumes_exact_prefix() {
    // Only a prefix of the stream satisfies the probe for unary
    // operators; the greedy list takes exactly that prefix and leaves the
    // remainder, decodable or not by other types, untouched.
    let items = vec![
        atom("minus"),
        atom("minusplus"),
        atom("not"),
        atom("plus"),
        atom("plusminus"),
        atom("xyz"),
        atom("42"),
    ];
    assert!(!SpecTecUnOp::can_decode(&items[5]));
    let mut pos = 0;
    let decoded = decode_iter::<SpecTecUnOp>(&items, &mut pos).expect("greedy lists never fail");
    assert_eq!(
        decoded,
        vec![
            SpecTecUnOp::Minus,
            SpecTecUnOp::MinusPlus,
            SpecTecUnOp::Not,
            SpecTecUnOp::Plus,
            SpecTecUnOp::PlusMinus,
        ]
    );
    assert_eq!(pos, 5);
    let mut probe_pos = 0;
    assert!(can_decode_iter::<SpecTecUnOp>(&items, &mut probe_pos));
    assert_eq!(probe_pos, 5);
}

#[test]
fn test_optional_consumes_zero_or_one() {
    let items = vec![atom("3"), atom("x")];
    let mut pos = 0;
    assert_eq!(decode_option::<u64>(&items, &mut pos).ok(), Some(Some(3)));
    assert_eq!(pos, 1);
    assert_eq!(decode_option::<u64>(&items, &mut pos).ok(), Some(None));
    assert_eq!(pos, 1);
    let mut probe_pos = 0;
    assert!(can_decode_option::<u64>(&items, &mut probe_pos));
    assert_eq!(probe_pos, 1);
    assert!(can_decode_option::<u64>(&items, &mut probe_pos));
    assert_eq!(probe_pos, 1);
}
