use spectec_parse::reader::Reader;
use spectec_parse::sexpr::SExprItem;
use spectec_parse::sexpr::parse_sexpr_stream;
use spectec_parse::sexpr::read_text;

#[test]
fn parse_test_sexpr_parse_escaped_text() {
    let input = r#""\"he\\l\\lo\\\"""#;
    let parsed = match read_text(&mut Reader::new(input)) {
        Ok(p) => p,
        Err(_) => panic!("reading the text literal failed"),
    };
    assert_eq!(parsed, r#""he\l\lo\""#);
}

#[test]
fn sexpr_test_sexpr_parse_escaped_text() {
    let input = r#""\"he\\l\\lo\\\"""#;
    let parsed = match read_text(&mut Reader::new(input)) {
        Ok(p) => p,
        Err(_) => panic!("reading the text literal failed"),
    };
    assert_eq!(parsed, r#""he\l\lo\""#);
}

#[test]
fn parse_test_sexpr_parse() {
    let input = r#"(typ "m" (inst (alias nat)))"#;
    let parsed = match parse_sexpr_stream(input) {
        Ok(p) => p,
        Err(_) => panic!("parsing failed"),
    };
    assert_eq!(
        parsed,
        vec![SExprItem::Node(
            "typ".to_string(),
            vec![
                SExprItem::Text("m".to_string()),
                SExprItem::Node(
                    "inst".to_string(),
                    vec![SExprItem::Node(
                        "alias".to_string(),
                        vec![SExprItem::Atom("nat".to_string())]
                    )]
                )
            ]
        )]
    );
}

#[test]
fn sexpr_test_sexpr_parse() {
    let input = r#"(typ "m" (inst (alias nat)))"#;
    let parsed = match parse_sexpr_stream(input) {
        Ok(p) => p,
        Err(_) => panic!("parsing failed"),
    };
    assert_eq!(
        parsed,
        vec![SExprItem::Node(
            "typ".to_string(),
            vec![
                SExprItem::Text("m".to_string()),
                SExprItem::Node(
                    "inst".to_string(),
                    vec![SExprItem::Node(
                        "alias".to_string(),
                        vec![SExprItem::Atom("nat".to_string())]
                    )]
                )
            ]
        )]
    );
}

#[test]
fn test_parse_empty_document() {
    let parsed = parse_sexpr_stream("  \n\t ").expect("blank input is an empty document");
    assert_eq!(parsed, vec![]);
}

#[test]
fn test_parse_unclosed_node_fails() {
    assert!(parse_sexpr_stream("(a (b)").is_err());
}

#[test]
fn test_parse_unterminated_text_fails() {
    assert!(parse_sexpr_stream(r#"(a "unterminated)"#).is_err());
}

#[test]
fn test_parse_top_level_atom_fails() {
    assert!(parse_sexpr_stream("justanatom").is_err());
}

#[test]
fn test_parse_trailing_escape_fails() {
    assert!(parse_sexpr_stream("(a \"x\\").is_err());
}

#[test]
fn test_parse_empty_name_and_spacing() {
    let parsed = parse_sexpr_stream("( \n )").expect("a node with an empty name parses");
    assert_eq!(parsed, vec![SExprItem::Node(String::new(), vec![])]);
}

#[test]
fn test_round_trip_rendering() {
    // A document already in single-space normal form renders back to the
    // identical text after parsing.
    let doc = r#"(typ "m" (inst (alias nat))) (g x 0x1f "t")"#;
    let items = parse_sexpr_stream(doc).expect("the document parses");
    assert_eq!(spectec_parse::sexpr::render_sexpr_stream(&items), doc);
}

#[test]
fn test_rendering_normalizes_whitespace() {
    let doc = "  (a   b\n\t(c) \"t\" )\n";
    let items = parse_sexpr_stream(doc).expect("the document parses");
    assert_eq!(spectec_parse::sexpr::render_sexpr_stream(&items), r#"(a b (c) "t")"#);
    let again = parse_sexpr_stream(&spectec_parse::sexpr::render_sexpr_stream(&items))
        .expect("the rendering parses");
    assert_eq!(items, again);
}

#[test]
fn test_reader_basics() {
    let mut r = Reader::new("a bc");
    assert_eq!(r.len(), 4);
    assert_eq!(r.position(), 0);
    assert_eq!(r.peek(), Some('a'));
    assert!(!r.is_eof());
    r.advance(1);
    r.consume_whitespace();
    assert_eq!(r.position(), 2);
    assert_eq!(r.peek(), Some('b'));
    r.set_position(4);
    assert!(r.is_eof());
    assert_eq!(r.peek(), None);
}
