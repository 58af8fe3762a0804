use spectec_parse::DecodeError;
use spectec_parse::decode::Decode;
use spectec_parse::parse_spectec_stream;
use spectec_parse::sexpr::SExprItem;
use spectec_parse::sexpr::parse_sexpr_stream;
use spectec_parse::spectec::MixOp;
use spectec_parse::spectec::SpecTecBinOp;
use spectec_parse::spectec::SpecTecNum;
use spectec_parse::spectec::SpecTecOpTyp;
use spectec_parse::spectec::SpecTecDef;
use spectec_parse::spectec::SpecTecDefTyp;
use spectec_parse::spectec::SpecTecExp;
use spectec_parse::spectec::SpecTecInst;
use spectec_parse::spectec::SpecTecNumTyp;
use spectec_parse::spectec::SpecTecTyp;

fn cause(e: DecodeError) -> DecodeError {
    match e {
        DecodeError::WithContext { source, context: _ } => cause(*source),
        other => other,
    }
}

#[test]
fn lib_test_spectec_def_enum() {
    let input = r#"(typ "M" (inst (alias nat)))"#;
    let sexprs = match parse_sexpr_stream(input) {
        Ok(p) => p,
        Err(_) => panic!("parsing failed"),
    };
    let mut parsed = Vec::new();
    for sexpr in &sexprs {
        assert!(SpecTecDef::can_decode(sexpr));
        match SpecTecDef::decode(sexpr) {
            Ok(p) => parsed.push(p),
            Err(_) => panic!("decoding failed"),
        }
    }
    assert_eq!(
        parsed,
        vec![SpecTecDef::Typ {
            x: "M".to_string(),
            ps: vec![],
            insts: vec![SpecTecInst::Inst {
                bs: vec![],
                as_: vec![],
                dt: SpecTecDefTyp::Alias { typ: SpecTecTyp::Num(SpecTecNumTyp::Nat) },
            }]
        }]
    );
}

#[test]
fn spectec_test_spectec_def_enum() {
    let input = r#"(typ "M" (inst (alias nat)))"#;
    let sexprs = match parse_sexpr_stream(input) {
        Ok(p) => p,
        Err(_) => panic!("parsing failed"),
    };
    let mut parsed = Vec::new();
    for sexpr in &sexprs {
        assert!(SpecTecDef::can_decode(sexpr));
        match SpecTecDef::decode(sexpr) {
            Ok(p) => parsed.push(p),
            Err(_) => panic!("decoding failed"),
        }
    }
    assert_eq!(
        parsed,
        vec![SpecTecDef::Typ {
            x: "M".to_string(),
            ps: vec![],
            insts: vec![SpecTecInst::Inst {
                bs: vec![],
                as_: vec![],
                dt: SpecTecDefTyp::Alias { typ: SpecTecTyp::Num(SpecTecNumTyp::Nat) },
            }]
        }]
    );
}

#[test]
fn lib_test_parse_spectec_stream() {
    let input = "\n(typ \"m\" (inst (alias nat)))\n(typ \"n\" (inst (alias nat)))\n";
    let parsed = match parse_spectec_stream(input) {
        Ok(p) => p,
        Err(_) => panic!("parsing failed"),
    };
    assert_eq!(
        parsed,
        vec![
            SpecTecDef::Typ {
                x: "m".to_string(),
                insts: vec![SpecTecInst::Inst {
                    bs: vec![],
                    as_: vec![],
                    dt: SpecTecDefTyp::Alias { typ: SpecTecTyp::Num(SpecTecNumTyp::Nat) },
                }],
                ps: vec![],
            },
            SpecTecDef::Typ {
                x: "n".to_string(),
                insts: vec![SpecTecInst::Inst {
                    bs: vec![],
                    as_: vec![],
                    dt: SpecTecDefTyp::Alias { typ: SpecTecTyp::Num(SpecTecNumTyp::Nat) },
                }],
                ps: vec![],
            },
        ]
    );
}

#[test]
fn test_extra_item_is_reported() {
    // A text node with one mandatory string field, handed one item too
    // many: the leftover text is reported, never silently dropped.
    let sexprs = parse_sexpr_stream(r#"(text "m" "c")"#).expect("parsing succeeds");
    assert_eq!(sexprs.len(), 1);
    assert!(!SpecTecExp::can_decode(&sexprs[0]));
    let err = match SpecTecExp::decode(&sexprs[0]) {
        Ok(_) => panic!("an unconsumed item must fail the decode"),
        Err(e) => e,
    };
    match cause(err) {
        DecodeError::UnexpectedItem(SExprItem::Text(t)) => assert_eq!(t, "c"),
        _ => panic!("the leftover item must be the reported cause"),
    }
}

#[test]
fn test_missing_item_is_reported() {
    // The same node shape with its mandatory field missing: a missing-item
    // error, not a panic or a default value.
    let sexprs = parse_sexpr_stream("(text)").expect("parsing succeeds");
    assert_eq!(sexprs.len(), 1);
    assert!(!SpecTecExp::can_decode(&sexprs[0]));
    let err = match SpecTecExp::decode(&sexprs[0]) {
        Ok(_) => panic!("a missing mandatory field must fail the decode"),
        Err(e) => e,
    };
    match cause(err) {
        DecodeError::MissingItem => (),
        _ => panic!("the missing field must be the reported cause"),
    }
}

#[test]
fn test_unrecognised_node_tag() {
    let sexprs = parse_sexpr_stream("(nosuchtag)").expect("parsing succeeds");
    assert!(!SpecTecExp::can_decode(&sexprs[0]));
    let err = SpecTecExp::decode(&sexprs[0]).unwrap_err();
    match cause(err) {
        DecodeError::UnrecognisedSymbol(t) => assert_eq!(t, "nosuchtag"),
        _ => panic!("an unknown node tag must be the reported cause"),
    }
}

#[test]
fn test_mixop_splits_on_percent() {
    let item = SExprItem::Text("%~>%".to_string());
    assert!(MixOp::can_decode(&item));
    let mix = MixOp::decode(&item).expect("a text literal decodes as a mix-fix operator");
    assert_eq!(mix, MixOp(vec!["".to_string(), "~>".to_string(), "".to_string()]));
    let plain = MixOp::decode(&SExprItem::Text("add".to_string())).expect("no separator");
    assert_eq!(plain, MixOp(vec!["add".to_string()]));
    assert!(MixOp::decode(&SExprItem::Atom("x".to_string())).is_err());
}

#[test]
fn test_nested_expression_decoding() {
    let sexprs = parse_sexpr_stream("(bin add nat (num (nat 1)) (num (nat 0x2a)))")
        .expect("parsing succeeds");
    let exp = SpecTecExp::decode(&sexprs[0]).expect("the expression decodes");
    assert_eq!(
        exp,
        SpecTecExp::Bin {
            op: SpecTecBinOp::Add,
            t: SpecTecOpTyp::Num(SpecTecNumTyp::Nat),
            e1: Box::new(SpecTecExp::Num { n: SpecTecNum::Nat(1) }),
            e2: Box::new(SpecTecExp::Num { n: SpecTecNum::Nat(42) }),
        }
    );
}

#[test]
fn test_stream_errors_propagate() {
    // A reading failure surfaces through the composition, as does a
    // decoding failure of any single top-level item.
    assert!(parse_spectec_stream("(typ \"m\"").is_err());
    assert!(parse_spectec_stream("(bogus)").is_err());
    assert!(parse_spectec_stream("").expect("an empty document decodes").is_empty());
}

#[test]
fn test_spectec_wasm1() {
    let input = r#"
            (def
              "opt_"
              (typ "X")
              (exp "_" (iter (var "X") list))
              (iter (var "X") opt)
              (clause (typ "X") (typ (var "X")) (exp (list)) (opt))
              (clause
                (opt (var "w"))
              )
            )
                "#;
    let sexprs = match parse_sexpr_stream(input) {
        Ok(p) => p,
        Err(_) => panic!("parsing failed"),
    };
    let mut parsed = Vec::new();
    for sexpr in &sexprs {
        match SpecTecDef::decode(sexpr) {
            Ok(p) => parsed.push(p),
            Err(_) => panic!("decoding failed"),
        }
    }
    assert_eq!(parsed.len(), 1);
    assert!(matches!(parsed[0], SpecTecDef::Dec { .. }));
}
