use spectec_parse::get_wasm_spectec_ast;
use spectec_parse::spectec::SpecTecDef;

#[test]
fn wasm_test_get_wasm_spectec_ast() {
    let ast = get_wasm_spectec_ast();
    assert!(!ast.is_empty());
}

#[test]
fn lib_test_get_wasm_spectec_ast() {
    let ast = get_wasm_spectec_ast();
    assert!(!ast.is_empty());
    assert!(matches!(ast[0], SpecTecDef::Typ { .. }));
    assert!(matches!(ast[ast.len() - 1], SpecTecDef::Rec { .. }));
}
