//! An embedded sample of the WebAssembly SpecTec definition stream, as a
//! ready-made document for callers that want a decoded tree without
//! supplying their own input.

use vstd::prelude::*;

use crate::sexpr::SExprItem;
use crate::spectec::SpecTecDef;
use crate::spectec::rel_def;

verus! {

/// The characters of the embedded sample document: a handful of
/// definitions in the textual s-expression encoding.
pub open spec fn wasm_sample() -> Seq<char> {
    "\n(typ \"addr\" (inst (alias nat)))\n(typ \"funcaddr\" (inst (alias (var \"addr\"))))\n(typ \"s33\" (inst (alias int)))\n(rel \"Step_pure\" \"%~>%\" (var \"admininstr\"))\n(def \"default_\" (typ \"X\") (iter (var \"X\") opt) (clause (typ \"X\") (typ (var \"X\")) (exp (list)) (opt)))\n(rec (typ \"list_\" (inst (alias (iter (var \"val\") list)))))\n"@
}

/// The embedded sample document.
fn wasm_source() -> (r: &'static str)
    ensures
        r@ == wasm_sample(),
{
    "\n(typ \"addr\" (inst (alias nat)))\n(typ \"funcaddr\" (inst (alias (var \"addr\"))))\n(typ \"s33\" (inst (alias int)))\n(rel \"Step_pure\" \"%~>%\" (var \"admininstr\"))\n(def \"default_\" (typ \"X\") (iter (var \"X\") opt) (clause (typ \"X\") (typ (var \"X\")) (exp (list)) (opt)))\n(rec (typ \"list_\" (inst (alias (iter (var \"val\") list)))))\n"
}

/// Returns the embedded sample of the WebAssembly SpecTec definition
/// stream, decoded; an empty sequence if the embedded text does not
/// decode.
pub fn get_wasm_spectec_ast() -> (r: Vec<SpecTecDef>)
    ensures
        r@.len() == 0 || (crate::sexpr::parse_doc(wasm_sample(), 0) matches Some(shapes)
            && exists|its: Seq<SExprItem>|
            {
                &&& #[trigger] crate::sexpr::shape_seq(its) == shapes
                &&& r@.len() == its.len()
                &&& forall|k: int| 0 <= k < its.len() ==> rel_def(#[trigger] its[k], r@[k])
            }),
{
    match crate::spectec::parse_spectec_stream(wasm_source()) {
        Ok(ast) => ast,
        Err(_) => Vec::new(),
    }
}

} // verus!
