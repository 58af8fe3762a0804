//! The SpecTec abstract-syntax catalog: one sum type per production of
//! the specification language, each with its acceptance condition, its
//! decode relation, and its decoder against the s-expression tree.

use vstd::prelude::*;

use crate::decode::Decode;
use crate::decode::DecodeError;
use crate::decode::bool_text_ok;
use crate::decode::bool_text_val;
use crate::decode::clone_item;
use crate::decode::i64_text_ok;
use crate::decode::i64_text_val;
use crate::decode::text_is;
use crate::decode::u64_text_ok;
use crate::decode::u64_text_val;
use crate::sexpr::SExprItem;

verus! {

broadcast use vstd::string::group_string_axioms;

/// A mix-fix operator shape: the text fragments of an operator, split on
/// the percent signs that stand for its operands.
/// <https://github.com/WebAssembly/spec/blob/9479f1d0760494a93fcc73f7cf94c211ac91eec7/spectec/src/backend-ast/print.ml#L14>
#[derive(Debug, PartialEq)]
pub struct MixOp(pub Vec<String>);

/// <https://github.com/WebAssembly/spec/blob/9479f1d0760494a93fcc73f7cf94c211ac91eec7/spectec/src/xl/bool.ml#L9>
#[derive(Debug, PartialEq)]
pub enum SpecTecBoolTyp {
    Bool,
}

/// <https://github.com/WebAssembly/spec/blob/9479f1d0760494a93fcc73f7cf94c211ac91eec7/spectec/src/xl/num.ml#L27>
#[derive(Debug, PartialEq)]
pub enum SpecTecNumTyp {
    Nat,
    Int,
    Rat,
    Real,
}

/// <https://github.com/WebAssembly/spec/blob/9479f1d0760494a93fcc73f7cf94c211ac91eec7/spectec/src/backend-ast/print.ml#19>
#[derive(Debug, PartialEq)]
pub enum SpecTecNum {
    Nat(u64),
    Int(i64),
    Rat(String),
    Real(String),
}

/// <https://github.com/WebAssembly/spec/blob/9479f1d0760494a93fcc73f7cf94c211ac91eec7/spectec/src/backend-ast/print.ml#28>
#[derive(Debug, PartialEq)]
pub enum SpecTecUnOp {
    Not,
    Plus,
    Minus,
    PlusMinus,
    MinusPlus,
}

/// <https://github.com/WebAssembly/spec/blob/9479f1d0760494a93fcc73f7cf94c211ac91eec7/spectec/src/backend-ast/print.ml#35>
#[derive(Debug, PartialEq)]
pub enum SpecTecBinOp {
    And,
    Or,
    Impl,
    Equiv,
    Add,
    Sub,
    Mul,
    Div,
    Mod,
    Pow,
}

/// <https://github.com/WebAssembly/spec/blob/9479f1d0760494a93fcc73f7cf94c211ac91eec7/spectec/src/backend-ast/print.ml#47>
#[derive(Debug, PartialEq)]
pub enum SpecTecCmpOp {
    Eq,
    Ne,
    Lt,
    Gt,
    Le,
    Ge,
}

/// <https://github.com/WebAssembly/spec/blob/9479f1d0760494a93fcc73f7cf94c211ac91eec7/spectec/src/backend-ast/print.ml#58>
#[derive(Debug, PartialEq)]
pub enum SpecTecIter {
    Opt,
    List,
    List1,
    ListN {
        e: Vec<SpecTecExp>,
        xo: Vec<String>,
    },
}

/// <https://github.com/WebAssembly/spec/blob/9479f1d0760494a93fcc73f7cf94c211ac91eec7/spectec/src/backend-ast/print.ml#L70>
#[derive(Debug, PartialEq)]
pub enum SpecTecOpTyp {
    Num(SpecTecNumTyp),
    Bool(SpecTecBoolTyp),
}

/// <https://github.com/WebAssembly/spec/blob/9479f1d0760494a93fcc73f7cf94c211ac91eec7/spectec/src/backend-ast/print.ml#74>
#[derive(Debug, PartialEq)]
pub enum SpecTecTyp {
    Var {
        x: String,
        as1: Vec<SpecTecArg>,
    },
    Bool,
    Num(SpecTecNumTyp),
    Text,
    Tup {
        ets: Vec<SpecTecTypBind>,
    },
    Iter {
        t1: Box<SpecTecTyp>,
        it: Vec<SpecTecIter>,
    },
}

/// <https://github.com/WebAssembly/spec/blob/9479f1d0760494a93fcc73f7cf94c211ac91eec7/spectec/src/backend-ast/print.ml#83>
#[derive(Debug, PartialEq)]
pub enum SpecTecDefTyp {
    Alias {
        typ: SpecTecTyp,
    },
    Struct {
        tfs: Vec<SpecTecTypField>,
    },
    Variant {
        tcs: Vec<SpecTecTypCase>,
    },
}

/// <https://github.com/WebAssembly/spec/blob/9479f1d0760494a93fcc73f7cf94c211ac91eec7/spectec/src/backend-ast/print.ml#89>
#[derive(Debug, PartialEq)]
pub enum SpecTecTypBind {
    Bind {
        exp: SpecTecExp,
        typ: SpecTecTyp,
    },
}

/// <https://github.com/WebAssembly/spec/blob/9479f1d0760494a93fcc73f7cf94c211ac91eec7/spectec/src/backend-ast/print.ml#92>
#[derive(Debug, PartialEq)]
pub enum SpecTecTypField {
    Field {
        at: MixOp,
        bs: Vec<SpecTecBind>,
        t: SpecTecTyp,
        prs: Vec<SpecTecPrem>,
    },
}

/// <https://github.com/WebAssembly/spec/blob/9479f1d0760494a93fcc73f7cf94c211ac91eec7/spectec/src/backend-ast/print.ml#95>
#[derive(Debug, PartialEq)]
pub enum SpecTecTypCase {
    Field {
        op: MixOp,
        bs: Vec<SpecTecBind>,
        t: SpecTecTyp,
        prs: Vec<SpecTecPrem>,
    },
}

/// <https://github.com/WebAssembly/spec/blob/9479f1d0760494a93fcc73f7cf94c211ac91eec7/spectec/src/backend-ast/print.ml#101>
#[derive(Debug, PartialEq)]
pub enum SpecTecExp {
    Var {
        id: String,
    },
    Bool {
        b: bool,
    },
    Num {
        n: SpecTecNum,
    },
    Text {
        t: String,
    },
    Un {
        op: SpecTecUnOp,
        t: SpecTecOpTyp,
        e2: Box<SpecTecExp>,
    },
    Bin {
        op: SpecTecBinOp,
        t: SpecTecOpTyp,
        e1: Box<SpecTecExp>,
        e2: Box<SpecTecExp>,
    },
    Cmp {
        op: SpecTecCmpOp,
        t: SpecTecOpTyp,
        e1: Box<SpecTecExp>,
        e2: Box<SpecTecExp>,
    },
    Idx {
        e1: Box<SpecTecExp>,
        e2: Box<SpecTecExp>,
    },
    Slice {
        e1: Box<SpecTecExp>,
        e2: Box<SpecTecExp>,
        e3: Box<SpecTecExp>,
    },
    Upd {
        e1: Box<SpecTecExp>,
        path: Box<SpecTecPath>,
        e2: Box<SpecTecExp>,
    },
    Ext {
        e1: Box<SpecTecExp>,
        path: Box<SpecTecPath>,
        e2: Box<SpecTecExp>,
    },
    Str {
        efs: Vec<SpecTecExpField>,
    },
    Dot {
        e1: Box<SpecTecExp>,
        at: MixOp,
    },
    Comp {
        e1: Box<SpecTecExp>,
        e2: Box<SpecTecExp>,
    },
    Mem {
        e1: Box<SpecTecExp>,
        e2: Box<SpecTecExp>,
    },
    Len {
        e1: Box<SpecTecExp>,
    },
    Tup {
        es: Vec<SpecTecExp>,
    },
    Call {
        x: String,
        as1: Vec<SpecTecArg>,
    },
    Iter {
        e1: Box<SpecTecExp>,
        it: SpecTecIter,
        xes: Vec<SpecTecIterExp>,
    },
    Proj {
        e1: Box<SpecTecExp>,
        i: i64,
    },
    Case {
        op: MixOp,
        e1: Box<SpecTecExp>,
    },
    Uncase {
        e1: Box<SpecTecExp>,
        op: MixOp,
    },
    Opt {
        eo: Vec<Option<SpecTecExp>>,
    },
    Unopt {
        e1: Box<SpecTecExp>,
    },
    List {
        es: Vec<SpecTecExp>,
    },
    Lift {
        e1: Box<SpecTecExp>,
    },
    Cat {
        e1: Box<SpecTecExp>,
        e2: Box<SpecTecExp>,
    },
    Cvt {
        nt1: String,
        nt2: String,
        e1: Box<SpecTecExp>,
    },
    Sub {
        t1: SpecTecTyp,
        t2: SpecTecTyp,
        e1: Box<SpecTecExp>,
    },
}

/// <https://github.com/WebAssembly/spec/blob/9479f1d0760494a93fcc73f7cf94c211ac91eec7/spectec/src/backend-ast/print.ml#133>
#[derive(Debug, PartialEq)]
pub enum SpecTecExpField {
    Field {
        at: MixOp,
        e: SpecTecExp,
    },
}

/// <https://github.com/WebAssembly/spec/blob/9479f1d0760494a93fcc73f7cf94c211ac91eec7/spectec/src/backend-ast/print.ml#136>
#[derive(Debug, PartialEq)]
pub enum SpecTecPath {
    Root,
    Idx {
        p1: Box<SpecTecPath>,
        e: SpecTecExp,
    },
    Slice {
        p1: Box<SpecTecPath>,
        e1: SpecTecExp,
        e2: SpecTecExp,
    },
    Dot {
        p1: Box<SpecTecPath>,
        at: MixOp,
    },
}

/// <https://github.com/WebAssembly/spec/blob/9479f1d0760494a93fcc73f7cf94c211ac91eec7/spectec/src/backend-ast/print.ml#143>
#[derive(Debug, PartialEq)]
pub enum SpecTecIterExp {
    Dom {
        x: String,
        e: SpecTecExp,
    },
}

/// <https://github.com/WebAssembly/spec/blob/9479f1d0760494a93fcc73f7cf94c211ac91eec7/spectec/src/backend-ast/print.ml#L149>
#[derive(Debug, PartialEq)]
pub enum SpecTecSym {
    Var {
        x: String,
        as1: Vec<SpecTecArg>,
    },
    Num {
        n: i64,
    },
    Text {
        t: String,
    },
    Eps,
    Sequence {
        gs: Box<SpecTecSym>,
    },
    Alt {
        gs: Box<SpecTecSym>,
    },
    Range {
        g1: Box<SpecTecSym>,
        g2: Box<SpecTecSym>,
    },
    Iter {
        g1: Box<SpecTecSym>,
        it: SpecTecIter,
        xes: Vec<SpecTecIterExp>,
    },
    Attr {
        e: SpecTecExp,
        g1: Box<SpecTecSym>,
    },
}

/// <https://github.com/WebAssembly/spec/blob/9479f1d0760494a93fcc73f7cf94c211ac91eec7/spectec/src/backend-ast/print.ml#L164>
#[derive(Debug, PartialEq)]
pub enum SpecTecPrem {
    Rule {
        x: String,
        op: MixOp,
        e: SpecTecExp,
    },
    If {
        e: SpecTecExp,
    },
    Let {
        e1: SpecTecExp,
        e2: SpecTecExp,
    },
    Else,
    Iter {
        pr1: Box<SpecTecPrem>,
        it: SpecTecIter,
        xes: Vec<SpecTecIterExp>,
    },
}

/// <https://github.com/WebAssembly/spec/blob/9479f1d0760494a93fcc73f7cf94c211ac91eec7/spectec/src/backend-ast/print.ml#L175>
#[derive(Debug, PartialEq)]
pub enum SpecTecArg {
    Exp {
        e: SpecTecExp,
    },
    Typ {
        t: SpecTecTyp,
    },
    Def {
        x: String,
    },
    Gram {
        g: SpecTecSym,
    },
}

/// <https://github.com/WebAssembly/spec/blob/9479f1d0760494a93fcc73f7cf94c211ac91eec7/spectec/src/backend-ast/print.ml#L182>
#[derive(Debug, PartialEq)]
pub enum SpecTecBind {
    Exp {
        x: String,
        t: SpecTecTyp,
    },
    Typ {
        x: String,
    },
    Def {
        x: String,
        ps: Vec<SpecTecParam>,
        t: SpecTecTyp,
    },
    Gram {
        x: String,
        ps: Vec<SpecTecParam>,
        t: SpecTecTyp,
    },
}

/// <https://github.com/WebAssembly/spec/blob/9479f1d0760494a93fcc73f7cf94c211ac91eec7/spectec/src/backend-ast/print.ml#L189>
#[derive(Debug, PartialEq)]
pub enum SpecTecParam {
    Exp {
        x: String,
        t: SpecTecTyp,
    },
    Typ {
        x: String,
    },
    Def {
        x: String,
        ps: Vec<SpecTecParam>,
        t: SpecTecTyp,
    },
    Gram {
        x: String,
        t: SpecTecTyp,
    },
}

/// <https://github.com/WebAssembly/spec/blob/9479f1d0760494a93fcc73f7cf94c211ac91eec7/spectec/src/backend-ast/print.ml#L196>
#[derive(Debug, PartialEq)]
pub enum SpecTecInst {
    Inst {
        bs: Vec<SpecTecBind>,
        as_: Vec<SpecTecArg>,
        dt: SpecTecDefTyp,
    },
}

/// <https://github.com/WebAssembly/spec/blob/9479f1d0760494a93fcc73f7cf94c211ac91eec7/spectec/src/backend-ast/print.ml#L201>
#[derive(Debug, PartialEq)]
pub enum SpecTecRule {
    Rule {
        x: String,
        bs: Vec<SpecTecBind>,
        op: MixOp,
        e: SpecTecExp,
        prs: Vec<SpecTecPrem>,
    },
}

/// <https://github.com/WebAssembly/spec/blob/9479f1d0760494a93fcc73f7cf94c211ac91eec7/spectec/src/backend-ast/print.ml#L206>
#[derive(Debug, PartialEq)]
pub enum SpecTecClause {
    Clause {
        bs: Vec<SpecTecBind>,
        as_: Vec<SpecTecArg>,
        e: SpecTecExp,
        prs: Vec<SpecTecPrem>,
    },
}

/// <https://github.com/WebAssembly/spec/blob/9479f1d0760494a93fcc73f7cf94c211ac91eec7/spectec/src/backend-ast/print.ml#L211>
#[derive(Debug, PartialEq)]
pub enum SpecTecProd {
    Prod {
        bs: Vec<SpecTecBind>,
        g: SpecTecSym,
        e: SpecTecExp,
        prs: Vec<SpecTecPrem>,
    },
}

/// <https://github.com/WebAssembly/spec/blob/9479f1d0760494a93fcc73f7cf94c211ac91eec7/spectec/src/backend-ast/print.ml#L216>
#[derive(Debug, PartialEq)]
pub enum SpecTecDef {
    Typ {
        x: String,
        ps: Vec<SpecTecParam>,
        insts: Vec<SpecTecInst>,
    },
    Rel {
        x: String,
        op: MixOp,
        t: SpecTecTyp,
        rules: Vec<SpecTecRule>,
    },
    Dec {
        x: String,
        ps: Vec<SpecTecParam>,
        t: SpecTecTyp,
        clauses: Vec<SpecTecClause>,
    },
    Gram {
        x: String,
        ps: Vec<SpecTecParam>,
        t: SpecTecTyp,
        prods: Vec<SpecTecProd>,
    },
    Rec {
        ds: Vec<SpecTecDef>,
    },
}

/// The first position at or after `i` that holds a percent sign, or the
/// end of `s`.
pub open spec fn pct_end(s: Seq<char>, i: int) -> int
    decreases s.len() - i,
{
    if 0 <= i < s.len() && s[i] != '%' {
        pct_end(s, i + 1)
    } else {
        i
    }
}

/// Bounds of [`pct_end`], and that it lands on a percent sign or the end.
pub proof fn pct_end_props(s: Seq<char>, i: int)
    requires
        0 <= i <= s.len(),
    ensures
        i <= pct_end(s, i) <= s.len(),
        pct_end(s, i) < s.len() ==> s[pct_end(s, i)] == '%',
    decreases s.len() - i,
{
    if i < s.len() && s[i] != '%' {
        pct_end_props(s, i + 1);
    }
}

/// The fragments of `s` from `i` on, split at every percent sign.  A
/// trailing or leading percent sign yields an empty fragment, as does an
/// empty input.
pub open spec fn split_percent_from(s: Seq<char>, i: int) -> Seq<Seq<char>>
    decreases s.len() - i,
    via split_percent_decreases
{
    let k = pct_end(s, i);
    if k >= s.len() {
        seq![s.subrange(i, s.len() as int)]
    } else {
        seq![s.subrange(i, k)] + split_percent_from(s, k + 1)
    }
}

#[via_fn]
proof fn split_percent_decreases(s: Seq<char>, i: int) {
    if 0 <= i <= s.len() {
        pct_end_props(s, i);
    }
}

/// The fragments of `s`, split at every percent sign.
pub open spec fn split_percent(s: Seq<char>) -> Seq<Seq<char>> {
    split_percent_from(s, 0)
}

/// The views of a sequence of strings, in order.
pub open spec fn str_seq_view(ss: Seq<String>) -> Seq<Seq<char>> {
    Seq::new(ss.len(), |i: int| ss[i]@)
}

/// Whether an item decodes as `MixOp`: any text literal does.
pub open spec fn accepts_mix(item: SExprItem) -> bool {
    item is Text
}

/// Whether decoding an item as `MixOp` produces `v`: the text split on
/// percent signs.
pub open spec fn rel_mix(item: SExprItem, v: MixOp) -> bool {
    item matches SExprItem::Text(t) && str_seq_view(v.0@) == split_percent(t@)
}

/// Splits the characters of `cs` from `start` on at every percent sign.
#[verifier::loop_isolation(false)]
fn split_percent_exec(cs: &Vec<char>, start: usize) -> (r: Vec<String>)
    requires
        start <= cs@.len(),
    ensures
        str_seq_view(r@) == split_percent_from(cs@, start as int),
    decreases cs@.len() - start,
{
    let n = cs.len();
    let mut k = start;
    while k < n && cs[k] != '%'
        invariant
            start <= k <= n,
            pct_end(cs@, k as int) == pct_end(cs@, start as int),
        decreases n - k,
    {
        k = k + 1;
    }
    let mut frag = String::new();
    let mut j = start;
    while j < k
        invariant
            start <= j <= k <= n,
            frag@ == cs@.subrange(start as int, j as int),
        decreases k - j,
    {
        proof {
            assert(cs@.subrange(start as int, j + 1) =~= cs@.subrange(start as int, j as int).push(
                cs@[j as int],
            ));
        }
        crate::reader::push_char(&mut frag, cs[j]);
        j = j + 1;
    }
    if k >= n {
        let mut out: Vec<String> = Vec::new();
        out.push(frag);
        proof {
            assert(str_seq_view(out@) =~= split_percent_from(cs@, start as int));
        }
        out
    } else {
        let mut rest = split_percent_exec(cs, k + 1);
        let ghost rest0 = rest@;
        let mut out: Vec<String> = Vec::new();
        out.push(frag);
        out.append(&mut rest);
        proof {
            assert(str_seq_view(out@) =~= seq![cs@.subrange(start as int, k as int)]
                + str_seq_view(rest0));
            assert(str_seq_view(out@) =~= split_percent_from(cs@, start as int));
        }
        out
    }
}

/// Decodes one item as `MixOp`: the text split on percent signs; atoms
/// and nodes are rejected.
fn decode_mix(item: &SExprItem) -> (r: Result<MixOp, DecodeError>)
    ensures
        r is Ok <==> accepts_mix(*item),
        r matches Ok(v) ==> rel_mix(*item, v),
{
    match item {
        SExprItem::Text(t) => {
            let cs = crate::reader::chars_of(t.as_str());
            let parts = split_percent_exec(&cs, 0);
            Ok(MixOp(parts))
        },
        _ => Err(
            DecodeError::UnexpectedItem(clone_item(item)).with_context("while decoding MixOp"),
        ),
    }
}

impl Decode for MixOp {
    open spec fn accepts(item: SExprItem) -> bool {
        accepts_mix(item)
    }

    open spec fn decodes(item: SExprItem, v: Self) -> bool {
        rel_mix(item, v)
    }

    fn can_decode(item: &SExprItem) -> (r: bool) {
        match item {
            SExprItem::Text(_) => true,
            _ => false,
        }
    }

    fn decode(item: &SExprItem) -> (r: Result<Self, DecodeError>) {
        decode_mix(item)
    }
}

/// Whether decoding an item as an optional expression produces `v`: as a
/// stream element, an optional value is present exactly when the item
/// decodes as an expression.
pub open spec fn rel_opt_exp(item: SExprItem, v: Option<SpecTecExp>) -> bool
    decreases item, 0int, 2int,
{
    v matches Some(x) && rel_exp(item, x)
}

/// The end of the maximal run of items from `i` that decode as `SpecTecExp`.
pub open spec fn run_end_exp(s: Seq<SExprItem>, i: int) -> int
    decreases s, (if i < 0 || i > s.len() { 0int } else { s.len() - i }), 0int,
{
    if 0 <= i < s.len() && accepts_exp(s[i]) {
        run_end_exp(s, i + 1)
    } else {
        i
    }
}

/// Whether `vs` is exactly the decoded maximal run of `SpecTecExp` items
/// starting at `i`.
pub open spec fn list_rel_exp(s: Seq<SExprItem>, i: int, vs: Seq<SpecTecExp>) -> bool
    decreases s, s.len() + 1, 0int,
{
    vs.len() == run_end_exp(s, i) - i && forall|k: int|
        0 <= k < vs.len() && 0 <= i + k < s.len() ==> rel_exp(s[i + k], #[trigger] vs[k])
}

/// The end of the maximal run of items from `i` that decode as `String`.
pub open spec fn run_end_str(s: Seq<SExprItem>, i: int) -> int
    decreases s, (if i < 0 || i > s.len() { 0int } else { s.len() - i }), 0int,
{
    if 0 <= i < s.len() && <String as Decode>::accepts(s[i]) {
        run_end_str(s, i + 1)
    } else {
        i
    }
}

/// Whether `vs` is exactly the decoded maximal run of `String` items
/// starting at `i`.
pub open spec fn list_rel_str(s: Seq<SExprItem>, i: int, vs: Seq<String>) -> bool
    decreases s, s.len() + 1, 0int,
{
    vs.len() == run_end_str(s, i) - i && forall|k: int|
        0 <= k < vs.len() && 0 <= i + k < s.len() ==> <String as Decode>::decodes(s[i + k], #[trigger] vs[k])
}

/// The end of the maximal run of items from `i` that decode as `SpecTecArg`.
pub open spec fn run_end_arg(s: Seq<SExprItem>, i: int) -> int
    decreases s, (if i < 0 || i > s.len() { 0int } else { s.len() - i }), 0int,
{
    if 0 <= i < s.len() && accepts_arg(s[i]) {
        run_end_arg(s, i + 1)
    } else {
        i
    }
}

/// Whether `vs` is exactly the decoded maximal run of `SpecTecArg` items
/// starting at `i`.
pub open spec fn list_rel_arg(s: Seq<SExprItem>, i: int, vs: Seq<SpecTecArg>) -> bool
    decreases s, s.len() + 1, 0int,
{
    vs.len() == run_end_arg(s, i) - i && forall|k: int|
        0 <= k < vs.len() && 0 <= i + k < s.len() ==> rel_arg(s[i + k], #[trigger] vs[k])
}

/// The end of the maximal run of items from `i` that decode as `SpecTecTypBind`.
pub open spec fn run_end_typbind(s: Seq<SExprItem>, i: int) -> int
    decreases s, (if i < 0 || i > s.len() { 0int } else { s.len() - i }), 0int,
{
    if 0 <= i < s.len() && accepts_typbind(s[i]) {
        run_end_typbind(s, i + 1)
    } else {
        i
    }
}

/// Whether `vs` is exactly the decoded maximal run of `SpecTecTypBind` items
/// starting at `i`.
pub open spec fn list_rel_typbind(s: Seq<SExprItem>, i: int, vs: Seq<SpecTecTypBind>) -> bool
    decreases s, s.len() + 1, 0int,
{
    vs.len() == run_end_typbind(s, i) - i && forall|k: int|
        0 <= k < vs.len() && 0 <= i + k < s.len() ==> rel_typbind(s[i + k], #[trigger] vs[k])
}

/// The end of the maximal run of items from `i` that decode as `SpecTecIter`.
pub open spec fn run_end_iter(s: Seq<SExprItem>, i: int) -> int
    decreases s, (if i < 0 || i > s.len() { 0int } else { s.len() - i }), 0int,
{
    if 0 <= i < s.len() && accepts_iter(s[i]) {
        run_end_iter(s, i + 1)
    } else {
        i
    }
}

/// Whether `vs` is exactly the decoded maximal run of `SpecTecIter` items
/// starting at `i`.
pub open spec fn list_rel_iter(s: Seq<SExprItem>, i: int, vs: Seq<SpecTecIter>) -> bool
    decreases s, s.len() + 1, 0int,
{
    vs.len() == run_end_iter(s, i) - i && forall|k: int|
        0 <= k < vs.len() && 0 <= i + k < s.len() ==> rel_iter(s[i + k], #[trigger] vs[k])
}

/// The end of the maximal run of items from `i` that decode as `SpecTecTypField`.
pub open spec fn run_end_typfield(s: Seq<SExprItem>, i: int) -> int
    decreases s, (if i < 0 || i > s.len() { 0int } else { s.len() - i }), 0int,
{
    if 0 <= i < s.len() && accepts_typfield(s[i]) {
        run_end_typfield(s, i + 1)
    } else {
        i
    }
}

/// Whether `vs` is exactly the decoded maximal run of `SpecTecTypField` items
/// starting at `i`.
pub open spec fn list_rel_typfield(s: Seq<SExprItem>, i: int, vs: Seq<SpecTecTypField>) -> bool
    decreases s, s.len() + 1, 0int,
{
    vs.len() == run_end_typfield(s, i) - i && forall|k: int|
        0 <= k < vs.len() && 0 <= i + k < s.len() ==> rel_typfield(s[i + k], #[trigger] vs[k])
}

/// The end of the maximal run of items from `i` that decode as `SpecTecTypCase`.
pub open spec fn run_end_typcase(s: Seq<SExprItem>, i: int) -> int
    decreases s, (if i < 0 || i > s.len() { 0int } else { s.len() - i }), 0int,
{
    if 0 <= i < s.len() && accepts_typcase(s[i]) {
        run_end_typcase(s, i + 1)
    } else {
        i
    }
}

/// Whether `vs` is exactly the decoded maximal run of `SpecTecTypCase` items
/// starting at `i`.
pub open spec fn list_rel_typcase(s: Seq<SExprItem>, i: int, vs: Seq<SpecTecTypCase>) -> bool
    decreases s, s.len() + 1, 0int,
{
    vs.len() == run_end_typcase(s, i) - i && forall|k: int|
        0 <= k < vs.len() && 0 <= i + k < s.len() ==> rel_typcase(s[i + k], #[trigger] vs[k])
}

/// The end of the maximal run of items from `i` that decode as `SpecTecBind`.
pub open spec fn run_end_bind(s: Seq<SExprItem>, i: int) -> int
    decreases s, (if i < 0 || i > s.len() { 0int } else { s.len() - i }), 0int,
{
    if 0 <= i < s.len() && accepts_bind(s[i]) {
        run_end_bind(s, i + 1)
    } else {
        i
    }
}

/// Whether `vs` is exactly the decoded maximal run of `SpecTecBind` items
/// starting at `i`.
pub open spec fn list_rel_bind(s: Seq<SExprItem>, i: int, vs: Seq<SpecTecBind>) -> bool
    decreases s, s.len() + 1, 0int,
{
    vs.len() == run_end_bind(s, i) - i && forall|k: int|
        0 <= k < vs.len() && 0 <= i + k < s.len() ==> rel_bind(s[i + k], #[trigger] vs[k])
}

/// The end of the maximal run of items from `i` that decode as `SpecTecPrem`.
pub open spec fn run_end_prem(s: Seq<SExprItem>, i: int) -> int
    decreases s, (if i < 0 || i > s.len() { 0int } else { s.len() - i }), 0int,
{
    if 0 <= i < s.len() && accepts_prem(s[i]) {
        run_end_prem(s, i + 1)
    } else {
        i
    }
}

/// Whether `vs` is exactly the decoded maximal run of `SpecTecPrem` items
/// starting at `i`.
pub open spec fn list_rel_prem(s: Seq<SExprItem>, i: int, vs: Seq<SpecTecPrem>) -> bool
    decreases s, s.len() + 1, 0int,
{
    vs.len() == run_end_prem(s, i) - i && forall|k: int|
        0 <= k < vs.len() && 0 <= i + k < s.len() ==> rel_prem(s[i + k], #[trigger] vs[k])
}

/// The end of the maximal run of items from `i` that decode as `SpecTecExpField`.
pub open spec fn run_end_expfield(s: Seq<SExprItem>, i: int) -> int
    decreases s, (if i < 0 || i > s.len() { 0int } else { s.len() - i }), 0int,
{
    if 0 <= i < s.len() && accepts_expfield(s[i]) {
        run_end_expfield(s, i + 1)
    } else {
        i
    }
}

/// Whether `vs` is exactly the decoded maximal run of `SpecTecExpField` items
/// starting at `i`.
pub open spec fn list_rel_expfield(s: Seq<SExprItem>, i: int, vs: Seq<SpecTecExpField>) -> bool
    decreases s, s.len() + 1, 0int,
{
    vs.len() == run_end_expfield(s, i) - i && forall|k: int|
        0 <= k < vs.len() && 0 <= i + k < s.len() ==> rel_expfield(s[i + k], #[trigger] vs[k])
}

/// The end of the maximal run of items from `i` that decode as `SpecTecIterExp`.
pub open spec fn run_end_iterexp(s: Seq<SExprItem>, i: int) -> int
    decreases s, (if i < 0 || i > s.len() { 0int } else { s.len() - i }), 0int,
{
    if 0 <= i < s.len() && accepts_iterexp(s[i]) {
        run_end_iterexp(s, i + 1)
    } else {
        i
    }
}

/// Whether `vs` is exactly the decoded maximal run of `SpecTecIterExp` items
/// starting at `i`.
pub open spec fn list_rel_iterexp(s: Seq<SExprItem>, i: int, vs: Seq<SpecTecIterExp>) -> bool
    decreases s, s.len() + 1, 0int,
{
    vs.len() == run_end_iterexp(s, i) - i && forall|k: int|
        0 <= k < vs.len() && 0 <= i + k < s.len() ==> rel_iterexp(s[i + k], #[trigger] vs[k])
}

/// The end of the maximal run of items from `i` that decode as `Option<SpecTecExp>`.
pub open spec fn run_end_optexp(s: Seq<SExprItem>, i: int) -> int
    decreases s, (if i < 0 || i > s.len() { 0int } else { s.len() - i }), 0int,
{
    if 0 <= i < s.len() && accepts_exp(s[i]) {
        run_end_optexp(s, i + 1)
    } else {
        i
    }
}

/// Whether `vs` is exactly the decoded maximal run of `Option<SpecTecExp>` items
/// starting at `i`.
pub open spec fn list_rel_optexp(s: Seq<SExprItem>, i: int, vs: Seq<Option<SpecTecExp>>) -> bool
    decreases s, s.len() + 1, 0int,
{
    vs.len() == run_end_optexp(s, i) - i && forall|k: int|
        0 <= k < vs.len() && 0 <= i + k < s.len() ==> rel_opt_exp(s[i + k], #[trigger] vs[k])
}

/// The end of the maximal run of items from `i` that decode as `SpecTecParam`.
pub open spec fn run_end_param(s: Seq<SExprItem>, i: int) -> int
    decreases s, (if i < 0 || i > s.len() { 0int } else { s.len() - i }), 0int,
{
    if 0 <= i < s.len() && accepts_param(s[i]) {
        run_end_param(s, i + 1)
    } else {
        i
    }
}

/// Whether `vs` is exactly the decoded maximal run of `SpecTecParam` items
/// starting at `i`.
pub open spec fn list_rel_param(s: Seq<SExprItem>, i: int, vs: Seq<SpecTecParam>) -> bool
    decreases s, s.len() + 1, 0int,
{
    vs.len() == run_end_param(s, i) - i && forall|k: int|
        0 <= k < vs.len() && 0 <= i + k < s.len() ==> rel_param(s[i + k], #[trigger] vs[k])
}

/// The end of the maximal run of items from `i` that decode as `SpecTecInst`.
pub open spec fn run_end_inst(s: Seq<SExprItem>, i: int) -> int
    decreases s, (if i < 0 || i > s.len() { 0int } else { s.len() - i }), 0int,
{
    if 0 <= i < s.len() && accepts_inst(s[i]) {
        run_end_inst(s, i + 1)
    } else {
        i
    }
}

/// Whether `vs` is exactly the decoded maximal run of `SpecTecInst` items
/// starting at `i`.
pub open spec fn list_rel_inst(s: Seq<SExprItem>, i: int, vs: Seq<SpecTecInst>) -> bool
    decreases s, s.len() + 1, 0int,
{
    vs.len() == run_end_inst(s, i) - i && forall|k: int|
        0 <= k < vs.len() && 0 <= i + k < s.len() ==> rel_inst(s[i + k], #[trigger] vs[k])
}

/// The end of the maximal run of items from `i` that decode as `SpecTecRule`.
pub open spec fn run_end_rule(s: Seq<SExprItem>, i: int) -> int
    decreases s, (if i < 0 || i > s.len() { 0int } else { s.len() - i }), 0int,
{
    if 0 <= i < s.len() && accepts_rule(s[i]) {
        run_end_rule(s, i + 1)
    } else {
        i
    }
}

/// Whether `vs` is exactly the decoded maximal run of `SpecTecRule` items
/// starting at `i`.
pub open spec fn list_rel_rule(s: Seq<SExprItem>, i: int, vs: Seq<SpecTecRule>) -> bool
    decreases s, s.len() + 1, 0int,
{
    vs.len() == run_end_rule(s, i) - i && forall|k: int|
        0 <= k < vs.len() && 0 <= i + k < s.len() ==> rel_rule(s[i + k], #[trigger] vs[k])
}

/// The end of the maximal run of items from `i` that decode as `SpecTecClause`.
pub open spec fn run_end_clause(s: Seq<SExprItem>, i: int) -> int
    decreases s, (if i < 0 || i > s.len() { 0int } else { s.len() - i }), 0int,
{
    if 0 <= i < s.len() && accepts_clause(s[i]) {
        run_end_clause(s, i + 1)
    } else {
        i
    }
}

/// Whether `vs` is exactly the decoded maximal run of `SpecTecClause` items
/// starting at `i`.
pub open spec fn list_rel_clause(s: Seq<SExprItem>, i: int, vs: Seq<SpecTecClause>) -> bool
    decreases s, s.len() + 1, 0int,
{
    vs.len() == run_end_clause(s, i) - i && forall|k: int|
        0 <= k < vs.len() && 0 <= i + k < s.len() ==> rel_clause(s[i + k], #[trigger] vs[k])
}

/// The end of the maximal run of items from `i` that decode as `SpecTecProd`.
pub open spec fn run_end_prod(s: Seq<SExprItem>, i: int) -> int
    decreases s, (if i < 0 || i > s.len() { 0int } else { s.len() - i }), 0int,
{
    if 0 <= i < s.len() && accepts_prod(s[i]) {
        run_end_prod(s, i + 1)
    } else {
        i
    }
}

/// Whether `vs` is exactly the decoded maximal run of `SpecTecProd` items
/// starting at `i`.
pub open spec fn list_rel_prod(s: Seq<SExprItem>, i: int, vs: Seq<SpecTecProd>) -> bool
    decreases s, s.len() + 1, 0int,
{
    vs.len() == run_end_prod(s, i) - i && forall|k: int|
        0 <= k < vs.len() && 0 <= i + k < s.len() ==> rel_prod(s[i + k], #[trigger] vs[k])
}

/// The end of the maximal run of items from `i` that decode as `SpecTecDef`.
pub open spec fn run_end_def(s: Seq<SExprItem>, i: int) -> int
    decreases s, (if i < 0 || i > s.len() { 0int } else { s.len() - i }), 0int,
{
    if 0 <= i < s.len() && accepts_def(s[i]) {
        run_end_def(s, i + 1)
    } else {
        i
    }
}

/// Whether `vs` is exactly the decoded maximal run of `SpecTecDef` items
/// starting at `i`.
pub open spec fn list_rel_def(s: Seq<SExprItem>, i: int, vs: Seq<SpecTecDef>) -> bool
    decreases s, s.len() + 1, 0int,
{
    vs.len() == run_end_def(s, i) - i && forall|k: int|
        0 <= k < vs.len() && 0 <= i + k < s.len() ==> rel_def(s[i + k], #[trigger] vs[k])
}

/// Whether an item decodes as `SpecTecBoolTyp`.
pub open spec fn accepts_booltyp(item: SExprItem) -> bool
    decreases item, 0int, 0int,
{
    match item {
        SExprItem::Atom(t) => t@ == "bool"@,
        SExprItem::Node(_, _) => false,
        _ => false,
    }
}

/// Whether decoding an item as `SpecTecBoolTyp` produces `v`.
pub open spec fn rel_booltyp(item: SExprItem, v: SpecTecBoolTyp) -> bool
    decreases item, 0int, 1int,
{
    match v {
        SpecTecBoolTyp::Bool => item matches SExprItem::Atom(t) && t@ == "bool"@,
    }
}

/// Whether an item decodes as `SpecTecNumTyp`.
pub open spec fn accepts_numtyp(item: SExprItem) -> bool
    decreases item, 0int, 0int,
{
    match item {
        SExprItem::Atom(t) => t@ == "nat"@ || t@ == "int"@ || t@ == "rat"@ || t@ == "real"@,
        SExprItem::Node(_, _) => false,
        _ => false,
    }
}

/// Whether decoding an item as `SpecTecNumTyp` produces `v`.
pub open spec fn rel_numtyp(item: SExprItem, v: SpecTecNumTyp) -> bool
    decreases item, 0int, 1int,
{
    match v {
        SpecTecNumTyp::Nat => item matches SExprItem::Atom(t) && t@ == "nat"@,
        SpecTecNumTyp::Int => item matches SExprItem::Atom(t) && t@ == "int"@,
        SpecTecNumTyp::Rat => item matches SExprItem::Atom(t) && t@ == "rat"@,
        SpecTecNumTyp::Real => item matches SExprItem::Atom(t) && t@ == "real"@,
    }
}

/// Whether an item decodes as `SpecTecNum`.
pub open spec fn accepts_num(item: SExprItem) -> bool
    decreases item, 0int, 0int,
{
    match item {
        SExprItem::Atom(_) => false,
        SExprItem::Node(name, ch) => {
            (name@ == "nat"@ && {
                let ix1 = 0int + 1;
                (0int < ch@.len() && <u64 as Decode>::accepts(ch@[0int])) && ix1 == ch@.len()
            })
            || (name@ == "int"@ && {
                let ix1 = 0int + 1;
                (0int < ch@.len() && <i64 as Decode>::accepts(ch@[0int])) && ix1 == ch@.len()
            })
            || (name@ == "rat"@ && {
                let ix1 = 0int + 1;
                (0int < ch@.len() && <String as Decode>::accepts(ch@[0int])) && ix1 == ch@.len()
            })
            || (name@ == "real"@ && {
                let ix1 = 0int + 1;
                (0int < ch@.len() && <String as Decode>::accepts(ch@[0int])) && ix1 == ch@.len()
            })
        },
        _ => false,
    }
}

/// Whether decoding an item as `SpecTecNum` produces `v`.
pub open spec fn rel_num(item: SExprItem, v: SpecTecNum) -> bool
    decreases item, 0int, 1int,
{
    match v {
        SpecTecNum::Nat(b0) => item matches SExprItem::Node(name, ch) && name@ == "nat"@ && {
            let ix1 = 0int + 1;
            (0int < ch@.len() && <u64 as Decode>::decodes(ch@[0int], b0)) && ix1 == ch@.len()
        },
        SpecTecNum::Int(b0) => item matches SExprItem::Node(name, ch) && name@ == "int"@ && {
            let ix1 = 0int + 1;
            (0int < ch@.len() && <i64 as Decode>::decodes(ch@[0int], b0)) && ix1 == ch@.len()
        },
        SpecTecNum::Rat(b0) => item matches SExprItem::Node(name, ch) && name@ == "rat"@ && {
            let ix1 = 0int + 1;
            (0int < ch@.len() && <String as Decode>::decodes(ch@[0int], b0)) && ix1 == ch@.len()
        },
        SpecTecNum::Real(b0) => item matches SExprItem::Node(name, ch) && name@ == "real"@ && {
            let ix1 = 0int + 1;
            (0int < ch@.len() && <String as Decode>::decodes(ch@[0int], b0)) && ix1 == ch@.len()
        },
    }
}

/// Whether an item decodes as `SpecTecUnOp`.
pub open spec fn accepts_unop(item: SExprItem) -> bool
    decreases item, 0int, 0int,
{
    match item {
        SExprItem::Atom(t) => t@ == "not"@ || t@ == "plus"@ || t@ == "minus"@ || t@ == "plusminus"@ || t@ == "minusplus"@,
        SExprItem::Node(_, _) => false,
        _ => false,
    }
}

/// Whether decoding an item as `SpecTecUnOp` produces `v`.
pub open spec fn rel_unop(item: SExprItem, v: SpecTecUnOp) -> bool
    decreases item, 0int, 1int,
{
    match v {
        SpecTecUnOp::Not => item matches SExprItem::Atom(t) && t@ == "not"@,
        SpecTecUnOp::Plus => item matches SExprItem::Atom(t) && t@ == "plus"@,
        SpecTecUnOp::Minus => item matches SExprItem::Atom(t) && t@ == "minus"@,
        SpecTecUnOp::PlusMinus => item matches SExprItem::Atom(t) && t@ == "plusminus"@,
        SpecTecUnOp::MinusPlus => item matches SExprItem::Atom(t) && t@ == "minusplus"@,
    }
}

/// Whether an item decodes as `SpecTecBinOp`.
pub open spec fn accepts_binop(item: SExprItem) -> bool
    decreases item, 0int, 0int,
{
    match item {
        SExprItem::Atom(t) => t@ == "and"@ || t@ == "or"@ || t@ == "impl"@ || t@ == "equiv"@ || t@ == "add"@ || t@ == "sub"@ || t@ == "mul"@ || t@ == "div"@ || t@ == "mod"@ || t@ == "pow"@,
        SExprItem::Node(_, _) => false,
        _ => false,
    }
}

/// Whether decoding an item as `SpecTecBinOp` produces `v`.
pub open spec fn rel_binop(item: SExprItem, v: SpecTecBinOp) -> bool
    decreases item, 0int, 1int,
{
    match v {
        SpecTecBinOp::And => item matches SExprItem::Atom(t) && t@ == "and"@,
        SpecTecBinOp::Or => item matches SExprItem::Atom(t) && t@ == "or"@,
        SpecTecBinOp::Impl => item matches SExprItem::Atom(t) && t@ == "impl"@,
        SpecTecBinOp::Equiv => item matches SExprItem::Atom(t) && t@ == "equiv"@,
        SpecTecBinOp::Add => item matches SExprItem::Atom(t) && t@ == "add"@,
        SpecTecBinOp::Sub => item matches SExprItem::Atom(t) && t@ == "sub"@,
        SpecTecBinOp::Mul => item matches SExprItem::Atom(t) && t@ == "mul"@,
        SpecTecBinOp::Div => item matches SExprItem::Atom(t) && t@ == "div"@,
        SpecTecBinOp::Mod => item matches SExprItem::Atom(t) && t@ == "mod"@,
        SpecTecBinOp::Pow => item matches SExprItem::Atom(t) && t@ == "pow"@,
    }
}

/// Whether an item decodes as `SpecTecCmpOp`.
pub open spec fn accepts_cmpop(item: SExprItem) -> bool
    decreases item, 0int, 0int,
{
    match item {
        SExprItem::Atom(t) => t@ == "eq"@ || t@ == "ne"@ || t@ == "lt"@ || t@ == "gt"@ || t@ == "le"@ || t@ == "ge"@,
        SExprItem::Node(_, _) => false,
        _ => false,
    }
}

/// Whether decoding an item as `SpecTecCmpOp` produces `v`.
pub open spec fn rel_cmpop(item: SExprItem, v: SpecTecCmpOp) -> bool
    decreases item, 0int, 1int,
{
    match v {
        SpecTecCmpOp::Eq => item matches SExprItem::Atom(t) && t@ == "eq"@,
        SpecTecCmpOp::Ne => item matches SExprItem::Atom(t) && t@ == "ne"@,
        SpecTecCmpOp::Lt => item matches SExprItem::Atom(t) && t@ == "lt"@,
        SpecTecCmpOp::Gt => item matches SExprItem::Atom(t) && t@ == "gt"@,
        SpecTecCmpOp::Le => item matches SExprItem::Atom(t) && t@ == "le"@,
        SpecTecCmpOp::Ge => item matches SExprItem::Atom(t) && t@ == "ge"@,
    }
}

/// Whether an item decodes as `SpecTecIter`.
pub open spec fn accepts_iter(item: SExprItem) -> bool
    decreases item, 0int, 0int,
{
    match item {
        SExprItem::Atom(t) => t@ == "opt"@ || t@ == "list"@ || t@ == "list1"@,
        SExprItem::Node(name, ch) => {
            (name@ == "listn"@ && {
                let ix1 = run_end_exp(ch@, 0int);
                let ix2 = run_end_str(ch@, ix1);
                ix2 == ch@.len()
            })
        },
        _ => false,
    }
}

/// Whether decoding an item as `SpecTecIter` produces `v`.
pub open spec fn rel_iter(item: SExprItem, v: SpecTecIter) -> bool
    decreases item, 0int, 1int,
{
    match v {
        SpecTecIter::Opt => item matches SExprItem::Atom(t) && t@ == "opt"@,
        SpecTecIter::List => item matches SExprItem::Atom(t) && t@ == "list"@,
        SpecTecIter::List1 => item matches SExprItem::Atom(t) && t@ == "list1"@,
        SpecTecIter::ListN { e, xo } => item matches SExprItem::Node(name, ch) && name@ == "listn"@ && {
            let ix1 = run_end_exp(ch@, 0int);
            let ix2 = run_end_str(ch@, ix1);
            list_rel_exp(ch@, 0int, e@) && list_rel_str(ch@, ix1, xo@) && ix2 == ch@.len()
        },
    }
}

/// Whether an item decodes as `SpecTecOpTyp`.
pub open spec fn accepts_optyp(item: SExprItem) -> bool
    decreases item, 0int, 2int,
{
    match item {
        SExprItem::Atom(t) => accepts_numtyp(item) || accepts_booltyp(item),
        SExprItem::Node(_, _) => false,
        _ => false,
    }
}

/// Whether decoding an item as `SpecTecOpTyp` produces `v`.
pub open spec fn rel_optyp(item: SExprItem, v: SpecTecOpTyp) -> bool
    decreases item, 0int, 3int,
{
    match v {
        SpecTecOpTyp::Num(b0) => item matches SExprItem::Atom(_) && rel_numtyp(item, b0),
        SpecTecOpTyp::Bool(b0) => item matches SExprItem::Atom(_) && rel_booltyp(item, b0),
    }
}

/// Whether an item decodes as `SpecTecTyp`.
pub open spec fn accepts_typ(item: SExprItem) -> bool
    decreases item, 0int, 2int,
{
    match item {
        SExprItem::Atom(t) => t@ == "bool"@ || t@ == "text"@ || accepts_numtyp(item),
        SExprItem::Node(name, ch) => {
            (name@ == "var"@ && {
                let ix1 = 0int + 1;
                let ix2 = run_end_arg(ch@, ix1);
                (0int < ch@.len() && <String as Decode>::accepts(ch@[0int])) && ix2 == ch@.len()
            })
            || (name@ == "tup"@ && {
                let ix1 = run_end_typbind(ch@, 0int);
                ix1 == ch@.len()
            })
            || (name@ == "iter"@ && {
                let ix1 = 0int + 1;
                let ix2 = run_end_iter(ch@, ix1);
                (0int < ch@.len() && accepts_typ(ch@[0int])) && ix2 == ch@.len()
            })
        },
        _ => false,
    }
}

/// Whether decoding an item as `SpecTecTyp` produces `v`.
pub open spec fn rel_typ(item: SExprItem, v: SpecTecTyp) -> bool
    decreases item, 0int, 3int,
{
    match v {
        SpecTecTyp::Var { x, as1 } => item matches SExprItem::Node(name, ch) && name@ == "var"@ && {
            let ix1 = 0int + 1;
            let ix2 = run_end_arg(ch@, ix1);
            (0int < ch@.len() && <String as Decode>::decodes(ch@[0int], x)) && list_rel_arg(ch@, ix1, as1@) && ix2 == ch@.len()
        },
        SpecTecTyp::Bool => item matches SExprItem::Atom(t) && t@ == "bool"@,
        SpecTecTyp::Num(b0) => item matches SExprItem::Atom(_) && rel_numtyp(item, b0),
        SpecTecTyp::Text => item matches SExprItem::Atom(t) && t@ == "text"@,
        SpecTecTyp::Tup { ets } => item matches SExprItem::Node(name, ch) && name@ == "tup"@ && {
            let ix1 = run_end_typbind(ch@, 0int);
            list_rel_typbind(ch@, 0int, ets@) && ix1 == ch@.len()
        },
        SpecTecTyp::Iter { t1, it } => item matches SExprItem::Node(name, ch) && name@ == "iter"@ && {
            let ix1 = 0int + 1;
            let ix2 = run_end_iter(ch@, ix1);
            (0int < ch@.len() && rel_typ(ch@[0int], *t1)) && list_rel_iter(ch@, ix1, it@) && ix2 == ch@.len()
        },
    }
}

/// Whether an item decodes as `SpecTecDefTyp`.
pub open spec fn accepts_deftyp(item: SExprItem) -> bool
    decreases item, 0int, 0int,
{
    match item {
        SExprItem::Atom(_) => false,
        SExprItem::Node(name, ch) => {
            (name@ == "alias"@ && {
                let ix1 = 0int + 1;
                (0int < ch@.len() && accepts_typ(ch@[0int])) && ix1 == ch@.len()
            })
            || (name@ == "struct"@ && {
                let ix1 = run_end_typfield(ch@, 0int);
                ix1 == ch@.len()
            })
            || (name@ == "variant"@ && {
                let ix1 = run_end_typcase(ch@, 0int);
                ix1 == ch@.len()
            })
        },
        _ => false,
    }
}

/// Whether decoding an item as `SpecTecDefTyp` produces `v`.
pub open spec fn rel_deftyp(item: SExprItem, v: SpecTecDefTyp) -> bool
    decreases item, 0int, 1int,
{
    match v {
        SpecTecDefTyp::Alias { typ } => item matches SExprItem::Node(name, ch) && name@ == "alias"@ && {
            let ix1 = 0int + 1;
            (0int < ch@.len() && rel_typ(ch@[0int], typ)) && ix1 == ch@.len()
        },
        SpecTecDefTyp::Struct { tfs } => item matches SExprItem::Node(name, ch) && name@ == "struct"@ && {
            let ix1 = run_end_typfield(ch@, 0int);
            list_rel_typfield(ch@, 0int, tfs@) && ix1 == ch@.len()
        },
        SpecTecDefTyp::Variant { tcs } => item matches SExprItem::Node(name, ch) && name@ == "variant"@ && {
            let ix1 = run_end_typcase(ch@, 0int);
            list_rel_typcase(ch@, 0int, tcs@) && ix1 == ch@.len()
        },
    }
}

/// Whether an item decodes as `SpecTecTypBind`.
pub open spec fn accepts_typbind(item: SExprItem) -> bool
    decreases item, 0int, 0int,
{
    match item {
        SExprItem::Atom(_) => false,
        SExprItem::Node(name, ch) => {
            (name@ == "bind"@ && {
                let ix1 = 0int + 1;
                let ix2 = ix1 + 1;
                (0int < ch@.len() && accepts_exp(ch@[0int])) && (ix1 < ch@.len() && accepts_typ(ch@[ix1])) && ix2 == ch@.len()
            })
        },
        _ => false,
    }
}

/// Whether decoding an item as `SpecTecTypBind` produces `v`.
pub open spec fn rel_typbind(item: SExprItem, v: SpecTecTypBind) -> bool
    decreases item, 0int, 1int,
{
    match v {
        SpecTecTypBind::Bind { exp, typ } => item matches SExprItem::Node(name, ch) && name@ == "bind"@ && {
            let ix1 = 0int + 1;
            let ix2 = ix1 + 1;
            (0int < ch@.len() && rel_exp(ch@[0int], exp)) && (ix1 < ch@.len() && rel_typ(ch@[ix1], typ)) && ix2 == ch@.len()
        },
    }
}

/// Whether an item decodes as `SpecTecTypField`.
pub open spec fn accepts_typfield(item: SExprItem) -> bool
    decreases item, 0int, 0int,
{
    match item {
        SExprItem::Atom(_) => false,
        SExprItem::Node(name, ch) => {
            (name@ == "field"@ && {
                let ix1 = 0int + 1;
                let ix2 = run_end_bind(ch@, ix1);
                let ix3 = ix2 + 1;
                let ix4 = run_end_prem(ch@, ix3);
                (0int < ch@.len() && accepts_mix(ch@[0int])) && (ix2 < ch@.len() && accepts_typ(ch@[ix2])) && ix4 == ch@.len()
            })
        },
        _ => false,
    }
}

/// Whether decoding an item as `SpecTecTypField` produces `v`.
pub open spec fn rel_typfield(item: SExprItem, v: SpecTecTypField) -> bool
    decreases item, 0int, 1int,
{
    match v {
        SpecTecTypField::Field { at, bs, t, prs } => item matches SExprItem::Node(name, ch) && name@ == "field"@ && {
            let ix1 = 0int + 1;
            let ix2 = run_end_bind(ch@, ix1);
            let ix3 = ix2 + 1;
            let ix4 = run_end_prem(ch@, ix3);
            (0int < ch@.len() && rel_mix(ch@[0int], at)) && list_rel_bind(ch@, ix1, bs@) && (ix2 < ch@.len() && rel_typ(ch@[ix2], t)) && list_rel_prem(ch@, ix3, prs@) && ix4 == ch@.len()
        },
    }
}

/// Whether an item decodes as `SpecTecTypCase`.
pub open spec fn accepts_typcase(item: SExprItem) -> bool
    decreases item, 0int, 0int,
{
    match item {
        SExprItem::Atom(_) => false,
        SExprItem::Node(name, ch) => {
            (name@ == "case"@ && {
                let ix1 = 0int + 1;
                let ix2 = run_end_bind(ch@, ix1);
                let ix3 = ix2 + 1;
                let ix4 = run_end_prem(ch@, ix3);
                (0int < ch@.len() && accepts_mix(ch@[0int])) && (ix2 < ch@.len() && accepts_typ(ch@[ix2])) && ix4 == ch@.len()
            })
        },
        _ => false,
    }
}

/// Whether decoding an item as `SpecTecTypCase` produces `v`.
pub open spec fn rel_typcase(item: SExprItem, v: SpecTecTypCase) -> bool
    decreases item, 0int, 1int,
{
    match v {
        SpecTecTypCase::Field { op, bs, t, prs } => item matches SExprItem::Node(name, ch) && name@ == "case"@ && {
            let ix1 = 0int + 1;
            let ix2 = run_end_bind(ch@, ix1);
            let ix3 = ix2 + 1;
            let ix4 = run_end_prem(ch@, ix3);
            (0int < ch@.len() && rel_mix(ch@[0int], op)) && list_rel_bind(ch@, ix1, bs@) && (ix2 < ch@.len() && rel_typ(ch@[ix2], t)) && list_rel_prem(ch@, ix3, prs@) && ix4 == ch@.len()
        },
    }
}

/// Whether an item decodes as `SpecTecExp`.
pub open spec fn accepts_exp(item: SExprItem) -> bool
    decreases item, 0int, 0int,
{
    match item {
        SExprItem::Atom(_) => false,
        SExprItem::Node(name, ch) => {
            (name@ == "var"@ && {
                let ix1 = 0int + 1;
                (0int < ch@.len() && <String as Decode>::accepts(ch@[0int])) && ix1 == ch@.len()
            })
            || (name@ == "bool"@ && {
                let ix1 = 0int + 1;
                (0int < ch@.len() && <bool as Decode>::accepts(ch@[0int])) && ix1 == ch@.len()
            })
            || (name@ == "num"@ && {
                let ix1 = 0int + 1;
                (0int < ch@.len() && accepts_num(ch@[0int])) && ix1 == ch@.len()
            })
            || (name@ == "text"@ && {
                let ix1 = 0int + 1;
                (0int < ch@.len() && <String as Decode>::accepts(ch@[0int])) && ix1 == ch@.len()
            })
            || (name@ == "un"@ && {
                let ix1 = 0int + 1;
                let ix2 = ix1 + 1;
                let ix3 = ix2 + 1;
                (0int < ch@.len() && accepts_unop(ch@[0int])) && (ix1 < ch@.len() && accepts_optyp(ch@[ix1])) && (ix2 < ch@.len() && accepts_exp(ch@[ix2])) && ix3 == ch@.len()
            })
            || (name@ == "bin"@ && {
                let ix1 = 0int + 1;
                let ix2 = ix1 + 1;
                let ix3 = ix2 + 1;
                let ix4 = ix3 + 1;
                (0int < ch@.len() && accepts_binop(ch@[0int])) && (ix1 < ch@.len() && accepts_optyp(ch@[ix1])) && (ix2 < ch@.len() && accepts_exp(ch@[ix2])) && (ix3 < ch@.len() && accepts_exp(ch@[ix3])) && ix4 == ch@.len()
            })
            || (name@ == "cmp"@ && {
                let ix1 = 0int + 1;
                let ix2 = ix1 + 1;
                let ix3 = ix2 + 1;
                let ix4 = ix3 + 1;
                (0int < ch@.len() && accepts_cmpop(ch@[0int])) && (ix1 < ch@.len() && accepts_optyp(ch@[ix1])) && (ix2 < ch@.len() && accepts_exp(ch@[ix2])) && (ix3 < ch@.len() && accepts_exp(ch@[ix3])) && ix4 == ch@.len()
            })
            || (name@ == "idx"@ && {
                let ix1 = 0int + 1;
                let ix2 = ix1 + 1;
                (0int < ch@.len() && accepts_exp(ch@[0int])) && (ix1 < ch@.len() && accepts_exp(ch@[ix1])) && ix2 == ch@.len()
            })
            || (name@ == "slice"@ && {
                let ix1 = 0int + 1;
                let ix2 = ix1 + 1;
                let ix3 = ix2 + 1;
                (0int < ch@.len() && accepts_exp(ch@[0int])) && (ix1 < ch@.len() && accepts_exp(ch@[ix1])) && (ix2 < ch@.len() && accepts_exp(ch@[ix2])) && ix3 == ch@.len()
            })
            || (name@ == "upd"@ && {
                let ix1 = 0int + 1;
                let ix2 = ix1 + 1;
                let ix3 = ix2 + 1;
                (0int < ch@.len() && accepts_exp(ch@[0int])) && (ix1 < ch@.len() && accepts_path(ch@[ix1])) && (ix2 < ch@.len() && accepts_exp(ch@[ix2])) && ix3 == ch@.len()
            })
            || (name@ == "ext"@ && {
                let ix1 = 0int + 1;
                let ix2 = ix1 + 1;
                let ix3 = ix2 + 1;
                (0int < ch@.len() && accepts_exp(ch@[0int])) && (ix1 < ch@.len() && accepts_path(ch@[ix1])) && (ix2 < ch@.len() && accepts_exp(ch@[ix2])) && ix3 == ch@.len()
            })
            || (name@ == "struct"@ && {
                let ix1 = run_end_expfield(ch@, 0int);
                ix1 == ch@.len()
            })
            || (name@ == "dot"@ && {
                let ix1 = 0int + 1;
                let ix2 = ix1 + 1;
                (0int < ch@.len() && accepts_exp(ch@[0int])) && (ix1 < ch@.len() && accepts_mix(ch@[ix1])) && ix2 == ch@.len()
            })
            || (name@ == "comp"@ && {
                let ix1 = 0int + 1;
                let ix2 = ix1 + 1;
                (0int < ch@.len() && accepts_exp(ch@[0int])) && (ix1 < ch@.len() && accepts_exp(ch@[ix1])) && ix2 == ch@.len()
            })
            || (name@ == "mem"@ && {
                let ix1 = 0int + 1;
                let ix2 = ix1 + 1;
                (0int < ch@.len() && accepts_exp(ch@[0int])) && (ix1 < ch@.len() && accepts_exp(ch@[ix1])) && ix2 == ch@.len()
            })
            || (name@ == "len"@ && {
                let ix1 = 0int + 1;
                (0int < ch@.len() && accepts_exp(ch@[0int])) && ix1 == ch@.len()
            })
            || (name@ == "tup"@ && {
                let ix1 = run_end_exp(ch@, 0int);
                ix1 == ch@.len()
            })
            || (name@ == "call"@ && {
                let ix1 = 0int + 1;
                let ix2 = run_end_arg(ch@, ix1);
                (0int < ch@.len() && <String as Decode>::accepts(ch@[0int])) && ix2 == ch@.len()
            })
            || (name@ == "iter"@ && {
                let ix1 = 0int + 1;
                let ix2 = ix1 + 1;
                let ix3 = run_end_iterexp(ch@, ix2);
                (0int < ch@.len() && accepts_exp(ch@[0int])) && (ix1 < ch@.len() && accepts_iter(ch@[ix1])) && ix3 == ch@.len()
            })
            || (name@ == "proj"@ && {
                let ix1 = 0int + 1;
                let ix2 = ix1 + 1;
                (0int < ch@.len() && accepts_exp(ch@[0int])) && (ix1 < ch@.len() && <i64 as Decode>::accepts(ch@[ix1])) && ix2 == ch@.len()
            })
            || (name@ == "case"@ && {
                let ix1 = 0int + 1;
                let ix2 = ix1 + 1;
                (0int < ch@.len() && accepts_mix(ch@[0int])) && (ix1 < ch@.len() && accepts_exp(ch@[ix1])) && ix2 == ch@.len()
            })
            || (name@ == "uncase"@ && {
                let ix1 = 0int + 1;
                let ix2 = ix1 + 1;
                (0int < ch@.len() && accepts_exp(ch@[0int])) && (ix1 < ch@.len() && accepts_mix(ch@[ix1])) && ix2 == ch@.len()
            })
            || (name@ == "opt"@ && {
                let ix1 = run_end_optexp(ch@, 0int);
                ix1 == ch@.len()
            })
            || (name@ == "unopt"@ && {
                let ix1 = 0int + 1;
                (0int < ch@.len() && accepts_exp(ch@[0int])) && ix1 == ch@.len()
            })
            || (name@ == "list"@ && {
                let ix1 = run_end_exp(ch@, 0int);
                ix1 == ch@.len()
            })
            || (name@ == "lift"@ && {
                let ix1 = 0int + 1;
                (0int < ch@.len() && accepts_exp(ch@[0int])) && ix1 == ch@.len()
            })
            || (name@ == "cat"@ && {
                let ix1 = 0int + 1;
                let ix2 = ix1 + 1;
                (0int < ch@.len() && accepts_exp(ch@[0int])) && (ix1 < ch@.len() && accepts_exp(ch@[ix1])) && ix2 == ch@.len()
            })
            || (name@ == "cvt"@ && {
                let ix1 = 0int + 1;
                let ix2 = ix1 + 1;
                let ix3 = ix2 + 1;
                (0int < ch@.len() && <String as Decode>::accepts(ch@[0int])) && (ix1 < ch@.len() && <String as Decode>::accepts(ch@[ix1])) && (ix2 < ch@.len() && accepts_exp(ch@[ix2])) && ix3 == ch@.len()
            })
            || (name@ == "sub"@ && {
                let ix1 = 0int + 1;
                let ix2 = ix1 + 1;
                let ix3 = ix2 + 1;
                (0int < ch@.len() && accepts_typ(ch@[0int])) && (ix1 < ch@.len() && accepts_typ(ch@[ix1])) && (ix2 < ch@.len() && accepts_exp(ch@[ix2])) && ix3 == ch@.len()
            })
        },
        _ => false,
    }
}

/// Whether decoding an item as `SpecTecExp` produces `v`.
pub open spec fn rel_exp(item: SExprItem, v: SpecTecExp) -> bool
    decreases item, 0int, 1int,
{
    match v {
        SpecTecExp::Var { id } => item matches SExprItem::Node(name, ch) && name@ == "var"@ && {
            let ix1 = 0int + 1;
            (0int < ch@.len() && <String as Decode>::decodes(ch@[0int], id)) && ix1 == ch@.len()
        },
        SpecTecExp::Bool { b } => item matches SExprItem::Node(name, ch) && name@ == "bool"@ && {
            let ix1 = 0int + 1;
            (0int < ch@.len() && <bool as Decode>::decodes(ch@[0int], b)) && ix1 == ch@.len()
        },
        SpecTecExp::Num { n } => item matches SExprItem::Node(name, ch) && name@ == "num"@ && {
            let ix1 = 0int + 1;
            (0int < ch@.len() && rel_num(ch@[0int], n)) && ix1 == ch@.len()
        },
        SpecTecExp::Text { t } => item matches SExprItem::Node(name, ch) && name@ == "text"@ && {
            let ix1 = 0int + 1;
            (0int < ch@.len() && <String as Decode>::decodes(ch@[0int], t)) && ix1 == ch@.len()
        },
        SpecTecExp::Un { op, t, e2 } => item matches SExprItem::Node(name, ch) && name@ == "un"@ && {
            let ix1 = 0int + 1;
            let ix2 = ix1 + 1;
            let ix3 = ix2 + 1;
            (0int < ch@.len() && rel_unop(ch@[0int], op)) && (ix1 < ch@.len() && rel_optyp(ch@[ix1], t)) && (ix2 < ch@.len() && rel_exp(ch@[ix2], *e2)) && ix3 == ch@.len()
        },
        SpecTecExp::Bin { op, t, e1, e2 } => item matches SExprItem::Node(name, ch) && name@ == "bin"@ && {
            let ix1 = 0int + 1;
            let ix2 = ix1 + 1;
            let ix3 = ix2 + 1;
            let ix4 = ix3 + 1;
            (0int < ch@.len() && rel_binop(ch@[0int], op)) && (ix1 < ch@.len() && rel_optyp(ch@[ix1], t)) && (ix2 < ch@.len() && rel_exp(ch@[ix2], *e1)) && (ix3 < ch@.len() && rel_exp(ch@[ix3], *e2)) && ix4 == ch@.len()
        },
        SpecTecExp::Cmp { op, t, e1, e2 } => item matches SExprItem::Node(name, ch) && name@ == "cmp"@ && {
            let ix1 = 0int + 1;
            let ix2 = ix1 + 1;
            let ix3 = ix2 + 1;
            let ix4 = ix3 + 1;
            (0int < ch@.len() && rel_cmpop(ch@[0int], op)) && (ix1 < ch@.len() && rel_optyp(ch@[ix1], t)) && (ix2 < ch@.len() && rel_exp(ch@[ix2], *e1)) && (ix3 < ch@.len() && rel_exp(ch@[ix3], *e2)) && ix4 == ch@.len()
        },
        SpecTecExp::Idx { e1, e2 } => item matches SExprItem::Node(name, ch) && name@ == "idx"@ && {
            let ix1 = 0int + 1;
            let ix2 = ix1 + 1;
            (0int < ch@.len() && rel_exp(ch@[0int], *e1)) && (ix1 < ch@.len() && rel_exp(ch@[ix1], *e2)) && ix2 == ch@.len()
        },
        SpecTecExp::Slice { e1, e2, e3 } => item matches SExprItem::Node(name, ch) && name@ == "slice"@ && {
            let ix1 = 0int + 1;
            let ix2 = ix1 + 1;
            let ix3 = ix2 + 1;
            (0int < ch@.len() && rel_exp(ch@[0int], *e1)) && (ix1 < ch@.len() && rel_exp(ch@[ix1], *e2)) && (ix2 < ch@.len() && rel_exp(ch@[ix2], *e3)) && ix3 == ch@.len()
        },
        SpecTecExp::Upd { e1, path, e2 } => item matches SExprItem::Node(name, ch) && name@ == "upd"@ && {
            let ix1 = 0int + 1;
            let ix2 = ix1 + 1;
            let ix3 = ix2 + 1;
            (0int < ch@.len() && rel_exp(ch@[0int], *e1)) && (ix1 < ch@.len() && rel_path(ch@[ix1], *path)) && (ix2 < ch@.len() && rel_exp(ch@[ix2], *e2)) && ix3 == ch@.len()
        },
        SpecTecExp::Ext { e1, path, e2 } => item matches SExprItem::Node(name, ch) && name@ == "ext"@ && {
            let ix1 = 0int + 1;
            let ix2 = ix1 + 1;
            let ix3 = ix2 + 1;
            (0int < ch@.len() && rel_exp(ch@[0int], *e1)) && (ix1 < ch@.len() && rel_path(ch@[ix1], *path)) && (ix2 < ch@.len() && rel_exp(ch@[ix2], *e2)) && ix3 == ch@.len()
        },
        SpecTecExp::Str { efs } => item matches SExprItem::Node(name, ch) && name@ == "struct"@ && {
            let ix1 = run_end_expfield(ch@, 0int);
            list_rel_expfield(ch@, 0int, efs@) && ix1 == ch@.len()
        },
        SpecTecExp::Dot { e1, at } => item matches SExprItem::Node(name, ch) && name@ == "dot"@ && {
            let ix1 = 0int + 1;
            let ix2 = ix1 + 1;
            (0int < ch@.len() && rel_exp(ch@[0int], *e1)) && (ix1 < ch@.len() && rel_mix(ch@[ix1], at)) && ix2 == ch@.len()
        },
        SpecTecExp::Comp { e1, e2 } => item matches SExprItem::Node(name, ch) && name@ == "comp"@ && {
            let ix1 = 0int + 1;
            let ix2 = ix1 + 1;
            (0int < ch@.len() && rel_exp(ch@[0int], *e1)) && (ix1 < ch@.len() && rel_exp(ch@[ix1], *e2)) && ix2 == ch@.len()
        },
        SpecTecExp::Mem { e1, e2 } => item matches SExprItem::Node(name, ch) && name@ == "mem"@ && {
            let ix1 = 0int + 1;
            let ix2 = ix1 + 1;
            (0int < ch@.len() && rel_exp(ch@[0int], *e1)) && (ix1 < ch@.len() && rel_exp(ch@[ix1], *e2)) && ix2 == ch@.len()
        },
        SpecTecExp::Len { e1 } => item matches SExprItem::Node(name, ch) && name@ == "len"@ && {
            let ix1 = 0int + 1;
            (0int < ch@.len() && rel_exp(ch@[0int], *e1)) && ix1 == ch@.len()
        },
        SpecTecExp::Tup { es } => item matches SExprItem::Node(name, ch) && name@ == "tup"@ && {
            let ix1 = run_end_exp(ch@, 0int);
            list_rel_exp(ch@, 0int, es@) && ix1 == ch@.len()
        },
        SpecTecExp::Call { x, as1 } => item matches SExprItem::Node(name, ch) && name@ == "call"@ && {
            let ix1 = 0int + 1;
            let ix2 = run_end_arg(ch@, ix1);
            (0int < ch@.len() && <String as Decode>::decodes(ch@[0int], x)) && list_rel_arg(ch@, ix1, as1@) && ix2 == ch@.len()
        },
        SpecTecExp::Iter { e1, it, xes } => item matches SExprItem::Node(name, ch) && name@ == "iter"@ && {
            let ix1 = 0int + 1;
            let ix2 = ix1 + 1;
            let ix3 = run_end_iterexp(ch@, ix2);
            (0int < ch@.len() && rel_exp(ch@[0int], *e1)) && (ix1 < ch@.len() && rel_iter(ch@[ix1], it)) && list_rel_iterexp(ch@, ix2, xes@) && ix3 == ch@.len()
        },
        SpecTecExp::Proj { e1, i } => item matches SExprItem::Node(name, ch) && name@ == "proj"@ && {
            let ix1 = 0int + 1;
            let ix2 = ix1 + 1;
            (0int < ch@.len() && rel_exp(ch@[0int], *e1)) && (ix1 < ch@.len() && <i64 as Decode>::decodes(ch@[ix1], i)) && ix2 == ch@.len()
        },
        SpecTecExp::Case { op, e1 } => item matches SExprItem::Node(name, ch) && name@ == "case"@ && {
            let ix1 = 0int + 1;
            let ix2 = ix1 + 1;
            (0int < ch@.len() && rel_mix(ch@[0int], op)) && (ix1 < ch@.len() && rel_exp(ch@[ix1], *e1)) && ix2 == ch@.len()
        },
        SpecTecExp::Uncase { e1, op } => item matches SExprItem::Node(name, ch) && name@ == "uncase"@ && {
            let ix1 = 0int + 1;
            let ix2 = ix1 + 1;
            (0int < ch@.len() && rel_exp(ch@[0int], *e1)) && (ix1 < ch@.len() && rel_mix(ch@[ix1], op)) && ix2 == ch@.len()
        },
        SpecTecExp::Opt { eo } => item matches SExprItem::Node(name, ch) && name@ == "opt"@ && {
            let ix1 = run_end_optexp(ch@, 0int);
            list_rel_optexp(ch@, 0int, eo@) && ix1 == ch@.len()
        },
        SpecTecExp::Unopt { e1 } => item matches SExprItem::Node(name, ch) && name@ == "unopt"@ && {
            let ix1 = 0int + 1;
            (0int < ch@.len() && rel_exp(ch@[0int], *e1)) && ix1 == ch@.len()
        },
        SpecTecExp::List { es } => item matches SExprItem::Node(name, ch) && name@ == "list"@ && {
            let ix1 = run_end_exp(ch@, 0int);
            list_rel_exp(ch@, 0int, es@) && ix1 == ch@.len()
        },
        SpecTecExp::Lift { e1 } => item matches SExprItem::Node(name, ch) && name@ == "lift"@ && {
            let ix1 = 0int + 1;
            (0int < ch@.len() && rel_exp(ch@[0int], *e1)) && ix1 == ch@.len()
        },
        SpecTecExp::Cat { e1, e2 } => item matches SExprItem::Node(name, ch) && name@ == "cat"@ && {
            let ix1 = 0int + 1;
            let ix2 = ix1 + 1;
            (0int < ch@.len() && rel_exp(ch@[0int], *e1)) && (ix1 < ch@.len() && rel_exp(ch@[ix1], *e2)) && ix2 == ch@.len()
        },
        SpecTecExp::Cvt { nt1, nt2, e1 } => item matches SExprItem::Node(name, ch) && name@ == "cvt"@ && {
            let ix1 = 0int + 1;
            let ix2 = ix1 + 1;
            let ix3 = ix2 + 1;
            (0int < ch@.len() && <String as Decode>::decodes(ch@[0int], nt1)) && (ix1 < ch@.len() && <String as Decode>::decodes(ch@[ix1], nt2)) && (ix2 < ch@.len() && rel_exp(ch@[ix2], *e1)) && ix3 == ch@.len()
        },
        SpecTecExp::Sub { t1, t2, e1 } => item matches SExprItem::Node(name, ch) && name@ == "sub"@ && {
            let ix1 = 0int + 1;
            let ix2 = ix1 + 1;
            let ix3 = ix2 + 1;
            (0int < ch@.len() && rel_typ(ch@[0int], t1)) && (ix1 < ch@.len() && rel_typ(ch@[ix1], t2)) && (ix2 < ch@.len() && rel_exp(ch@[ix2], *e1)) && ix3 == ch@.len()
        },
    }
}

/// Whether an item decodes as `SpecTecExpField`.
pub open spec fn accepts_expfield(item: SExprItem) -> bool
    decreases item, 0int, 0int,
{
    match item {
        SExprItem::Atom(_) => false,
        SExprItem::Node(name, ch) => {
            (name@ == "field"@ && {
                let ix1 = 0int + 1;
                let ix2 = ix1 + 1;
                (0int < ch@.len() && accepts_mix(ch@[0int])) && (ix1 < ch@.len() && accepts_exp(ch@[ix1])) && ix2 == ch@.len()
            })
        },
        _ => false,
    }
}

/// Whether decoding an item as `SpecTecExpField` produces `v`.
pub open spec fn rel_expfield(item: SExprItem, v: SpecTecExpField) -> bool
    decreases item, 0int, 1int,
{
    match v {
        SpecTecExpField::Field { at, e } => item matches SExprItem::Node(name, ch) && name@ == "field"@ && {
            let ix1 = 0int + 1;
            let ix2 = ix1 + 1;
            (0int < ch@.len() && rel_mix(ch@[0int], at)) && (ix1 < ch@.len() && rel_exp(ch@[ix1], e)) && ix2 == ch@.len()
        },
    }
}

/// Whether an item decodes as `SpecTecPath`.
pub open spec fn accepts_path(item: SExprItem) -> bool
    decreases item, 0int, 0int,
{
    match item {
        SExprItem::Atom(t) => t@ == "root"@,
        SExprItem::Node(name, ch) => {
            (name@ == "idx"@ && {
                let ix1 = 0int + 1;
                let ix2 = ix1 + 1;
                (0int < ch@.len() && accepts_path(ch@[0int])) && (ix1 < ch@.len() && accepts_exp(ch@[ix1])) && ix2 == ch@.len()
            })
            || (name@ == "slice"@ && {
                let ix1 = 0int + 1;
                let ix2 = ix1 + 1;
                let ix3 = ix2 + 1;
                (0int < ch@.len() && accepts_path(ch@[0int])) && (ix1 < ch@.len() && accepts_exp(ch@[ix1])) && (ix2 < ch@.len() && accepts_exp(ch@[ix2])) && ix3 == ch@.len()
            })
            || (name@ == "dot"@ && {
                let ix1 = 0int + 1;
                let ix2 = ix1 + 1;
                (0int < ch@.len() && accepts_path(ch@[0int])) && (ix1 < ch@.len() && accepts_mix(ch@[ix1])) && ix2 == ch@.len()
            })
        },
        _ => false,
    }
}

/// Whether decoding an item as `SpecTecPath` produces `v`.
pub open spec fn rel_path(item: SExprItem, v: SpecTecPath) -> bool
    decreases item, 0int, 1int,
{
    match v {
        SpecTecPath::Root => item matches SExprItem::Atom(t) && t@ == "root"@,
        SpecTecPath::Idx { p1, e } => item matches SExprItem::Node(name, ch) && name@ == "idx"@ && {
            let ix1 = 0int + 1;
            let ix2 = ix1 + 1;
            (0int < ch@.len() && rel_path(ch@[0int], *p1)) && (ix1 < ch@.len() && rel_exp(ch@[ix1], e)) && ix2 == ch@.len()
        },
        SpecTecPath::Slice { p1, e1, e2 } => item matches SExprItem::Node(name, ch) && name@ == "slice"@ && {
            let ix1 = 0int + 1;
            let ix2 = ix1 + 1;
            let ix3 = ix2 + 1;
            (0int < ch@.len() && rel_path(ch@[0int], *p1)) && (ix1 < ch@.len() && rel_exp(ch@[ix1], e1)) && (ix2 < ch@.len() && rel_exp(ch@[ix2], e2)) && ix3 == ch@.len()
        },
        SpecTecPath::Dot { p1, at } => item matches SExprItem::Node(name, ch) && name@ == "dot"@ && {
            let ix1 = 0int + 1;
            let ix2 = ix1 + 1;
            (0int < ch@.len() && rel_path(ch@[0int], *p1)) && (ix1 < ch@.len() && rel_mix(ch@[ix1], at)) && ix2 == ch@.len()
        },
    }
}

/// Whether an item decodes as `SpecTecIterExp`.
pub open spec fn accepts_iterexp(item: SExprItem) -> bool
    decreases item, 0int, 0int,
{
    match item {
        SExprItem::Atom(_) => false,
        SExprItem::Node(name, ch) => {
            (name@ == "dom"@ && {
                let ix1 = 0int + 1;
                let ix2 = ix1 + 1;
                (0int < ch@.len() && <String as Decode>::accepts(ch@[0int])) && (ix1 < ch@.len() && accepts_exp(ch@[ix1])) && ix2 == ch@.len()
            })
        },
        _ => false,
    }
}

/// Whether decoding an item as `SpecTecIterExp` produces `v`.
pub open spec fn rel_iterexp(item: SExprItem, v: SpecTecIterExp) -> bool
    decreases item, 0int, 1int,
{
    match v {
        SpecTecIterExp::Dom { x, e } => item matches SExprItem::Node(name, ch) && name@ == "dom"@ && {
            let ix1 = 0int + 1;
            let ix2 = ix1 + 1;
            (0int < ch@.len() && <String as Decode>::decodes(ch@[0int], x)) && (ix1 < ch@.len() && rel_exp(ch@[ix1], e)) && ix2 == ch@.len()
        },
    }
}

/// Whether an item decodes as `SpecTecSym`.
pub open spec fn accepts_sym(item: SExprItem) -> bool
    decreases item, 0int, 0int,
{
    match item {
        SExprItem::Atom(t) => t@ == "eps"@,
        SExprItem::Node(name, ch) => {
            (name@ == "var"@ && {
                let ix1 = 0int + 1;
                let ix2 = run_end_arg(ch@, ix1);
                (0int < ch@.len() && <String as Decode>::accepts(ch@[0int])) && ix2 == ch@.len()
            })
            || (name@ == "num"@ && {
                let ix1 = 0int + 1;
                (0int < ch@.len() && <i64 as Decode>::accepts(ch@[0int])) && ix1 == ch@.len()
            })
            || (name@ == "text"@ && {
                let ix1 = 0int + 1;
                (0int < ch@.len() && <String as Decode>::accepts(ch@[0int])) && ix1 == ch@.len()
            })
            || (name@ == "seq"@ && {
                let ix1 = 0int + 1;
                (0int < ch@.len() && accepts_sym(ch@[0int])) && ix1 == ch@.len()
            })
            || (name@ == "alt"@ && {
                let ix1 = 0int + 1;
                (0int < ch@.len() && accepts_sym(ch@[0int])) && ix1 == ch@.len()
            })
            || (name@ == "range"@ && {
                let ix1 = 0int + 1;
                let ix2 = ix1 + 1;
                (0int < ch@.len() && accepts_sym(ch@[0int])) && (ix1 < ch@.len() && accepts_sym(ch@[ix1])) && ix2 == ch@.len()
            })
            || (name@ == "iter"@ && {
                let ix1 = 0int + 1;
                let ix2 = ix1 + 1;
                let ix3 = run_end_iterexp(ch@, ix2);
                (0int < ch@.len() && accepts_sym(ch@[0int])) && (ix1 < ch@.len() && accepts_iter(ch@[ix1])) && ix3 == ch@.len()
            })
            || (name@ == "attr"@ && {
                let ix1 = 0int + 1;
                let ix2 = ix1 + 1;
                (0int < ch@.len() && accepts_exp(ch@[0int])) && (ix1 < ch@.len() && accepts_sym(ch@[ix1])) && ix2 == ch@.len()
            })
        },
        _ => false,
    }
}

/// Whether decoding an item as `SpecTecSym` produces `v`.
pub open spec fn rel_sym(item: SExprItem, v: SpecTecSym) -> bool
    decreases item, 0int, 1int,
{
    match v {
        SpecTecSym::Var { x, as1 } => item matches SExprItem::Node(name, ch) && name@ == "var"@ && {
            let ix1 = 0int + 1;
            let ix2 = run_end_arg(ch@, ix1);
            (0int < ch@.len() && <String as Decode>::decodes(ch@[0int], x)) && list_rel_arg(ch@, ix1, as1@) && ix2 == ch@.len()
        },
        SpecTecSym::Num { n } => item matches SExprItem::Node(name, ch) && name@ == "num"@ && {
            let ix1 = 0int + 1;
            (0int < ch@.len() && <i64 as Decode>::decodes(ch@[0int], n)) && ix1 == ch@.len()
        },
        SpecTecSym::Text { t } => item matches SExprItem::Node(name, ch) && name@ == "text"@ && {
            let ix1 = 0int + 1;
            (0int < ch@.len() && <String as Decode>::decodes(ch@[0int], t)) && ix1 == ch@.len()
        },
        SpecTecSym::Eps => item matches SExprItem::Atom(t) && t@ == "eps"@,
        SpecTecSym::Sequence { gs } => item matches SExprItem::Node(name, ch) && name@ == "seq"@ && {
            let ix1 = 0int + 1;
            (0int < ch@.len() && rel_sym(ch@[0int], *gs)) && ix1 == ch@.len()
        },
        SpecTecSym::Alt { gs } => item matches SExprItem::Node(name, ch) && name@ == "alt"@ && {
            let ix1 = 0int + 1;
            (0int < ch@.len() && rel_sym(ch@[0int], *gs)) && ix1 == ch@.len()
        },
        SpecTecSym::Range { g1, g2 } => item matches SExprItem::Node(name, ch) && name@ == "range"@ && {
            let ix1 = 0int + 1;
            let ix2 = ix1 + 1;
            (0int < ch@.len() && rel_sym(ch@[0int], *g1)) && (ix1 < ch@.len() && rel_sym(ch@[ix1], *g2)) && ix2 == ch@.len()
        },
        SpecTecSym::Iter { g1, it, xes } => item matches SExprItem::Node(name, ch) && name@ == "iter"@ && {
            let ix1 = 0int + 1;
            let ix2 = ix1 + 1;
            let ix3 = run_end_iterexp(ch@, ix2);
            (0int < ch@.len() && rel_sym(ch@[0int], *g1)) && (ix1 < ch@.len() && rel_iter(ch@[ix1], it)) && list_rel_iterexp(ch@, ix2, xes@) && ix3 == ch@.len()
        },
        SpecTecSym::Attr { e, g1 } => item matches SExprItem::Node(name, ch) && name@ == "attr"@ && {
            let ix1 = 0int + 1;
            let ix2 = ix1 + 1;
            (0int < ch@.len() && rel_exp(ch@[0int], e)) && (ix1 < ch@.len() && rel_sym(ch@[ix1], *g1)) && ix2 == ch@.len()
        },
    }
}

/// Whether an item decodes as `SpecTecPrem`.
pub open spec fn accepts_prem(item: SExprItem) -> bool
    decreases item, 0int, 0int,
{
    match item {
        SExprItem::Atom(t) => t@ == "else"@,
        SExprItem::Node(name, ch) => {
            (name@ == "rule"@ && {
                let ix1 = 0int + 1;
                let ix2 = ix1 + 1;
                let ix3 = ix2 + 1;
                (0int < ch@.len() && <String as Decode>::accepts(ch@[0int])) && (ix1 < ch@.len() && accepts_mix(ch@[ix1])) && (ix2 < ch@.len() && accepts_exp(ch@[ix2])) && ix3 == ch@.len()
            })
            || (name@ == "if"@ && {
                let ix1 = 0int + 1;
                (0int < ch@.len() && accepts_exp(ch@[0int])) && ix1 == ch@.len()
            })
            || (name@ == "let"@ && {
                let ix1 = 0int + 1;
                let ix2 = ix1 + 1;
                (0int < ch@.len() && accepts_exp(ch@[0int])) && (ix1 < ch@.len() && accepts_exp(ch@[ix1])) && ix2 == ch@.len()
            })
            || (name@ == "iter"@ && {
                let ix1 = 0int + 1;
                let ix2 = ix1 + 1;
                let ix3 = run_end_iterexp(ch@, ix2);
                (0int < ch@.len() && accepts_prem(ch@[0int])) && (ix1 < ch@.len() && accepts_iter(ch@[ix1])) && ix3 == ch@.len()
            })
        },
        _ => false,
    }
}

/// Whether decoding an item as `SpecTecPrem` produces `v`.
pub open spec fn rel_prem(item: SExprItem, v: SpecTecPrem) -> bool
    decreases item, 0int, 1int,
{
    match v {
        SpecTecPrem::Rule { x, op, e } => item matches SExprItem::Node(name, ch) && name@ == "rule"@ && {
            let ix1 = 0int + 1;
            let ix2 = ix1 + 1;
            let ix3 = ix2 + 1;
            (0int < ch@.len() && <String as Decode>::decodes(ch@[0int], x)) && (ix1 < ch@.len() && rel_mix(ch@[ix1], op)) && (ix2 < ch@.len() && rel_exp(ch@[ix2], e)) && ix3 == ch@.len()
        },
        SpecTecPrem::If { e } => item matches SExprItem::Node(name, ch) && name@ == "if"@ && {
            let ix1 = 0int + 1;
            (0int < ch@.len() && rel_exp(ch@[0int], e)) && ix1 == ch@.len()
        },
        SpecTecPrem::Let { e1, e2 } => item matches SExprItem::Node(name, ch) && name@ == "let"@ && {
            let ix1 = 0int + 1;
            let ix2 = ix1 + 1;
            (0int < ch@.len() && rel_exp(ch@[0int], e1)) && (ix1 < ch@.len() && rel_exp(ch@[ix1], e2)) && ix2 == ch@.len()
        },
        SpecTecPrem::Else => item matches SExprItem::Atom(t) && t@ == "else"@,
        SpecTecPrem::Iter { pr1, it, xes } => item matches SExprItem::Node(name, ch) && name@ == "iter"@ && {
            let ix1 = 0int + 1;
            let ix2 = ix1 + 1;
            let ix3 = run_end_iterexp(ch@, ix2);
            (0int < ch@.len() && rel_prem(ch@[0int], *pr1)) && (ix1 < ch@.len() && rel_iter(ch@[ix1], it)) && list_rel_iterexp(ch@, ix2, xes@) && ix3 == ch@.len()
        },
    }
}

/// Whether an item decodes as `SpecTecArg`.
pub open spec fn accepts_arg(item: SExprItem) -> bool
    decreases item, 0int, 0int,
{
    match item {
        SExprItem::Atom(_) => false,
        SExprItem::Node(name, ch) => {
            (name@ == "exp"@ && {
                let ix1 = 0int + 1;
                (0int < ch@.len() && accepts_exp(ch@[0int])) && ix1 == ch@.len()
            })
            || (name@ == "typ"@ && {
                let ix1 = 0int + 1;
                (0int < ch@.len() && accepts_typ(ch@[0int])) && ix1 == ch@.len()
            })
            || (name@ == "def"@ && {
                let ix1 = 0int + 1;
                (0int < ch@.len() && <String as Decode>::accepts(ch@[0int])) && ix1 == ch@.len()
            })
            || (name@ == "gram"@ && {
                let ix1 = 0int + 1;
                (0int < ch@.len() && accepts_sym(ch@[0int])) && ix1 == ch@.len()
            })
        },
        _ => false,
    }
}

/// Whether decoding an item as `SpecTecArg` produces `v`.
pub open spec fn rel_arg(item: SExprItem, v: SpecTecArg) -> bool
    decreases item, 0int, 1int,
{
    match v {
        SpecTecArg::Exp { e } => item matches SExprItem::Node(name, ch) && name@ == "exp"@ && {
            let ix1 = 0int + 1;
            (0int < ch@.len() && rel_exp(ch@[0int], e)) && ix1 == ch@.len()
        },
        SpecTecArg::Typ { t } => item matches SExprItem::Node(name, ch) && name@ == "typ"@ && {
            let ix1 = 0int + 1;
            (0int < ch@.len() && rel_typ(ch@[0int], t)) && ix1 == ch@.len()
        },
        SpecTecArg::Def { x } => item matches SExprItem::Node(name, ch) && name@ == "def"@ && {
            let ix1 = 0int + 1;
            (0int < ch@.len() && <String as Decode>::decodes(ch@[0int], x)) && ix1 == ch@.len()
        },
        SpecTecArg::Gram { g } => item matches SExprItem::Node(name, ch) && name@ == "gram"@ && {
            let ix1 = 0int + 1;
            (0int < ch@.len() && rel_sym(ch@[0int], g)) && ix1 == ch@.len()
        },
    }
}

/// Whether an item decodes as `SpecTecBind`.
pub open spec fn accepts_bind(item: SExprItem) -> bool
    decreases item, 0int, 0int,
{
    match item {
        SExprItem::Atom(_) => false,
        SExprItem::Node(name, ch) => {
            (name@ == "exp"@ && {
                let ix1 = 0int + 1;
                let ix2 = ix1 + 1;
                (0int < ch@.len() && <String as Decode>::accepts(ch@[0int])) && (ix1 < ch@.len() && accepts_typ(ch@[ix1])) && ix2 == ch@.len()
            })
            || (name@ == "typ"@ && {
                let ix1 = 0int + 1;
                (0int < ch@.len() && <String as Decode>::accepts(ch@[0int])) && ix1 == ch@.len()
            })
            || (name@ == "def"@ && {
                let ix1 = 0int + 1;
                let ix2 = run_end_param(ch@, ix1);
                let ix3 = ix2 + 1;
                (0int < ch@.len() && <String as Decode>::accepts(ch@[0int])) && (ix2 < ch@.len() && accepts_typ(ch@[ix2])) && ix3 == ch@.len()
            })
            || (name@ == "gram"@ && {
                let ix1 = 0int + 1;
                let ix2 = run_end_param(ch@, ix1);
                let ix3 = ix2 + 1;
                (0int < ch@.len() && <String as Decode>::accepts(ch@[0int])) && (ix2 < ch@.len() && accepts_typ(ch@[ix2])) && ix3 == ch@.len()
            })
        },
        _ => false,
    }
}

/// Whether decoding an item as `SpecTecBind` produces `v`.
pub open spec fn rel_bind(item: SExprItem, v: SpecTecBind) -> bool
    decreases item, 0int, 1int,
{
    match v {
        SpecTecBind::Exp { x, t } => item matches SExprItem::Node(name, ch) && name@ == "exp"@ && {
            let ix1 = 0int + 1;
            let ix2 = ix1 + 1;
            (0int < ch@.len() && <String as Decode>::decodes(ch@[0int], x)) && (ix1 < ch@.len() && rel_typ(ch@[ix1], t)) && ix2 == ch@.len()
        },
        SpecTecBind::Typ { x } => item matches SExprItem::Node(name, ch) && name@ == "typ"@ && {
            let ix1 = 0int + 1;
            (0int < ch@.len() && <String as Decode>::decodes(ch@[0int], x)) && ix1 == ch@.len()
        },
        SpecTecBind::Def { x, ps, t } => item matches SExprItem::Node(name, ch) && name@ == "def"@ && {
            let ix1 = 0int + 1;
            let ix2 = run_end_param(ch@, ix1);
            let ix3 = ix2 + 1;
            (0int < ch@.len() && <String as Decode>::decodes(ch@[0int], x)) && list_rel_param(ch@, ix1, ps@) && (ix2 < ch@.len() && rel_typ(ch@[ix2], t)) && ix3 == ch@.len()
        },
        SpecTecBind::Gram { x, ps, t } => item matches SExprItem::Node(name, ch) && name@ == "gram"@ && {
            let ix1 = 0int + 1;
            let ix2 = run_end_param(ch@, ix1);
            let ix3 = ix2 + 1;
            (0int < ch@.len() && <String as Decode>::decodes(ch@[0int], x)) && list_rel_param(ch@, ix1, ps@) && (ix2 < ch@.len() && rel_typ(ch@[ix2], t)) && ix3 == ch@.len()
        },
    }
}

/// Whether an item decodes as `SpecTecParam`.
pub open spec fn accepts_param(item: SExprItem) -> bool
    decreases item, 0int, 0int,
{
    match item {
        SExprItem::Atom(_) => false,
        SExprItem::Node(name, ch) => {
            (name@ == "exp"@ && {
                let ix1 = 0int + 1;
                let ix2 = ix1 + 1;
                (0int < ch@.len() && <String as Decode>::accepts(ch@[0int])) && (ix1 < ch@.len() && accepts_typ(ch@[ix1])) && ix2 == ch@.len()
            })
            || (name@ == "typ"@ && {
                let ix1 = 0int + 1;
                (0int < ch@.len() && <String as Decode>::accepts(ch@[0int])) && ix1 == ch@.len()
            })
            || (name@ == "def"@ && {
                let ix1 = 0int + 1;
                let ix2 = run_end_param(ch@, ix1);
                let ix3 = ix2 + 1;
                (0int < ch@.len() && <String as Decode>::accepts(ch@[0int])) && (ix2 < ch@.len() && accepts_typ(ch@[ix2])) && ix3 == ch@.len()
            })
            || (name@ == "gram"@ && {
                let ix1 = 0int + 1;
                let ix2 = ix1 + 1;
                (0int < ch@.len() && <String as Decode>::accepts(ch@[0int])) && (ix1 < ch@.len() && accepts_typ(ch@[ix1])) && ix2 == ch@.len()
            })
        },
        _ => false,
    }
}

/// Whether decoding an item as `SpecTecParam` produces `v`.
pub open spec fn rel_param(item: SExprItem, v: SpecTecParam) -> bool
    decreases item, 0int, 1int,
{
    match v {
        SpecTecParam::Exp { x, t } => item matches SExprItem::Node(name, ch) && name@ == "exp"@ && {
            let ix1 = 0int + 1;
            let ix2 = ix1 + 1;
            (0int < ch@.len() && <String as Decode>::decodes(ch@[0int], x)) && (ix1 < ch@.len() && rel_typ(ch@[ix1], t)) && ix2 == ch@.len()
        },
        SpecTecParam::Typ { x } => item matches SExprItem::Node(name, ch) && name@ == "typ"@ && {
            let ix1 = 0int + 1;
            (0int < ch@.len() && <String as Decode>::decodes(ch@[0int], x)) && ix1 == ch@.len()
        },
        SpecTecParam::Def { x, ps, t } => item matches SExprItem::Node(name, ch) && name@ == "def"@ && {
            let ix1 = 0int + 1;
            let ix2 = run_end_param(ch@, ix1);
            let ix3 = ix2 + 1;
            (0int < ch@.len() && <String as Decode>::decodes(ch@[0int], x)) && list_rel_param(ch@, ix1, ps@) && (ix2 < ch@.len() && rel_typ(ch@[ix2], t)) && ix3 == ch@.len()
        },
        SpecTecParam::Gram { x, t } => item matches SExprItem::Node(name, ch) && name@ == "gram"@ && {
            let ix1 = 0int + 1;
            let ix2 = ix1 + 1;
            (0int < ch@.len() && <String as Decode>::decodes(ch@[0int], x)) && (ix1 < ch@.len() && rel_typ(ch@[ix1], t)) && ix2 == ch@.len()
        },
    }
}

/// Whether an item decodes as `SpecTecInst`.
pub open spec fn accepts_inst(item: SExprItem) -> bool
    decreases item, 0int, 0int,
{
    match item {
        SExprItem::Atom(_) => false,
        SExprItem::Node(name, ch) => {
            (name@ == "inst"@ && {
                let ix1 = run_end_bind(ch@, 0int);
                let ix2 = run_end_arg(ch@, ix1);
                let ix3 = ix2 + 1;
                (ix2 < ch@.len() && accepts_deftyp(ch@[ix2])) && ix3 == ch@.len()
            })
        },
        _ => false,
    }
}

/// Whether decoding an item as `SpecTecInst` produces `v`.
pub open spec fn rel_inst(item: SExprItem, v: SpecTecInst) -> bool
    decreases item, 0int, 1int,
{
    match v {
        SpecTecInst::Inst { bs, as_, dt } => item matches SExprItem::Node(name, ch) && name@ == "inst"@ && {
            let ix1 = run_end_bind(ch@, 0int);
            let ix2 = run_end_arg(ch@, ix1);
            let ix3 = ix2 + 1;
            list_rel_bind(ch@, 0int, bs@) && list_rel_arg(ch@, ix1, as_@) && (ix2 < ch@.len() && rel_deftyp(ch@[ix2], dt)) && ix3 == ch@.len()
        },
    }
}

/// Whether an item decodes as `SpecTecRule`.
pub open spec fn accepts_rule(item: SExprItem) -> bool
    decreases item, 0int, 0int,
{
    match item {
        SExprItem::Atom(_) => false,
        SExprItem::Node(name, ch) => {
            (name@ == "rule"@ && {
                let ix1 = 0int + 1;
                let ix2 = run_end_bind(ch@, ix1);
                let ix3 = ix2 + 1;
                let ix4 = ix3 + 1;
                let ix5 = run_end_prem(ch@, ix4);
                (0int < ch@.len() && <String as Decode>::accepts(ch@[0int])) && (ix2 < ch@.len() && accepts_mix(ch@[ix2])) && (ix3 < ch@.len() && accepts_exp(ch@[ix3])) && ix5 == ch@.len()
            })
        },
        _ => false,
    }
}

/// Whether decoding an item as `SpecTecRule` produces `v`.
pub open spec fn rel_rule(item: SExprItem, v: SpecTecRule) -> bool
    decreases item, 0int, 1int,
{
    match v {
        SpecTecRule::Rule { x, bs, op, e, prs } => item matches SExprItem::Node(name, ch) && name@ == "rule"@ && {
            let ix1 = 0int + 1;
            let ix2 = run_end_bind(ch@, ix1);
            let ix3 = ix2 + 1;
            let ix4 = ix3 + 1;
            let ix5 = run_end_prem(ch@, ix4);
            (0int < ch@.len() && <String as Decode>::decodes(ch@[0int], x)) && list_rel_bind(ch@, ix1, bs@) && (ix2 < ch@.len() && rel_mix(ch@[ix2], op)) && (ix3 < ch@.len() && rel_exp(ch@[ix3], e)) && list_rel_prem(ch@, ix4, prs@) && ix5 == ch@.len()
        },
    }
}

/// Whether an item decodes as `SpecTecClause`.
pub open spec fn accepts_clause(item: SExprItem) -> bool
    decreases item, 0int, 0int,
{
    match item {
        SExprItem::Atom(_) => false,
        SExprItem::Node(name, ch) => {
            (name@ == "clause"@ && {
                let ix1 = run_end_bind(ch@, 0int);
                let ix2 = run_end_arg(ch@, ix1);
                let ix3 = ix2 + 1;
                let ix4 = run_end_prem(ch@, ix3);
                (ix2 < ch@.len() && accepts_exp(ch@[ix2])) && ix4 == ch@.len()
            })
        },
        _ => false,
    }
}

/// Whether decoding an item as `SpecTecClause` produces `v`.
pub open spec fn rel_clause(item: SExprItem, v: SpecTecClause) -> bool
    decreases item, 0int, 1int,
{
    match v {
        SpecTecClause::Clause { bs, as_, e, prs } => item matches SExprItem::Node(name, ch) && name@ == "clause"@ && {
            let ix1 = run_end_bind(ch@, 0int);
            let ix2 = run_end_arg(ch@, ix1);
            let ix3 = ix2 + 1;
            let ix4 = run_end_prem(ch@, ix3);
            list_rel_bind(ch@, 0int, bs@) && list_rel_arg(ch@, ix1, as_@) && (ix2 < ch@.len() && rel_exp(ch@[ix2], e)) && list_rel_prem(ch@, ix3, prs@) && ix4 == ch@.len()
        },
    }
}

/// Whether an item decodes as `SpecTecProd`.
pub open spec fn accepts_prod(item: SExprItem) -> bool
    decreases item, 0int, 0int,
{
    match item {
        SExprItem::Atom(_) => false,
        SExprItem::Node(name, ch) => {
            (name@ == "prod"@ && {
                let ix1 = run_end_bind(ch@, 0int);
                let ix2 = ix1 + 1;
                let ix3 = ix2 + 1;
                let ix4 = run_end_prem(ch@, ix3);
                (ix1 < ch@.len() && accepts_sym(ch@[ix1])) && (ix2 < ch@.len() && accepts_exp(ch@[ix2])) && ix4 == ch@.len()
            })
        },
        _ => false,
    }
}

/// Whether decoding an item as `SpecTecProd` produces `v`.
pub open spec fn rel_prod(item: SExprItem, v: SpecTecProd) -> bool
    decreases item, 0int, 1int,
{
    match v {
        SpecTecProd::Prod { bs, g, e, prs } => item matches SExprItem::Node(name, ch) && name@ == "prod"@ && {
            let ix1 = run_end_bind(ch@, 0int);
            let ix2 = ix1 + 1;
            let ix3 = ix2 + 1;
            let ix4 = run_end_prem(ch@, ix3);
            list_rel_bind(ch@, 0int, bs@) && (ix1 < ch@.len() && rel_sym(ch@[ix1], g)) && (ix2 < ch@.len() && rel_exp(ch@[ix2], e)) && list_rel_prem(ch@, ix3, prs@) && ix4 == ch@.len()
        },
    }
}

/// Whether an item decodes as `SpecTecDef`.
pub open spec fn accepts_def(item: SExprItem) -> bool
    decreases item, 0int, 0int,
{
    match item {
        SExprItem::Atom(_) => false,
        SExprItem::Node(name, ch) => {
            (name@ == "typ"@ && {
                let ix1 = 0int + 1;
                let ix2 = run_end_param(ch@, ix1);
                let ix3 = run_end_inst(ch@, ix2);
                (0int < ch@.len() && <String as Decode>::accepts(ch@[0int])) && ix3 == ch@.len()
            })
            || (name@ == "rel"@ && {
                let ix1 = 0int + 1;
                let ix2 = ix1 + 1;
                let ix3 = ix2 + 1;
                let ix4 = run_end_rule(ch@, ix3);
                (0int < ch@.len() && <String as Decode>::accepts(ch@[0int])) && (ix1 < ch@.len() && accepts_mix(ch@[ix1])) && (ix2 < ch@.len() && accepts_typ(ch@[ix2])) && ix4 == ch@.len()
            })
            || (name@ == "def"@ && {
                let ix1 = 0int + 1;
                let ix2 = run_end_param(ch@, ix1);
                let ix3 = ix2 + 1;
                let ix4 = run_end_clause(ch@, ix3);
                (0int < ch@.len() && <String as Decode>::accepts(ch@[0int])) && (ix2 < ch@.len() && accepts_typ(ch@[ix2])) && ix4 == ch@.len()
            })
            || (name@ == "gram"@ && {
                let ix1 = 0int + 1;
                let ix2 = run_end_param(ch@, ix1);
                let ix3 = ix2 + 1;
                let ix4 = run_end_prod(ch@, ix3);
                (0int < ch@.len() && <String as Decode>::accepts(ch@[0int])) && (ix2 < ch@.len() && accepts_typ(ch@[ix2])) && ix4 == ch@.len()
            })
            || (name@ == "rec"@ && {
                let ix1 = run_end_def(ch@, 0int);
                ix1 == ch@.len()
            })
        },
        _ => false,
    }
}

/// Whether decoding an item as `SpecTecDef` produces `v`.
pub open spec fn rel_def(item: SExprItem, v: SpecTecDef) -> bool
    decreases item, 0int, 1int,
{
    match v {
        SpecTecDef::Typ { x, ps, insts } => item matches SExprItem::Node(name, ch) && name@ == "typ"@ && {
            let ix1 = 0int + 1;
            let ix2 = run_end_param(ch@, ix1);
            let ix3 = run_end_inst(ch@, ix2);
            (0int < ch@.len() && <String as Decode>::decodes(ch@[0int], x)) && list_rel_param(ch@, ix1, ps@) && list_rel_inst(ch@, ix2, insts@) && ix3 == ch@.len()
        },
        SpecTecDef::Rel { x, op, t, rules } => item matches SExprItem::Node(name, ch) && name@ == "rel"@ && {
            let ix1 = 0int + 1;
            let ix2 = ix1 + 1;
            let ix3 = ix2 + 1;
            let ix4 = run_end_rule(ch@, ix3);
            (0int < ch@.len() && <String as Decode>::decodes(ch@[0int], x)) && (ix1 < ch@.len() && rel_mix(ch@[ix1], op)) && (ix2 < ch@.len() && rel_typ(ch@[ix2], t)) && list_rel_rule(ch@, ix3, rules@) && ix4 == ch@.len()
        },
        SpecTecDef::Dec { x, ps, t, clauses } => item matches SExprItem::Node(name, ch) && name@ == "def"@ && {
            let ix1 = 0int + 1;
            let ix2 = run_end_param(ch@, ix1);
            let ix3 = ix2 + 1;
            let ix4 = run_end_clause(ch@, ix3);
            (0int < ch@.len() && <String as Decode>::decodes(ch@[0int], x)) && list_rel_param(ch@, ix1, ps@) && (ix2 < ch@.len() && rel_typ(ch@[ix2], t)) && list_rel_clause(ch@, ix3, clauses@) && ix4 == ch@.len()
        },
        SpecTecDef::Gram { x, ps, t, prods } => item matches SExprItem::Node(name, ch) && name@ == "gram"@ && {
            let ix1 = 0int + 1;
            let ix2 = run_end_param(ch@, ix1);
            let ix3 = ix2 + 1;
            let ix4 = run_end_prod(ch@, ix3);
            (0int < ch@.len() && <String as Decode>::decodes(ch@[0int], x)) && list_rel_param(ch@, ix1, ps@) && (ix2 < ch@.len() && rel_typ(ch@[ix2], t)) && list_rel_prod(ch@, ix3, prods@) && ix4 == ch@.len()
        },
        SpecTecDef::Rec { ds } => item matches SExprItem::Node(name, ch) && name@ == "rec"@ && {
            let ix1 = run_end_def(ch@, 0int);
            list_rel_def(ch@, 0int, ds@) && ix1 == ch@.len()
        },
    }
}

/// Consumes the maximal leading run of items that decode as
/// `SpecTecExp`, from `*pos` on, decoding each.
#[verifier::loop_isolation(false)]
fn decode_list_exp(items: &Vec<SExprItem>, pos: &mut usize) -> (vs: Vec<SpecTecExp>)
    requires
        *old(pos) <= items@.len(),
    ensures
        *final(pos) == run_end_exp(items@, *old(pos) as int),
        *old(pos) <= *final(pos) <= items@.len(),
        list_rel_exp(items@, *old(pos) as int, vs@),
    decreases items@, 0int, 0int,
{
    let mut out: Vec<SpecTecExp> = Vec::new();
    let ghost start = *pos as int;
    while *pos < items.len() && can_exp(&items[*pos])
        invariant
            start <= *pos <= items@.len(),
            out@.len() == *pos - start,
            run_end_exp(items@, *pos as int) == run_end_exp(items@, start),
            forall|k: int|
                0 <= k < out@.len() ==> rel_exp(items@[start + k], #[trigger] out@[k]),
        decreases items@.len() - *pos,
    {
        let v = match decode_exp(&items[*pos]) {
            Ok(v) => v,
            Err(_) => vstd::pervasive::unreached(),
        };
        out.push(v);
        *pos = *pos + 1;
    }
    out
}

/// Consumes the maximal leading run of items that decode as
/// `String`, from `*pos` on, decoding each.
#[verifier::loop_isolation(false)]
fn decode_list_str(items: &Vec<SExprItem>, pos: &mut usize) -> (vs: Vec<String>)
    requires
        *old(pos) <= items@.len(),
    ensures
        *final(pos) == run_end_str(items@, *old(pos) as int),
        *old(pos) <= *final(pos) <= items@.len(),
        list_rel_str(items@, *old(pos) as int, vs@),
    decreases items@, 0int, 0int,
{
    let mut out: Vec<String> = Vec::new();
    let ghost start = *pos as int;
    while *pos < items.len() && <String as Decode>::can_decode(&items[*pos])
        invariant
            start <= *pos <= items@.len(),
            out@.len() == *pos - start,
            run_end_str(items@, *pos as int) == run_end_str(items@, start),
            forall|k: int|
                0 <= k < out@.len() ==> <String as Decode>::decodes(items@[start + k], #[trigger] out@[k]),
        decreases items@.len() - *pos,
    {
        let v = match <String as Decode>::decode(&items[*pos]) {
            Ok(v) => v,
            Err(_) => vstd::pervasive::unreached(),
        };
        out.push(v);
        *pos = *pos + 1;
    }
    out
}

/// Consumes the maximal leading run of items that decode as
/// `SpecTecArg`, from `*pos` on, decoding each.
#[verifier::loop_isolation(false)]
fn decode_list_arg(items: &Vec<SExprItem>, pos: &mut usize) -> (vs: Vec<SpecTecArg>)
    requires
        *old(pos) <= items@.len(),
    ensures
        *final(pos) == run_end_arg(items@, *old(pos) as int),
        *old(pos) <= *final(pos) <= items@.len(),
        list_rel_arg(items@, *old(pos) as int, vs@),
    decreases items@, 0int, 0int,
{
    let mut out: Vec<SpecTecArg> = Vec::new();
    let ghost start = *pos as int;
    while *pos < items.len() && can_arg(&items[*pos])
        invariant
            start <= *pos <= items@.len(),
            out@.len() == *pos - start,
            run_end_arg(items@, *pos as int) == run_end_arg(items@, start),
            forall|k: int|
                0 <= k < out@.len() ==> rel_arg(items@[start + k], #[trigger] out@[k]),
        decreases items@.len() - *pos,
    {
        let v = match decode_arg(&items[*pos]) {
            Ok(v) => v,
            Err(_) => vstd::pervasive::unreached(),
        };
        out.push(v);
        *pos = *pos + 1;
    }
    out
}

/// Consumes the maximal leading run of items that decode as
/// `SpecTecTypBind`, from `*pos` on, decoding each.
#[verifier::loop_isolation(false)]
fn decode_list_typbind(items: &Vec<SExprItem>, pos: &mut usize) -> (vs: Vec<SpecTecTypBind>)
    requires
        *old(pos) <= items@.len(),
    ensures
        *final(pos) == run_end_typbind(items@, *old(pos) as int),
        *old(pos) <= *final(pos) <= items@.len(),
        list_rel_typbind(items@, *old(pos) as int, vs@),
    decreases items@, 0int, 0int,
{
    let mut out: Vec<SpecTecTypBind> = Vec::new();
    let ghost start = *pos as int;
    while *pos < items.len() && can_typbind(&items[*pos])
        invariant
            start <= *pos <= items@.len(),
            out@.len() == *pos - start,
            run_end_typbind(items@, *pos as int) == run_end_typbind(items@, start),
            forall|k: int|
                0 <= k < out@.len() ==> rel_typbind(items@[start + k], #[trigger] out@[k]),
        decreases items@.len() - *pos,
    {
        let v = match decode_typbind(&items[*pos]) {
            Ok(v) => v,
            Err(_) => vstd::pervasive::unreached(),
        };
        out.push(v);
        *pos = *pos + 1;
    }
    out
}

/// Consumes the maximal leading run of items that decode as
/// `SpecTecIter`, from `*pos` on, decoding each.
#[verifier::loop_isolation(false)]
fn decode_list_iter(items: &Vec<SExprItem>, pos: &mut usize) -> (vs: Vec<SpecTecIter>)
    requires
        *old(pos) <= items@.len(),
    ensures
        *final(pos) == run_end_iter(items@, *old(pos) as int),
        *old(pos) <= *final(pos) <= items@.len(),
        list_rel_iter(items@, *old(pos) as int, vs@),
    decreases items@, 0int, 0int,
{
    let mut out: Vec<SpecTecIter> = Vec::new();
    let ghost start = *pos as int;
    while *pos < items.len() && can_iter(&items[*pos])
        invariant
            start <= *pos <= items@.len(),
            out@.len() == *pos - start,
            run_end_iter(items@, *pos as int) == run_end_iter(items@, start),
            forall|k: int|
                0 <= k < out@.len() ==> rel_iter(items@[start + k], #[trigger] out@[k]),
        decreases items@.len() - *pos,
    {
        let v = match decode_iter(&items[*pos]) {
            Ok(v) => v,
            Err(_) => vstd::pervasive::unreached(),
        };
        out.push(v);
        *pos = *pos + 1;
    }
    out
}

/// Consumes the maximal leading run of items that decode as
/// `SpecTecTypField`, from `*pos` on, decoding each.
#[verifier::loop_isolation(false)]
fn decode_list_typfield(items: &Vec<SExprItem>, pos: &mut usize) -> (vs: Vec<SpecTecTypField>)
    requires
        *old(pos) <= items@.len(),
    ensures
        *final(pos) == run_end_typfield(items@, *old(pos) as int),
        *old(pos) <= *final(pos) <= items@.len(),
        list_rel_typfield(items@, *old(pos) as int, vs@),
    decreases items@, 0int, 0int,
{
    let mut out: Vec<SpecTecTypField> = Vec::new();
    let ghost start = *pos as int;
    while *pos < items.len() && can_typfield(&items[*pos])
        invariant
            start <= *pos <= items@.len(),
            out@.len() == *pos - start,
            run_end_typfield(items@, *pos as int) == run_end_typfield(items@, start),
            forall|k: int|
                0 <= k < out@.len() ==> rel_typfield(items@[start + k], #[trigger] out@[k]),
        decreases items@.len() - *pos,
    {
        let v = match decode_typfield(&items[*pos]) {
            Ok(v) => v,
            Err(_) => vstd::pervasive::unreached(),
        };
        out.push(v);
        *pos = *pos + 1;
    }
    out
}

/// Consumes the maximal leading run of items that decode as
/// `SpecTecTypCase`, from `*pos` on, decoding each.
#[verifier::loop_isolation(false)]
fn decode_list_typcase(items: &Vec<SExprItem>, pos: &mut usize) -> (vs: Vec<SpecTecTypCase>)
    requires
        *old(pos) <= items@.len(),
    ensures
        *final(pos) == run_end_typcase(items@, *old(pos) as int),
        *old(pos) <= *final(pos) <= items@.len(),
        list_rel_typcase(items@, *old(pos) as int, vs@),
    decreases items@, 0int, 0int,
{
    let mut out: Vec<SpecTecTypCase> = Vec::new();
    let ghost start = *pos as int;
    while *pos < items.len() && can_typcase(&items[*pos])
        invariant
            start <= *pos <= items@.len(),
            out@.len() == *pos - start,
            run_end_typcase(items@, *pos as int) == run_end_typcase(items@, start),
            forall|k: int|
                0 <= k < out@.len() ==> rel_typcase(items@[start + k], #[trigger] out@[k]),
        decreases items@.len() - *pos,
    {
        let v = match decode_typcase(&items[*pos]) {
            Ok(v) => v,
            Err(_) => vstd::pervasive::unreached(),
        };
        out.push(v);
        *pos = *pos + 1;
    }
    out
}

/// Consumes the maximal leading run of items that decode as
/// `SpecTecBind`, from `*pos` on, decoding each.
#[verifier::loop_isolation(false)]
fn decode_list_bind(items: &Vec<SExprItem>, pos: &mut usize) -> (vs: Vec<SpecTecBind>)
    requires
        *old(pos) <= items@.len(),
    ensures
        *final(pos) == run_end_bind(items@, *old(pos) as int),
        *old(pos) <= *final(pos) <= items@.len(),
        list_rel_bind(items@, *old(pos) as int, vs@),
    decreases items@, 0int, 0int,
{
    let mut out: Vec<SpecTecBind> = Vec::new();
    let ghost start = *pos as int;
    while *pos < items.len() && can_bind(&items[*pos])
        invariant
            start <= *pos <= items@.len(),
            out@.len() == *pos - start,
            run_end_bind(items@, *pos as int) == run_end_bind(items@, start),
            forall|k: int|
                0 <= k < out@.len() ==> rel_bind(items@[start + k], #[trigger] out@[k]),
        decreases items@.len() - *pos,
    {
        let v = match decode_bind(&items[*pos]) {
            Ok(v) => v,
            Err(_) => vstd::pervasive::unreached(),
        };
        out.push(v);
        *pos = *pos + 1;
    }
    out
}

/// Consumes the maximal leading run of items that decode as
/// `SpecTecPrem`, from `*pos` on, decoding each.
#[verifier::loop_isolation(false)]
fn decode_list_prem(items: &Vec<SExprItem>, pos: &mut usize) -> (vs: Vec<SpecTecPrem>)
    requires
        *old(pos) <= items@.len(),
    ensures
        *final(pos) == run_end_prem(items@, *old(pos) as int),
        *old(pos) <= *final(pos) <= items@.len(),
        list_rel_prem(items@, *old(pos) as int, vs@),
    decreases items@, 0int, 0int,
{
    let mut out: Vec<SpecTecPrem> = Vec::new();
    let ghost start = *pos as int;
    while *pos < items.len() && can_prem(&items[*pos])
        invariant
            start <= *pos <= items@.len(),
            out@.len() == *pos - start,
            run_end_prem(items@, *pos as int) == run_end_prem(items@, start),
            forall|k: int|
                0 <= k < out@.len() ==> rel_prem(items@[start + k], #[trigger] out@[k]),
        decreases items@.len() - *pos,
    {
        let v = match decode_prem(&items[*pos]) {
            Ok(v) => v,
            Err(_) => vstd::pervasive::unreached(),
        };
        out.push(v);
        *pos = *pos + 1;
    }
    out
}

/// Consumes the maximal leading run of items that decode as
/// `SpecTecExpField`, from `*pos` on, decoding each.
#[verifier::loop_isolation(false)]
fn decode_list_expfield(items: &Vec<SExprItem>, pos: &mut usize) -> (vs: Vec<SpecTecExpField>)
    requires
        *old(pos) <= items@.len(),
    ensures
        *final(pos) == run_end_expfield(items@, *old(pos) as int),
        *old(pos) <= *final(pos) <= items@.len(),
        list_rel_expfield(items@, *old(pos) as int, vs@),
    decreases items@, 0int, 0int,
{
    let mut out: Vec<SpecTecExpField> = Vec::new();
    let ghost start = *pos as int;
    while *pos < items.len() && can_expfield(&items[*pos])
        invariant
            start <= *pos <= items@.len(),
            out@.len() == *pos - start,
            run_end_expfield(items@, *pos as int) == run_end_expfield(items@, start),
            forall|k: int|
                0 <= k < out@.len() ==> rel_expfield(items@[start + k], #[trigger] out@[k]),
        decreases items@.len() - *pos,
    {
        let v = match decode_expfield(&items[*pos]) {
            Ok(v) => v,
            Err(_) => vstd::pervasive::unreached(),
        };
        out.push(v);
        *pos = *pos + 1;
    }
    out
}

/// Consumes the maximal leading run of items that decode as
/// `SpecTecIterExp`, from `*pos` on, decoding each.
#[verifier::loop_isolation(false)]
fn decode_list_iterexp(items: &Vec<SExprItem>, pos: &mut usize) -> (vs: Vec<SpecTecIterExp>)
    requires
        *old(pos) <= items@.len(),
    ensures
        *final(pos) == run_end_iterexp(items@, *old(pos) as int),
        *old(pos) <= *final(pos) <= items@.len(),
        list_rel_iterexp(items@, *old(pos) as int, vs@),
    decreases items@, 0int, 0int,
{
    let mut out: Vec<SpecTecIterExp> = Vec::new();
    let ghost start = *pos as int;
    while *pos < items.len() && can_iterexp(&items[*pos])
        invariant
            start <= *pos <= items@.len(),
            out@.len() == *pos - start,
            run_end_iterexp(items@, *pos as int) == run_end_iterexp(items@, start),
            forall|k: int|
                0 <= k < out@.len() ==> rel_iterexp(items@[start + k], #[trigger] out@[k]),
        decreases items@.len() - *pos,
    {
        let v = match decode_iterexp(&items[*pos]) {
            Ok(v) => v,
            Err(_) => vstd::pervasive::unreached(),
        };
        out.push(v);
        *pos = *pos + 1;
    }
    out
}

/// Consumes the maximal leading run of items that decode as
/// `Option<SpecTecExp>`, from `*pos` on, decoding each.
#[verifier::loop_isolation(false)]
fn decode_list_optexp(items: &Vec<SExprItem>, pos: &mut usize) -> (vs: Vec<Option<SpecTecExp>>)
    requires
        *old(pos) <= items@.len(),
    ensures
        *final(pos) == run_end_optexp(items@, *old(pos) as int),
        *old(pos) <= *final(pos) <= items@.len(),
        list_rel_optexp(items@, *old(pos) as int, vs@),
    decreases items@, 0int, 0int,
{
    let mut out: Vec<Option<SpecTecExp>> = Vec::new();
    let ghost start = *pos as int;
    while *pos < items.len() && can_exp(&items[*pos])
        invariant
            start <= *pos <= items@.len(),
            out@.len() == *pos - start,
            run_end_optexp(items@, *pos as int) == run_end_optexp(items@, start),
            forall|k: int|
                0 <= k < out@.len() ==> rel_opt_exp(items@[start + k], #[trigger] out@[k]),
        decreases items@.len() - *pos,
    {
        let v = match decode_exp(&items[*pos]) {
            Ok(v) => Some(v),
            Err(_) => vstd::pervasive::unreached(),
        };
        out.push(v);
        *pos = *pos + 1;
    }
    out
}

/// Consumes the maximal leading run of items that decode as
/// `SpecTecParam`, from `*pos` on, decoding each.
#[verifier::loop_isolation(false)]
fn decode_list_param(items: &Vec<SExprItem>, pos: &mut usize) -> (vs: Vec<SpecTecParam>)
    requires
        *old(pos) <= items@.len(),
    ensures
        *final(pos) == run_end_param(items@, *old(pos) as int),
        *old(pos) <= *final(pos) <= items@.len(),
        list_rel_param(items@, *old(pos) as int, vs@),
    decreases items@, 0int, 0int,
{
    let mut out: Vec<SpecTecParam> = Vec::new();
    let ghost start = *pos as int;
    while *pos < items.len() && can_param(&items[*pos])
        invariant
            start <= *pos <= items@.len(),
            out@.len() == *pos - start,
            run_end_param(items@, *pos as int) == run_end_param(items@, start),
            forall|k: int|
                0 <= k < out@.len() ==> rel_param(items@[start + k], #[trigger] out@[k]),
        decreases items@.len() - *pos,
    {
        let v = match decode_param(&items[*pos]) {
            Ok(v) => v,
            Err(_) => vstd::pervasive::unreached(),
        };
        out.push(v);
        *pos = *pos + 1;
    }
    out
}

/// Consumes the maximal leading run of items that decode as
/// `SpecTecInst`, from `*pos` on, decoding each.
#[verifier::loop_isolation(false)]
fn decode_list_inst(items: &Vec<SExprItem>, pos: &mut usize) -> (vs: Vec<SpecTecInst>)
    requires
        *old(pos) <= items@.len(),
    ensures
        *final(pos) == run_end_inst(items@, *old(pos) as int),
        *old(pos) <= *final(pos) <= items@.len(),
        list_rel_inst(items@, *old(pos) as int, vs@),
    decreases items@, 0int, 0int,
{
    let mut out: Vec<SpecTecInst> = Vec::new();
    let ghost start = *pos as int;
    while *pos < items.len() && can_inst(&items[*pos])
        invariant
            start <= *pos <= items@.len(),
            out@.len() == *pos - start,
            run_end_inst(items@, *pos as int) == run_end_inst(items@, start),
            forall|k: int|
                0 <= k < out@.len() ==> rel_inst(items@[start + k], #[trigger] out@[k]),
        decreases items@.len() - *pos,
    {
        let v = match decode_inst(&items[*pos]) {
            Ok(v) => v,
            Err(_) => vstd::pervasive::unreached(),
        };
        out.push(v);
        *pos = *pos + 1;
    }
    out
}

/// Consumes the maximal leading run of items that decode as
/// `SpecTecRule`, from `*pos` on, decoding each.
#[verifier::loop_isolation(false)]
fn decode_list_rule(items: &Vec<SExprItem>, pos: &mut usize) -> (vs: Vec<SpecTecRule>)
    requires
        *old(pos) <= items@.len(),
    ensures
        *final(pos) == run_end_rule(items@, *old(pos) as int),
        *old(pos) <= *final(pos) <= items@.len(),
        list_rel_rule(items@, *old(pos) as int, vs@),
    decreases items@, 0int, 0int,
{
    let mut out: Vec<SpecTecRule> = Vec::new();
    let ghost start = *pos as int;
    while *pos < items.len() && can_rule(&items[*pos])
        invariant
            start <= *pos <= items@.len(),
            out@.len() == *pos - start,
            run_end_rule(items@, *pos as int) == run_end_rule(items@, start),
            forall|k: int|
                0 <= k < out@.len() ==> rel_rule(items@[start + k], #[trigger] out@[k]),
        decreases items@.len() - *pos,
    {
        let v = match decode_rule(&items[*pos]) {
            Ok(v) => v,
            Err(_) => vstd::pervasive::unreached(),
        };
        out.push(v);
        *pos = *pos + 1;
    }
    out
}

/// Consumes the maximal leading run of items that decode as
/// `SpecTecClause`, from `*pos` on, decoding each.
#[verifier::loop_isolation(false)]
fn decode_list_clause(items: &Vec<SExprItem>, pos: &mut usize) -> (vs: Vec<SpecTecClause>)
    requires
        *old(pos) <= items@.len(),
    ensures
        *final(pos) == run_end_clause(items@, *old(pos) as int),
        *old(pos) <= *final(pos) <= items@.len(),
        list_rel_clause(items@, *old(pos) as int, vs@),
    decreases items@, 0int, 0int,
{
    let mut out: Vec<SpecTecClause> = Vec::new();
    let ghost start = *pos as int;
    while *pos < items.len() && can_clause(&items[*pos])
        invariant
            start <= *pos <= items@.len(),
            out@.len() == *pos - start,
            run_end_clause(items@, *pos as int) == run_end_clause(items@, start),
            forall|k: int|
                0 <= k < out@.len() ==> rel_clause(items@[start + k], #[trigger] out@[k]),
        decreases items@.len() - *pos,
    {
        let v = match decode_clause(&items[*pos]) {
            Ok(v) => v,
            Err(_) => vstd::pervasive::unreached(),
        };
        out.push(v);
        *pos = *pos + 1;
    }
    out
}

/// Consumes the maximal leading run of items that decode as
/// `SpecTecProd`, from `*pos` on, decoding each.
#[verifier::loop_isolation(false)]
fn decode_list_prod(items: &Vec<SExprItem>, pos: &mut usize) -> (vs: Vec<SpecTecProd>)
    requires
        *old(pos) <= items@.len(),
    ensures
        *final(pos) == run_end_prod(items@, *old(pos) as int),
        *old(pos) <= *final(pos) <= items@.len(),
        list_rel_prod(items@, *old(pos) as int, vs@),
    decreases items@, 0int, 0int,
{
    let mut out: Vec<SpecTecProd> = Vec::new();
    let ghost start = *pos as int;
    while *pos < items.len() && can_prod(&items[*pos])
        invariant
            start <= *pos <= items@.len(),
            out@.len() == *pos - start,
            run_end_prod(items@, *pos as int) == run_end_prod(items@, start),
            forall|k: int|
                0 <= k < out@.len() ==> rel_prod(items@[start + k], #[trigger] out@[k]),
        decreases items@.len() - *pos,
    {
        let v = match decode_prod(&items[*pos]) {
            Ok(v) => v,
            Err(_) => vstd::pervasive::unreached(),
        };
        out.push(v);
        *pos = *pos + 1;
    }
    out
}

/// Consumes the maximal leading run of items that decode as
/// `SpecTecDef`, from `*pos` on, decoding each.
#[verifier::loop_isolation(false)]
fn decode_list_def(items: &Vec<SExprItem>, pos: &mut usize) -> (vs: Vec<SpecTecDef>)
    requires
        *old(pos) <= items@.len(),
    ensures
        *final(pos) == run_end_def(items@, *old(pos) as int),
        *old(pos) <= *final(pos) <= items@.len(),
        list_rel_def(items@, *old(pos) as int, vs@),
    decreases items@, 0int, 0int,
{
    let mut out: Vec<SpecTecDef> = Vec::new();
    let ghost start = *pos as int;
    while *pos < items.len() && can_def(&items[*pos])
        invariant
            start <= *pos <= items@.len(),
            out@.len() == *pos - start,
            run_end_def(items@, *pos as int) == run_end_def(items@, start),
            forall|k: int|
                0 <= k < out@.len() ==> rel_def(items@[start + k], #[trigger] out@[k]),
        decreases items@.len() - *pos,
    {
        let v = match decode_def(&items[*pos]) {
            Ok(v) => v,
            Err(_) => vstd::pervasive::unreached(),
        };
        out.push(v);
        *pos = *pos + 1;
    }
    out
}

/// Decodes one item as `SpecTecBoolTyp`, or reports why it cannot be.
fn decode_booltyp(item: &SExprItem) -> (r: Result<SpecTecBoolTyp, DecodeError>)
    ensures
        r is Ok <==> accepts_booltyp(*item),
        r matches Ok(v) ==> rel_booltyp(*item, v),
    decreases item, 0int, 0int,
{
    match item {
        SExprItem::Atom(t) => {
            if text_is(t, "bool") {
                Ok(SpecTecBoolTyp::Bool)
            } else {
                Err(DecodeError::UnrecognisedSymbol(t.clone()).with_context("while decoding SpecTecBoolTyp"))
            }
        },
        SExprItem::Node(name, ch) => {
            Err(DecodeError::UnrecognisedSymbol(name.clone()).with_context("while decoding SpecTecBoolTyp"))
        },
        _ => Err(
            DecodeError::UnexpectedItem(clone_item(item)).with_context("while decoding SpecTecBoolTyp"),
        ),
    }
}

/// Decides whether an item decodes as `SpecTecBoolTyp`.
fn can_booltyp(item: &SExprItem) -> (r: bool)
    ensures
        r == accepts_booltyp(*item),
    decreases item, 0int, 1int,
{
    decode_booltyp(item).is_ok()
}

/// Decodes one item as `SpecTecNumTyp`, or reports why it cannot be.
fn decode_numtyp(item: &SExprItem) -> (r: Result<SpecTecNumTyp, DecodeError>)
    ensures
        r is Ok <==> accepts_numtyp(*item),
        r matches Ok(v) ==> rel_numtyp(*item, v),
    decreases item, 0int, 0int,
{
    match item {
        SExprItem::Atom(t) => {
            if text_is(t, "nat") {
                Ok(SpecTecNumTyp::Nat)
            } else if text_is(t, "int") {
                Ok(SpecTecNumTyp::Int)
            } else if text_is(t, "rat") {
                Ok(SpecTecNumTyp::Rat)
            } else if text_is(t, "real") {
                Ok(SpecTecNumTyp::Real)
            } else {
                Err(DecodeError::UnrecognisedSymbol(t.clone()).with_context("while decoding SpecTecNumTyp"))
            }
        },
        SExprItem::Node(name, ch) => {
            Err(DecodeError::UnrecognisedSymbol(name.clone()).with_context("while decoding SpecTecNumTyp"))
        },
        _ => Err(
            DecodeError::UnexpectedItem(clone_item(item)).with_context("while decoding SpecTecNumTyp"),
        ),
    }
}

/// Decides whether an item decodes as `SpecTecNumTyp`.
fn can_numtyp(item: &SExprItem) -> (r: bool)
    ensures
        r == accepts_numtyp(*item),
    decreases item, 0int, 1int,
{
    decode_numtyp(item).is_ok()
}

/// Decodes one item as `SpecTecNum`, or reports why it cannot be.
fn decode_num(item: &SExprItem) -> (r: Result<SpecTecNum, DecodeError>)
    ensures
        r is Ok <==> accepts_num(*item),
        r matches Ok(v) ==> rel_num(*item, v),
    decreases item, 0int, 0int,
{
    match item {
        SExprItem::Atom(t) => {
            Err(DecodeError::UnrecognisedSymbol(t.clone()).with_context("while decoding SpecTecNum"))
        },
        SExprItem::Node(name, ch) => {
            proof {
                reveal_strlit("nat");
                reveal_strlit("int");
                reveal_strlit("rat");
                reveal_strlit("real");
                assert("nat"@ =~= seq!['n', 'a', 't']);
                assert("int"@ =~= seq!['i', 'n', 't']);
                assert("rat"@ =~= seq!['r', 'a', 't']);
                assert("real"@ =~= seq!['r', 'e', 'a', 'l']);
            }
            if text_is(name, "nat") {
                let mut pos: usize = 0;
                if pos >= ch.len() {
                    return Err(
                        DecodeError::MissingItem.with_context("decoding variant Nat").with_context(
                            "while decoding SpecTecNum",
                        ),
                    );
                }
                let f_b0 = match <u64 as Decode>::decode(&ch[pos]) {
                    Ok(v) => v,
                    Err(e) => {
                        return Err(
                            e.with_context("decoding variant Nat").with_context("while decoding SpecTecNum"),
                        );
                    },
                };
                pos = pos + 1;
                if pos == ch.len() {
                    Ok(SpecTecNum::Nat(f_b0))
                } else {
                    Err(
                        DecodeError::UnexpectedItem(clone_item(&ch[pos])).with_context(
                            "decoding variant Nat item not consumed by fields",
                        ).with_context("while decoding SpecTecNum"),
                    )
                }
            } else if text_is(name, "int") {
                let mut pos: usize = 0;
                if pos >= ch.len() {
                    return Err(
                        DecodeError::MissingItem.with_context("decoding variant Int").with_context(
                            "while decoding SpecTecNum",
                        ),
                    );
                }
                let f_b0 = match <i64 as Decode>::decode(&ch[pos]) {
                    Ok(v) => v,
                    Err(e) => {
                        return Err(
                            e.with_context("decoding variant Int").with_context("while decoding SpecTecNum"),
                        );
                    },
                };
                pos = pos + 1;
                if pos == ch.len() {
                    Ok(SpecTecNum::Int(f_b0))
                } else {
                    Err(
                        DecodeError::UnexpectedItem(clone_item(&ch[pos])).with_context(
                            "decoding variant Int item not consumed by fields",
                        ).with_context("while decoding SpecTecNum"),
                    )
                }
            } else if text_is(name, "rat") {
                let mut pos: usize = 0;
                if pos >= ch.len() {
                    return Err(
                        DecodeError::MissingItem.with_context("decoding variant Rat").with_context(
                            "while decoding SpecTecNum",
                        ),
                    );
                }
                let f_b0 = match <String as Decode>::decode(&ch[pos]) {
                    Ok(v) => v,
                    Err(e) => {
                        return Err(
                            e.with_context("decoding variant Rat").with_context("while decoding SpecTecNum"),
                        );
                    },
                };
                pos = pos + 1;
                if pos == ch.len() {
                    Ok(SpecTecNum::Rat(f_b0))
                } else {
                    Err(
                        DecodeError::UnexpectedItem(clone_item(&ch[pos])).with_context(
                            "decoding variant Rat item not consumed by fields",
                        ).with_context("while decoding SpecTecNum"),
                    )
                }
            } else if text_is(name, "real") {
                let mut pos: usize = 0;
                if pos >= ch.len() {
                    return Err(
                        DecodeError::MissingItem.with_context("decoding variant Real").with_context(
                            "while decoding SpecTecNum",
                        ),
                    );
                }
                let f_b0 = match <String as Decode>::decode(&ch[pos]) {
                    Ok(v) => v,
                    Err(e) => {
                        return Err(
                            e.with_context("decoding variant Real").with_context("while decoding SpecTecNum"),
                        );
                    },
                };
                pos = pos + 1;
                if pos == ch.len() {
                    Ok(SpecTecNum::Real(f_b0))
                } else {
                    Err(
                        DecodeError::UnexpectedItem(clone_item(&ch[pos])).with_context(
                            "decoding variant Real item not consumed by fields",
                        ).with_context("while decoding SpecTecNum"),
                    )
                }
            } else {
                Err(DecodeError::UnrecognisedSymbol(name.clone()).with_context("while decoding SpecTecNum"))
            }
        },
        _ => Err(
            DecodeError::UnexpectedItem(clone_item(item)).with_context("while decoding SpecTecNum"),
        ),
    }
}

/// Decides whether an item decodes as `SpecTecNum`.
fn can_num(item: &SExprItem) -> (r: bool)
    ensures
        r == accepts_num(*item),
    decreases item, 0int, 1int,
{
    decode_num(item).is_ok()
}

/// Decodes one item as `SpecTecUnOp`, or reports why it cannot be.
fn decode_unop(item: &SExprItem) -> (r: Result<SpecTecUnOp, DecodeError>)
    ensures
        r is Ok <==> accepts_unop(*item),
        r matches Ok(v) ==> rel_unop(*item, v),
    decreases item, 0int, 0int,
{
    match item {
        SExprItem::Atom(t) => {
            if text_is(t, "not") {
                Ok(SpecTecUnOp::Not)
            } else if text_is(t, "plus") {
                Ok(SpecTecUnOp::Plus)
            } else if text_is(t, "minus") {
                Ok(SpecTecUnOp::Minus)
            } else if text_is(t, "plusminus") {
                Ok(SpecTecUnOp::PlusMinus)
            } else if text_is(t, "minusplus") {
                Ok(SpecTecUnOp::MinusPlus)
            } else {
                Err(DecodeError::UnrecognisedSymbol(t.clone()).with_context("while decoding SpecTecUnOp"))
            }
        },
        SExprItem::Node(name, ch) => {
            Err(DecodeError::UnrecognisedSymbol(name.clone()).with_context("while decoding SpecTecUnOp"))
        },
        _ => Err(
            DecodeError::UnexpectedItem(clone_item(item)).with_context("while decoding SpecTecUnOp"),
        ),
    }
}

/// Decides whether an item decodes as `SpecTecUnOp`.
fn can_unop(item: &SExprItem) -> (r: bool)
    ensures
        r == accepts_unop(*item),
    decreases item, 0int, 1int,
{
    decode_unop(item).is_ok()
}

/// Decodes one item as `SpecTecBinOp`, or reports why it cannot be.
fn decode_binop(item: &SExprItem) -> (r: Result<SpecTecBinOp, DecodeError>)
    ensures
        r is Ok <==> accepts_binop(*item),
        r matches Ok(v) ==> rel_binop(*item, v),
    decreases item, 0int, 0int,
{
    match item {
        SExprItem::Atom(t) => {
            if text_is(t, "and") {
                Ok(SpecTecBinOp::And)
            } else if text_is(t, "or") {
                Ok(SpecTecBinOp::Or)
            } else if text_is(t, "impl") {
                Ok(SpecTecBinOp::Impl)
            } else if text_is(t, "equiv") {
                Ok(SpecTecBinOp::Equiv)
            } else if text_is(t, "add") {
                Ok(SpecTecBinOp::Add)
            } else if text_is(t, "sub") {
                Ok(SpecTecBinOp::Sub)
            } else if text_is(t, "mul") {
                Ok(SpecTecBinOp::Mul)
            } else if text_is(t, "div") {
                Ok(SpecTecBinOp::Div)
            } else if text_is(t, "mod") {
                Ok(SpecTecBinOp::Mod)
            } else if text_is(t, "pow") {
                Ok(SpecTecBinOp::Pow)
            } else {
                Err(DecodeError::UnrecognisedSymbol(t.clone()).with_context("while decoding SpecTecBinOp"))
            }
        },
        SExprItem::Node(name, ch) => {
            Err(DecodeError::UnrecognisedSymbol(name.clone()).with_context("while decoding SpecTecBinOp"))
        },
        _ => Err(
            DecodeError::UnexpectedItem(clone_item(item)).with_context("while decoding SpecTecBinOp"),
        ),
    }
}

/// Decides whether an item decodes as `SpecTecBinOp`.
fn can_binop(item: &SExprItem) -> (r: bool)
    ensures
        r == accepts_binop(*item),
    decreases item, 0int, 1int,
{
    decode_binop(item).is_ok()
}

/// Decodes one item as `SpecTecCmpOp`, or reports why it cannot be.
fn decode_cmpop(item: &SExprItem) -> (r: Result<SpecTecCmpOp, DecodeError>)
    ensures
        r is Ok <==> accepts_cmpop(*item),
        r matches Ok(v) ==> rel_cmpop(*item, v),
    decreases item, 0int, 0int,
{
    match item {
        SExprItem::Atom(t) => {
            if text_is(t, "eq") {
                Ok(SpecTecCmpOp::Eq)
            } else if text_is(t, "ne") {
                Ok(SpecTecCmpOp::Ne)
            } else if text_is(t, "lt") {
                Ok(SpecTecCmpOp::Lt)
            } else if text_is(t, "gt") {
                Ok(SpecTecCmpOp::Gt)
            } else if text_is(t, "le") {
                Ok(SpecTecCmpOp::Le)
            } else if text_is(t, "ge") {
                Ok(SpecTecCmpOp::Ge)
            } else {
                Err(DecodeError::UnrecognisedSymbol(t.clone()).with_context("while decoding SpecTecCmpOp"))
            }
        },
        SExprItem::Node(name, ch) => {
            Err(DecodeError::UnrecognisedSymbol(name.clone()).with_context("while decoding SpecTecCmpOp"))
        },
        _ => Err(
            DecodeError::UnexpectedItem(clone_item(item)).with_context("while decoding SpecTecCmpOp"),
        ),
    }
}

/// Decides whether an item decodes as `SpecTecCmpOp`.
fn can_cmpop(item: &SExprItem) -> (r: bool)
    ensures
        r == accepts_cmpop(*item),
    decreases item, 0int, 1int,
{
    decode_cmpop(item).is_ok()
}

/// Decodes one item as `SpecTecIter`, or reports why it cannot be.
fn decode_iter(item: &SExprItem) -> (r: Result<SpecTecIter, DecodeError>)
    ensures
        r is Ok <==> accepts_iter(*item),
        r matches Ok(v) ==> rel_iter(*item, v),
    decreases item, 0int, 0int,
{
    match item {
        SExprItem::Atom(t) => {
            if text_is(t, "opt") {
                Ok(SpecTecIter::Opt)
            } else if text_is(t, "list") {
                Ok(SpecTecIter::List)
            } else if text_is(t, "list1") {
                Ok(SpecTecIter::List1)
            } else {
                Err(DecodeError::UnrecognisedSymbol(t.clone()).with_context("while decoding SpecTecIter"))
            }
        },
        SExprItem::Node(name, ch) => {
            proof {
                reveal_strlit("listn");
                assert("listn"@ =~= seq!['l', 'i', 's', 't', 'n']);
            }
            if text_is(name, "listn") {
                let mut pos: usize = 0;
                proof {
                    assert(decreases_to!(*item => item->Node_1));
                    assert(decreases_to!(item->Node_1 => item->Node_1@));
                }
                let f_e = decode_list_exp(ch, &mut pos);
                proof {
                    assert(decreases_to!(*item => item->Node_1));
                    assert(decreases_to!(item->Node_1 => item->Node_1@));
                }
                let f_xo = decode_list_str(ch, &mut pos);
                if pos == ch.len() {
                    Ok(SpecTecIter::ListN { e: f_e, xo: f_xo })
                } else {
                    Err(
                        DecodeError::UnexpectedItem(clone_item(&ch[pos])).with_context(
                            "decoding variant ListN item not consumed by fields",
                        ).with_context("while decoding SpecTecIter"),
                    )
                }
            } else {
                Err(DecodeError::UnrecognisedSymbol(name.clone()).with_context("while decoding SpecTecIter"))
            }
        },
        _ => Err(
            DecodeError::UnexpectedItem(clone_item(item)).with_context("while decoding SpecTecIter"),
        ),
    }
}

/// Decides whether an item decodes as `SpecTecIter`.
fn can_iter(item: &SExprItem) -> (r: bool)
    ensures
        r == accepts_iter(*item),
    decreases item, 0int, 1int,
{
    decode_iter(item).is_ok()
}

/// Decodes one item as `SpecTecOpTyp`, or reports why it cannot be.
fn decode_optyp(item: &SExprItem) -> (r: Result<SpecTecOpTyp, DecodeError>)
    ensures
        r is Ok <==> accepts_optyp(*item),
        r matches Ok(v) ==> rel_optyp(*item, v),
    decreases item, 0int, 2int,
{
    match item {
        SExprItem::Atom(t) => {
            match decode_numtyp(item) {
                Ok(v) => Ok(SpecTecOpTyp::Num(v)),
                Err(_) => {
                    match decode_booltyp(item) {
                        Ok(v) => Ok(SpecTecOpTyp::Bool(v)),
                        Err(_) => Err(
                            DecodeError::UnrecognisedSymbol(t.clone()).with_context("while decoding SpecTecOpTyp"),
                        ),
                    }
                },
            }
        },
        SExprItem::Node(name, ch) => {
            Err(DecodeError::UnrecognisedSymbol(name.clone()).with_context("while decoding SpecTecOpTyp"))
        },
        _ => Err(
            DecodeError::UnexpectedItem(clone_item(item)).with_context("while decoding SpecTecOpTyp"),
        ),
    }
}

/// Decides whether an item decodes as `SpecTecOpTyp`.
fn can_optyp(item: &SExprItem) -> (r: bool)
    ensures
        r == accepts_optyp(*item),
    decreases item, 0int, 3int,
{
    decode_optyp(item).is_ok()
}

/// Decodes one item as `SpecTecTyp`, or reports why it cannot be.
fn decode_typ(item: &SExprItem) -> (r: Result<SpecTecTyp, DecodeError>)
    ensures
        r is Ok <==> accepts_typ(*item),
        r matches Ok(v) ==> rel_typ(*item, v),
    decreases item, 0int, 2int,
{
    match item {
        SExprItem::Atom(t) => {
            if text_is(t, "bool") {
                Ok(SpecTecTyp::Bool)
            } else if text_is(t, "text") {
                Ok(SpecTecTyp::Text)
            } else {
                match decode_numtyp(item) {
                    Ok(v) => Ok(SpecTecTyp::Num(v)),
                    Err(_) => Err(
                        DecodeError::UnrecognisedSymbol(t.clone()).with_context("while decoding SpecTecTyp"),
                    ),
                }
            }
        },
        SExprItem::Node(name, ch) => {
            proof {
                reveal_strlit("var");
                reveal_strlit("tup");
                reveal_strlit("iter");
                assert("var"@ =~= seq!['v', 'a', 'r']);
                assert("tup"@ =~= seq!['t', 'u', 'p']);
                assert("iter"@ =~= seq!['i', 't', 'e', 'r']);
            }
            if text_is(name, "var") {
                let mut pos: usize = 0;
                if pos >= ch.len() {
                    return Err(
                        DecodeError::MissingItem.with_context("decoding variant Var field x").with_context(
                            "while decoding SpecTecTyp",
                        ),
                    );
                }
                let f_x = match <String as Decode>::decode(&ch[pos]) {
                    Ok(v) => v,
                    Err(e) => {
                        return Err(
                            e.with_context("decoding variant Var field x").with_context("while decoding SpecTecTyp"),
                        );
                    },
                };
                pos = pos + 1;
                proof {
                    assert(decreases_to!(*item => item->Node_1));
                    assert(decreases_to!(item->Node_1 => item->Node_1@));
                }
                let f_as1 = decode_list_arg(ch, &mut pos);
                if pos == ch.len() {
                    Ok(SpecTecTyp::Var { x: f_x, as1: f_as1 })
                } else {
                    Err(
                        DecodeError::UnexpectedItem(clone_item(&ch[pos])).with_context(
                            "decoding variant Var item not consumed by fields",
                        ).with_context("while decoding SpecTecTyp"),
                    )
                }
            } else if text_is(name, "tup") {
                let mut pos: usize = 0;
                proof {
                    assert(decreases_to!(*item => item->Node_1));
                    assert(decreases_to!(item->Node_1 => item->Node_1@));
                }
                let f_ets = decode_list_typbind(ch, &mut pos);
                if pos == ch.len() {
                    Ok(SpecTecTyp::Tup { ets: f_ets })
                } else {
                    Err(
                        DecodeError::UnexpectedItem(clone_item(&ch[pos])).with_context(
                            "decoding variant Tup item not consumed by fields",
                        ).with_context("while decoding SpecTecTyp"),
                    )
                }
            } else if text_is(name, "iter") {
                let mut pos: usize = 0;
                if pos >= ch.len() {
                    return Err(
                        DecodeError::MissingItem.with_context("decoding variant Iter field t1").with_context(
                            "while decoding SpecTecTyp",
                        ),
                    );
                }
                proof {
                    assert(decreases_to!(*item => item->Node_1));
                    assert(decreases_to!(item->Node_1 => item->Node_1@));
                    assert(decreases_to!(item->Node_1@ => item->Node_1@[pos as int]));
                }
                let f_t1 = match (match decode_typ(&ch[pos]) {
                    Ok(v) => Ok(Box::new(v)),
                    Err(e) => Err(e),
                }) {
                    Ok(v) => v,
                    Err(e) => {
                        return Err(
                            e.with_context("decoding variant Iter field t1").with_context("while decoding SpecTecTyp"),
                        );
                    },
                };
                pos = pos + 1;
                proof {
                    assert(decreases_to!(*item => item->Node_1));
                    assert(decreases_to!(item->Node_1 => item->Node_1@));
                }
                let f_it = decode_list_iter(ch, &mut pos);
                if pos == ch.len() {
                    Ok(SpecTecTyp::Iter { t1: f_t1, it: f_it })
                } else {
                    Err(
                        DecodeError::UnexpectedItem(clone_item(&ch[pos])).with_context(
                            "decoding variant Iter item not consumed by fields",
                        ).with_context("while decoding SpecTecTyp"),
                    )
                }
            } else {
                Err(DecodeError::UnrecognisedSymbol(name.clone()).with_context("while decoding SpecTecTyp"))
            }
        },
        _ => Err(
            DecodeError::UnexpectedItem(clone_item(item)).with_context("while decoding SpecTecTyp"),
        ),
    }
}

/// Decides whether an item decodes as `SpecTecTyp`.
fn can_typ(item: &SExprItem) -> (r: bool)
    ensures
        r == accepts_typ(*item),
    decreases item, 0int, 3int,
{
    decode_typ(item).is_ok()
}

/// Decodes one item as `SpecTecDefTyp`, or reports why it cannot be.
fn decode_deftyp(item: &SExprItem) -> (r: Result<SpecTecDefTyp, DecodeError>)
    ensures
        r is Ok <==> accepts_deftyp(*item),
        r matches Ok(v) ==> rel_deftyp(*item, v),
    decreases item, 0int, 0int,
{
    match item {
        SExprItem::Atom(t) => {
            Err(DecodeError::UnrecognisedSymbol(t.clone()).with_context("while decoding SpecTecDefTyp"))
        },
        SExprItem::Node(name, ch) => {
            proof {
                reveal_strlit("alias");
                reveal_strlit("struct");
                reveal_strlit("variant");
                assert("alias"@ =~= seq!['a', 'l', 'i', 'a', 's']);
                assert("struct"@ =~= seq!['s', 't', 'r', 'u', 'c', 't']);
                assert("variant"@ =~= seq!['v', 'a', 'r', 'i', 'a', 'n', 't']);
            }
            if text_is(name, "alias") {
                let mut pos: usize = 0;
                if pos >= ch.len() {
                    return Err(
                        DecodeError::MissingItem.with_context("decoding variant Alias field typ").with_context(
                            "while decoding SpecTecDefTyp",
                        ),
                    );
                }
                proof {
                    assert(decreases_to!(*item => item->Node_1));
                    assert(decreases_to!(item->Node_1 => item->Node_1@));
                    assert(decreases_to!(item->Node_1@ => item->Node_1@[pos as int]));
                }
                let f_typ = match decode_typ(&ch[pos]) {
                    Ok(v) => v,
                    Err(e) => {
                        return Err(
                            e.with_context("decoding variant Alias field typ").with_context("while decoding SpecTecDefTyp"),
                        );
                    },
                };
                pos = pos + 1;
                if pos == ch.len() {
                    Ok(SpecTecDefTyp::Alias { typ: f_typ })
                } else {
                    Err(
                        DecodeError::UnexpectedItem(clone_item(&ch[pos])).with_context(
                            "decoding variant Alias item not consumed by fields",
                        ).with_context("while decoding SpecTecDefTyp"),
                    )
                }
            } else if text_is(name, "struct") {
                let mut pos: usize = 0;
                proof {
                    assert(decreases_to!(*item => item->Node_1));
                    assert(decreases_to!(item->Node_1 => item->Node_1@));
                }
                let f_tfs = decode_list_typfield(ch, &mut pos);
                if pos == ch.len() {
                    Ok(SpecTecDefTyp::Struct { tfs: f_tfs })
                } else {
                    Err(
                        DecodeError::UnexpectedItem(clone_item(&ch[pos])).with_context(
                            "decoding variant Struct item not consumed by fields",
                        ).with_context("while decoding SpecTecDefTyp"),
                    )
                }
            } else if text_is(name, "variant") {
                let mut pos: usize = 0;
                proof {
                    assert(decreases_to!(*item => item->Node_1));
                    assert(decreases_to!(item->Node_1 => item->Node_1@));
                }
                let f_tcs = decode_list_typcase(ch, &mut pos);
                if pos == ch.len() {
                    Ok(SpecTecDefTyp::Variant { tcs: f_tcs })
                } else {
                    Err(
                        DecodeError::UnexpectedItem(clone_item(&ch[pos])).with_context(
                            "decoding variant Variant item not consumed by fields",
                        ).with_context("while decoding SpecTecDefTyp"),
                    )
                }
            } else {
                Err(DecodeError::UnrecognisedSymbol(name.clone()).with_context("while decoding SpecTecDefTyp"))
            }
        },
        _ => Err(
            DecodeError::UnexpectedItem(clone_item(item)).with_context("while decoding SpecTecDefTyp"),
        ),
    }
}

/// Decides whether an item decodes as `SpecTecDefTyp`.
fn can_deftyp(item: &SExprItem) -> (r: bool)
    ensures
        r == accepts_deftyp(*item),
    decreases item, 0int, 1int,
{
    decode_deftyp(item).is_ok()
}

/// Decodes one item as `SpecTecTypBind`, or reports why it cannot be.
fn decode_typbind(item: &SExprItem) -> (r: Result<SpecTecTypBind, DecodeError>)
    ensures
        r is Ok <==> accepts_typbind(*item),
        r matches Ok(v) ==> rel_typbind(*item, v),
    decreases item, 0int, 0int,
{
    match item {
        SExprItem::Atom(t) => {
            Err(DecodeError::UnrecognisedSymbol(t.clone()).with_context("while decoding SpecTecTypBind"))
        },
        SExprItem::Node(name, ch) => {
            proof {
                reveal_strlit("bind");
                assert("bind"@ =~= seq!['b', 'i', 'n', 'd']);
            }
            if text_is(name, "bind") {
                let mut pos: usize = 0;
                if pos >= ch.len() {
                    return Err(
                        DecodeError::MissingItem.with_context("decoding variant Bind field exp").with_context(
                            "while decoding SpecTecTypBind",
                        ),
                    );
                }
                proof {
                    assert(decreases_to!(*item => item->Node_1));
                    assert(decreases_to!(item->Node_1 => item->Node_1@));
                    assert(decreases_to!(item->Node_1@ => item->Node_1@[pos as int]));
                }
                let f_exp = match decode_exp(&ch[pos]) {
                    Ok(v) => v,
                    Err(e) => {
                        return Err(
                            e.with_context("decoding variant Bind field exp").with_context("while decoding SpecTecTypBind"),
                        );
                    },
                };
                pos = pos + 1;
                if pos >= ch.len() {
                    return Err(
                        DecodeError::MissingItem.with_context("decoding variant Bind field typ").with_context(
                            "while decoding SpecTecTypBind",
                        ),
                    );
                }
                proof {
                    assert(decreases_to!(*item => item->Node_1));
                    assert(decreases_to!(item->Node_1 => item->Node_1@));
                    assert(decreases_to!(item->Node_1@ => item->Node_1@[pos as int]));
                }
                let f_typ = match decode_typ(&ch[pos]) {
                    Ok(v) => v,
                    Err(e) => {
                        return Err(
                            e.with_context("decoding variant Bind field typ").with_context("while decoding SpecTecTypBind"),
                        );
                    },
                };
                pos = pos + 1;
                if pos == ch.len() {
                    Ok(SpecTecTypBind::Bind { exp: f_exp, typ: f_typ })
                } else {
                    Err(
                        DecodeError::UnexpectedItem(clone_item(&ch[pos])).with_context(
                            "decoding variant Bind item not consumed by fields",
                        ).with_context("while decoding SpecTecTypBind"),
                    )
                }
            } else {
                Err(DecodeError::UnrecognisedSymbol(name.clone()).with_context("while decoding SpecTecTypBind"))
            }
        },
        _ => Err(
            DecodeError::UnexpectedItem(clone_item(item)).with_context("while decoding SpecTecTypBind"),
        ),
    }
}

/// Decides whether an item decodes as `SpecTecTypBind`.
fn can_typbind(item: &SExprItem) -> (r: bool)
    ensures
        r == accepts_typbind(*item),
    decreases item, 0int, 1int,
{
    decode_typbind(item).is_ok()
}

/// Decodes one item as `SpecTecTypField`, or reports why it cannot be.
fn decode_typfield(item: &SExprItem) -> (r: Result<SpecTecTypField, DecodeError>)
    ensures
        r is Ok <==> accepts_typfield(*item),
        r matches Ok(v) ==> rel_typfield(*item, v),
    decreases item, 0int, 0int,
{
    match item {
        SExprItem::Atom(t) => {
            Err(DecodeError::UnrecognisedSymbol(t.clone()).with_context("while decoding SpecTecTypField"))
        },
        SExprItem::Node(name, ch) => {
            proof {
                reveal_strlit("field");
                assert("field"@ =~= seq!['f', 'i', 'e', 'l', 'd']);
            }
            if text_is(name, "field") {
                let mut pos: usize = 0;
                if pos >= ch.len() {
                    return Err(
                        DecodeError::MissingItem.with_context("decoding variant Field field at").with_context(
                            "while decoding SpecTecTypField",
                        ),
                    );
                }
                let f_at = match decode_mix(&ch[pos]) {
                    Ok(v) => v,
                    Err(e) => {
                        return Err(
                            e.with_context("decoding variant Field field at").with_context("while decoding SpecTecTypField"),
                        );
                    },
                };
                pos = pos + 1;
                proof {
                    assert(decreases_to!(*item => item->Node_1));
                    assert(decreases_to!(item->Node_1 => item->Node_1@));
                }
                let f_bs = decode_list_bind(ch, &mut pos);
                if pos >= ch.len() {
                    return Err(
                        DecodeError::MissingItem.with_context("decoding variant Field field t").with_context(
                            "while decoding SpecTecTypField",
                        ),
                    );
                }
                proof {
                    assert(decreases_to!(*item => item->Node_1));
                    assert(decreases_to!(item->Node_1 => item->Node_1@));
                    assert(decreases_to!(item->Node_1@ => item->Node_1@[pos as int]));
                }
                let f_t = match decode_typ(&ch[pos]) {
                    Ok(v) => v,
                    Err(e) => {
                        return Err(
                            e.with_context("decoding variant Field field t").with_context("while decoding SpecTecTypField"),
                        );
                    },
                };
                pos = pos + 1;
                proof {
                    assert(decreases_to!(*item => item->Node_1));
                    assert(decreases_to!(item->Node_1 => item->Node_1@));
                }
                let f_prs = decode_list_prem(ch, &mut pos);
                if pos == ch.len() {
                    Ok(SpecTecTypField::Field { at: f_at, bs: f_bs, t: f_t, prs: f_prs })
                } else {
                    Err(
                        DecodeError::UnexpectedItem(clone_item(&ch[pos])).with_context(
                            "decoding variant Field item not consumed by fields",
                        ).with_context("while decoding SpecTecTypField"),
                    )
                }
            } else {
                Err(DecodeError::UnrecognisedSymbol(name.clone()).with_context("while decoding SpecTecTypField"))
            }
        },
        _ => Err(
            DecodeError::UnexpectedItem(clone_item(item)).with_context("while decoding SpecTecTypField"),
        ),
    }
}

/// Decides whether an item decodes as `SpecTecTypField`.
fn can_typfield(item: &SExprItem) -> (r: bool)
    ensures
        r == accepts_typfield(*item),
    decreases item, 0int, 1int,
{
    decode_typfield(item).is_ok()
}

/// Decodes one item as `SpecTecTypCase`, or reports why it cannot be.
fn decode_typcase(item: &SExprItem) -> (r: Result<SpecTecTypCase, DecodeError>)
    ensures
        r is Ok <==> accepts_typcase(*item),
        r matches Ok(v) ==> rel_typcase(*item, v),
    decreases item, 0int, 0int,
{
    match item {
        SExprItem::Atom(t) => {
            Err(DecodeError::UnrecognisedSymbol(t.clone()).with_context("while decoding SpecTecTypCase"))
        },
        SExprItem::Node(name, ch) => {
            proof {
                reveal_strlit("case");
                assert("case"@ =~= seq!['c', 'a', 's', 'e']);
            }
            if text_is(name, "case") {
                let mut pos: usize = 0;
                if pos >= ch.len() {
                    return Err(
                        DecodeError::MissingItem.with_context("decoding variant Field field op").with_context(
                            "while decoding SpecTecTypCase",
                        ),
                    );
                }
                let f_op = match decode_mix(&ch[pos]) {
                    Ok(v) => v,
                    Err(e) => {
                        return Err(
                            e.with_context("decoding variant Field field op").with_context("while decoding SpecTecTypCase"),
                        );
                    },
                };
                pos = pos + 1;
                proof {
                    assert(decreases_to!(*item => item->Node_1));
                    assert(decreases_to!(item->Node_1 => item->Node_1@));
                }
                let f_bs = decode_list_bind(ch, &mut pos);
                if pos >= ch.len() {
                    return Err(
                        DecodeError::MissingItem.with_context("decoding variant Field field t").with_context(
                            "while decoding SpecTecTypCase",
                        ),
                    );
                }
                proof {
                    assert(decreases_to!(*item => item->Node_1));
                    assert(decreases_to!(item->Node_1 => item->Node_1@));
                    assert(decreases_to!(item->Node_1@ => item->Node_1@[pos as int]));
                }
                let f_t = match decode_typ(&ch[pos]) {
                    Ok(v) => v,
                    Err(e) => {
                        return Err(
                            e.with_context("decoding variant Field field t").with_context("while decoding SpecTecTypCase"),
                        );
                    },
                };
                pos = pos + 1;
                proof {
                    assert(decreases_to!(*item => item->Node_1));
                    assert(decreases_to!(item->Node_1 => item->Node_1@));
                }
                let f_prs = decode_list_prem(ch, &mut pos);
                if pos == ch.len() {
                    Ok(SpecTecTypCase::Field { op: f_op, bs: f_bs, t: f_t, prs: f_prs })
                } else {
                    Err(
                        DecodeError::UnexpectedItem(clone_item(&ch[pos])).with_context(
                            "decoding variant Field item not consumed by fields",
                        ).with_context("while decoding SpecTecTypCase"),
                    )
                }
            } else {
                Err(DecodeError::UnrecognisedSymbol(name.clone()).with_context("while decoding SpecTecTypCase"))
            }
        },
        _ => Err(
            DecodeError::UnexpectedItem(clone_item(item)).with_context("while decoding SpecTecTypCase"),
        ),
    }
}

/// Decides whether an item decodes as `SpecTecTypCase`.
fn can_typcase(item: &SExprItem) -> (r: bool)
    ensures
        r == accepts_typcase(*item),
    decreases item, 0int, 1int,
{
    decode_typcase(item).is_ok()
}

/// Decodes one item as `SpecTecExp`, or reports why it cannot be.
fn decode_exp(item: &SExprItem) -> (r: Result<SpecTecExp, DecodeError>)
    ensures
        r is Ok <==> accepts_exp(*item),
        r matches Ok(v) ==> rel_exp(*item, v),
    decreases item, 0int, 0int,
{
    match item {
        SExprItem::Atom(t) => {
            Err(DecodeError::UnrecognisedSymbol(t.clone()).with_context("while decoding SpecTecExp"))
        },
        SExprItem::Node(name, ch) => {
            proof {
                reveal_strlit("var");
                reveal_strlit("bool");
                reveal_strlit("num");
                reveal_strlit("text");
                reveal_strlit("un");
                reveal_strlit("bin");
                reveal_strlit("cmp");
                reveal_strlit("idx");
                reveal_strlit("slice");
                reveal_strlit("upd");
                reveal_strlit("ext");
                reveal_strlit("struct");
                reveal_strlit("dot");
                reveal_strlit("comp");
                reveal_strlit("mem");
                reveal_strlit("len");
                reveal_strlit("tup");
                reveal_strlit("call");
                reveal_strlit("iter");
                reveal_strlit("proj");
                reveal_strlit("case");
                reveal_strlit("uncase");
                reveal_strlit("opt");
                reveal_strlit("unopt");
                reveal_strlit("list");
                reveal_strlit("lift");
                reveal_strlit("cat");
                reveal_strlit("cvt");
                reveal_strlit("sub");
                assert("var"@ =~= seq!['v', 'a', 'r']);
                assert("bool"@ =~= seq!['b', 'o', 'o', 'l']);
                assert("num"@ =~= seq!['n', 'u', 'm']);
                assert("text"@ =~= seq!['t', 'e', 'x', 't']);
                assert("un"@ =~= seq!['u', 'n']);
                assert("bin"@ =~= seq!['b', 'i', 'n']);
                assert("cmp"@ =~= seq!['c', 'm', 'p']);
                assert("idx"@ =~= seq!['i', 'd', 'x']);
                assert("slice"@ =~= seq!['s', 'l', 'i', 'c', 'e']);
                assert("upd"@ =~= seq!['u', 'p', 'd']);
                assert("ext"@ =~= seq!['e', 'x', 't']);
                assert("struct"@ =~= seq!['s', 't', 'r', 'u', 'c', 't']);
                assert("dot"@ =~= seq!['d', 'o', 't']);
                assert("comp"@ =~= seq!['c', 'o', 'm', 'p']);
                assert("mem"@ =~= seq!['m', 'e', 'm']);
                assert("len"@ =~= seq!['l', 'e', 'n']);
                assert("tup"@ =~= seq!['t', 'u', 'p']);
                assert("call"@ =~= seq!['c', 'a', 'l', 'l']);
                assert("iter"@ =~= seq!['i', 't', 'e', 'r']);
                assert("proj"@ =~= seq!['p', 'r', 'o', 'j']);
                assert("case"@ =~= seq!['c', 'a', 's', 'e']);
                assert("uncase"@ =~= seq!['u', 'n', 'c', 'a', 's', 'e']);
                assert("opt"@ =~= seq!['o', 'p', 't']);
                assert("unopt"@ =~= seq!['u', 'n', 'o', 'p', 't']);
                assert("list"@ =~= seq!['l', 'i', 's', 't']);
                assert("lift"@ =~= seq!['l', 'i', 'f', 't']);
                assert("cat"@ =~= seq!['c', 'a', 't']);
                assert("cvt"@ =~= seq!['c', 'v', 't']);
                assert("sub"@ =~= seq!['s', 'u', 'b']);
            }
            if text_is(name, "var") {
                let mut pos: usize = 0;
                if pos >= ch.len() {
                    return Err(
                        DecodeError::MissingItem.with_context("decoding variant Var field id").with_context(
                            "while decoding SpecTecExp",
                        ),
                    );
                }
                let f_id = match <String as Decode>::decode(&ch[pos]) {
                    Ok(v) => v,
                    Err(e) => {
                        return Err(
                            e.with_context("decoding variant Var field id").with_context("while decoding SpecTecExp"),
                        );
                    },
                };
                pos = pos + 1;
                if pos == ch.len() {
                    Ok(SpecTecExp::Var { id: f_id })
                } else {
                    Err(
                        DecodeError::UnexpectedItem(clone_item(&ch[pos])).with_context(
                            "decoding variant Var item not consumed by fields",
                        ).with_context("while decoding SpecTecExp"),
                    )
                }
            } else if text_is(name, "bool") {
                let mut pos: usize = 0;
                if pos >= ch.len() {
                    return Err(
                        DecodeError::MissingItem.with_context("decoding variant Bool field b").with_context(
                            "while decoding SpecTecExp",
                        ),
                    );
                }
                let f_b = match <bool as Decode>::decode(&ch[pos]) {
                    Ok(v) => v,
                    Err(e) => {
                        return Err(
                            e.with_context("decoding variant Bool field b").with_context("while decoding SpecTecExp"),
                        );
                    },
                };
                pos = pos + 1;
                if pos == ch.len() {
                    Ok(SpecTecExp::Bool { b: f_b })
                } else {
                    Err(
                        DecodeError::UnexpectedItem(clone_item(&ch[pos])).with_context(
                            "decoding variant Bool item not consumed by fields",
                        ).with_context("while decoding SpecTecExp"),
                    )
                }
            } else if text_is(name, "num") {
                let mut pos: usize = 0;
                if pos >= ch.len() {
                    return Err(
                        DecodeError::MissingItem.with_context("decoding variant Num field n").with_context(
                            "while decoding SpecTecExp",
                        ),
                    );
                }
                proof {
                    assert(decreases_to!(*item => item->Node_1));
                    assert(decreases_to!(item->Node_1 => item->Node_1@));
                    assert(decreases_to!(item->Node_1@ => item->Node_1@[pos as int]));
                }
                let f_n = match decode_num(&ch[pos]) {
                    Ok(v) => v,
                    Err(e) => {
                        return Err(
                            e.with_context("decoding variant Num field n").with_context("while decoding SpecTecExp"),
                        );
                    },
                };
                pos = pos + 1;
                if pos == ch.len() {
                    Ok(SpecTecExp::Num { n: f_n })
                } else {
                    Err(
                        DecodeError::UnexpectedItem(clone_item(&ch[pos])).with_context(
                            "decoding variant Num item not consumed by fields",
                        ).with_context("while decoding SpecTecExp"),
                    )
                }
            } else if text_is(name, "text") {
                let mut pos: usize = 0;
                if pos >= ch.len() {
                    return Err(
                        DecodeError::MissingItem.with_context("decoding variant Text field t").with_context(
                            "while decoding SpecTecExp",
                        ),
                    );
                }
                let f_t = match <String as Decode>::decode(&ch[pos]) {
                    Ok(v) => v,
                    Err(e) => {
                        return Err(
                            e.with_context("decoding variant Text field t").with_context("while decoding SpecTecExp"),
                        );
                    },
                };
                pos = pos + 1;
                if pos == ch.len() {
                    Ok(SpecTecExp::Text { t: f_t })
                } else {
                    Err(
                        DecodeError::UnexpectedItem(clone_item(&ch[pos])).with_context(
                            "decoding variant Text item not consumed by fields",
                        ).with_context("while decoding SpecTecExp"),
                    )
                }
            } else if text_is(name, "un") {
                let mut pos: usize = 0;
                if pos >= ch.len() {
                    return Err(
                        DecodeError::MissingItem.with_context("decoding variant Un field op").with_context(
                            "while decoding SpecTecExp",
                        ),
                    );
                }
                proof {
                    assert(decreases_to!(*item => item->Node_1));
                    assert(decreases_to!(item->Node_1 => item->Node_1@));
                    assert(decreases_to!(item->Node_1@ => item->Node_1@[pos as int]));
                }
                let f_op = match decode_unop(&ch[pos]) {
                    Ok(v) => v,
                    Err(e) => {
                        return Err(
                            e.with_context("decoding variant Un field op").with_context("while decoding SpecTecExp"),
                        );
                    },
                };
                pos = pos + 1;
                if pos >= ch.len() {
                    return Err(
                        DecodeError::MissingItem.with_context("decoding variant Un field t").with_context(
                            "while decoding SpecTecExp",
                        ),
                    );
                }
                proof {
                    assert(decreases_to!(*item => item->Node_1));
                    assert(decreases_to!(item->Node_1 => item->Node_1@));
                    assert(decreases_to!(item->Node_1@ => item->Node_1@[pos as int]));
                }
                let f_t = match decode_optyp(&ch[pos]) {
                    Ok(v) => v,
                    Err(e) => {
                        return Err(
                            e.with_context("decoding variant Un field t").with_context("while decoding SpecTecExp"),
                        );
                    },
                };
                pos = pos + 1;
                if pos >= ch.len() {
                    return Err(
                        DecodeError::MissingItem.with_context("decoding variant Un field e2").with_context(
                            "while decoding SpecTecExp",
                        ),
                    );
                }
                proof {
                    assert(decreases_to!(*item => item->Node_1));
                    assert(decreases_to!(item->Node_1 => item->Node_1@));
                    assert(decreases_to!(item->Node_1@ => item->Node_1@[pos as int]));
                }
                let f_e2 = match (match decode_exp(&ch[pos]) {
                    Ok(v) => Ok(Box::new(v)),
                    Err(e) => Err(e),
                }) {
                    Ok(v) => v,
                    Err(e) => {
                        return Err(
                            e.with_context("decoding variant Un field e2").with_context("while decoding SpecTecExp"),
                        );
                    },
                };
                pos = pos + 1;
                if pos == ch.len() {
                    Ok(SpecTecExp::Un { op: f_op, t: f_t, e2: f_e2 })
                } else {
                    Err(
                        DecodeError::UnexpectedItem(clone_item(&ch[pos])).with_context(
                            "decoding variant Un item not consumed by fields",
                        ).with_context("while decoding SpecTecExp"),
                    )
                }
            } else if text_is(name, "bin") {
                let mut pos: usize = 0;
                if pos >= ch.len() {
                    return Err(
                        DecodeError::MissingItem.with_context("decoding variant Bin field op").with_context(
                            "while decoding SpecTecExp",
                        ),
                    );
                }
                proof {
                    assert(decreases_to!(*item => item->Node_1));
                    assert(decreases_to!(item->Node_1 => item->Node_1@));
                    assert(decreases_to!(item->Node_1@ => item->Node_1@[pos as int]));
                }
                let f_op = match decode_binop(&ch[pos]) {
                    Ok(v) => v,
                    Err(e) => {
                        return Err(
                            e.with_context("decoding variant Bin field op").with_context("while decoding SpecTecExp"),
                        );
                    },
                };
                pos = pos + 1;
                if pos >= ch.len() {
                    return Err(
                        DecodeError::MissingItem.with_context("decoding variant Bin field t").with_context(
                            "while decoding SpecTecExp",
                        ),
                    );
                }
                proof {
                    assert(decreases_to!(*item => item->Node_1));
                    assert(decreases_to!(item->Node_1 => item->Node_1@));
                    assert(decreases_to!(item->Node_1@ => item->Node_1@[pos as int]));
                }
                let f_t = match decode_optyp(&ch[pos]) {
                    Ok(v) => v,
                    Err(e) => {
                        return Err(
                            e.with_context("decoding variant Bin field t").with_context("while decoding SpecTecExp"),
                        );
                    },
                };
                pos = pos + 1;
                if pos >= ch.len() {
                    return Err(
                        DecodeError::MissingItem.with_context("decoding variant Bin field e1").with_context(
                            "while decoding SpecTecExp",
                        ),
                    );
                }
                proof {
                    assert(decreases_to!(*item => item->Node_1));
                    assert(decreases_to!(item->Node_1 => item->Node_1@));
                    assert(decreases_to!(item->Node_1@ => item->Node_1@[pos as int]));
                }
                let f_e1 = match (match decode_exp(&ch[pos]) {
                    Ok(v) => Ok(Box::new(v)),
                    Err(e) => Err(e),
                }) {
                    Ok(v) => v,
                    Err(e) => {
                        return Err(
                            e.with_context("decoding variant Bin field e1").with_context("while decoding SpecTecExp"),
                        );
                    },
                };
                pos = pos + 1;
                if pos >= ch.len() {
                    return Err(
                        DecodeError::MissingItem.with_context("decoding variant Bin field e2").with_context(
                            "while decoding SpecTecExp",
                        ),
                    );
                }
                proof {
                    assert(decreases_to!(*item => item->Node_1));
                    assert(decreases_to!(item->Node_1 => item->Node_1@));
                    assert(decreases_to!(item->Node_1@ => item->Node_1@[pos as int]));
                }
                let f_e2 = match (match decode_exp(&ch[pos]) {
                    Ok(v) => Ok(Box::new(v)),
                    Err(e) => Err(e),
                }) {
                    Ok(v) => v,
                    Err(e) => {
                        return Err(
                            e.with_context("decoding variant Bin field e2").with_context("while decoding SpecTecExp"),
                        );
                    },
                };
                pos = pos + 1;
                if pos == ch.len() {
                    Ok(SpecTecExp::Bin { op: f_op, t: f_t, e1: f_e1, e2: f_e2 })
                } else {
                    Err(
                        DecodeError::UnexpectedItem(clone_item(&ch[pos])).with_context(
                            "decoding variant Bin item not consumed by fields",
                        ).with_context("while decoding SpecTecExp"),
                    )
                }
            } else if text_is(name, "cmp") {
                let mut pos: usize = 0;
                if pos >= ch.len() {
                    return Err(
                        DecodeError::MissingItem.with_context("decoding variant Cmp field op").with_context(
                            "while decoding SpecTecExp",
                        ),
                    );
                }
                proof {
                    assert(decreases_to!(*item => item->Node_1));
                    assert(decreases_to!(item->Node_1 => item->Node_1@));
                    assert(decreases_to!(item->Node_1@ => item->Node_1@[pos as int]));
                }
                let f_op = match decode_cmpop(&ch[pos]) {
                    Ok(v) => v,
                    Err(e) => {
                        return Err(
                            e.with_context("decoding variant Cmp field op").with_context("while decoding SpecTecExp"),
                        );
                    },
                };
                pos = pos + 1;
                if pos >= ch.len() {
                    return Err(
                        DecodeError::MissingItem.with_context("decoding variant Cmp field t").with_context(
                            "while decoding SpecTecExp",
                        ),
                    );
                }
                proof {
                    assert(decreases_to!(*item => item->Node_1));
                    assert(decreases_to!(item->Node_1 => item->Node_1@));
                    assert(decreases_to!(item->Node_1@ => item->Node_1@[pos as int]));
                }
                let f_t = match decode_optyp(&ch[pos]) {
                    Ok(v) => v,
                    Err(e) => {
                        return Err(
                            e.with_context("decoding variant Cmp field t").with_context("while decoding SpecTecExp"),
                        );
                    },
                };
                pos = pos + 1;
                if pos >= ch.len() {
                    return Err(
                        DecodeError::MissingItem.with_context("decoding variant Cmp field e1").with_context(
                            "while decoding SpecTecExp",
                        ),
                    );
                }
                proof {
                    assert(decreases_to!(*item => item->Node_1));
                    assert(decreases_to!(item->Node_1 => item->Node_1@));
                    assert(decreases_to!(item->Node_1@ => item->Node_1@[pos as int]));
                }
                let f_e1 = match (match decode_exp(&ch[pos]) {
                    Ok(v) => Ok(Box::new(v)),
                    Err(e) => Err(e),
                }) {
                    Ok(v) => v,
                    Err(e) => {
                        return Err(
                            e.with_context("decoding variant Cmp field e1").with_context("while decoding SpecTecExp"),
                        );
                    },
                };
                pos = pos + 1;
                if pos >= ch.len() {
                    return Err(
                        DecodeError::MissingItem.with_context("decoding variant Cmp field e2").with_context(
                            "while decoding SpecTecExp",
                        ),
                    );
                }
                proof {
                    assert(decreases_to!(*item => item->Node_1));
                    assert(decreases_to!(item->Node_1 => item->Node_1@));
                    assert(decreases_to!(item->Node_1@ => item->Node_1@[pos as int]));
                }
                let f_e2 = match (match decode_exp(&ch[pos]) {
                    Ok(v) => Ok(Box::new(v)),
                    Err(e) => Err(e),
                }) {
                    Ok(v) => v,
                    Err(e) => {
                        return Err(
                            e.with_context("decoding variant Cmp field e2").with_context("while decoding SpecTecExp"),
                        );
                    },
                };
                pos = pos + 1;
                if pos == ch.len() {
                    Ok(SpecTecExp::Cmp { op: f_op, t: f_t, e1: f_e1, e2: f_e2 })
                } else {
                    Err(
                        DecodeError::UnexpectedItem(clone_item(&ch[pos])).with_context(
                            "decoding variant Cmp item not consumed by fields",
                        ).with_context("while decoding SpecTecExp"),
                    )
                }
            } else if text_is(name, "idx") {
                let mut pos: usize = 0;
                if pos >= ch.len() {
                    return Err(
                        DecodeError::MissingItem.with_context("decoding variant Idx field e1").with_context(
                            "while decoding SpecTecExp",
                        ),
                    );
                }
                proof {
                    assert(decreases_to!(*item => item->Node_1));
                    assert(decreases_to!(item->Node_1 => item->Node_1@));
                    assert(decreases_to!(item->Node_1@ => item->Node_1@[pos as int]));
                }
                let f_e1 = match (match decode_exp(&ch[pos]) {
                    Ok(v) => Ok(Box::new(v)),
                    Err(e) => Err(e),
                }) {
                    Ok(v) => v,
                    Err(e) => {
                        return Err(
                            e.with_context("decoding variant Idx field e1").with_context("while decoding SpecTecExp"),
                        );
                    },
                };
                pos = pos + 1;
                if pos >= ch.len() {
                    return Err(
                        DecodeError::MissingItem.with_context("decoding variant Idx field e2").with_context(
                            "while decoding SpecTecExp",
                        ),
                    );
                }
                proof {
                    assert(decreases_to!(*item => item->Node_1));
                    assert(decreases_to!(item->Node_1 => item->Node_1@));
                    assert(decreases_to!(item->Node_1@ => item->Node_1@[pos as int]));
                }
                let f_e2 = match (match decode_exp(&ch[pos]) {
                    Ok(v) => Ok(Box::new(v)),
                    Err(e) => Err(e),
                }) {
                    Ok(v) => v,
                    Err(e) => {
                        return Err(
                            e.with_context("decoding variant Idx field e2").with_context("while decoding SpecTecExp"),
                        );
                    },
                };
                pos = pos + 1;
                if pos == ch.len() {
                    Ok(SpecTecExp::Idx { e1: f_e1, e2: f_e2 })
                } else {
                    Err(
                        DecodeError::UnexpectedItem(clone_item(&ch[pos])).with_context(
                            "decoding variant Idx item not consumed by fields",
                        ).with_context("while decoding SpecTecExp"),
                    )
                }
            } else if text_is(name, "slice") {
                let mut pos: usize = 0;
                if pos >= ch.len() {
                    return Err(
                        DecodeError::MissingItem.with_context("decoding variant Slice field e1").with_context(
                            "while decoding SpecTecExp",
                        ),
                    );
                }
                proof {
                    assert(decreases_to!(*item => item->Node_1));
                    assert(decreases_to!(item->Node_1 => item->Node_1@));
                    assert(decreases_to!(item->Node_1@ => item->Node_1@[pos as int]));
                }
                let f_e1 = match (match decode_exp(&ch[pos]) {
                    Ok(v) => Ok(Box::new(v)),
                    Err(e) => Err(e),
                }) {
                    Ok(v) => v,
                    Err(e) => {
                        return Err(
                            e.with_context("decoding variant Slice field e1").with_context("while decoding SpecTecExp"),
                        );
                    },
                };
                pos = pos + 1;
                if pos >= ch.len() {
                    return Err(
                        DecodeError::MissingItem.with_context("decoding variant Slice field e2").with_context(
                            "while decoding SpecTecExp",
                        ),
                    );
                }
                proof {
                    assert(decreases_to!(*item => item->Node_1));
                    assert(decreases_to!(item->Node_1 => item->Node_1@));
                    assert(decreases_to!(item->Node_1@ => item->Node_1@[pos as int]));
                }
                let f_e2 = match (match decode_exp(&ch[pos]) {
                    Ok(v) => Ok(Box::new(v)),
                    Err(e) => Err(e),
                }) {
                    Ok(v) => v,
                    Err(e) => {
                        return Err(
                            e.with_context("decoding variant Slice field e2").with_context("while decoding SpecTecExp"),
                        );
                    },
                };
                pos = pos + 1;
                if pos >= ch.len() {
                    return Err(
                        DecodeError::MissingItem.with_context("decoding variant Slice field e3").with_context(
                            "while decoding SpecTecExp",
                        ),
                    );
                }
                proof {
                    assert(decreases_to!(*item => item->Node_1));
                    assert(decreases_to!(item->Node_1 => item->Node_1@));
                    assert(decreases_to!(item->Node_1@ => item->Node_1@[pos as int]));
                }
                let f_e3 = match (match decode_exp(&ch[pos]) {
                    Ok(v) => Ok(Box::new(v)),
                    Err(e) => Err(e),
                }) {
                    Ok(v) => v,
                    Err(e) => {
                        return Err(
                            e.with_context("decoding variant Slice field e3").with_context("while decoding SpecTecExp"),
                        );
                    },
                };
                pos = pos + 1;
                if pos == ch.len() {
                    Ok(SpecTecExp::Slice { e1: f_e1, e2: f_e2, e3: f_e3 })
                } else {
                    Err(
                        DecodeError::UnexpectedItem(clone_item(&ch[pos])).with_context(
                            "decoding variant Slice item not consumed by fields",
                        ).with_context("while decoding SpecTecExp"),
                    )
                }
            } else if text_is(name, "upd") {
                let mut pos: usize = 0;
                if pos >= ch.len() {
                    return Err(
                        DecodeError::MissingItem.with_context("decoding variant Upd field e1").with_context(
                            "while decoding SpecTecExp",
                        ),
                    );
                }
                proof {
                    assert(decreases_to!(*item => item->Node_1));
                    assert(decreases_to!(item->Node_1 => item->Node_1@));
                    assert(decreases_to!(item->Node_1@ => item->Node_1@[pos as int]));
                }
                let f_e1 = match (match decode_exp(&ch[pos]) {
                    Ok(v) => Ok(Box::new(v)),
                    Err(e) => Err(e),
                }) {
                    Ok(v) => v,
                    Err(e) => {
                        return Err(
                            e.with_context("decoding variant Upd field e1").with_context("while decoding SpecTecExp"),
                        );
                    },
                };
                pos = pos + 1;
                if pos >= ch.len() {
                    return Err(
                        DecodeError::MissingItem.with_context("decoding variant Upd field path").with_context(
                            "while decoding SpecTecExp",
                        ),
                    );
                }
                proof {
                    assert(decreases_to!(*item => item->Node_1));
                    assert(decreases_to!(item->Node_1 => item->Node_1@));
                    assert(decreases_to!(item->Node_1@ => item->Node_1@[pos as int]));
                }
                let f_path = match (match decode_path(&ch[pos]) {
                    Ok(v) => Ok(Box::new(v)),
                    Err(e) => Err(e),
                }) {
                    Ok(v) => v,
                    Err(e) => {
                        return Err(
                            e.with_context("decoding variant Upd field path").with_context("while decoding SpecTecExp"),
                        );
                    },
                };
                pos = pos + 1;
                if pos >= ch.len() {
                    return Err(
                        DecodeError::MissingItem.with_context("decoding variant Upd field e2").with_context(
                            "while decoding SpecTecExp",
                        ),
                    );
                }
                proof {
                    assert(decreases_to!(*item => item->Node_1));
                    assert(decreases_to!(item->Node_1 => item->Node_1@));
                    assert(decreases_to!(item->Node_1@ => item->Node_1@[pos as int]));
                }
                let f_e2 = match (match decode_exp(&ch[pos]) {
                    Ok(v) => Ok(Box::new(v)),
                    Err(e) => Err(e),
                }) {
                    Ok(v) => v,
                    Err(e) => {
                        return Err(
                            e.with_context("decoding variant Upd field e2").with_context("while decoding SpecTecExp"),
                        );
                    },
                };
                pos = pos + 1;
                if pos == ch.len() {
                    Ok(SpecTecExp::Upd { e1: f_e1, path: f_path, e2: f_e2 })
                } else {
                    Err(
                        DecodeError::UnexpectedItem(clone_item(&ch[pos])).with_context(
                            "decoding variant Upd item not consumed by fields",
                        ).with_context("while decoding SpecTecExp"),
                    )
                }
            } else if text_is(name, "ext") {
                let mut pos: usize = 0;
                if pos >= ch.len() {
                    return Err(
                        DecodeError::MissingItem.with_context("decoding variant Ext field e1").with_context(
                            "while decoding SpecTecExp",
                        ),
                    );
                }
                proof {
                    assert(decreases_to!(*item => item->Node_1));
                    assert(decreases_to!(item->Node_1 => item->Node_1@));
                    assert(decreases_to!(item->Node_1@ => item->Node_1@[pos as int]));
                }
                let f_e1 = match (match decode_exp(&ch[pos]) {
                    Ok(v) => Ok(Box::new(v)),
                    Err(e) => Err(e),
                }) {
                    Ok(v) => v,
                    Err(e) => {
                        return Err(
                            e.with_context("decoding variant Ext field e1").with_context("while decoding SpecTecExp"),
                        );
                    },
                };
                pos = pos + 1;
                if pos >= ch.len() {
                    return Err(
                        DecodeError::MissingItem.with_context("decoding variant Ext field path").with_context(
                            "while decoding SpecTecExp",
                        ),
                    );
                }
                proof {
                    assert(decreases_to!(*item => item->Node_1));
                    assert(decreases_to!(item->Node_1 => item->Node_1@));
                    assert(decreases_to!(item->Node_1@ => item->Node_1@[pos as int]));
                }
                let f_path = match (match decode_path(&ch[pos]) {
                    Ok(v) => Ok(Box::new(v)),
                    Err(e) => Err(e),
                }) {
                    Ok(v) => v,
                    Err(e) => {
                        return Err(
                            e.with_context("decoding variant Ext field path").with_context("while decoding SpecTecExp"),
                        );
                    },
                };
                pos = pos + 1;
                if pos >= ch.len() {
                    return Err(
                        DecodeError::MissingItem.with_context("decoding variant Ext field e2").with_context(
                            "while decoding SpecTecExp",
                        ),
                    );
                }
                proof {
                    assert(decreases_to!(*item => item->Node_1));
                    assert(decreases_to!(item->Node_1 => item->Node_1@));
                    assert(decreases_to!(item->Node_1@ => item->Node_1@[pos as int]));
                }
                let f_e2 = match (match decode_exp(&ch[pos]) {
                    Ok(v) => Ok(Box::new(v)),
                    Err(e) => Err(e),
                }) {
                    Ok(v) => v,
                    Err(e) => {
                        return Err(
                            e.with_context("decoding variant Ext field e2").with_context("while decoding SpecTecExp"),
                        );
                    },
                };
                pos = pos + 1;
                if pos == ch.len() {
                    Ok(SpecTecExp::Ext { e1: f_e1, path: f_path, e2: f_e2 })
                } else {
                    Err(
                        DecodeError::UnexpectedItem(clone_item(&ch[pos])).with_context(
                            "decoding variant Ext item not consumed by fields",
                        ).with_context("while decoding SpecTecExp"),
                    )
                }
            } else if text_is(name, "struct") {
                let mut pos: usize = 0;
                proof {
                    assert(decreases_to!(*item => item->Node_1));
                    assert(decreases_to!(item->Node_1 => item->Node_1@));
                }
                let f_efs = decode_list_expfield(ch, &mut pos);
                if pos == ch.len() {
                    Ok(SpecTecExp::Str { efs: f_efs })
                } else {
                    Err(
                        DecodeError::UnexpectedItem(clone_item(&ch[pos])).with_context(
                            "decoding variant Str item not consumed by fields",
                        ).with_context("while decoding SpecTecExp"),
                    )
                }
            } else if text_is(name, "dot") {
                let mut pos: usize = 0;
                if pos >= ch.len() {
                    return Err(
                        DecodeError::MissingItem.with_context("decoding variant Dot field e1").with_context(
                            "while decoding SpecTecExp",
                        ),
                    );
                }
                proof {
                    assert(decreases_to!(*item => item->Node_1));
                    assert(decreases_to!(item->Node_1 => item->Node_1@));
                    assert(decreases_to!(item->Node_1@ => item->Node_1@[pos as int]));
                }
                let f_e1 = match (match decode_exp(&ch[pos]) {
                    Ok(v) => Ok(Box::new(v)),
                    Err(e) => Err(e),
                }) {
                    Ok(v) => v,
                    Err(e) => {
                        return Err(
                            e.with_context("decoding variant Dot field e1").with_context("while decoding SpecTecExp"),
                        );
                    },
                };
                pos = pos + 1;
                if pos >= ch.len() {
                    return Err(
                        DecodeError::MissingItem.with_context("decoding variant Dot field at").with_context(
                            "while decoding SpecTecExp",
                        ),
                    );
                }
                let f_at = match decode_mix(&ch[pos]) {
                    Ok(v) => v,
                    Err(e) => {
                        return Err(
                            e.with_context("decoding variant Dot field at").with_context("while decoding SpecTecExp"),
                        );
                    },
                };
                pos = pos + 1;
                if pos == ch.len() {
                    Ok(SpecTecExp::Dot { e1: f_e1, at: f_at })
                } else {
                    Err(
                        DecodeError::UnexpectedItem(clone_item(&ch[pos])).with_context(
                            "decoding variant Dot item not consumed by fields",
                        ).with_context("while decoding SpecTecExp"),
                    )
                }
            } else if text_is(name, "comp") {
                let mut pos: usize = 0;
                if pos >= ch.len() {
                    return Err(
                        DecodeError::MissingItem.with_context("decoding variant Comp field e1").with_context(
                            "while decoding SpecTecExp",
                        ),
                    );
                }
                proof {
                    assert(decreases_to!(*item => item->Node_1));
                    assert(decreases_to!(item->Node_1 => item->Node_1@));
                    assert(decreases_to!(item->Node_1@ => item->Node_1@[pos as int]));
                }
                let f_e1 = match (match decode_exp(&ch[pos]) {
                    Ok(v) => Ok(Box::new(v)),
                    Err(e) => Err(e),
                }) {
                    Ok(v) => v,
                    Err(e) => {
                        return Err(
                            e.with_context("decoding variant Comp field e1").with_context("while decoding SpecTecExp"),
                        );
                    },
                };
                pos = pos + 1;
                if pos >= ch.len() {
                    return Err(
                        DecodeError::MissingItem.with_context("decoding variant Comp field e2").with_context(
                            "while decoding SpecTecExp",
                        ),
                    );
                }
                proof {
                    assert(decreases_to!(*item => item->Node_1));
                    assert(decreases_to!(item->Node_1 => item->Node_1@));
                    assert(decreases_to!(item->Node_1@ => item->Node_1@[pos as int]));
                }
                let f_e2 = match (match decode_exp(&ch[pos]) {
                    Ok(v) => Ok(Box::new(v)),
                    Err(e) => Err(e),
                }) {
                    Ok(v) => v,
                    Err(e) => {
                        return Err(
                            e.with_context("decoding variant Comp field e2").with_context("while decoding SpecTecExp"),
                        );
                    },
                };
                pos = pos + 1;
                if pos == ch.len() {
                    Ok(SpecTecExp::Comp { e1: f_e1, e2: f_e2 })
                } else {
                    Err(
                        DecodeError::UnexpectedItem(clone_item(&ch[pos])).with_context(
                            "decoding variant Comp item not consumed by fields",
                        ).with_context("while decoding SpecTecExp"),
                    )
                }
            } else if text_is(name, "mem") {
                let mut pos: usize = 0;
                if pos >= ch.len() {
                    return Err(
                        DecodeError::MissingItem.with_context("decoding variant Mem field e1").with_context(
                            "while decoding SpecTecExp",
                        ),
                    );
                }
                proof {
                    assert(decreases_to!(*item => item->Node_1));
                    assert(decreases_to!(item->Node_1 => item->Node_1@));
                    assert(decreases_to!(item->Node_1@ => item->Node_1@[pos as int]));
                }
                let f_e1 = match (match decode_exp(&ch[pos]) {
                    Ok(v) => Ok(Box::new(v)),
                    Err(e) => Err(e),
                }) {
                    Ok(v) => v,
                    Err(e) => {
                        return Err(
                            e.with_context("decoding variant Mem field e1").with_context("while decoding SpecTecExp"),
                        );
                    },
                };
                pos = pos + 1;
                if pos >= ch.len() {
                    return Err(
                        DecodeError::MissingItem.with_context("decoding variant Mem field e2").with_context(
                            "while decoding SpecTecExp",
                        ),
                    );
                }
                proof {
                    assert(decreases_to!(*item => item->Node_1));
                    assert(decreases_to!(item->Node_1 => item->Node_1@));
                    assert(decreases_to!(item->Node_1@ => item->Node_1@[pos as int]));
                }
                let f_e2 = match (match decode_exp(&ch[pos]) {
                    Ok(v) => Ok(Box::new(v)),
                    Err(e) => Err(e),
                }) {
                    Ok(v) => v,
                    Err(e) => {
                        return Err(
                            e.with_context("decoding variant Mem field e2").with_context("while decoding SpecTecExp"),
                        );
                    },
                };
                pos = pos + 1;
                if pos == ch.len() {
                    Ok(SpecTecExp::Mem { e1: f_e1, e2: f_e2 })
                } else {
                    Err(
                        DecodeError::UnexpectedItem(clone_item(&ch[pos])).with_context(
                            "decoding variant Mem item not consumed by fields",
                        ).with_context("while decoding SpecTecExp"),
                    )
                }
            } else if text_is(name, "len") {
                let mut pos: usize = 0;
                if pos >= ch.len() {
                    return Err(
                        DecodeError::MissingItem.with_context("decoding variant Len field e1").with_context(
                            "while decoding SpecTecExp",
                        ),
                    );
                }
                proof {
                    assert(decreases_to!(*item => item->Node_1));
                    assert(decreases_to!(item->Node_1 => item->Node_1@));
                    assert(decreases_to!(item->Node_1@ => item->Node_1@[pos as int]));
                }
                let f_e1 = match (match decode_exp(&ch[pos]) {
                    Ok(v) => Ok(Box::new(v)),
                    Err(e) => Err(e),
                }) {
                    Ok(v) => v,
                    Err(e) => {
                        return Err(
                            e.with_context("decoding variant Len field e1").with_context("while decoding SpecTecExp"),
                        );
                    },
                };
                pos = pos + 1;
                if pos == ch.len() {
                    Ok(SpecTecExp::Len { e1: f_e1 })
                } else {
                    Err(
                        DecodeError::UnexpectedItem(clone_item(&ch[pos])).with_context(
                            "decoding variant Len item not consumed by fields",
                        ).with_context("while decoding SpecTecExp"),
                    )
                }
            } else if text_is(name, "tup") {
                let mut pos: usize = 0;
                proof {
                    assert(decreases_to!(*item => item->Node_1));
                    assert(decreases_to!(item->Node_1 => item->Node_1@));
                }
                let f_es = decode_list_exp(ch, &mut pos);
                if pos == ch.len() {
                    Ok(SpecTecExp::Tup { es: f_es })
                } else {
                    Err(
                        DecodeError::UnexpectedItem(clone_item(&ch[pos])).with_context(
                            "decoding variant Tup item not consumed by fields",
                        ).with_context("while decoding SpecTecExp"),
                    )
                }
            } else if text_is(name, "call") {
                let mut pos: usize = 0;
                if pos >= ch.len() {
                    return Err(
                        DecodeError::MissingItem.with_context("decoding variant Call field x").with_context(
                            "while decoding SpecTecExp",
                        ),
                    );
                }
                let f_x = match <String as Decode>::decode(&ch[pos]) {
                    Ok(v) => v,
                    Err(e) => {
                        return Err(
                            e.with_context("decoding variant Call field x").with_context("while decoding SpecTecExp"),
                        );
                    },
                };
                pos = pos + 1;
                proof {
                    assert(decreases_to!(*item => item->Node_1));
                    assert(decreases_to!(item->Node_1 => item->Node_1@));
                }
                let f_as1 = decode_list_arg(ch, &mut pos);
                if pos == ch.len() {
                    Ok(SpecTecExp::Call { x: f_x, as1: f_as1 })
                } else {
                    Err(
                        DecodeError::UnexpectedItem(clone_item(&ch[pos])).with_context(
                            "decoding variant Call item not consumed by fields",
                        ).with_context("while decoding SpecTecExp"),
                    )
                }
            } else if text_is(name, "iter") {
                let mut pos: usize = 0;
                if pos >= ch.len() {
                    return Err(
                        DecodeError::MissingItem.with_context("decoding variant Iter field e1").with_context(
                            "while decoding SpecTecExp",
                        ),
                    );
                }
                proof {
                    assert(decreases_to!(*item => item->Node_1));
                    assert(decreases_to!(item->Node_1 => item->Node_1@));
                    assert(decreases_to!(item->Node_1@ => item->Node_1@[pos as int]));
                }
                let f_e1 = match (match decode_exp(&ch[pos]) {
                    Ok(v) => Ok(Box::new(v)),
                    Err(e) => Err(e),
                }) {
                    Ok(v) => v,
                    Err(e) => {
                        return Err(
                            e.with_context("decoding variant Iter field e1").with_context("while decoding SpecTecExp"),
                        );
                    },
                };
                pos = pos + 1;
                if pos >= ch.len() {
                    return Err(
                        DecodeError::MissingItem.with_context("decoding variant Iter field it").with_context(
                            "while decoding SpecTecExp",
                        ),
                    );
                }
                proof {
                    assert(decreases_to!(*item => item->Node_1));
                    assert(decreases_to!(item->Node_1 => item->Node_1@));
                    assert(decreases_to!(item->Node_1@ => item->Node_1@[pos as int]));
                }
                let f_it = match decode_iter(&ch[pos]) {
                    Ok(v) => v,
                    Err(e) => {
                        return Err(
                            e.with_context("decoding variant Iter field it").with_context("while decoding SpecTecExp"),
                        );
                    },
                };
                pos = pos + 1;
                proof {
                    assert(decreases_to!(*item => item->Node_1));
                    assert(decreases_to!(item->Node_1 => item->Node_1@));
                }
                let f_xes = decode_list_iterexp(ch, &mut pos);
                if pos == ch.len() {
                    Ok(SpecTecExp::Iter { e1: f_e1, it: f_it, xes: f_xes })
                } else {
                    Err(
                        DecodeError::UnexpectedItem(clone_item(&ch[pos])).with_context(
                            "decoding variant Iter item not consumed by fields",
                        ).with_context("while decoding SpecTecExp"),
                    )
                }
            } else if text_is(name, "proj") {
                let mut pos: usize = 0;
                if pos >= ch.len() {
                    return Err(
                        DecodeError::MissingItem.with_context("decoding variant Proj field e1").with_context(
                            "while decoding SpecTecExp",
                        ),
                    );
                }
                proof {
                    assert(decreases_to!(*item => item->Node_1));
                    assert(decreases_to!(item->Node_1 => item->Node_1@));
                    assert(decreases_to!(item->Node_1@ => item->Node_1@[pos as int]));
                }
                let f_e1 = match (match decode_exp(&ch[pos]) {
                    Ok(v) => Ok(Box::new(v)),
                    Err(e) => Err(e),
                }) {
                    Ok(v) => v,
                    Err(e) => {
                        return Err(
                            e.with_context("decoding variant Proj field e1").with_context("while decoding SpecTecExp"),
                        );
                    },
                };
                pos = pos + 1;
                if pos >= ch.len() {
                    return Err(
                        DecodeError::MissingItem.with_context("decoding variant Proj field i").with_context(
                            "while decoding SpecTecExp",
                        ),
                    );
                }
                let f_i = match <i64 as Decode>::decode(&ch[pos]) {
                    Ok(v) => v,
                    Err(e) => {
                        return Err(
                            e.with_context("decoding variant Proj field i").with_context("while decoding SpecTecExp"),
                        );
                    },
                };
                pos = pos + 1;
                if pos == ch.len() {
                    Ok(SpecTecExp::Proj { e1: f_e1, i: f_i })
                } else {
                    Err(
                        DecodeError::UnexpectedItem(clone_item(&ch[pos])).with_context(
                            "decoding variant Proj item not consumed by fields",
                        ).with_context("while decoding SpecTecExp"),
                    )
                }
            } else if text_is(name, "case") {
                let mut pos: usize = 0;
                if pos >= ch.len() {
                    return Err(
                        DecodeError::MissingItem.with_context("decoding variant Case field op").with_context(
                            "while decoding SpecTecExp",
                        ),
                    );
                }
                let f_op = match decode_mix(&ch[pos]) {
                    Ok(v) => v,
                    Err(e) => {
                        return Err(
                            e.with_context("decoding variant Case field op").with_context("while decoding SpecTecExp"),
                        );
                    },
                };
                pos = pos + 1;
                if pos >= ch.len() {
                    return Err(
                        DecodeError::MissingItem.with_context("decoding variant Case field e1").with_context(
                            "while decoding SpecTecExp",
                        ),
                    );
                }
                proof {
                    assert(decreases_to!(*item => item->Node_1));
                    assert(decreases_to!(item->Node_1 => item->Node_1@));
                    assert(decreases_to!(item->Node_1@ => item->Node_1@[pos as int]));
                }
                let f_e1 = match (match decode_exp(&ch[pos]) {
                    Ok(v) => Ok(Box::new(v)),
                    Err(e) => Err(e),
                }) {
                    Ok(v) => v,
                    Err(e) => {
                        return Err(
                            e.with_context("decoding variant Case field e1").with_context("while decoding SpecTecExp"),
                        );
                    },
                };
                pos = pos + 1;
                if pos == ch.len() {
                    Ok(SpecTecExp::Case { op: f_op, e1: f_e1 })
                } else {
                    Err(
                        DecodeError::UnexpectedItem(clone_item(&ch[pos])).with_context(
                            "decoding variant Case item not consumed by fields",
                        ).with_context("while decoding SpecTecExp"),
                    )
                }
            } else if text_is(name, "uncase") {
                let mut pos: usize = 0;
                if pos >= ch.len() {
                    return Err(
                        DecodeError::MissingItem.with_context("decoding variant Uncase field e1").with_context(
                            "while decoding SpecTecExp",
                        ),
                    );
                }
                proof {
                    assert(decreases_to!(*item => item->Node_1));
                    assert(decreases_to!(item->Node_1 => item->Node_1@));
                    assert(decreases_to!(item->Node_1@ => item->Node_1@[pos as int]));
                }
                let f_e1 = match (match decode_exp(&ch[pos]) {
                    Ok(v) => Ok(Box::new(v)),
                    Err(e) => Err(e),
                }) {
                    Ok(v) => v,
                    Err(e) => {
                        return Err(
                            e.with_context("decoding variant Uncase field e1").with_context("while decoding SpecTecExp"),
                        );
                    },
                };
                pos = pos + 1;
                if pos >= ch.len() {
                    return Err(
                        DecodeError::MissingItem.with_context("decoding variant Uncase field op").with_context(
                            "while decoding SpecTecExp",
                        ),
                    );
                }
                let f_op = match decode_mix(&ch[pos]) {
                    Ok(v) => v,
                    Err(e) => {
                        return Err(
                            e.with_context("decoding variant Uncase field op").with_context("while decoding SpecTecExp"),
                        );
                    },
                };
                pos = pos + 1;
                if pos == ch.len() {
                    Ok(SpecTecExp::Uncase { e1: f_e1, op: f_op })
                } else {
                    Err(
                        DecodeError::UnexpectedItem(clone_item(&ch[pos])).with_context(
                            "decoding variant Uncase item not consumed by fields",
                        ).with_context("while decoding SpecTecExp"),
                    )
                }
            } else if text_is(name, "opt") {
                let mut pos: usize = 0;
                proof {
                    assert(decreases_to!(*item => item->Node_1));
                    assert(decreases_to!(item->Node_1 => item->Node_1@));
                }
                let f_eo = decode_list_optexp(ch, &mut pos);
                if pos == ch.len() {
                    Ok(SpecTecExp::Opt { eo: f_eo })
                } else {
                    Err(
                        DecodeError::UnexpectedItem(clone_item(&ch[pos])).with_context(
                            "decoding variant Opt item not consumed by fields",
                        ).with_context("while decoding SpecTecExp"),
                    )
                }
            } else if text_is(name, "unopt") {
                let mut pos: usize = 0;
                if pos >= ch.len() {
                    return Err(
                        DecodeError::MissingItem.with_context("decoding variant Unopt field e1").with_context(
                            "while decoding SpecTecExp",
                        ),
                    );
                }
                proof {
                    assert(decreases_to!(*item => item->Node_1));
                    assert(decreases_to!(item->Node_1 => item->Node_1@));
                    assert(decreases_to!(item->Node_1@ => item->Node_1@[pos as int]));
                }
                let f_e1 = match (match decode_exp(&ch[pos]) {
                    Ok(v) => Ok(Box::new(v)),
                    Err(e) => Err(e),
                }) {
                    Ok(v) => v,
                    Err(e) => {
                        return Err(
                            e.with_context("decoding variant Unopt field e1").with_context("while decoding SpecTecExp"),
                        );
                    },
                };
                pos = pos + 1;
                if pos == ch.len() {
                    Ok(SpecTecExp::Unopt { e1: f_e1 })
                } else {
                    Err(
                        DecodeError::UnexpectedItem(clone_item(&ch[pos])).with_context(
                            "decoding variant Unopt item not consumed by fields",
                        ).with_context("while decoding SpecTecExp"),
                    )
                }
            } else if text_is(name, "list") {
                let mut pos: usize = 0;
                proof {
                    assert(decreases_to!(*item => item->Node_1));
                    assert(decreases_to!(item->Node_1 => item->Node_1@));
                }
                let f_es = decode_list_exp(ch, &mut pos);
                if pos == ch.len() {
                    Ok(SpecTecExp::List { es: f_es })
                } else {
                    Err(
                        DecodeError::UnexpectedItem(clone_item(&ch[pos])).with_context(
                            "decoding variant List item not consumed by fields",
                        ).with_context("while decoding SpecTecExp"),
                    )
                }
            } else if text_is(name, "lift") {
                let mut pos: usize = 0;
                if pos >= ch.len() {
                    return Err(
                        DecodeError::MissingItem.with_context("decoding variant Lift field e1").with_context(
                            "while decoding SpecTecExp",
                        ),
                    );
                }
                proof {
                    assert(decreases_to!(*item => item->Node_1));
                    assert(decreases_to!(item->Node_1 => item->Node_1@));
                    assert(decreases_to!(item->Node_1@ => item->Node_1@[pos as int]));
                }
                let f_e1 = match (match decode_exp(&ch[pos]) {
                    Ok(v) => Ok(Box::new(v)),
                    Err(e) => Err(e),
                }) {
                    Ok(v) => v,
                    Err(e) => {
                        return Err(
                            e.with_context("decoding variant Lift field e1").with_context("while decoding SpecTecExp"),
                        );
                    },
                };
                pos = pos + 1;
                if pos == ch.len() {
                    Ok(SpecTecExp::Lift { e1: f_e1 })
                } else {
                    Err(
                        DecodeError::UnexpectedItem(clone_item(&ch[pos])).with_context(
                            "decoding variant Lift item not consumed by fields",
                        ).with_context("while decoding SpecTecExp"),
                    )
                }
            } else if text_is(name, "cat") {
                let mut pos: usize = 0;
                if pos >= ch.len() {
                    return Err(
                        DecodeError::MissingItem.with_context("decoding variant Cat field e1").with_context(
                            "while decoding SpecTecExp",
                        ),
                    );
                }
                proof {
                    assert(decreases_to!(*item => item->Node_1));
                    assert(decreases_to!(item->Node_1 => item->Node_1@));
                    assert(decreases_to!(item->Node_1@ => item->Node_1@[pos as int]));
                }
                let f_e1 = match (match decode_exp(&ch[pos]) {
                    Ok(v) => Ok(Box::new(v)),
                    Err(e) => Err(e),
                }) {
                    Ok(v) => v,
                    Err(e) => {
                        return Err(
                            e.with_context("decoding variant Cat field e1").with_context("while decoding SpecTecExp"),
                        );
                    },
                };
                pos = pos + 1;
                if pos >= ch.len() {
                    return Err(
                        DecodeError::MissingItem.with_context("decoding variant Cat field e2").with_context(
                            "while decoding SpecTecExp",
                        ),
                    );
                }
                proof {
                    assert(decreases_to!(*item => item->Node_1));
                    assert(decreases_to!(item->Node_1 => item->Node_1@));
                    assert(decreases_to!(item->Node_1@ => item->Node_1@[pos as int]));
                }
                let f_e2 = match (match decode_exp(&ch[pos]) {
                    Ok(v) => Ok(Box::new(v)),
                    Err(e) => Err(e),
                }) {
                    Ok(v) => v,
                    Err(e) => {
                        return Err(
                            e.with_context("decoding variant Cat field e2").with_context("while decoding SpecTecExp"),
                        );
                    },
                };
                pos = pos + 1;
                if pos == ch.len() {
                    Ok(SpecTecExp::Cat { e1: f_e1, e2: f_e2 })
                } else {
                    Err(
                        DecodeError::UnexpectedItem(clone_item(&ch[pos])).with_context(
                            "decoding variant Cat item not consumed by fields",
                        ).with_context("while decoding SpecTecExp"),
                    )
                }
            } else if text_is(name, "cvt") {
                let mut pos: usize = 0;
                if pos >= ch.len() {
                    return Err(
                        DecodeError::MissingItem.with_context("decoding variant Cvt field nt1").with_context(
                            "while decoding SpecTecExp",
                        ),
                    );
                }
                let f_nt1 = match <String as Decode>::decode(&ch[pos]) {
                    Ok(v) => v,
                    Err(e) => {
                        return Err(
                            e.with_context("decoding variant Cvt field nt1").with_context("while decoding SpecTecExp"),
                        );
                    },
                };
                pos = pos + 1;
                if pos >= ch.len() {
                    return Err(
                        DecodeError::MissingItem.with_context("decoding variant Cvt field nt2").with_context(
                            "while decoding SpecTecExp",
                        ),
                    );
                }
                let f_nt2 = match <String as Decode>::decode(&ch[pos]) {
                    Ok(v) => v,
                    Err(e) => {
                        return Err(
                            e.with_context("decoding variant Cvt field nt2").with_context("while decoding SpecTecExp"),
                        );
                    },
                };
                pos = pos + 1;
                if pos >= ch.len() {
                    return Err(
                        DecodeError::MissingItem.with_context("decoding variant Cvt field e1").with_context(
                            "while decoding SpecTecExp",
                        ),
                    );
                }
                proof {
                    assert(decreases_to!(*item => item->Node_1));
                    assert(decreases_to!(item->Node_1 => item->Node_1@));
                    assert(decreases_to!(item->Node_1@ => item->Node_1@[pos as int]));
                }
                let f_e1 = match (match decode_exp(&ch[pos]) {
                    Ok(v) => Ok(Box::new(v)),
                    Err(e) => Err(e),
                }) {
                    Ok(v) => v,
                    Err(e) => {
                        return Err(
                            e.with_context("decoding variant Cvt field e1").with_context("while decoding SpecTecExp"),
                        );
                    },
                };
                pos = pos + 1;
                if pos == ch.len() {
                    Ok(SpecTecExp::Cvt { nt1: f_nt1, nt2: f_nt2, e1: f_e1 })
                } else {
                    Err(
                        DecodeError::UnexpectedItem(clone_item(&ch[pos])).with_context(
                            "decoding variant Cvt item not consumed by fields",
                        ).with_context("while decoding SpecTecExp"),
                    )
                }
            } else if text_is(name, "sub") {
                let mut pos: usize = 0;
                if pos >= ch.len() {
                    return Err(
                        DecodeError::MissingItem.with_context("decoding variant Sub field t1").with_context(
                            "while decoding SpecTecExp",
                        ),
                    );
                }
                proof {
                    assert(decreases_to!(*item => item->Node_1));
                    assert(decreases_to!(item->Node_1 => item->Node_1@));
                    assert(decreases_to!(item->Node_1@ => item->Node_1@[pos as int]));
                }
                let f_t1 = match decode_typ(&ch[pos]) {
                    Ok(v) => v,
                    Err(e) => {
                        return Err(
                            e.with_context("decoding variant Sub field t1").with_context("while decoding SpecTecExp"),
                        );
                    },
                };
                pos = pos + 1;
                if pos >= ch.len() {
                    return Err(
                        DecodeError::MissingItem.with_context("decoding variant Sub field t2").with_context(
                            "while decoding SpecTecExp",
                        ),
                    );
                }
                proof {
                    assert(decreases_to!(*item => item->Node_1));
                    assert(decreases_to!(item->Node_1 => item->Node_1@));
                    assert(decreases_to!(item->Node_1@ => item->Node_1@[pos as int]));
                }
                let f_t2 = match decode_typ(&ch[pos]) {
                    Ok(v) => v,
                    Err(e) => {
                        return Err(
                            e.with_context("decoding variant Sub field t2").with_context("while decoding SpecTecExp"),
                        );
                    },
                };
                pos = pos + 1;
                if pos >= ch.len() {
                    return Err(
                        DecodeError::MissingItem.with_context("decoding variant Sub field e1").with_context(
                            "while decoding SpecTecExp",
                        ),
                    );
                }
                proof {
                    assert(decreases_to!(*item => item->Node_1));
                    assert(decreases_to!(item->Node_1 => item->Node_1@));
                    assert(decreases_to!(item->Node_1@ => item->Node_1@[pos as int]));
                }
                let f_e1 = match (match decode_exp(&ch[pos]) {
                    Ok(v) => Ok(Box::new(v)),
                    Err(e) => Err(e),
                }) {
                    Ok(v) => v,
                    Err(e) => {
                        return Err(
                            e.with_context("decoding variant Sub field e1").with_context("while decoding SpecTecExp"),
                        );
                    },
                };
                pos = pos + 1;
                if pos == ch.len() {
                    Ok(SpecTecExp::Sub { t1: f_t1, t2: f_t2, e1: f_e1 })
                } else {
                    Err(
                        DecodeError::UnexpectedItem(clone_item(&ch[pos])).with_context(
                            "decoding variant Sub item not consumed by fields",
                        ).with_context("while decoding SpecTecExp"),
                    )
                }
            } else {
                Err(DecodeError::UnrecognisedSymbol(name.clone()).with_context("while decoding SpecTecExp"))
            }
        },
        _ => Err(
            DecodeError::UnexpectedItem(clone_item(item)).with_context("while decoding SpecTecExp"),
        ),
    }
}

/// Decides whether an item decodes as `SpecTecExp`.
fn can_exp(item: &SExprItem) -> (r: bool)
    ensures
        r == accepts_exp(*item),
    decreases item, 0int, 1int,
{
    decode_exp(item).is_ok()
}

/// Decodes one item as `SpecTecExpField`, or reports why it cannot be.
fn decode_expfield(item: &SExprItem) -> (r: Result<SpecTecExpField, DecodeError>)
    ensures
        r is Ok <==> accepts_expfield(*item),
        r matches Ok(v) ==> rel_expfield(*item, v),
    decreases item, 0int, 0int,
{
    match item {
        SExprItem::Atom(t) => {
            Err(DecodeError::UnrecognisedSymbol(t.clone()).with_context("while decoding SpecTecExpField"))
        },
        SExprItem::Node(name, ch) => {
            proof {
                reveal_strlit("field");
                assert("field"@ =~= seq!['f', 'i', 'e', 'l', 'd']);
            }
            if text_is(name, "field") {
                let mut pos: usize = 0;
                if pos >= ch.len() {
                    return Err(
                        DecodeError::MissingItem.with_context("decoding variant Field field at").with_context(
                            "while decoding SpecTecExpField",
                        ),
                    );
                }
                let f_at = match decode_mix(&ch[pos]) {
                    Ok(v) => v,
                    Err(e) => {
                        return Err(
                            e.with_context("decoding variant Field field at").with_context("while decoding SpecTecExpField"),
                        );
                    },
                };
                pos = pos + 1;
                if pos >= ch.len() {
                    return Err(
                        DecodeError::MissingItem.with_context("decoding variant Field field e").with_context(
                            "while decoding SpecTecExpField",
                        ),
                    );
                }
                proof {
                    assert(decreases_to!(*item => item->Node_1));
                    assert(decreases_to!(item->Node_1 => item->Node_1@));
                    assert(decreases_to!(item->Node_1@ => item->Node_1@[pos as int]));
                }
                let f_e = match decode_exp(&ch[pos]) {
                    Ok(v) => v,
                    Err(e) => {
                        return Err(
                            e.with_context("decoding variant Field field e").with_context("while decoding SpecTecExpField"),
                        );
                    },
                };
                pos = pos + 1;
                if pos == ch.len() {
                    Ok(SpecTecExpField::Field { at: f_at, e: f_e })
                } else {
                    Err(
                        DecodeError::UnexpectedItem(clone_item(&ch[pos])).with_context(
                            "decoding variant Field item not consumed by fields",
                        ).with_context("while decoding SpecTecExpField"),
                    )
                }
            } else {
                Err(DecodeError::UnrecognisedSymbol(name.clone()).with_context("while decoding SpecTecExpField"))
            }
        },
        _ => Err(
            DecodeError::UnexpectedItem(clone_item(item)).with_context("while decoding SpecTecExpField"),
        ),
    }
}

/// Decides whether an item decodes as `SpecTecExpField`.
fn can_expfield(item: &SExprItem) -> (r: bool)
    ensures
        r == accepts_expfield(*item),
    decreases item, 0int, 1int,
{
    decode_expfield(item).is_ok()
}

/// Decodes one item as `SpecTecPath`, or reports why it cannot be.
fn decode_path(item: &SExprItem) -> (r: Result<SpecTecPath, DecodeError>)
    ensures
        r is Ok <==> accepts_path(*item),
        r matches Ok(v) ==> rel_path(*item, v),
    decreases item, 0int, 0int,
{
    match item {
        SExprItem::Atom(t) => {
            if text_is(t, "root") {
                Ok(SpecTecPath::Root)
            } else {
                Err(DecodeError::UnrecognisedSymbol(t.clone()).with_context("while decoding SpecTecPath"))
            }
        },
        SExprItem::Node(name, ch) => {
            proof {
                reveal_strlit("idx");
                reveal_strlit("slice");
                reveal_strlit("dot");
                assert("idx"@ =~= seq!['i', 'd', 'x']);
                assert("slice"@ =~= seq!['s', 'l', 'i', 'c', 'e']);
                assert("dot"@ =~= seq!['d', 'o', 't']);
            }
            if text_is(name, "idx") {
                let mut pos: usize = 0;
                if pos >= ch.len() {
                    return Err(
                        DecodeError::MissingItem.with_context("decoding variant Idx field p1").with_context(
                            "while decoding SpecTecPath",
                        ),
                    );
                }
                proof {
                    assert(decreases_to!(*item => item->Node_1));
                    assert(decreases_to!(item->Node_1 => item->Node_1@));
                    assert(decreases_to!(item->Node_1@ => item->Node_1@[pos as int]));
                }
                let f_p1 = match (match decode_path(&ch[pos]) {
                    Ok(v) => Ok(Box::new(v)),
                    Err(e) => Err(e),
                }) {
                    Ok(v) => v,
                    Err(e) => {
                        return Err(
                            e.with_context("decoding variant Idx field p1").with_context("while decoding SpecTecPath"),
                        );
                    },
                };
                pos = pos + 1;
                if pos >= ch.len() {
                    return Err(
                        DecodeError::MissingItem.with_context("decoding variant Idx field e").with_context(
                            "while decoding SpecTecPath",
                        ),
                    );
                }
                proof {
                    assert(decreases_to!(*item => item->Node_1));
                    assert(decreases_to!(item->Node_1 => item->Node_1@));
                    assert(decreases_to!(item->Node_1@ => item->Node_1@[pos as int]));
                }
                let f_e = match decode_exp(&ch[pos]) {
                    Ok(v) => v,
                    Err(e) => {
                        return Err(
                            e.with_context("decoding variant Idx field e").with_context("while decoding SpecTecPath"),
                        );
                    },
                };
                pos = pos + 1;
                if pos == ch.len() {
                    Ok(SpecTecPath::Idx { p1: f_p1, e: f_e })
                } else {
                    Err(
                        DecodeError::UnexpectedItem(clone_item(&ch[pos])).with_context(
                            "decoding variant Idx item not consumed by fields",
                        ).with_context("while decoding SpecTecPath"),
                    )
                }
            } else if text_is(name, "slice") {
                let mut pos: usize = 0;
                if pos >= ch.len() {
                    return Err(
                        DecodeError::MissingItem.with_context("decoding variant Slice field p1").with_context(
                            "while decoding SpecTecPath",
                        ),
                    );
                }
                proof {
                    assert(decreases_to!(*item => item->Node_1));
                    assert(decreases_to!(item->Node_1 => item->Node_1@));
                    assert(decreases_to!(item->Node_1@ => item->Node_1@[pos as int]));
                }
                let f_p1 = match (match decode_path(&ch[pos]) {
                    Ok(v) => Ok(Box::new(v)),
                    Err(e) => Err(e),
                }) {
                    Ok(v) => v,
                    Err(e) => {
                        return Err(
                            e.with_context("decoding variant Slice field p1").with_context("while decoding SpecTecPath"),
                        );
                    },
                };
                pos = pos + 1;
                if pos >= ch.len() {
                    return Err(
                        DecodeError::MissingItem.with_context("decoding variant Slice field e1").with_context(
                            "while decoding SpecTecPath",
                        ),
                    );
                }
                proof {
                    assert(decreases_to!(*item => item->Node_1));
                    assert(decreases_to!(item->Node_1 => item->Node_1@));
                    assert(decreases_to!(item->Node_1@ => item->Node_1@[pos as int]));
                }
                let f_e1 = match decode_exp(&ch[pos]) {
                    Ok(v) => v,
                    Err(e) => {
                        return Err(
                            e.with_context("decoding variant Slice field e1").with_context("while decoding SpecTecPath"),
                        );
                    },
                };
                pos = pos + 1;
                if pos >= ch.len() {
                    return Err(
                        DecodeError::MissingItem.with_context("decoding variant Slice field e2").with_context(
                            "while decoding SpecTecPath",
                        ),
                    );
                }
                proof {
                    assert(decreases_to!(*item => item->Node_1));
                    assert(decreases_to!(item->Node_1 => item->Node_1@));
                    assert(decreases_to!(item->Node_1@ => item->Node_1@[pos as int]));
                }
                let f_e2 = match decode_exp(&ch[pos]) {
                    Ok(v) => v,
                    Err(e) => {
                        return Err(
                            e.with_context("decoding variant Slice field e2").with_context("while decoding SpecTecPath"),
                        );
                    },
                };
                pos = pos + 1;
                if pos == ch.len() {
                    Ok(SpecTecPath::Slice { p1: f_p1, e1: f_e1, e2: f_e2 })
                } else {
                    Err(
                        DecodeError::UnexpectedItem(clone_item(&ch[pos])).with_context(
                            "decoding variant Slice item not consumed by fields",
                        ).with_context("while decoding SpecTecPath"),
                    )
                }
            } else if text_is(name, "dot") {
                let mut pos: usize = 0;
                if pos >= ch.len() {
                    return Err(
                        DecodeError::MissingItem.with_context("decoding variant Dot field p1").with_context(
                            "while decoding SpecTecPath",
                        ),
                    );
                }
                proof {
                    assert(decreases_to!(*item => item->Node_1));
                    assert(decreases_to!(item->Node_1 => item->Node_1@));
                    assert(decreases_to!(item->Node_1@ => item->Node_1@[pos as int]));
                }
                let f_p1 = match (match decode_path(&ch[pos]) {
                    Ok(v) => Ok(Box::new(v)),
                    Err(e) => Err(e),
                }) {
                    Ok(v) => v,
                    Err(e) => {
                        return Err(
                            e.with_context("decoding variant Dot field p1").with_context("while decoding SpecTecPath"),
                        );
                    },
                };
                pos = pos + 1;
                if pos >= ch.len() {
                    return Err(
                        DecodeError::MissingItem.with_context("decoding variant Dot field at").with_context(
                            "while decoding SpecTecPath",
                        ),
                    );
                }
                let f_at = match decode_mix(&ch[pos]) {
                    Ok(v) => v,
                    Err(e) => {
                        return Err(
                            e.with_context("decoding variant Dot field at").with_context("while decoding SpecTecPath"),
                        );
                    },
                };
                pos = pos + 1;
                if pos == ch.len() {
                    Ok(SpecTecPath::Dot { p1: f_p1, at: f_at })
                } else {
                    Err(
                        DecodeError::UnexpectedItem(clone_item(&ch[pos])).with_context(
                            "decoding variant Dot item not consumed by fields",
                        ).with_context("while decoding SpecTecPath"),
                    )
                }
            } else {
                Err(DecodeError::UnrecognisedSymbol(name.clone()).with_context("while decoding SpecTecPath"))
            }
        },
        _ => Err(
            DecodeError::UnexpectedItem(clone_item(item)).with_context("while decoding SpecTecPath"),
        ),
    }
}

/// Decides whether an item decodes as `SpecTecPath`.
fn can_path(item: &SExprItem) -> (r: bool)
    ensures
        r == accepts_path(*item),
    decreases item, 0int, 1int,
{
    decode_path(item).is_ok()
}

/// Decodes one item as `SpecTecIterExp`, or reports why it cannot be.
fn decode_iterexp(item: &SExprItem) -> (r: Result<SpecTecIterExp, DecodeError>)
    ensures
        r is Ok <==> accepts_iterexp(*item),
        r matches Ok(v) ==> rel_iterexp(*item, v),
    decreases item, 0int, 0int,
{
    match item {
        SExprItem::Atom(t) => {
            Err(DecodeError::UnrecognisedSymbol(t.clone()).with_context("while decoding SpecTecIterExp"))
        },
        SExprItem::Node(name, ch) => {
            proof {
                reveal_strlit("dom");
                assert("dom"@ =~= seq!['d', 'o', 'm']);
            }
            if text_is(name, "dom") {
                let mut pos: usize = 0;
                if pos >= ch.len() {
                    return Err(
                        DecodeError::MissingItem.with_context("decoding variant Dom field x").with_context(
                            "while decoding SpecTecIterExp",
                        ),
                    );
                }
                let f_x = match <String as Decode>::decode(&ch[pos]) {
                    Ok(v) => v,
                    Err(e) => {
                        return Err(
                            e.with_context("decoding variant Dom field x").with_context("while decoding SpecTecIterExp"),
                        );
                    },
                };
                pos = pos + 1;
                if pos >= ch.len() {
                    return Err(
                        DecodeError::MissingItem.with_context("decoding variant Dom field e").with_context(
                            "while decoding SpecTecIterExp",
                        ),
                    );
                }
                proof {
                    assert(decreases_to!(*item => item->Node_1));
                    assert(decreases_to!(item->Node_1 => item->Node_1@));
                    assert(decreases_to!(item->Node_1@ => item->Node_1@[pos as int]));
                }
                let f_e = match decode_exp(&ch[pos]) {
                    Ok(v) => v,
                    Err(e) => {
                        return Err(
                            e.with_context("decoding variant Dom field e").with_context("while decoding SpecTecIterExp"),
                        );
                    },
                };
                pos = pos + 1;
                if pos == ch.len() {
                    Ok(SpecTecIterExp::Dom { x: f_x, e: f_e })
                } else {
                    Err(
                        DecodeError::UnexpectedItem(clone_item(&ch[pos])).with_context(
                            "decoding variant Dom item not consumed by fields",
                        ).with_context("while decoding SpecTecIterExp"),
                    )
                }
            } else {
                Err(DecodeError::UnrecognisedSymbol(name.clone()).with_context("while decoding SpecTecIterExp"))
            }
        },
        _ => Err(
            DecodeError::UnexpectedItem(clone_item(item)).with_context("while decoding SpecTecIterExp"),
        ),
    }
}

/// Decides whether an item decodes as `SpecTecIterExp`.
fn can_iterexp(item: &SExprItem) -> (r: bool)
    ensures
        r == accepts_iterexp(*item),
    decreases item, 0int, 1int,
{
    decode_iterexp(item).is_ok()
}

/// Decodes one item as `SpecTecSym`, or reports why it cannot be.
fn decode_sym(item: &SExprItem) -> (r: Result<SpecTecSym, DecodeError>)
    ensures
        r is Ok <==> accepts_sym(*item),
        r matches Ok(v) ==> rel_sym(*item, v),
    decreases item, 0int, 0int,
{
    match item {
        SExprItem::Atom(t) => {
            if text_is(t, "eps") {
                Ok(SpecTecSym::Eps)
            } else {
                Err(DecodeError::UnrecognisedSymbol(t.clone()).with_context("while decoding SpecTecSym"))
            }
        },
        SExprItem::Node(name, ch) => {
            proof {
                reveal_strlit("var");
                reveal_strlit("num");
                reveal_strlit("text");
                reveal_strlit("seq");
                reveal_strlit("alt");
                reveal_strlit("range");
                reveal_strlit("iter");
                reveal_strlit("attr");
                assert("var"@ =~= seq!['v', 'a', 'r']);
                assert("num"@ =~= seq!['n', 'u', 'm']);
                assert("text"@ =~= seq!['t', 'e', 'x', 't']);
                assert("seq"@ =~= seq!['s', 'e', 'q']);
                assert("alt"@ =~= seq!['a', 'l', 't']);
                assert("range"@ =~= seq!['r', 'a', 'n', 'g', 'e']);
                assert("iter"@ =~= seq!['i', 't', 'e', 'r']);
                assert("attr"@ =~= seq!['a', 't', 't', 'r']);
            }
            if text_is(name, "var") {
                let mut pos: usize = 0;
                if pos >= ch.len() {
                    return Err(
                        DecodeError::MissingItem.with_context("decoding variant Var field x").with_context(
                            "while decoding SpecTecSym",
                        ),
                    );
                }
                let f_x = match <String as Decode>::decode(&ch[pos]) {
                    Ok(v) => v,
                    Err(e) => {
                        return Err(
                            e.with_context("decoding variant Var field x").with_context("while decoding SpecTecSym"),
                        );
                    },
                };
                pos = pos + 1;
                proof {
                    assert(decreases_to!(*item => item->Node_1));
                    assert(decreases_to!(item->Node_1 => item->Node_1@));
                }
                let f_as1 = decode_list_arg(ch, &mut pos);
                if pos == ch.len() {
                    Ok(SpecTecSym::Var { x: f_x, as1: f_as1 })
                } else {
                    Err(
                        DecodeError::UnexpectedItem(clone_item(&ch[pos])).with_context(
                            "decoding variant Var item not consumed by fields",
                        ).with_context("while decoding SpecTecSym"),
                    )
                }
            } else if text_is(name, "num") {
                let mut pos: usize = 0;
                if pos >= ch.len() {
                    return Err(
                        DecodeError::MissingItem.with_context("decoding variant Num field n").with_context(
                            "while decoding SpecTecSym",
                        ),
                    );
                }
                let f_n = match <i64 as Decode>::decode(&ch[pos]) {
                    Ok(v) => v,
                    Err(e) => {
                        return Err(
                            e.with_context("decoding variant Num field n").with_context("while decoding SpecTecSym"),
                        );
                    },
                };
                pos = pos + 1;
                if pos == ch.len() {
                    Ok(SpecTecSym::Num { n: f_n })
                } else {
                    Err(
                        DecodeError::UnexpectedItem(clone_item(&ch[pos])).with_context(
                            "decoding variant Num item not consumed by fields",
                        ).with_context("while decoding SpecTecSym"),
                    )
                }
            } else if text_is(name, "text") {
                let mut pos: usize = 0;
                if pos >= ch.len() {
                    return Err(
                        DecodeError::MissingItem.with_context("decoding variant Text field t").with_context(
                            "while decoding SpecTecSym",
                        ),
                    );
                }
                let f_t = match <String as Decode>::decode(&ch[pos]) {
                    Ok(v) => v,
                    Err(e) => {
                        return Err(
                            e.with_context("decoding variant Text field t").with_context("while decoding SpecTecSym"),
                        );
                    },
                };
                pos = pos + 1;
                if pos == ch.len() {
                    Ok(SpecTecSym::Text { t: f_t })
                } else {
                    Err(
                        DecodeError::UnexpectedItem(clone_item(&ch[pos])).with_context(
                            "decoding variant Text item not consumed by fields",
                        ).with_context("while decoding SpecTecSym"),
                    )
                }
            } else if text_is(name, "seq") {
                let mut pos: usize = 0;
                if pos >= ch.len() {
                    return Err(
                        DecodeError::MissingItem.with_context("decoding variant Sequence field gs").with_context(
                            "while decoding SpecTecSym",
                        ),
                    );
                }
                proof {
                    assert(decreases_to!(*item => item->Node_1));
                    assert(decreases_to!(item->Node_1 => item->Node_1@));
                    assert(decreases_to!(item->Node_1@ => item->Node_1@[pos as int]));
                }
                let f_gs = match (match decode_sym(&ch[pos]) {
                    Ok(v) => Ok(Box::new(v)),
                    Err(e) => Err(e),
                }) {
                    Ok(v) => v,
                    Err(e) => {
                        return Err(
                            e.with_context("decoding variant Sequence field gs").with_context("while decoding SpecTecSym"),
                        );
                    },
                };
                pos = pos + 1;
                if pos == ch.len() {
                    Ok(SpecTecSym::Sequence { gs: f_gs })
                } else {
                    Err(
                        DecodeError::UnexpectedItem(clone_item(&ch[pos])).with_context(
                            "decoding variant Sequence item not consumed by fields",
                        ).with_context("while decoding SpecTecSym"),
                    )
                }
            } else if text_is(name, "alt") {
                let mut pos: usize = 0;
                if pos >= ch.len() {
                    return Err(
                        DecodeError::MissingItem.with_context("decoding variant Alt field gs").with_context(
                            "while decoding SpecTecSym",
                        ),
                    );
                }
                proof {
                    assert(decreases_to!(*item => item->Node_1));
                    assert(decreases_to!(item->Node_1 => item->Node_1@));
                    assert(decreases_to!(item->Node_1@ => item->Node_1@[pos as int]));
                }
                let f_gs = match (match decode_sym(&ch[pos]) {
                    Ok(v) => Ok(Box::new(v)),
                    Err(e) => Err(e),
                }) {
                    Ok(v) => v,
                    Err(e) => {
                        return Err(
                            e.with_context("decoding variant Alt field gs").with_context("while decoding SpecTecSym"),
                        );
                    },
                };
                pos = pos + 1;
                if pos == ch.len() {
                    Ok(SpecTecSym::Alt { gs: f_gs })
                } else {
                    Err(
                        DecodeError::UnexpectedItem(clone_item(&ch[pos])).with_context(
                            "decoding variant Alt item not consumed by fields",
                        ).with_context("while decoding SpecTecSym"),
                    )
                }
            } else if text_is(name, "range") {
                let mut pos: usize = 0;
                if pos >= ch.len() {
                    return Err(
                        DecodeError::MissingItem.with_context("decoding variant Range field g1").with_context(
                            "while decoding SpecTecSym",
                        ),
                    );
                }
                proof {
                    assert(decreases_to!(*item => item->Node_1));
                    assert(decreases_to!(item->Node_1 => item->Node_1@));
                    assert(decreases_to!(item->Node_1@ => item->Node_1@[pos as int]));
                }
                let f_g1 = match (match decode_sym(&ch[pos]) {
                    Ok(v) => Ok(Box::new(v)),
                    Err(e) => Err(e),
                }) {
                    Ok(v) => v,
                    Err(e) => {
                        return Err(
                            e.with_context("decoding variant Range field g1").with_context("while decoding SpecTecSym"),
                        );
                    },
                };
                pos = pos + 1;
                if pos >= ch.len() {
                    return Err(
                        DecodeError::MissingItem.with_context("decoding variant Range field g2").with_context(
                            "while decoding SpecTecSym",
                        ),
                    );
                }
                proof {
                    assert(decreases_to!(*item => item->Node_1));
                    assert(decreases_to!(item->Node_1 => item->Node_1@));
                    assert(decreases_to!(item->Node_1@ => item->Node_1@[pos as int]));
                }
                let f_g2 = match (match decode_sym(&ch[pos]) {
                    Ok(v) => Ok(Box::new(v)),
                    Err(e) => Err(e),
                }) {
                    Ok(v) => v,
                    Err(e) => {
                        return Err(
                            e.with_context("decoding variant Range field g2").with_context("while decoding SpecTecSym"),
                        );
                    },
                };
                pos = pos + 1;
                if pos == ch.len() {
                    Ok(SpecTecSym::Range { g1: f_g1, g2: f_g2 })
                } else {
                    Err(
                        DecodeError::UnexpectedItem(clone_item(&ch[pos])).with_context(
                            "decoding variant Range item not consumed by fields",
                        ).with_context("while decoding SpecTecSym"),
                    )
                }
            } else if text_is(name, "iter") {
                let mut pos: usize = 0;
                if pos >= ch.len() {
                    return Err(
                        DecodeError::MissingItem.with_context("decoding variant Iter field g1").with_context(
                            "while decoding SpecTecSym",
                        ),
                    );
                }
                proof {
                    assert(decreases_to!(*item => item->Node_1));
                    assert(decreases_to!(item->Node_1 => item->Node_1@));
                    assert(decreases_to!(item->Node_1@ => item->Node_1@[pos as int]));
                }
                let f_g1 = match (match decode_sym(&ch[pos]) {
                    Ok(v) => Ok(Box::new(v)),
                    Err(e) => Err(e),
                }) {
                    Ok(v) => v,
                    Err(e) => {
                        return Err(
                            e.with_context("decoding variant Iter field g1").with_context("while decoding SpecTecSym"),
                        );
                    },
                };
                pos = pos + 1;
                if pos >= ch.len() {
                    return Err(
                        DecodeError::MissingItem.with_context("decoding variant Iter field it").with_context(
                            "while decoding SpecTecSym",
                        ),
                    );
                }
                proof {
                    assert(decreases_to!(*item => item->Node_1));
                    assert(decreases_to!(item->Node_1 => item->Node_1@));
                    assert(decreases_to!(item->Node_1@ => item->Node_1@[pos as int]));
                }
                let f_it = match decode_iter(&ch[pos]) {
                    Ok(v) => v,
                    Err(e) => {
                        return Err(
                            e.with_context("decoding variant Iter field it").with_context("while decoding SpecTecSym"),
                        );
                    },
                };
                pos = pos + 1;
                proof {
                    assert(decreases_to!(*item => item->Node_1));
                    assert(decreases_to!(item->Node_1 => item->Node_1@));
                }
                let f_xes = decode_list_iterexp(ch, &mut pos);
                if pos == ch.len() {
                    Ok(SpecTecSym::Iter { g1: f_g1, it: f_it, xes: f_xes })
                } else {
                    Err(
                        DecodeError::UnexpectedItem(clone_item(&ch[pos])).with_context(
                            "decoding variant Iter item not consumed by fields",
                        ).with_context("while decoding SpecTecSym"),
                    )
                }
            } else if text_is(name, "attr") {
                let mut pos: usize = 0;
                if pos >= ch.len() {
                    return Err(
                        DecodeError::MissingItem.with_context("decoding variant Attr field e").with_context(
                            "while decoding SpecTecSym",
                        ),
                    );
                }
                proof {
                    assert(decreases_to!(*item => item->Node_1));
                    assert(decreases_to!(item->Node_1 => item->Node_1@));
                    assert(decreases_to!(item->Node_1@ => item->Node_1@[pos as int]));
                }
                let f_e = match decode_exp(&ch[pos]) {
                    Ok(v) => v,
                    Err(e) => {
                        return Err(
                            e.with_context("decoding variant Attr field e").with_context("while decoding SpecTecSym"),
                        );
                    },
                };
                pos = pos + 1;
                if pos >= ch.len() {
                    return Err(
                        DecodeError::MissingItem.with_context("decoding variant Attr field g1").with_context(
                            "while decoding SpecTecSym",
                        ),
                    );
                }
                proof {
                    assert(decreases_to!(*item => item->Node_1));
                    assert(decreases_to!(item->Node_1 => item->Node_1@));
                    assert(decreases_to!(item->Node_1@ => item->Node_1@[pos as int]));
                }
                let f_g1 = match (match decode_sym(&ch[pos]) {
                    Ok(v) => Ok(Box::new(v)),
                    Err(e) => Err(e),
                }) {
                    Ok(v) => v,
                    Err(e) => {
                        return Err(
                            e.with_context("decoding variant Attr field g1").with_context("while decoding SpecTecSym"),
                        );
                    },
                };
                pos = pos + 1;
                if pos == ch.len() {
                    Ok(SpecTecSym::Attr { e: f_e, g1: f_g1 })
                } else {
                    Err(
                        DecodeError::UnexpectedItem(clone_item(&ch[pos])).with_context(
                            "decoding variant Attr item not consumed by fields",
                        ).with_context("while decoding SpecTecSym"),
                    )
                }
            } else {
                Err(DecodeError::UnrecognisedSymbol(name.clone()).with_context("while decoding SpecTecSym"))
            }
        },
        _ => Err(
            DecodeError::UnexpectedItem(clone_item(item)).with_context("while decoding SpecTecSym"),
        ),
    }
}

/// Decides whether an item decodes as `SpecTecSym`.
fn can_sym(item: &SExprItem) -> (r: bool)
    ensures
        r == accepts_sym(*item),
    decreases item, 0int, 1int,
{
    decode_sym(item).is_ok()
}

/// Decodes one item as `SpecTecPrem`, or reports why it cannot be.
fn decode_prem(item: &SExprItem) -> (r: Result<SpecTecPrem, DecodeError>)
    ensures
        r is Ok <==> accepts_prem(*item),
        r matches Ok(v) ==> rel_prem(*item, v),
    decreases item, 0int, 0int,
{
    match item {
        SExprItem::Atom(t) => {
            if text_is(t, "else") {
                Ok(SpecTecPrem::Else)
            } else {
                Err(DecodeError::UnrecognisedSymbol(t.clone()).with_context("while decoding SpecTecPrem"))
            }
        },
        SExprItem::Node(name, ch) => {
            proof {
                reveal_strlit("rule");
                reveal_strlit("if");
                reveal_strlit("let");
                reveal_strlit("iter");
                assert("rule"@ =~= seq!['r', 'u', 'l', 'e']);
                assert("if"@ =~= seq!['i', 'f']);
                assert("let"@ =~= seq!['l', 'e', 't']);
                assert("iter"@ =~= seq!['i', 't', 'e', 'r']);
            }
            if text_is(name, "rule") {
                let mut pos: usize = 0;
                if pos >= ch.len() {
                    return Err(
                        DecodeError::MissingItem.with_context("decoding variant Rule field x").with_context(
                            "while decoding SpecTecPrem",
                        ),
                    );
                }
                let f_x = match <String as Decode>::decode(&ch[pos]) {
                    Ok(v) => v,
                    Err(e) => {
                        return Err(
                            e.with_context("decoding variant Rule field x").with_context("while decoding SpecTecPrem"),
                        );
                    },
                };
                pos = pos + 1;
                if pos >= ch.len() {
                    return Err(
                        DecodeError::MissingItem.with_context("decoding variant Rule field op").with_context(
                            "while decoding SpecTecPrem",
                        ),
                    );
                }
                let f_op = match decode_mix(&ch[pos]) {
                    Ok(v) => v,
                    Err(e) => {
                        return Err(
                            e.with_context("decoding variant Rule field op").with_context("while decoding SpecTecPrem"),
                        );
                    },
                };
                pos = pos + 1;
                if pos >= ch.len() {
                    return Err(
                        DecodeError::MissingItem.with_context("decoding variant Rule field e").with_context(
                            "while decoding SpecTecPrem",
                        ),
                    );
                }
                proof {
                    assert(decreases_to!(*item => item->Node_1));
                    assert(decreases_to!(item->Node_1 => item->Node_1@));
                    assert(decreases_to!(item->Node_1@ => item->Node_1@[pos as int]));
                }
                let f_e = match decode_exp(&ch[pos]) {
                    Ok(v) => v,
                    Err(e) => {
                        return Err(
                            e.with_context("decoding variant Rule field e").with_context("while decoding SpecTecPrem"),
                        );
                    },
                };
                pos = pos + 1;
                if pos == ch.len() {
                    Ok(SpecTecPrem::Rule { x: f_x, op: f_op, e: f_e })
                } else {
                    Err(
                        DecodeError::UnexpectedItem(clone_item(&ch[pos])).with_context(
                            "decoding variant Rule item not consumed by fields",
                        ).with_context("while decoding SpecTecPrem"),
                    )
                }
            } else if text_is(name, "if") {
                let mut pos: usize = 0;
                if pos >= ch.len() {
                    return Err(
                        DecodeError::MissingItem.with_context("decoding variant If field e").with_context(
                            "while decoding SpecTecPrem",
                        ),
                    );
                }
                proof {
                    assert(decreases_to!(*item => item->Node_1));
                    assert(decreases_to!(item->Node_1 => item->Node_1@));
                    assert(decreases_to!(item->Node_1@ => item->Node_1@[pos as int]));
                }
                let f_e = match decode_exp(&ch[pos]) {
                    Ok(v) => v,
                    Err(e) => {
                        return Err(
                            e.with_context("decoding variant If field e").with_context("while decoding SpecTecPrem"),
                        );
                    },
                };
                pos = pos + 1;
                if pos == ch.len() {
                    Ok(SpecTecPrem::If { e: f_e })
                } else {
                    Err(
                        DecodeError::UnexpectedItem(clone_item(&ch[pos])).with_context(
                            "decoding variant If item not consumed by fields",
                        ).with_context("while decoding SpecTecPrem"),
                    )
                }
            } else if text_is(name, "let") {
                let mut pos: usize = 0;
                if pos >= ch.len() {
                    return Err(
                        DecodeError::MissingItem.with_context("decoding variant Let field e1").with_context(
                            "while decoding SpecTecPrem",
                        ),
                    );
                }
                proof {
                    assert(decreases_to!(*item => item->Node_1));
                    assert(decreases_to!(item->Node_1 => item->Node_1@));
                    assert(decreases_to!(item->Node_1@ => item->Node_1@[pos as int]));
                }
                let f_e1 = match decode_exp(&ch[pos]) {
                    Ok(v) => v,
                    Err(e) => {
                        return Err(
                            e.with_context("decoding variant Let field e1").with_context("while decoding SpecTecPrem"),
                        );
                    },
                };
                pos = pos + 1;
                if pos >= ch.len() {
                    return Err(
                        DecodeError::MissingItem.with_context("decoding variant Let field e2").with_context(
                            "while decoding SpecTecPrem",
                        ),
                    );
                }
                proof {
                    assert(decreases_to!(*item => item->Node_1));
                    assert(decreases_to!(item->Node_1 => item->Node_1@));
                    assert(decreases_to!(item->Node_1@ => item->Node_1@[pos as int]));
                }
                let f_e2 = match decode_exp(&ch[pos]) {
                    Ok(v) => v,
                    Err(e) => {
                        return Err(
                            e.with_context("decoding variant Let field e2").with_context("while decoding SpecTecPrem"),
                        );
                    },
                };
                pos = pos + 1;
                if pos == ch.len() {
                    Ok(SpecTecPrem::Let { e1: f_e1, e2: f_e2 })
                } else {
                    Err(
                        DecodeError::UnexpectedItem(clone_item(&ch[pos])).with_context(
                            "decoding variant Let item not consumed by fields",
                        ).with_context("while decoding SpecTecPrem"),
                    )
                }
            } else if text_is(name, "iter") {
                let mut pos: usize = 0;
                if pos >= ch.len() {
                    return Err(
                        DecodeError::MissingItem.with_context("decoding variant Iter field pr1").with_context(
                            "while decoding SpecTecPrem",
                        ),
                    );
                }
                proof {
                    assert(decreases_to!(*item => item->Node_1));
                    assert(decreases_to!(item->Node_1 => item->Node_1@));
                    assert(decreases_to!(item->Node_1@ => item->Node_1@[pos as int]));
                }
                let f_pr1 = match (match decode_prem(&ch[pos]) {
                    Ok(v) => Ok(Box::new(v)),
                    Err(e) => Err(e),
                }) {
                    Ok(v) => v,
                    Err(e) => {
                        return Err(
                            e.with_context("decoding variant Iter field pr1").with_context("while decoding SpecTecPrem"),
                        );
                    },
                };
                pos = pos + 1;
                if pos >= ch.len() {
                    return Err(
                        DecodeError::MissingItem.with_context("decoding variant Iter field it").with_context(
                            "while decoding SpecTecPrem",
                        ),
                    );
                }
                proof {
                    assert(decreases_to!(*item => item->Node_1));
                    assert(decreases_to!(item->Node_1 => item->Node_1@));
                    assert(decreases_to!(item->Node_1@ => item->Node_1@[pos as int]));
                }
                let f_it = match decode_iter(&ch[pos]) {
                    Ok(v) => v,
                    Err(e) => {
                        return Err(
                            e.with_context("decoding variant Iter field it").with_context("while decoding SpecTecPrem"),
                        );
                    },
                };
                pos = pos + 1;
                proof {
                    assert(decreases_to!(*item => item->Node_1));
                    assert(decreases_to!(item->Node_1 => item->Node_1@));
                }
                let f_xes = decode_list_iterexp(ch, &mut pos);
                if pos == ch.len() {
                    Ok(SpecTecPrem::Iter { pr1: f_pr1, it: f_it, xes: f_xes })
                } else {
                    Err(
                        DecodeError::UnexpectedItem(clone_item(&ch[pos])).with_context(
                            "decoding variant Iter item not consumed by fields",
                        ).with_context("while decoding SpecTecPrem"),
                    )
                }
            } else {
                Err(DecodeError::UnrecognisedSymbol(name.clone()).with_context("while decoding SpecTecPrem"))
            }
        },
        _ => Err(
            DecodeError::UnexpectedItem(clone_item(item)).with_context("while decoding SpecTecPrem"),
        ),
    }
}

/// Decides whether an item decodes as `SpecTecPrem`.
fn can_prem(item: &SExprItem) -> (r: bool)
    ensures
        r == accepts_prem(*item),
    decreases item, 0int, 1int,
{
    decode_prem(item).is_ok()
}

/// Decodes one item as `SpecTecArg`, or reports why it cannot be.
fn decode_arg(item: &SExprItem) -> (r: Result<SpecTecArg, DecodeError>)
    ensures
        r is Ok <==> accepts_arg(*item),
        r matches Ok(v) ==> rel_arg(*item, v),
    decreases item, 0int, 0int,
{
    match item {
        SExprItem::Atom(t) => {
            Err(DecodeError::UnrecognisedSymbol(t.clone()).with_context("while decoding SpecTecArg"))
        },
        SExprItem::Node(name, ch) => {
            proof {
                reveal_strlit("exp");
                reveal_strlit("typ");
                reveal_strlit("def");
                reveal_strlit("gram");
                assert("exp"@ =~= seq!['e', 'x', 'p']);
                assert("typ"@ =~= seq!['t', 'y', 'p']);
                assert("def"@ =~= seq!['d', 'e', 'f']);
                assert("gram"@ =~= seq!['g', 'r', 'a', 'm']);
            }
            if text_is(name, "exp") {
                let mut pos: usize = 0;
                if pos >= ch.len() {
                    return Err(
                        DecodeError::MissingItem.with_context("decoding variant Exp field e").with_context(
                            "while decoding SpecTecArg",
                        ),
                    );
                }
                proof {
                    assert(decreases_to!(*item => item->Node_1));
                    assert(decreases_to!(item->Node_1 => item->Node_1@));
                    assert(decreases_to!(item->Node_1@ => item->Node_1@[pos as int]));
                }
                let f_e = match decode_exp(&ch[pos]) {
                    Ok(v) => v,
                    Err(e) => {
                        return Err(
                            e.with_context("decoding variant Exp field e").with_context("while decoding SpecTecArg"),
                        );
                    },
                };
                pos = pos + 1;
                if pos == ch.len() {
                    Ok(SpecTecArg::Exp { e: f_e })
                } else {
                    Err(
                        DecodeError::UnexpectedItem(clone_item(&ch[pos])).with_context(
                            "decoding variant Exp item not consumed by fields",
                        ).with_context("while decoding SpecTecArg"),
                    )
                }
            } else if text_is(name, "typ") {
                let mut pos: usize = 0;
                if pos >= ch.len() {
                    return Err(
                        DecodeError::MissingItem.with_context("decoding variant Typ field t").with_context(
                            "while decoding SpecTecArg",
                        ),
                    );
                }
                proof {
                    assert(decreases_to!(*item => item->Node_1));
                    assert(decreases_to!(item->Node_1 => item->Node_1@));
                    assert(decreases_to!(item->Node_1@ => item->Node_1@[pos as int]));
                }
                let f_t = match decode_typ(&ch[pos]) {
                    Ok(v) => v,
                    Err(e) => {
                        return Err(
                            e.with_context("decoding variant Typ field t").with_context("while decoding SpecTecArg"),
                        );
                    },
                };
                pos = pos + 1;
                if pos == ch.len() {
                    Ok(SpecTecArg::Typ { t: f_t })
                } else {
                    Err(
                        DecodeError::UnexpectedItem(clone_item(&ch[pos])).with_context(
                            "decoding variant Typ item not consumed by fields",
                        ).with_context("while decoding SpecTecArg"),
                    )
                }
            } else if text_is(name, "def") {
                let mut pos: usize = 0;
                if pos >= ch.len() {
                    return Err(
                        DecodeError::MissingItem.with_context("decoding variant Def field x").with_context(
                            "while decoding SpecTecArg",
                        ),
                    );
                }
                let f_x = match <String as Decode>::decode(&ch[pos]) {
                    Ok(v) => v,
                    Err(e) => {
                        return Err(
                            e.with_context("decoding variant Def field x").with_context("while decoding SpecTecArg"),
                        );
                    },
                };
                pos = pos + 1;
                if pos == ch.len() {
                    Ok(SpecTecArg::Def { x: f_x })
                } else {
                    Err(
                        DecodeError::UnexpectedItem(clone_item(&ch[pos])).with_context(
                            "decoding variant Def item not consumed by fields",
                        ).with_context("while decoding SpecTecArg"),
                    )
                }
            } else if text_is(name, "gram") {
                let mut pos: usize = 0;
                if pos >= ch.len() {
                    return Err(
                        DecodeError::MissingItem.with_context("decoding variant Gram field g").with_context(
                            "while decoding SpecTecArg",
                        ),
                    );
                }
                proof {
                    assert(decreases_to!(*item => item->Node_1));
                    assert(decreases_to!(item->Node_1 => item->Node_1@));
                    assert(decreases_to!(item->Node_1@ => item->Node_1@[pos as int]));
                }
                let f_g = match decode_sym(&ch[pos]) {
                    Ok(v) => v,
                    Err(e) => {
                        return Err(
                            e.with_context("decoding variant Gram field g").with_context("while decoding SpecTecArg"),
                        );
                    },
                };
                pos = pos + 1;
                if pos == ch.len() {
                    Ok(SpecTecArg::Gram { g: f_g })
                } else {
                    Err(
                        DecodeError::UnexpectedItem(clone_item(&ch[pos])).with_context(
                            "decoding variant Gram item not consumed by fields",
                        ).with_context("while decoding SpecTecArg"),
                    )
                }
            } else {
                Err(DecodeError::UnrecognisedSymbol(name.clone()).with_context("while decoding SpecTecArg"))
            }
        },
        _ => Err(
            DecodeError::UnexpectedItem(clone_item(item)).with_context("while decoding SpecTecArg"),
        ),
    }
}

/// Decides whether an item decodes as `SpecTecArg`.
fn can_arg(item: &SExprItem) -> (r: bool)
    ensures
        r == accepts_arg(*item),
    decreases item, 0int, 1int,
{
    decode_arg(item).is_ok()
}

/// Decodes one item as `SpecTecBind`, or reports why it cannot be.
fn decode_bind(item: &SExprItem) -> (r: Result<SpecTecBind, DecodeError>)
    ensures
        r is Ok <==> accepts_bind(*item),
        r matches Ok(v) ==> rel_bind(*item, v),
    decreases item, 0int, 0int,
{
    match item {
        SExprItem::Atom(t) => {
            Err(DecodeError::UnrecognisedSymbol(t.clone()).with_context("while decoding SpecTecBind"))
        },
        SExprItem::Node(name, ch) => {
            proof {
                reveal_strlit("exp");
                reveal_strlit("typ");
                reveal_strlit("def");
                reveal_strlit("gram");
                assert("exp"@ =~= seq!['e', 'x', 'p']);
                assert("typ"@ =~= seq!['t', 'y', 'p']);
                assert("def"@ =~= seq!['d', 'e', 'f']);
                assert("gram"@ =~= seq!['g', 'r', 'a', 'm']);
            }
            if text_is(name, "exp") {
                let mut pos: usize = 0;
                if pos >= ch.len() {
                    return Err(
                        DecodeError::MissingItem.with_context("decoding variant Exp field x").with_context(
                            "while decoding SpecTecBind",
                        ),
                    );
                }
                let f_x = match <String as Decode>::decode(&ch[pos]) {
                    Ok(v) => v,
                    Err(e) => {
                        return Err(
                            e.with_context("decoding variant Exp field x").with_context("while decoding SpecTecBind"),
                        );
                    },
                };
                pos = pos + 1;
                if pos >= ch.len() {
                    return Err(
                        DecodeError::MissingItem.with_context("decoding variant Exp field t").with_context(
                            "while decoding SpecTecBind",
                        ),
                    );
                }
                proof {
                    assert(decreases_to!(*item => item->Node_1));
                    assert(decreases_to!(item->Node_1 => item->Node_1@));
                    assert(decreases_to!(item->Node_1@ => item->Node_1@[pos as int]));
                }
                let f_t = match decode_typ(&ch[pos]) {
                    Ok(v) => v,
                    Err(e) => {
                        return Err(
                            e.with_context("decoding variant Exp field t").with_context("while decoding SpecTecBind"),
                        );
                    },
                };
                pos = pos + 1;
                if pos == ch.len() {
                    Ok(SpecTecBind::Exp { x: f_x, t: f_t })
                } else {
                    Err(
                        DecodeError::UnexpectedItem(clone_item(&ch[pos])).with_context(
                            "decoding variant Exp item not consumed by fields",
                        ).with_context("while decoding SpecTecBind"),
                    )
                }
            } else if text_is(name, "typ") {
                let mut pos: usize = 0;
                if pos >= ch.len() {
                    return Err(
                        DecodeError::MissingItem.with_context("decoding variant Typ field x").with_context(
                            "while decoding SpecTecBind",
                        ),
                    );
                }
                let f_x = match <String as Decode>::decode(&ch[pos]) {
                    Ok(v) => v,
                    Err(e) => {
                        return Err(
                            e.with_context("decoding variant Typ field x").with_context("while decoding SpecTecBind"),
                        );
                    },
                };
                pos = pos + 1;
                if pos == ch.len() {
                    Ok(SpecTecBind::Typ { x: f_x })
                } else {
                    Err(
                        DecodeError::UnexpectedItem(clone_item(&ch[pos])).with_context(
                            "decoding variant Typ item not consumed by fields",
                        ).with_context("while decoding SpecTecBind"),
                    )
                }
            } else if text_is(name, "def") {
                let mut pos: usize = 0;
                if pos >= ch.len() {
                    return Err(
                        DecodeError::MissingItem.with_context("decoding variant Def field x").with_context(
                            "while decoding SpecTecBind",
                        ),
                    );
                }
                let f_x = match <String as Decode>::decode(&ch[pos]) {
                    Ok(v) => v,
                    Err(e) => {
                        return Err(
                            e.with_context("decoding variant Def field x").with_context("while decoding SpecTecBind"),
                        );
                    },
                };
                pos = pos + 1;
                proof {
                    assert(decreases_to!(*item => item->Node_1));
                    assert(decreases_to!(item->Node_1 => item->Node_1@));
                }
                let f_ps = decode_list_param(ch, &mut pos);
                if pos >= ch.len() {
                    return Err(
                        DecodeError::MissingItem.with_context("decoding variant Def field t").with_context(
                            "while decoding SpecTecBind",
                        ),
                    );
                }
                proof {
                    assert(decreases_to!(*item => item->Node_1));
                    assert(decreases_to!(item->Node_1 => item->Node_1@));
                    assert(decreases_to!(item->Node_1@ => item->Node_1@[pos as int]));
                }
                let f_t = match decode_typ(&ch[pos]) {
                    Ok(v) => v,
                    Err(e) => {
                        return Err(
                            e.with_context("decoding variant Def field t").with_context("while decoding SpecTecBind"),
                        );
                    },
                };
                pos = pos + 1;
                if pos == ch.len() {
                    Ok(SpecTecBind::Def { x: f_x, ps: f_ps, t: f_t })
                } else {
                    Err(
                        DecodeError::UnexpectedItem(clone_item(&ch[pos])).with_context(
                            "decoding variant Def item not consumed by fields",
                        ).with_context("while decoding SpecTecBind"),
                    )
                }
            } else if text_is(name, "gram") {
                let mut pos: usize = 0;
                if pos >= ch.len() {
                    return Err(
                        DecodeError::MissingItem.with_context("decoding variant Gram field x").with_context(
                            "while decoding SpecTecBind",
                        ),
                    );
                }
                let f_x = match <String as Decode>::decode(&ch[pos]) {
                    Ok(v) => v,
                    Err(e) => {
                        return Err(
                            e.with_context("decoding variant Gram field x").with_context("while decoding SpecTecBind"),
                        );
                    },
                };
                pos = pos + 1;
                proof {
                    assert(decreases_to!(*item => item->Node_1));
                    assert(decreases_to!(item->Node_1 => item->Node_1@));
                }
                let f_ps = decode_list_param(ch, &mut pos);
                if pos >= ch.len() {
                    return Err(
                        DecodeError::MissingItem.with_context("decoding variant Gram field t").with_context(
                            "while decoding SpecTecBind",
                        ),
                    );
                }
                proof {
                    assert(decreases_to!(*item => item->Node_1));
                    assert(decreases_to!(item->Node_1 => item->Node_1@));
                    assert(decreases_to!(item->Node_1@ => item->Node_1@[pos as int]));
                }
                let f_t = match decode_typ(&ch[pos]) {
                    Ok(v) => v,
                    Err(e) => {
                        return Err(
                            e.with_context("decoding variant Gram field t").with_context("while decoding SpecTecBind"),
                        );
                    },
                };
                pos = pos + 1;
                if pos == ch.len() {
                    Ok(SpecTecBind::Gram { x: f_x, ps: f_ps, t: f_t })
                } else {
                    Err(
                        DecodeError::UnexpectedItem(clone_item(&ch[pos])).with_context(
                            "decoding variant Gram item not consumed by fields",
                        ).with_context("while decoding SpecTecBind"),
                    )
                }
            } else {
                Err(DecodeError::UnrecognisedSymbol(name.clone()).with_context("while decoding SpecTecBind"))
            }
        },
        _ => Err(
            DecodeError::UnexpectedItem(clone_item(item)).with_context("while decoding SpecTecBind"),
        ),
    }
}

/// Decides whether an item decodes as `SpecTecBind`.
fn can_bind(item: &SExprItem) -> (r: bool)
    ensures
        r == accepts_bind(*item),
    decreases item, 0int, 1int,
{
    decode_bind(item).is_ok()
}

/// Decodes one item as `SpecTecParam`, or reports why it cannot be.
fn decode_param(item: &SExprItem) -> (r: Result<SpecTecParam, DecodeError>)
    ensures
        r is Ok <==> accepts_param(*item),
        r matches Ok(v) ==> rel_param(*item, v),
    decreases item, 0int, 0int,
{
    match item {
        SExprItem::Atom(t) => {
            Err(DecodeError::UnrecognisedSymbol(t.clone()).with_context("while decoding SpecTecParam"))
        },
        SExprItem::Node(name, ch) => {
            proof {
                reveal_strlit("exp");
                reveal_strlit("typ");
                reveal_strlit("def");
                reveal_strlit("gram");
                assert("exp"@ =~= seq!['e', 'x', 'p']);
                assert("typ"@ =~= seq!['t', 'y', 'p']);
                assert("def"@ =~= seq!['d', 'e', 'f']);
                assert("gram"@ =~= seq!['g', 'r', 'a', 'm']);
            }
            if text_is(name, "exp") {
                let mut pos: usize = 0;
                if pos >= ch.len() {
                    return Err(
                        DecodeError::MissingItem.with_context("decoding variant Exp field x").with_context(
                            "while decoding SpecTecParam",
                        ),
                    );
                }
                let f_x = match <String as Decode>::decode(&ch[pos]) {
                    Ok(v) => v,
                    Err(e) => {
                        return Err(
                            e.with_context("decoding variant Exp field x").with_context("while decoding SpecTecParam"),
                        );
                    },
                };
                pos = pos + 1;
                if pos >= ch.len() {
                    return Err(
                        DecodeError::MissingItem.with_context("decoding variant Exp field t").with_context(
                            "while decoding SpecTecParam",
                        ),
                    );
                }
                proof {
                    assert(decreases_to!(*item => item->Node_1));
                    assert(decreases_to!(item->Node_1 => item->Node_1@));
                    assert(decreases_to!(item->Node_1@ => item->Node_1@[pos as int]));
                }
                let f_t = match decode_typ(&ch[pos]) {
                    Ok(v) => v,
                    Err(e) => {
                        return Err(
                            e.with_context("decoding variant Exp field t").with_context("while decoding SpecTecParam"),
                        );
                    },
                };
                pos = pos + 1;
                if pos == ch.len() {
                    Ok(SpecTecParam::Exp { x: f_x, t: f_t })
                } else {
                    Err(
                        DecodeError::UnexpectedItem(clone_item(&ch[pos])).with_context(
                            "decoding variant Exp item not consumed by fields",
                        ).with_context("while decoding SpecTecParam"),
                    )
                }
            } else if text_is(name, "typ") {
                let mut pos: usize = 0;
                if pos >= ch.len() {
                    return Err(
                        DecodeError::MissingItem.with_context("decoding variant Typ field x").with_context(
                            "while decoding SpecTecParam",
                        ),
                    );
                }
                let f_x = match <String as Decode>::decode(&ch[pos]) {
                    Ok(v) => v,
                    Err(e) => {
                        return Err(
                            e.with_context("decoding variant Typ field x").with_context("while decoding SpecTecParam"),
                        );
                    },
                };
                pos = pos + 1;
                if pos == ch.len() {
                    Ok(SpecTecParam::Typ { x: f_x })
                } else {
                    Err(
                        DecodeError::UnexpectedItem(clone_item(&ch[pos])).with_context(
                            "decoding variant Typ item not consumed by fields",
                        ).with_context("while decoding SpecTecParam"),
                    )
                }
            } else if text_is(name, "def") {
                let mut pos: usize = 0;
                if pos >= ch.len() {
                    return Err(
                        DecodeError::MissingItem.with_context("decoding variant Def field x").with_context(
                            "while decoding SpecTecParam",
                        ),
                    );
                }
                let f_x = match <String as Decode>::decode(&ch[pos]) {
                    Ok(v) => v,
                    Err(e) => {
                        return Err(
                            e.with_context("decoding variant Def field x").with_context("while decoding SpecTecParam"),
                        );
                    },
                };
                pos = pos + 1;
                proof {
                    assert(decreases_to!(*item => item->Node_1));
                    assert(decreases_to!(item->Node_1 => item->Node_1@));
                }
                let f_ps = decode_list_param(ch, &mut pos);
                if pos >= ch.len() {
                    return Err(
                        DecodeError::MissingItem.with_context("decoding variant Def field t").with_context(
                            "while decoding SpecTecParam",
                        ),
                    );
                }
                proof {
                    assert(decreases_to!(*item => item->Node_1));
                    assert(decreases_to!(item->Node_1 => item->Node_1@));
                    assert(decreases_to!(item->Node_1@ => item->Node_1@[pos as int]));
                }
                let f_t = match decode_typ(&ch[pos]) {
                    Ok(v) => v,
                    Err(e) => {
                        return Err(
                            e.with_context("decoding variant Def field t").with_context("while decoding SpecTecParam"),
                        );
                    },
                };
                pos = pos + 1;
                if pos == ch.len() {
                    Ok(SpecTecParam::Def { x: f_x, ps: f_ps, t: f_t })
                } else {
                    Err(
                        DecodeError::UnexpectedItem(clone_item(&ch[pos])).with_context(
                            "decoding variant Def item not consumed by fields",
                        ).with_context("while decoding SpecTecParam"),
                    )
                }
            } else if text_is(name, "gram") {
                let mut pos: usize = 0;
                if pos >= ch.len() {
                    return Err(
                        DecodeError::MissingItem.with_context("decoding variant Gram field x").with_context(
                            "while decoding SpecTecParam",
                        ),
                    );
                }
                let f_x = match <String as Decode>::decode(&ch[pos]) {
                    Ok(v) => v,
                    Err(e) => {
                        return Err(
                            e.with_context("decoding variant Gram field x").with_context("while decoding SpecTecParam"),
                        );
                    },
                };
                pos = pos + 1;
                if pos >= ch.len() {
                    return Err(
                        DecodeError::MissingItem.with_context("decoding variant Gram field t").with_context(
                            "while decoding SpecTecParam",
                        ),
                    );
                }
                proof {
                    assert(decreases_to!(*item => item->Node_1));
                    assert(decreases_to!(item->Node_1 => item->Node_1@));
                    assert(decreases_to!(item->Node_1@ => item->Node_1@[pos as int]));
                }
                let f_t = match decode_typ(&ch[pos]) {
                    Ok(v) => v,
                    Err(e) => {
                        return Err(
                            e.with_context("decoding variant Gram field t").with_context("while decoding SpecTecParam"),
                        );
                    },
                };
                pos = pos + 1;
                if pos == ch.len() {
                    Ok(SpecTecParam::Gram { x: f_x, t: f_t })
                } else {
                    Err(
                        DecodeError::UnexpectedItem(clone_item(&ch[pos])).with_context(
                            "decoding variant Gram item not consumed by fields",
                        ).with_context("while decoding SpecTecParam"),
                    )
                }
            } else {
                Err(DecodeError::UnrecognisedSymbol(name.clone()).with_context("while decoding SpecTecParam"))
            }
        },
        _ => Err(
            DecodeError::UnexpectedItem(clone_item(item)).with_context("while decoding SpecTecParam"),
        ),
    }
}

/// Decides whether an item decodes as `SpecTecParam`.
fn can_param(item: &SExprItem) -> (r: bool)
    ensures
        r == accepts_param(*item),
    decreases item, 0int, 1int,
{
    decode_param(item).is_ok()
}

/// Decodes one item as `SpecTecInst`, or reports why it cannot be.
fn decode_inst(item: &SExprItem) -> (r: Result<SpecTecInst, DecodeError>)
    ensures
        r is Ok <==> accepts_inst(*item),
        r matches Ok(v) ==> rel_inst(*item, v),
    decreases item, 0int, 0int,
{
    match item {
        SExprItem::Atom(t) => {
            Err(DecodeError::UnrecognisedSymbol(t.clone()).with_context("while decoding SpecTecInst"))
        },
        SExprItem::Node(name, ch) => {
            proof {
                reveal_strlit("inst");
                assert("inst"@ =~= seq!['i', 'n', 's', 't']);
            }
            if text_is(name, "inst") {
                let mut pos: usize = 0;
                proof {
                    assert(decreases_to!(*item => item->Node_1));
                    assert(decreases_to!(item->Node_1 => item->Node_1@));
                }
                let f_bs = decode_list_bind(ch, &mut pos);
                proof {
                    assert(decreases_to!(*item => item->Node_1));
                    assert(decreases_to!(item->Node_1 => item->Node_1@));
                }
                let f_as_ = decode_list_arg(ch, &mut pos);
                if pos >= ch.len() {
                    return Err(
                        DecodeError::MissingItem.with_context("decoding variant Inst field dt").with_context(
                            "while decoding SpecTecInst",
                        ),
                    );
                }
                proof {
                    assert(decreases_to!(*item => item->Node_1));
                    assert(decreases_to!(item->Node_1 => item->Node_1@));
                    assert(decreases_to!(item->Node_1@ => item->Node_1@[pos as int]));
                }
                let f_dt = match decode_deftyp(&ch[pos]) {
                    Ok(v) => v,
                    Err(e) => {
                        return Err(
                            e.with_context("decoding variant Inst field dt").with_context("while decoding SpecTecInst"),
                        );
                    },
                };
                pos = pos + 1;
                if pos == ch.len() {
                    Ok(SpecTecInst::Inst { bs: f_bs, as_: f_as_, dt: f_dt })
                } else {
                    Err(
                        DecodeError::UnexpectedItem(clone_item(&ch[pos])).with_context(
                            "decoding variant Inst item not consumed by fields",
                        ).with_context("while decoding SpecTecInst"),
                    )
                }
            } else {
                Err(DecodeError::UnrecognisedSymbol(name.clone()).with_context("while decoding SpecTecInst"))
            }
        },
        _ => Err(
            DecodeError::UnexpectedItem(clone_item(item)).with_context("while decoding SpecTecInst"),
        ),
    }
}

/// Decides whether an item decodes as `SpecTecInst`.
fn can_inst(item: &SExprItem) -> (r: bool)
    ensures
        r == accepts_inst(*item),
    decreases item, 0int, 1int,
{
    decode_inst(item).is_ok()
}

/// Decodes one item as `SpecTecRule`, or reports why it cannot be.
fn decode_rule(item: &SExprItem) -> (r: Result<SpecTecRule, DecodeError>)
    ensures
        r is Ok <==> accepts_rule(*item),
        r matches Ok(v) ==> rel_rule(*item, v),
    decreases item, 0int, 0int,
{
    match item {
        SExprItem::Atom(t) => {
            Err(DecodeError::UnrecognisedSymbol(t.clone()).with_context("while decoding SpecTecRule"))
        },
        SExprItem::Node(name, ch) => {
            proof {
                reveal_strlit("rule");
                assert("rule"@ =~= seq!['r', 'u', 'l', 'e']);
            }
            if text_is(name, "rule") {
                let mut pos: usize = 0;
                if pos >= ch.len() {
                    return Err(
                        DecodeError::MissingItem.with_context("decoding variant Rule field x").with_context(
                            "while decoding SpecTecRule",
                        ),
                    );
                }
                let f_x = match <String as Decode>::decode(&ch[pos]) {
                    Ok(v) => v,
                    Err(e) => {
                        return Err(
                            e.with_context("decoding variant Rule field x").with_context("while decoding SpecTecRule"),
                        );
                    },
                };
                pos = pos + 1;
                proof {
                    assert(decreases_to!(*item => item->Node_1));
                    assert(decreases_to!(item->Node_1 => item->Node_1@));
                }
                let f_bs = decode_list_bind(ch, &mut pos);
                if pos >= ch.len() {
                    return Err(
                        DecodeError::MissingItem.with_context("decoding variant Rule field op").with_context(
                            "while decoding SpecTecRule",
                        ),
                    );
                }
                let f_op = match decode_mix(&ch[pos]) {
                    Ok(v) => v,
                    Err(e) => {
                        return Err(
                            e.with_context("decoding variant Rule field op").with_context("while decoding SpecTecRule"),
                        );
                    },
                };
                pos = pos + 1;
                if pos >= ch.len() {
                    return Err(
                        DecodeError::MissingItem.with_context("decoding variant Rule field e").with_context(
                            "while decoding SpecTecRule",
                        ),
                    );
                }
                proof {
                    assert(decreases_to!(*item => item->Node_1));
                    assert(decreases_to!(item->Node_1 => item->Node_1@));
                    assert(decreases_to!(item->Node_1@ => item->Node_1@[pos as int]));
                }
                let f_e = match decode_exp(&ch[pos]) {
                    Ok(v) => v,
                    Err(e) => {
                        return Err(
                            e.with_context("decoding variant Rule field e").with_context("while decoding SpecTecRule"),
                        );
                    },
                };
                pos = pos + 1;
                proof {
                    assert(decreases_to!(*item => item->Node_1));
                    assert(decreases_to!(item->Node_1 => item->Node_1@));
                }
                let f_prs = decode_list_prem(ch, &mut pos);
                if pos == ch.len() {
                    Ok(SpecTecRule::Rule { x: f_x, bs: f_bs, op: f_op, e: f_e, prs: f_prs })
                } else {
                    Err(
                        DecodeError::UnexpectedItem(clone_item(&ch[pos])).with_context(
                            "decoding variant Rule item not consumed by fields",
                        ).with_context("while decoding SpecTecRule"),
                    )
                }
            } else {
                Err(DecodeError::UnrecognisedSymbol(name.clone()).with_context("while decoding SpecTecRule"))
            }
        },
        _ => Err(
            DecodeError::UnexpectedItem(clone_item(item)).with_context("while decoding SpecTecRule"),
        ),
    }
}

/// Decides whether an item decodes as `SpecTecRule`.
fn can_rule(item: &SExprItem) -> (r: bool)
    ensures
        r == accepts_rule(*item),
    decreases item, 0int, 1int,
{
    decode_rule(item).is_ok()
}

/// Decodes one item as `SpecTecClause`, or reports why it cannot be.
fn decode_clause(item: &SExprItem) -> (r: Result<SpecTecClause, DecodeError>)
    ensures
        r is Ok <==> accepts_clause(*item),
        r matches Ok(v) ==> rel_clause(*item, v),
    decreases item, 0int, 0int,
{
    match item {
        SExprItem::Atom(t) => {
            Err(DecodeError::UnrecognisedSymbol(t.clone()).with_context("while decoding SpecTecClause"))
        },
        SExprItem::Node(name, ch) => {
            proof {
                reveal_strlit("clause");
                assert("clause"@ =~= seq!['c', 'l', 'a', 'u', 's', 'e']);
            }
            if text_is(name, "clause") {
                let mut pos: usize = 0;
                proof {
                    assert(decreases_to!(*item => item->Node_1));
                    assert(decreases_to!(item->Node_1 => item->Node_1@));
                }
                let f_bs = decode_list_bind(ch, &mut pos);
                proof {
                    assert(decreases_to!(*item => item->Node_1));
                    assert(decreases_to!(item->Node_1 => item->Node_1@));
                }
                let f_as_ = decode_list_arg(ch, &mut pos);
                if pos >= ch.len() {
                    return Err(
                        DecodeError::MissingItem.with_context("decoding variant Clause field e").with_context(
                            "while decoding SpecTecClause",
                        ),
                    );
                }
                proof {
                    assert(decreases_to!(*item => item->Node_1));
                    assert(decreases_to!(item->Node_1 => item->Node_1@));
                    assert(decreases_to!(item->Node_1@ => item->Node_1@[pos as int]));
                }
                let f_e = match decode_exp(&ch[pos]) {
                    Ok(v) => v,
                    Err(e) => {
                        return Err(
                            e.with_context("decoding variant Clause field e").with_context("while decoding SpecTecClause"),
                        );
                    },
                };
                pos = pos + 1;
                proof {
                    assert(decreases_to!(*item => item->Node_1));
                    assert(decreases_to!(item->Node_1 => item->Node_1@));
                }
                let f_prs = decode_list_prem(ch, &mut pos);
                if pos == ch.len() {
                    Ok(SpecTecClause::Clause { bs: f_bs, as_: f_as_, e: f_e, prs: f_prs })
                } else {
                    Err(
                        DecodeError::UnexpectedItem(clone_item(&ch[pos])).with_context(
                            "decoding variant Clause item not consumed by fields",
                        ).with_context("while decoding SpecTecClause"),
                    )
                }
            } else {
                Err(DecodeError::UnrecognisedSymbol(name.clone()).with_context("while decoding SpecTecClause"))
            }
        },
        _ => Err(
            DecodeError::UnexpectedItem(clone_item(item)).with_context("while decoding SpecTecClause"),
        ),
    }
}

/// Decides whether an item decodes as `SpecTecClause`.
fn can_clause(item: &SExprItem) -> (r: bool)
    ensures
        r == accepts_clause(*item),
    decreases item, 0int, 1int,
{
    decode_clause(item).is_ok()
}

/// Decodes one item as `SpecTecProd`, or reports why it cannot be.
fn decode_prod(item: &SExprItem) -> (r: Result<SpecTecProd, DecodeError>)
    ensures
        r is Ok <==> accepts_prod(*item),
        r matches Ok(v) ==> rel_prod(*item, v),
    decreases item, 0int, 0int,
{
    match item {
        SExprItem::Atom(t) => {
            Err(DecodeError::UnrecognisedSymbol(t.clone()).with_context("while decoding SpecTecProd"))
        },
        SExprItem::Node(name, ch) => {
            proof {
                reveal_strlit("prod");
                assert("prod"@ =~= seq!['p', 'r', 'o', 'd']);
            }
            if text_is(name, "prod") {
                let mut pos: usize = 0;
                proof {
                    assert(decreases_to!(*item => item->Node_1));
                    assert(decreases_to!(item->Node_1 => item->Node_1@));
                }
                let f_bs = decode_list_bind(ch, &mut pos);
                if pos >= ch.len() {
                    return Err(
                        DecodeError::MissingItem.with_context("decoding variant Prod field g").with_context(
                            "while decoding SpecTecProd",
                        ),
                    );
                }
                proof {
                    assert(decreases_to!(*item => item->Node_1));
                    assert(decreases_to!(item->Node_1 => item->Node_1@));
                    assert(decreases_to!(item->Node_1@ => item->Node_1@[pos as int]));
                }
                let f_g = match decode_sym(&ch[pos]) {
                    Ok(v) => v,
                    Err(e) => {
                        return Err(
                            e.with_context("decoding variant Prod field g").with_context("while decoding SpecTecProd"),
                        );
                    },
                };
                pos = pos + 1;
                if pos >= ch.len() {
                    return Err(
                        DecodeError::MissingItem.with_context("decoding variant Prod field e").with_context(
                            "while decoding SpecTecProd",
                        ),
                    );
                }
                proof {
                    assert(decreases_to!(*item => item->Node_1));
                    assert(decreases_to!(item->Node_1 => item->Node_1@));
                    assert(decreases_to!(item->Node_1@ => item->Node_1@[pos as int]));
                }
                let f_e = match decode_exp(&ch[pos]) {
                    Ok(v) => v,
                    Err(e) => {
                        return Err(
                            e.with_context("decoding variant Prod field e").with_context("while decoding SpecTecProd"),
                        );
                    },
                };
                pos = pos + 1;
                proof {
                    assert(decreases_to!(*item => item->Node_1));
                    assert(decreases_to!(item->Node_1 => item->Node_1@));
                }
                let f_prs = decode_list_prem(ch, &mut pos);
                if pos == ch.len() {
                    Ok(SpecTecProd::Prod { bs: f_bs, g: f_g, e: f_e, prs: f_prs })
                } else {
                    Err(
                        DecodeError::UnexpectedItem(clone_item(&ch[pos])).with_context(
                            "decoding variant Prod item not consumed by fields",
                        ).with_context("while decoding SpecTecProd"),
                    )
                }
            } else {
                Err(DecodeError::UnrecognisedSymbol(name.clone()).with_context("while decoding SpecTecProd"))
            }
        },
        _ => Err(
            DecodeError::UnexpectedItem(clone_item(item)).with_context("while decoding SpecTecProd"),
        ),
    }
}

/// Decides whether an item decodes as `SpecTecProd`.
fn can_prod(item: &SExprItem) -> (r: bool)
    ensures
        r == accepts_prod(*item),
    decreases item, 0int, 1int,
{
    decode_prod(item).is_ok()
}

/// Decodes one item as `SpecTecDef`, or reports why it cannot be.
fn decode_def(item: &SExprItem) -> (r: Result<SpecTecDef, DecodeError>)
    ensures
        r is Ok <==> accepts_def(*item),
        r matches Ok(v) ==> rel_def(*item, v),
    decreases item, 0int, 0int,
{
    match item {
        SExprItem::Atom(t) => {
            Err(DecodeError::UnrecognisedSymbol(t.clone()).with_context("while decoding SpecTecDef"))
        },
        SExprItem::Node(name, ch) => {
            proof {
                reveal_strlit("typ");
                reveal_strlit("rel");
                reveal_strlit("def");
                reveal_strlit("gram");
                reveal_strlit("rec");
                assert("typ"@ =~= seq!['t', 'y', 'p']);
                assert("rel"@ =~= seq!['r', 'e', 'l']);
                assert("def"@ =~= seq!['d', 'e', 'f']);
                assert("gram"@ =~= seq!['g', 'r', 'a', 'm']);
                assert("rec"@ =~= seq!['r', 'e', 'c']);
            }
            if text_is(name, "typ") {
                let mut pos: usize = 0;
                if pos >= ch.len() {
                    return Err(
                        DecodeError::MissingItem.with_context("decoding variant Typ field x").with_context(
                            "while decoding SpecTecDef",
                        ),
                    );
                }
                let f_x = match <String as Decode>::decode(&ch[pos]) {
                    Ok(v) => v,
                    Err(e) => {
                        return Err(
                            e.with_context("decoding variant Typ field x").with_context("while decoding SpecTecDef"),
                        );
                    },
                };
                pos = pos + 1;
                proof {
                    assert(decreases_to!(*item => item->Node_1));
                    assert(decreases_to!(item->Node_1 => item->Node_1@));
                }
                let f_ps = decode_list_param(ch, &mut pos);
                proof {
                    assert(decreases_to!(*item => item->Node_1));
                    assert(decreases_to!(item->Node_1 => item->Node_1@));
                }
                let f_insts = decode_list_inst(ch, &mut pos);
                if pos == ch.len() {
                    Ok(SpecTecDef::Typ { x: f_x, ps: f_ps, insts: f_insts })
                } else {
                    Err(
                        DecodeError::UnexpectedItem(clone_item(&ch[pos])).with_context(
                            "decoding variant Typ item not consumed by fields",
                        ).with_context("while decoding SpecTecDef"),
                    )
                }
            } else if text_is(name, "rel") {
                let mut pos: usize = 0;
                if pos >= ch.len() {
                    return Err(
                        DecodeError::MissingItem.with_context("decoding variant Rel field x").with_context(
                            "while decoding SpecTecDef",
                        ),
                    );
                }
                let f_x = match <String as Decode>::decode(&ch[pos]) {
                    Ok(v) => v,
                    Err(e) => {
                        return Err(
                            e.with_context("decoding variant Rel field x").with_context("while decoding SpecTecDef"),
                        );
                    },
                };
                pos = pos + 1;
                if pos >= ch.len() {
                    return Err(
                        DecodeError::MissingItem.with_context("decoding variant Rel field op").with_context(
                            "while decoding SpecTecDef",
                        ),
                    );
                }
                let f_op = match decode_mix(&ch[pos]) {
                    Ok(v) => v,
                    Err(e) => {
                        return Err(
                            e.with_context("decoding variant Rel field op").with_context("while decoding SpecTecDef"),
                        );
                    },
                };
                pos = pos + 1;
                if pos >= ch.len() {
                    return Err(
                        DecodeError::MissingItem.with_context("decoding variant Rel field t").with_context(
                            "while decoding SpecTecDef",
                        ),
                    );
                }
                proof {
                    assert(decreases_to!(*item => item->Node_1));
                    assert(decreases_to!(item->Node_1 => item->Node_1@));
                    assert(decreases_to!(item->Node_1@ => item->Node_1@[pos as int]));
                }
                let f_t = match decode_typ(&ch[pos]) {
                    Ok(v) => v,
                    Err(e) => {
                        return Err(
                            e.with_context("decoding variant Rel field t").with_context("while decoding SpecTecDef"),
                        );
                    },
                };
                pos = pos + 1;
                proof {
                    assert(decreases_to!(*item => item->Node_1));
                    assert(decreases_to!(item->Node_1 => item->Node_1@));
                }
                let f_rules = decode_list_rule(ch, &mut pos);
                if pos == ch.len() {
                    Ok(SpecTecDef::Rel { x: f_x, op: f_op, t: f_t, rules: f_rules })
                } else {
                    Err(
                        DecodeError::UnexpectedItem(clone_item(&ch[pos])).with_context(
                            "decoding variant Rel item not consumed by fields",
                        ).with_context("while decoding SpecTecDef"),
                    )
                }
            } else if text_is(name, "def") {
                let mut pos: usize = 0;
                if pos >= ch.len() {
                    return Err(
                        DecodeError::MissingItem.with_context("decoding variant Dec field x").with_context(
                            "while decoding SpecTecDef",
                        ),
                    );
                }
                let f_x = match <String as Decode>::decode(&ch[pos]) {
                    Ok(v) => v,
                    Err(e) => {
                        return Err(
                            e.with_context("decoding variant Dec field x").with_context("while decoding SpecTecDef"),
                        );
                    },
                };
                pos = pos + 1;
                proof {
                    assert(decreases_to!(*item => item->Node_1));
                    assert(decreases_to!(item->Node_1 => item->Node_1@));
                }
                let f_ps = decode_list_param(ch, &mut pos);
                if pos >= ch.len() {
                    return Err(
                        DecodeError::MissingItem.with_context("decoding variant Dec field t").with_context(
                            "while decoding SpecTecDef",
                        ),
                    );
                }
                proof {
                    assert(decreases_to!(*item => item->Node_1));
                    assert(decreases_to!(item->Node_1 => item->Node_1@));
                    assert(decreases_to!(item->Node_1@ => item->Node_1@[pos as int]));
                }
                let f_t = match decode_typ(&ch[pos]) {
                    Ok(v) => v,
                    Err(e) => {
                        return Err(
                            e.with_context("decoding variant Dec field t").with_context("while decoding SpecTecDef"),
                        );
                    },
                };
                pos = pos + 1;
                proof {
                    assert(decreases_to!(*item => item->Node_1));
                    assert(decreases_to!(item->Node_1 => item->Node_1@));
                }
                let f_clauses = decode_list_clause(ch, &mut pos);
                if pos == ch.len() {
                    Ok(SpecTecDef::Dec { x: f_x, ps: f_ps, t: f_t, clauses: f_clauses })
                } else {
                    Err(
                        DecodeError::UnexpectedItem(clone_item(&ch[pos])).with_context(
                            "decoding variant Dec item not consumed by fields",
                        ).with_context("while decoding SpecTecDef"),
                    )
                }
            } else if text_is(name, "gram") {
                let mut pos: usize = 0;
                if pos >= ch.len() {
                    return Err(
                        DecodeError::MissingItem.with_context("decoding variant Gram field x").with_context(
                            "while decoding SpecTecDef",
                        ),
                    );
                }
                let f_x = match <String as Decode>::decode(&ch[pos]) {
                    Ok(v) => v,
                    Err(e) => {
                        return Err(
                            e.with_context("decoding variant Gram field x").with_context("while decoding SpecTecDef"),
                        );
                    },
                };
                pos = pos + 1;
                proof {
                    assert(decreases_to!(*item => item->Node_1));
                    assert(decreases_to!(item->Node_1 => item->Node_1@));
                }
                let f_ps = decode_list_param(ch, &mut pos);
                if pos >= ch.len() {
                    return Err(
                        DecodeError::MissingItem.with_context("decoding variant Gram field t").with_context(
                            "while decoding SpecTecDef",
                        ),
                    );
                }
                proof {
                    assert(decreases_to!(*item => item->Node_1));
                    assert(decreases_to!(item->Node_1 => item->Node_1@));
                    assert(decreases_to!(item->Node_1@ => item->Node_1@[pos as int]));
                }
                let f_t = match decode_typ(&ch[pos]) {
                    Ok(v) => v,
                    Err(e) => {
                        return Err(
                            e.with_context("decoding variant Gram field t").with_context("while decoding SpecTecDef"),
                        );
                    },
                };
                pos = pos + 1;
                proof {
                    assert(decreases_to!(*item => item->Node_1));
                    assert(decreases_to!(item->Node_1 => item->Node_1@));
                }
                let f_prods = decode_list_prod(ch, &mut pos);
                if pos == ch.len() {
                    Ok(SpecTecDef::Gram { x: f_x, ps: f_ps, t: f_t, prods: f_prods })
                } else {
                    Err(
                        DecodeError::UnexpectedItem(clone_item(&ch[pos])).with_context(
                            "decoding variant Gram item not consumed by fields",
                        ).with_context("while decoding SpecTecDef"),
                    )
                }
            } else if text_is(name, "rec") {
                let mut pos: usize = 0;
                proof {
                    assert(decreases_to!(*item => item->Node_1));
                    assert(decreases_to!(item->Node_1 => item->Node_1@));
                }
                let f_ds = decode_list_def(ch, &mut pos);
                if pos == ch.len() {
                    Ok(SpecTecDef::Rec { ds: f_ds })
                } else {
                    Err(
                        DecodeError::UnexpectedItem(clone_item(&ch[pos])).with_context(
                            "decoding variant Rec item not consumed by fields",
                        ).with_context("while decoding SpecTecDef"),
                    )
                }
            } else {
                Err(DecodeError::UnrecognisedSymbol(name.clone()).with_context("while decoding SpecTecDef"))
            }
        },
        _ => Err(
            DecodeError::UnexpectedItem(clone_item(item)).with_context("while decoding SpecTecDef"),
        ),
    }
}

/// Decides whether an item decodes as `SpecTecDef`.
fn can_def(item: &SExprItem) -> (r: bool)
    ensures
        r == accepts_def(*item),
    decreases item, 0int, 1int,
{
    decode_def(item).is_ok()
}

impl Decode for SpecTecBoolTyp {
    open spec fn accepts(item: SExprItem) -> bool {
        accepts_booltyp(item)
    }

    open spec fn decodes(item: SExprItem, v: Self) -> bool {
        rel_booltyp(item, v)
    }

    fn can_decode(item: &SExprItem) -> (r: bool) {
        can_booltyp(item)
    }

    fn decode(item: &SExprItem) -> (r: Result<Self, DecodeError>) {
        decode_booltyp(item)
    }
}

impl Decode for SpecTecNumTyp {
    open spec fn accepts(item: SExprItem) -> bool {
        accepts_numtyp(item)
    }

    open spec fn decodes(item: SExprItem, v: Self) -> bool {
        rel_numtyp(item, v)
    }

    fn can_decode(item: &SExprItem) -> (r: bool) {
        can_numtyp(item)
    }

    fn decode(item: &SExprItem) -> (r: Result<Self, DecodeError>) {
        decode_numtyp(item)
    }
}

impl Decode for SpecTecNum {
    open spec fn accepts(item: SExprItem) -> bool {
        accepts_num(item)
    }

    open spec fn decodes(item: SExprItem, v: Self) -> bool {
        rel_num(item, v)
    }

    fn can_decode(item: &SExprItem) -> (r: bool) {
        can_num(item)
    }

    fn decode(item: &SExprItem) -> (r: Result<Self, DecodeError>) {
        decode_num(item)
    }
}

impl Decode for SpecTecUnOp {
    open spec fn accepts(item: SExprItem) -> bool {
        accepts_unop(item)
    }

    open spec fn decodes(item: SExprItem, v: Self) -> bool {
        rel_unop(item, v)
    }

    fn can_decode(item: &SExprItem) -> (r: bool) {
        can_unop(item)
    }

    fn decode(item: &SExprItem) -> (r: Result<Self, DecodeError>) {
        decode_unop(item)
    }
}

impl Decode for SpecTecBinOp {
    open spec fn accepts(item: SExprItem) -> bool {
        accepts_binop(item)
    }

    open spec fn decodes(item: SExprItem, v: Self) -> bool {
        rel_binop(item, v)
    }

    fn can_decode(item: &SExprItem) -> (r: bool) {
        can_binop(item)
    }

    fn decode(item: &SExprItem) -> (r: Result<Self, DecodeError>) {
        decode_binop(item)
    }
}

impl Decode for SpecTecCmpOp {
    open spec fn accepts(item: SExprItem) -> bool {
        accepts_cmpop(item)
    }

    open spec fn decodes(item: SExprItem, v: Self) -> bool {
        rel_cmpop(item, v)
    }

    fn can_decode(item: &SExprItem) -> (r: bool) {
        can_cmpop(item)
    }

    fn decode(item: &SExprItem) -> (r: Result<Self, DecodeError>) {
        decode_cmpop(item)
    }
}

impl Decode for SpecTecIter {
    open spec fn accepts(item: SExprItem) -> bool {
        accepts_iter(item)
    }

    open spec fn decodes(item: SExprItem, v: Self) -> bool {
        rel_iter(item, v)
    }

    fn can_decode(item: &SExprItem) -> (r: bool) {
        can_iter(item)
    }

    fn decode(item: &SExprItem) -> (r: Result<Self, DecodeError>) {
        decode_iter(item)
    }
}

impl Decode for SpecTecOpTyp {
    open spec fn accepts(item: SExprItem) -> bool {
        accepts_optyp(item)
    }

    open spec fn decodes(item: SExprItem, v: Self) -> bool {
        rel_optyp(item, v)
    }

    fn can_decode(item: &SExprItem) -> (r: bool) {
        can_optyp(item)
    }

    fn decode(item: &SExprItem) -> (r: Result<Self, DecodeError>) {
        decode_optyp(item)
    }
}

impl Decode for SpecTecTyp {
    open spec fn accepts(item: SExprItem) -> bool {
        accepts_typ(item)
    }

    open spec fn decodes(item: SExprItem, v: Self) -> bool {
        rel_typ(item, v)
    }

    fn can_decode(item: &SExprItem) -> (r: bool) {
        can_typ(item)
    }

    fn decode(item: &SExprItem) -> (r: Result<Self, DecodeError>) {
        decode_typ(item)
    }
}

impl Decode for SpecTecDefTyp {
    open spec fn accepts(item: SExprItem) -> bool {
        accepts_deftyp(item)
    }

    open spec fn decodes(item: SExprItem, v: Self) -> bool {
        rel_deftyp(item, v)
    }

    fn can_decode(item: &SExprItem) -> (r: bool) {
        can_deftyp(item)
    }

    fn decode(item: &SExprItem) -> (r: Result<Self, DecodeError>) {
        decode_deftyp(item)
    }
}

impl Decode for SpecTecTypBind {
    open spec fn accepts(item: SExprItem) -> bool {
        accepts_typbind(item)
    }

    open spec fn decodes(item: SExprItem, v: Self) -> bool {
        rel_typbind(item, v)
    }

    fn can_decode(item: &SExprItem) -> (r: bool) {
        can_typbind(item)
    }

    fn decode(item: &SExprItem) -> (r: Result<Self, DecodeError>) {
        decode_typbind(item)
    }
}

impl Decode for SpecTecTypField {
    open spec fn accepts(item: SExprItem) -> bool {
        accepts_typfield(item)
    }

    open spec fn decodes(item: SExprItem, v: Self) -> bool {
        rel_typfield(item, v)
    }

    fn can_decode(item: &SExprItem) -> (r: bool) {
        can_typfield(item)
    }

    fn decode(item: &SExprItem) -> (r: Result<Self, DecodeError>) {
        decode_typfield(item)
    }
}

impl Decode for SpecTecTypCase {
    open spec fn accepts(item: SExprItem) -> bool {
        accepts_typcase(item)
    }

    open spec fn decodes(item: SExprItem, v: Self) -> bool {
        rel_typcase(item, v)
    }

    fn can_decode(item: &SExprItem) -> (r: bool) {
        can_typcase(item)
    }

    fn decode(item: &SExprItem) -> (r: Result<Self, DecodeError>) {
        decode_typcase(item)
    }
}

impl Decode for SpecTecExp {
    open spec fn accepts(item: SExprItem) -> bool {
        accepts_exp(item)
    }

    open spec fn decodes(item: SExprItem, v: Self) -> bool {
        rel_exp(item, v)
    }

    fn can_decode(item: &SExprItem) -> (r: bool) {
        can_exp(item)
    }

    fn decode(item: &SExprItem) -> (r: Result<Self, DecodeError>) {
        decode_exp(item)
    }
}

impl Decode for SpecTecExpField {
    open spec fn accepts(item: SExprItem) -> bool {
        accepts_expfield(item)
    }

    open spec fn decodes(item: SExprItem, v: Self) -> bool {
        rel_expfield(item, v)
    }

    fn can_decode(item: &SExprItem) -> (r: bool) {
        can_expfield(item)
    }

    fn decode(item: &SExprItem) -> (r: Result<Self, DecodeError>) {
        decode_expfield(item)
    }
}

impl Decode for SpecTecPath {
    open spec fn accepts(item: SExprItem) -> bool {
        accepts_path(item)
    }

    open spec fn decodes(item: SExprItem, v: Self) -> bool {
        rel_path(item, v)
    }

    fn can_decode(item: &SExprItem) -> (r: bool) {
        can_path(item)
    }

    fn decode(item: &SExprItem) -> (r: Result<Self, DecodeError>) {
        decode_path(item)
    }
}

impl Decode for SpecTecIterExp {
    open spec fn accepts(item: SExprItem) -> bool {
        accepts_iterexp(item)
    }

    open spec fn decodes(item: SExprItem, v: Self) -> bool {
        rel_iterexp(item, v)
    }

    fn can_decode(item: &SExprItem) -> (r: bool) {
        can_iterexp(item)
    }

    fn decode(item: &SExprItem) -> (r: Result<Self, DecodeError>) {
        decode_iterexp(item)
    }
}

impl Decode for SpecTecSym {
    open spec fn accepts(item: SExprItem) -> bool {
        accepts_sym(item)
    }

    open spec fn decodes(item: SExprItem, v: Self) -> bool {
        rel_sym(item, v)
    }

    fn can_decode(item: &SExprItem) -> (r: bool) {
        can_sym(item)
    }

    fn decode(item: &SExprItem) -> (r: Result<Self, DecodeError>) {
        decode_sym(item)
    }
}

impl Decode for SpecTecPrem {
    open spec fn accepts(item: SExprItem) -> bool {
        accepts_prem(item)
    }

    open spec fn decodes(item: SExprItem, v: Self) -> bool {
        rel_prem(item, v)
    }

    fn can_decode(item: &SExprItem) -> (r: bool) {
        can_prem(item)
    }

    fn decode(item: &SExprItem) -> (r: Result<Self, DecodeError>) {
        decode_prem(item)
    }
}

impl Decode for SpecTecArg {
    open spec fn accepts(item: SExprItem) -> bool {
        accepts_arg(item)
    }

    open spec fn decodes(item: SExprItem, v: Self) -> bool {
        rel_arg(item, v)
    }

    fn can_decode(item: &SExprItem) -> (r: bool) {
        can_arg(item)
    }

    fn decode(item: &SExprItem) -> (r: Result<Self, DecodeError>) {
        decode_arg(item)
    }
}

impl Decode for SpecTecBind {
    open spec fn accepts(item: SExprItem) -> bool {
        accepts_bind(item)
    }

    open spec fn decodes(item: SExprItem, v: Self) -> bool {
        rel_bind(item, v)
    }

    fn can_decode(item: &SExprItem) -> (r: bool) {
        can_bind(item)
    }

    fn decode(item: &SExprItem) -> (r: Result<Self, DecodeError>) {
        decode_bind(item)
    }
}

impl Decode for SpecTecParam {
    open spec fn accepts(item: SExprItem) -> bool {
        accepts_param(item)
    }

    open spec fn decodes(item: SExprItem, v: Self) -> bool {
        rel_param(item, v)
    }

    fn can_decode(item: &SExprItem) -> (r: bool) {
        can_param(item)
    }

    fn decode(item: &SExprItem) -> (r: Result<Self, DecodeError>) {
        decode_param(item)
    }
}

impl Decode for SpecTecInst {
    open spec fn accepts(item: SExprItem) -> bool {
        accepts_inst(item)
    }

    open spec fn decodes(item: SExprItem, v: Self) -> bool {
        rel_inst(item, v)
    }

    fn can_decode(item: &SExprItem) -> (r: bool) {
        can_inst(item)
    }

    fn decode(item: &SExprItem) -> (r: Result<Self, DecodeError>) {
        decode_inst(item)
    }
}

impl Decode for SpecTecRule {
    open spec fn accepts(item: SExprItem) -> bool {
        accepts_rule(item)
    }

    open spec fn decodes(item: SExprItem, v: Self) -> bool {
        rel_rule(item, v)
    }

    fn can_decode(item: &SExprItem) -> (r: bool) {
        can_rule(item)
    }

    fn decode(item: &SExprItem) -> (r: Result<Self, DecodeError>) {
        decode_rule(item)
    }
}

impl Decode for SpecTecClause {
    open spec fn accepts(item: SExprItem) -> bool {
        accepts_clause(item)
    }

    open spec fn decodes(item: SExprItem, v: Self) -> bool {
        rel_clause(item, v)
    }

    fn can_decode(item: &SExprItem) -> (r: bool) {
        can_clause(item)
    }

    fn decode(item: &SExprItem) -> (r: Result<Self, DecodeError>) {
        decode_clause(item)
    }
}

impl Decode for SpecTecProd {
    open spec fn accepts(item: SExprItem) -> bool {
        accepts_prod(item)
    }

    open spec fn decodes(item: SExprItem, v: Self) -> bool {
        rel_prod(item, v)
    }

    fn can_decode(item: &SExprItem) -> (r: bool) {
        can_prod(item)
    }

    fn decode(item: &SExprItem) -> (r: Result<Self, DecodeError>) {
        decode_prod(item)
    }
}

impl Decode for SpecTecDef {
    open spec fn accepts(item: SExprItem) -> bool {
        accepts_def(item)
    }

    open spec fn decodes(item: SExprItem, v: Self) -> bool {
        rel_def(item, v)
    }

    fn can_decode(item: &SExprItem) -> (r: bool) {
        can_def(item)
    }

    fn decode(item: &SExprItem) -> (r: Result<Self, DecodeError>) {
        decode_def(item)
    }
}

/// Decodes every item of a stream as a definition.  Unlike the greedy
/// list operation, a single item that fails to decode aborts the whole
/// stream with its error.
#[verifier::loop_isolation(false)]
pub fn decode_defs(items: &Vec<SExprItem>) -> (r: Result<Vec<SpecTecDef>, DecodeError>)
    ensures
        r is Ok <==> (forall|k: int| 0 <= k < items@.len() ==> accepts_def(#[trigger] items@[k])),
        r matches Ok(defs) ==> defs@.len() == items@.len() && forall|k: int|
            0 <= k < items@.len() ==> rel_def(#[trigger] items@[k], defs@[k]),
{
    let mut out: Vec<SpecTecDef> = Vec::new();
    let mut i: usize = 0;
    while i < items.len()
        invariant
            0 <= i <= items@.len(),
            out@.len() == i,
            forall|k: int| 0 <= k < i ==> accepts_def(#[trigger] items@[k]),
            forall|k: int| 0 <= k < i ==> rel_def(#[trigger] items@[k], out@[k]),
        decreases items@.len() - i,
    {
        match decode_def(&items[i]) {
            Ok(d) => {
                out.push(d);
                i = i + 1;
            },
            Err(e) => {
                return Err(e);
            },
        }
    }
    Ok(out)
}

/// Parses a SpecTec definition stream from the input text: reads the
/// s-expression document and decodes every top-level node as a
/// definition, or reports the first reading or decoding error.
pub fn parse_spectec_stream(input: &str) -> (r: Result<Vec<SpecTecDef>, DecodeError>)
    ensures
        crate::sexpr::parse_doc(input@, 0) is None ==> r is Err,
        r is Err ==> (crate::sexpr::parse_doc(input@, 0) is None || exists|its: Seq<SExprItem>|
            {
                &&& #[trigger] crate::sexpr::shape_seq(its) == crate::sexpr::parse_doc(
                    input@,
                    0,
                )->Some_0
                &&& exists|k: int| 0 <= k < its.len() && !(#[trigger] accepts_def(its[k]))
            }),
        r matches Ok(defs) ==> (crate::sexpr::parse_doc(input@, 0) matches Some(shapes) && exists|
            its: Seq<SExprItem>,
        |
            {
                &&& #[trigger] crate::sexpr::shape_seq(its) == shapes
                &&& defs@.len() == its.len()
                &&& forall|k: int| 0 <= k < its.len() ==> rel_def(#[trigger] its[k], defs@[k])
            }),
{
    let items = match crate::sexpr::parse_sexpr_stream(input) {
        Ok(v) => v,
        Err(e) => {
            return Err(DecodeError::SExpr(e));
        },
    };
    match decode_defs(&items) {
        Ok(defs) => {
            proof {
                assert(crate::sexpr::shape_seq(items@) == crate::sexpr::parse_doc(
                    input@,
                    0,
                )->Some_0);
            }
            Ok(defs)
        },
        Err(e) => {
            proof {
                assert(crate::sexpr::shape_seq(items@) == crate::sexpr::parse_doc(
                    input@,
                    0,
                )->Some_0);
            }
            Err(e)
        },
    }
}

} // verus!
