//! The s-expression item tree, the errors of the textual reader, and the
//! reader itself: a recursive-descent scanner from text to item trees.

use vstd::prelude::*;

use vstd::string::StringExecFns;

use crate::reader::Reader;
use crate::reader::is_whitespace_char;
use crate::reader::is_ws;
use crate::reader::push_char;
use crate::reader::ws_end;

verus! {

/// One parsed unit of the s-expression tree: a bare token, a quoted text
/// literal, or a named node with an ordered sequence of children.
#[derive(Debug, PartialEq)]
pub enum SExprItem {
    Atom(String),
    Text(String),
    Node(String, Vec<SExprItem>),
}

/// Ghost counterpart of [`SExprItem`]: the same tree with mathematical
/// sequences in place of heap strings and vectors.
pub ghost enum ItemShape {
    Atom(Seq<char>),
    Text(Seq<char>),
    Node(Seq<char>, Seq<ItemShape>),
}

impl SExprItem {
    /// The shape of this item: its tree with every string as a `Seq<char>`.
    pub open spec fn shape(self) -> ItemShape
        decreases self,
    {
        match self {
            SExprItem::Atom(t) => ItemShape::Atom(t@),
            SExprItem::Text(t) => ItemShape::Text(t@),
            SExprItem::Node(_, _) => ItemShape::Node(
                self->Node_0@,
                shape_seq(self->Node_1@),
            ),
        }
    }
}

/// The shapes of a sequence of items, in order.
pub open spec fn shape_seq(items: Seq<SExprItem>) -> Seq<ItemShape>
    decreases items,
{
    if items.len() == 0 {
        Seq::empty()
    } else {
        seq![items[0].shape()] + shape_seq(items.subrange(1, items.len() as int))
    }
}

/// Each shape in `shape_seq` is the shape of the item at the same index.
pub proof fn shape_seq_index(items: Seq<SExprItem>, i: int)
    requires
        0 <= i < items.len(),
    ensures
        shape_seq(items).len() == items.len(),
        shape_seq(items)[i] == items[i].shape(),
    decreases items.len(),
{
    shape_seq_len(items);
    if i > 0 {
        shape_seq_index(items.subrange(1, items.len() as int), i - 1);
    }
}

/// A sequence of shapes is as long as the sequence of items it came from.
pub proof fn shape_seq_len(items: Seq<SExprItem>)
    ensures
        shape_seq(items).len() == items.len(),
    decreases items.len(),
{
    if items.len() > 0 {
        shape_seq_len(items.subrange(1, items.len() as int));
    }
}

/// True for the characters that end a bare token: whitespace and the two
/// parentheses.
pub open spec fn is_delim(c: char) -> bool {
    is_ws(c) || c == '(' || c == ')'
}

/// The first position at or after `i` that holds a delimiter, or the end of
/// `s`: the end of the bare token starting at `i`.
pub open spec fn sym_end(s: Seq<char>, i: int) -> int
    decreases s.len() - i,
{
    if 0 <= i < s.len() && !is_delim(s[i]) {
        sym_end(s, i + 1)
    } else {
        i
    }
}

/// Bounds of [`sym_end`], and that it lands on a delimiter or the end.
pub proof fn sym_end_props(s: Seq<char>, i: int)
    requires
        0 <= i <= s.len(),
    ensures
        i <= sym_end(s, i) <= s.len(),
        sym_end(s, i) < s.len() ==> is_delim(s[sym_end(s, i)]),
    decreases s.len() - i,
{
    if i < s.len() && !is_delim(s[i]) {
        sym_end_props(s, i + 1);
    }
}

/// Bounds of [`ws_end`], that it lands on a non-blank, and that it is
/// idempotent.
pub proof fn ws_end_props(s: Seq<char>, i: int)
    requires
        0 <= i,
    ensures
        i <= ws_end(s, i),
        i <= s.len() ==> ws_end(s, i) <= s.len(),
        ws_end(s, i) < s.len() ==> !is_ws(s[ws_end(s, i)]),
        ws_end(s, ws_end(s, i)) == ws_end(s, i),
    decreases s.len() - i,
{
    if i < s.len() && is_ws(s[i]) {
        ws_end_props(s, i + 1);
    }
}

/// Scans the inside of a text literal from position `i`: the unescaped
/// content up to the first unescaped closing quote, and the position just
/// after that quote.  A backslash is dropped and the character after it is
/// taken literally.  `None` when the input ends before the closing quote.
pub open spec fn scan_text(s: Seq<char>, i: int) -> Option<(Seq<char>, int)>
    decreases s.len() - i,
{
    if i < 0 || i >= s.len() {
        None
    } else if s[i] == '"' {
        Some((Seq::empty(), i + 1))
    } else if s[i] == '\\' {
        if i + 1 < s.len() {
            match scan_text(s, i + 2) {
                Some(p) => Some((seq![s[i + 1]] + p.0, p.1)),
                None => None,
            }
        } else {
            None
        }
    } else {
        match scan_text(s, i + 1) {
            Some(p) => Some((seq![s[i]] + p.0, p.1)),
            None => None,
        }
    }
}

/// A successful text scan always moves forward and stays inside the input.
pub proof fn scan_text_props(s: Seq<char>, i: int)
    requires
        scan_text(s, i) is Some,
    ensures
        scan_text(s, i) matches Some(p) && i < p.1 <= s.len(),
    decreases s.len() - i,
{
    if 0 <= i < s.len() && s[i] != '"' {
        if s[i] == '\\' {
            scan_text_props(s, i + 2);
        } else {
            scan_text_props(s, i + 1);
        }
    }
}

/// Parses one item at position `i` of `s`: a node at `(`, a text literal
/// at `"`, a bare token at any other non-delimiter; nothing at a delimiter
/// or at the end.  Yields the item's shape and the position just after it.
pub open spec fn parse_item(s: Seq<char>, i: int) -> Option<(ItemShape, int)>
    decreases s.len() - i, 0int,
    via parse_item_decreases
{
    if i < 0 || i >= s.len() {
        None
    } else if s[i] == '(' {
        let k = sym_end(s, i + 1);
        match parse_children(s, k) {
            Some(p) => Some((ItemShape::Node(s.subrange(i + 1, k), p.0), p.1)),
            None => None,
        }
    } else if s[i] == '"' {
        match scan_text(s, i + 1) {
            Some(p) => Some((ItemShape::Text(p.0), p.1)),
            None => None,
        }
    } else if is_delim(s[i]) {
        None
    } else {
        Some((ItemShape::Atom(s.subrange(i, sym_end(s, i))), sym_end(s, i)))
    }
}

/// Parses the remaining children of an open node from position `i`:
/// whitespace-separated items up to a closing parenthesis.  Yields their
/// shapes and the position just after the closing parenthesis.
pub open spec fn parse_children(s: Seq<char>, i: int) -> Option<(Seq<ItemShape>, int)>
    decreases s.len() - i, 1int,
    via parse_children_decreases
{
    let w = ws_end(s, i);
    if i < 0 || w >= s.len() {
        None
    } else if s[w] == ')' {
        Some((Seq::empty(), w + 1))
    } else {
        match parse_item(s, w) {
            Some(p) => {
                let j = if p.1 < w + 1 {
                    w + 1
                } else if p.1 > s.len() {
                    s.len() as int
                } else {
                    p.1
                };
                match parse_children(s, j) {
                    Some(q) => Some((seq![p.0] + q.0, q.1)),
                    None => None,
                }
            },
            None => None,
        }
    }
}

#[via_fn]
proof fn parse_item_decreases(s: Seq<char>, i: int) {
    if 0 <= i < s.len() {
        sym_end_props(s, i + 1);
    }
}

#[via_fn]
proof fn parse_children_decreases(s: Seq<char>, i: int) {
    if i >= 0 {
        ws_end_props(s, i);
    }
}

/// A successful item parse always moves forward and stays inside the input.
pub proof fn parse_item_props(s: Seq<char>, i: int)
    requires
        parse_item(s, i) is Some,
    ensures
        parse_item(s, i) matches Some(p) && i < p.1 <= s.len(),
    decreases s.len() - i, 0int,
{
    if 0 <= i < s.len() {
        if s[i] == '(' {
            sym_end_props(s, i + 1);
            parse_children_props(s, sym_end(s, i + 1));
        } else if s[i] == '"' {
            scan_text_props(s, i + 1);
        } else if !is_delim(s[i]) {
            sym_end_props(s, i);
        }
    }
}

/// A successful children parse always moves forward and stays inside the
/// input.
pub proof fn parse_children_props(s: Seq<char>, i: int)
    requires
        parse_children(s, i) is Some,
    ensures
        parse_children(s, i) matches Some(q) && i < q.1 <= s.len(),
    decreases s.len() - i, 1int,
{
    let w = ws_end(s, i);
    if i >= 0 {
        ws_end_props(s, i);
    }
    if !(i < 0 || w >= s.len()) && s[w] != ')' {
        parse_item_props(s, w);
        let p = parse_item(s, w)->Some_0;
        let j = if p.1 < w + 1 {
            w + 1
        } else if p.1 > s.len() {
            s.len() as int
        } else {
            p.1
        };
        parse_children_props(s, j);
    }
}

/// Parses a whole document from position `i`: whitespace-separated
/// top-level nodes up to the end of the input.
pub open spec fn parse_doc(s: Seq<char>, i: int) -> Option<Seq<ItemShape>>
    decreases s.len() - i,
    via parse_doc_decreases
{
    let w = ws_end(s, i);
    if i < 0 {
        None
    } else if w >= s.len() {
        Some(Seq::empty())
    } else if s[w] != '(' {
        None
    } else {
        match parse_item(s, w) {
            Some(p) => {
                let j = if p.1 < w + 1 {
                    w + 1
                } else if p.1 > s.len() {
                    s.len() as int
                } else {
                    p.1
                };
                match parse_doc(s, j) {
                    Some(rest) => Some(seq![p.0] + rest),
                    None => None,
                }
            },
            None => None,
        }
    }
}

#[via_fn]
proof fn parse_doc_decreases(s: Seq<char>, i: int) {
    if i >= 0 {
        ws_end_props(s, i);
    }
}

/// Whether a character may stand in a bare token without ending it or
/// being taken for a text literal.
pub open spec fn atom_char_ok(c: char) -> bool {
    !is_delim(c) && c != '"'
}

/// Whether a character may stand in a text literal without an escape.
pub open spec fn text_char_ok(c: char) -> bool {
    c != '"' && c != '\\'
}

/// Whether every character of a token is acceptable in a bare token.
pub open spec fn symbol_ok(t: Seq<char>) -> bool {
    forall|j: int| 0 <= j < t.len() ==> atom_char_ok(#[trigger] t[j])
}

/// A well-formed item: atoms are non-empty bare tokens, text literals
/// need no escapes, and node names are bare tokens, possibly empty.
pub open spec fn shape_wf(m: ItemShape) -> bool
    decreases m,
{
    match m {
        ItemShape::Atom(t) => t.len() > 0 && symbol_ok(t),
        ItemShape::Text(t) => forall|j: int| 0 <= j < t.len() ==> text_char_ok(#[trigger] t[j]),
        ItemShape::Node(name, items) => symbol_ok(name) && shapes_wf(items),
    }
}

/// Whether every item of a sequence is well-formed.
pub open spec fn shapes_wf(items: Seq<ItemShape>) -> bool
    decreases items,
{
    forall|j: int| 0 <= j < items.len() ==> shape_wf(#[trigger] items[j])
}

/// The textual rendering of one item: the bare token itself, the text
/// between quotes, or the parenthesized node.
pub open spec fn render_shape(m: ItemShape) -> Seq<char>
    decreases m,
{
    match m {
        ItemShape::Atom(t) => t,
        ItemShape::Text(t) => seq!['"'] + t + seq!['"'],
        ItemShape::Node(name, items) => seq!['('] + name + render_children(items) + seq![')'],
    }
}

/// The rendering of a node's children: each preceded by a single space.
pub open spec fn render_children(items: Seq<ItemShape>) -> Seq<char>
    decreases items,
{
    if items.len() == 0 {
        Seq::empty()
    } else {
        seq![' '] + render_shape(items[0]) + render_children(items.subrange(1, items.len() as int))
    }
}

/// The rendering of a whole document: its items separated by single
/// spaces.
pub open spec fn render_doc(items: Seq<ItemShape>) -> Seq<char> {
    if items.len() == 0 {
        Seq::empty()
    } else {
        render_shape(items[0]) + render_children(items.subrange(1, items.len() as int))
    }
}

/// Appending an item extends the rendering of a node's children on the
/// right.
pub proof fn render_children_push(items: Seq<ItemShape>, x: ItemShape)
    ensures
        render_children(items.push(x)) == render_children(items) + seq![' '] + render_shape(x),
    decreases items.len(),
{
    let whole = items.push(x);
    assert(whole[0] == if items.len() == 0 {
        x
    } else {
        items[0]
    });
    assert(render_children(Seq::<ItemShape>::empty()) == Seq::<char>::empty());
    if items.len() == 0 {
        assert(whole.subrange(1, whole.len() as int) =~= Seq::<ItemShape>::empty());
        assert(render_children(whole) == seq![' '] + render_shape(x) + render_children(
            whole.subrange(1, whole.len() as int),
        ));
        assert(render_children(whole) =~= render_children(items) + seq![' '] + render_shape(x));
    } else {
        let rest = items.subrange(1, items.len() as int);
        assert(whole.subrange(1, whole.len() as int) =~= rest.push(x));
        render_children_push(rest, x);
        assert(render_children(whole) == seq![' '] + render_shape(whole[0]) + render_children(
            whole.subrange(1, whole.len() as int),
        ));
        assert(render_children(items) == seq![' '] + render_shape(items[0]) + render_children(
            rest,
        ));
        assert(render_children(whole) =~= render_children(items) + seq![' '] + render_shape(x));
    }
}

/// An error of the textual reader, tagged with the position (in characters)
/// at which it was detected.  Context frames wrap the original cause as the
/// error unwinds, without replacing it.
#[derive(Debug)]
pub enum SExprError {
    /// The input ended while a node or a text literal was still open.
    Eof { position: usize },
    /// A structural character was required and another character was found.
    UnexpectedChar { unexpected: char, expected: char, position: usize },
    /// A wrapped error with one human-readable context annotation.
    WithContext { source: Box<SExprError>, context: String },
}

impl SExprError {
    /// Wraps this error with one context annotation, keeping the cause.
    pub fn with_context(self, context: &str) -> (r: SExprError)
        ensures
            r matches SExprError::WithContext { source, context: c } && *source == self && c@
                == context@,
            r.cause() == self.cause(),
    {
        SExprError::WithContext { source: Box::new(self), context: context.to_owned() }
    }

    /// The innermost cause of this error, with every context frame removed.
    pub open spec fn cause(self) -> SExprError
        decreases self,
    {
        match self {
            SExprError::WithContext { source, context } => (*source).cause(),
            _ => self,
        }
    }
}

/// Appending one shape to a shape sequence is taking the shapes of a
/// sequence with one more item.
pub proof fn shape_seq_push(items: Seq<SExprItem>, x: SExprItem)
    ensures
        shape_seq(items.push(x)) == shape_seq(items).push(x.shape()),
    decreases items.len(),
{
    let whole = items.push(x);
    assert(shape_seq(whole) == seq![whole[0].shape()] + shape_seq(
        whole.subrange(1, whole.len() as int),
    ));
    if items.len() == 0 {
        assert(whole.subrange(1, whole.len() as int) =~= Seq::<SExprItem>::empty());
        assert(shape_seq(Seq::<SExprItem>::empty()) == Seq::<ItemShape>::empty());
        assert(whole[0] == x);
        assert(shape_seq(whole) =~= shape_seq(items).push(x.shape()));
    } else {
        let rest = items.subrange(1, items.len() as int);
        assert(whole.subrange(1, whole.len() as int) =~= rest.push(x));
        shape_seq_push(rest, x);
        assert(whole[0] == items[0]);
        assert(shape_seq(items) == seq![items[0].shape()] + shape_seq(rest));
        assert(shape_seq(whole) =~= shape_seq(items).push(x.shape()));
    }
}

/// Decides [`is_delim`] for one character.
fn is_delim_char(c: char) -> (r: bool)
    ensures
        r == is_delim(c),
{
    is_whitespace_char(c) || c == '(' || c == ')'
}

/// Reads the bare token starting at the current position: every character
/// up to the first delimiter, possibly none.
#[verifier::loop_isolation(false)]
fn read_symbol(r: &mut Reader) -> (t: String)
    requires
        old(r).pos() <= old(r).chars().len(),
    ensures
        final(r).chars() == old(r).chars(),
        final(r).pos() == sym_end(old(r).chars(), old(r).pos()),
        old(r).pos() <= final(r).pos() <= final(r).chars().len(),
        t@ == old(r).chars().subrange(old(r).pos(), final(r).pos()),
{
    let ghost s = old(r).chars();
    let ghost i0 = old(r).pos();
    let n = r.len();
    let mut j = r.position();
    let mut out = String::new();
    while j < n && !is_delim_char(r.char_at(j))
        invariant
            r == old(r),
            i0 <= j <= n,
            n == s.len(),
            s == r.chars(),
            i0 == r.pos(),
            sym_end(s, j as int) == sym_end(s, i0),
            out@ == s.subrange(i0, j as int),
        decreases n - j,
    {
        proof {
            assert(s.subrange(i0, j + 1) =~= s.subrange(i0, j as int).push(s[j as int]));
        }
        push_char(&mut out, r.char_at(j));
        j = j + 1;
    }
    r.set_position(j);
    out
}

/// Reads a quoted text literal starting at the current position: the
/// opening quote, the unescaped content, and the closing quote.  Fails on
/// a missing opening quote or when the input ends before the closing one.
#[verifier::loop_isolation(false)]
pub fn read_text(r: &mut Reader) -> (res: Result<String, SExprError>)
    requires
        old(r).pos() <= old(r).chars().len(),
    ensures
        final(r).chars() == old(r).chars(),
        old(r).pos() <= final(r).pos() <= final(r).chars().len(),
        res is Ok <==> (old(r).pos() < old(r).chars().len() && old(r).chars()[old(r).pos()] == '"'
            && scan_text(old(r).chars(), old(r).pos() + 1) is Some),
        res matches Ok(t) ==> (scan_text(old(r).chars(), old(r).pos() + 1) matches Some(p) && p.0
            == t@ && p.1 == final(r).pos() && final(r).pos() > old(r).pos()),
{
    let ghost s = old(r).chars();
    let ghost i0 = old(r).pos();
    let c0 = match r.peek() {
        Some(c) => c,
        None => {
            return Err(
                SExprError::Eof { position: r.position() }.with_context(
                    "parsing beginning of text",
                ),
            );
        },
    };
    if c0 != '"' {
        return Err(
            SExprError::UnexpectedChar {
                unexpected: c0,
                expected: '"',
                position: r.position(),
            }.with_context("parsing beginning of text"),
        );
    }
    let n = r.len();
    let mut j = r.position() + 1;
    let mut out = String::new();
    loop
        invariant
            i0 + 1 <= j <= n,
            n == s.len(),
            s == r.chars(),
            i0 == r.pos(),
            i0 < n,
            (scan_text(s, j as int) matches Some(q) ==> scan_text(s, i0 + 1) matches Some(p) && p.0
                == out@ + q.0 && p.1 == q.1),
            (scan_text(s, j as int) is None ==> scan_text(s, i0 + 1) is None),
        decreases n - j,
    {
        if j >= n {
            r.set_position(j);
            return Err(SExprError::Eof { position: n });
        }
        let c = r.char_at(j);
        if c == '"' {
            proof {
                assert(out@ + Seq::<char>::empty() =~= out@);
            }
            r.set_position(j + 1);
            return Ok(out);
        } else if c == '\\' {
            if j + 1 >= n {
                r.set_position(j);
                return Err(SExprError::Eof { position: n });
            }
            let c2 = r.char_at(j + 1);
            let ghost out0 = out@;
            push_char(&mut out, c2);
            proof {
                if let Some(q2) = scan_text(s, j + 2) {
                    assert((out0.push(c2)) + q2.0 =~= out0 + (seq![c2] + q2.0));
                }
            }
            j = j + 2;
        } else {
            let ghost out0 = out@;
            push_char(&mut out, c);
            proof {
                if let Some(q2) = scan_text(s, j + 1) {
                    assert((out0.push(c)) + q2.0 =~= out0 + (seq![c] + q2.0));
                }
            }
            j = j + 1;
        }
    }
}

/// Reads one node starting at the current position: an opening
/// parenthesis, the node's name, its whitespace-separated child items, and
/// the closing parenthesis.
#[verifier::loop_isolation(false)]
fn read_node(r: &mut Reader) -> (res: Result<SExprItem, SExprError>)
    requires
        old(r).pos() <= old(r).chars().len(),
    ensures
        final(r).chars() == old(r).chars(),
        old(r).pos() <= final(r).pos() <= final(r).chars().len(),
        res is Ok <==> (old(r).pos() < old(r).chars().len() && old(r).chars()[old(r).pos()] == '('
            && parse_item(old(r).chars(), old(r).pos()) is Some),
        res matches Ok(item) ==> (parse_item(old(r).chars(), old(r).pos()) matches Some(p) && p.0
            == item.shape() && p.1 == final(r).pos() && final(r).pos() > old(r).pos() && item
            is Node),
    decreases old(r).chars().len() - old(r).pos(),
{
    let ghost s = old(r).chars();
    let ghost i0 = old(r).pos();
    let n = r.len();
    let c0 = match r.peek() {
        Some(c) => c,
        None => {
            return Err(
                SExprError::Eof { position: r.position() }.with_context(
                    "parsing beginning of new node",
                ),
            );
        },
    };
    if c0 != '(' {
        return Err(
            SExprError::UnexpectedChar {
                unexpected: c0,
                expected: '(',
                position: r.position(),
            }.with_context("parsing beginning of new node"),
        );
    }
    r.advance(1);
    let name = read_symbol(r);
    let ghost k = sym_end(s, i0 + 1);
    let mut items: Vec<SExprItem> = Vec::new();
    loop
        invariant
            r.chars() == s,
            i0 < r.pos() <= s.len(),
            k <= r.pos(),
            (parse_children(s, r.pos()) matches Some(q) ==> parse_children(s, k) matches Some(t)
                && t.0 == shape_seq(items@) + q.0 && t.1 == q.1),
            (parse_children(s, r.pos()) is None ==> parse_children(s, k) is None),
        decreases s.len() - r.pos(),
    {
        let ghost before = r.pos();
        r.consume_whitespace();
        proof {
            ws_end_props(s, before);
            assert(parse_children(s, before) == parse_children(s, r.pos()));
        }
        match r.peek() {
            None => {
                return Err(SExprError::Eof { position: r.position() });
            },
            Some(c) => {
                let ghost cur = r.pos();
                proof {
                    assert(ws_end(s, cur) == cur);
                }
                if c == ')' {
                    r.advance(1);
                    proof {
                        assert(parse_children(s, cur) == Some(
                            (Seq::<ItemShape>::empty(), cur + 1),
                        ));
                        assert(shape_seq(items@) + Seq::<ItemShape>::empty() =~= shape_seq(
                            items@,
                        ));
                        assert(parse_item(s, i0) matches Some(p) && p.0 == ItemShape::Node(
                            s.subrange(i0 + 1, k),
                            shape_seq(items@),
                        ) && p.1 == cur + 1);
                    }
                    return Ok(SExprItem::Node(name, items));
                } else if c == '(' {
                    match read_node(r) {
                        Ok(it) => {
                            proof {
                                parse_item_props(s, cur);
                                let p = parse_item(s, cur)->Some_0;
                                if let Some(q2) = parse_children(s, p.1) {
                                    shape_seq_push(items@, it);
                                    assert(shape_seq(items@) + (seq![p.0] + q2.0) =~= shape_seq(
                                        items@.push(it),
                                    ) + q2.0);
                                }
                            }
                            items.push(it);
                        },
                        Err(e) => {
                            return Err(e);
                        },
                    }
                } else if c == '"' {
                    match read_text(r) {
                        Ok(t) => {
                            let it = SExprItem::Text(t);
                            proof {
                                assert(parse_item(s, cur) matches Some(p) && p.0 == it.shape()
                                    && p.1 == r.pos());
                                parse_item_props(s, cur);
                                let p = parse_item(s, cur)->Some_0;
                                if let Some(q2) = parse_children(s, p.1) {
                                    shape_seq_push(items@, it);
                                    assert(shape_seq(items@) + (seq![p.0] + q2.0) =~= shape_seq(
                                        items@.push(it),
                                    ) + q2.0);
                                }
                            }
                            items.push(it);
                        },
                        Err(e) => {
                            return Err(e);
                        },
                    }
                } else {
                    let t = read_symbol(r);
                    let it = SExprItem::Atom(t);
                    proof {
                        sym_end_props(s, cur);
                        assert(parse_item(s, cur) matches Some(p) && p.0 == it.shape() && p.1
                            == r.pos());
                        parse_item_props(s, cur);
                        let p = parse_item(s, cur)->Some_0;
                        if let Some(q2) = parse_children(s, p.1) {
                            shape_seq_push(items@, it);
                            assert(shape_seq(items@) + (seq![p.0] + q2.0) =~= shape_seq(
                                items@.push(it),
                            ) + q2.0);
                        }
                    }
                    items.push(it);
                }
            },
        }
    }
}

impl SExprItem {
    /// The textual rendering of this item, in the grammar the reader
    /// accepts, with single spaces between children.
    #[verifier::loop_isolation(false)]
    pub fn to_text(&self) -> (r: String)
        ensures
            r@ == render_shape(self.shape()),
        decreases self,
    {
        match self {
            SExprItem::Atom(t) => t.clone(),
            SExprItem::Text(t) => {
                let mut out = String::new();
                push_char(&mut out, '"');
                out.append(t.as_str());
                push_char(&mut out, '"');
                proof {
                    assert(out@ =~= render_shape(self.shape()));
                }
                out
            },
            SExprItem::Node(name, children) => {
                let mut out = String::new();
                push_char(&mut out, '(');
                out.append(name.as_str());
                let n = children.len();
                let mut i: usize = 0;
                while i < n
                    invariant
                        i <= n,
                        n == children@.len(),
                        out@ == seq!['('] + name@ + render_children(
                            shape_seq(children@).subrange(0, i as int),
                        ),
                    decreases n - i,
                {
                    proof {
                        assert(decreases_to!(*self => self->Node_1));
                        assert(decreases_to!(self->Node_1 => self->Node_1@));
                        assert(decreases_to!(self->Node_1@ => self->Node_1@[i as int]));
                        assert(decreases_to!(*self => self->Node_1@[i as int]));
                        shape_seq_len(children@);
                    }
                    push_char(&mut out, ' ');
                    let sub = children[i].to_text();
                    out.append(sub.as_str());
                    proof {
                        let shapes = shape_seq(children@);
                        shape_seq_index(children@, i as int);
                        assert(shapes.subrange(0, i + 1) =~= shapes.subrange(0, i as int).push(
                            children@[i as int].shape(),
                        ));
                        render_children_push(
                            shapes.subrange(0, i as int),
                            children@[i as int].shape(),
                        );
                        assert(out@ =~= seq!['('] + name@ + render_children(
                            shapes.subrange(0, i + 1),
                        ));
                    }
                    i = i + 1;
                }
                push_char(&mut out, ')');
                proof {
                    shape_seq_len(children@);
                    assert(shape_seq(children@).subrange(0, n as int) =~= shape_seq(children@));
                    assert(out@ =~= render_shape(self.shape()));
                }
                out
            },
        }
    }
}

/// Appending an item extends the rendering of a document on the right,
/// with a separating space everywhere but at the front.
pub proof fn render_doc_push(items: Seq<ItemShape>, x: ItemShape)
    ensures
        render_doc(items.push(x)) == if items.len() == 0 {
            render_shape(x)
        } else {
            render_doc(items) + seq![' '] + render_shape(x)
        },
{
    let whole = items.push(x);
    if items.len() == 0 {
        assert(whole.subrange(1, whole.len() as int) =~= Seq::<ItemShape>::empty());
        assert(render_doc(whole) =~= render_shape(x));
    } else {
        let rest = items.subrange(1, items.len() as int);
        assert(whole.subrange(1, whole.len() as int) =~= rest.push(x));
        render_children_push(rest, x);
        assert(whole[0] == items[0]);
        assert(render_doc(whole) =~= render_doc(items) + seq![' '] + render_shape(x));
    }
}

/// The textual rendering of a whole document: its items separated by
/// single spaces.
#[verifier::loop_isolation(false)]
pub fn render_sexpr_stream(items: &Vec<SExprItem>) -> (r: String)
    ensures
        r@ == render_doc(shape_seq(items@)),
{
    let mut out = String::new();
    let n = items.len();
    let mut i: usize = 0;
    while i < n
        invariant
            i <= n,
            n == items@.len(),
            out@ == render_doc(shape_seq(items@).subrange(0, i as int)),
        decreases n - i,
    {
        proof {
            shape_seq_len(items@);
        }
        if i > 0 {
            push_char(&mut out, ' ');
        }
        let sub = items[i].to_text();
        out.append(sub.as_str());
        proof {
            let shapes = shape_seq(items@);
            shape_seq_index(items@, i as int);
            assert(shapes.subrange(0, i + 1) =~= shapes.subrange(0, i as int).push(
                items@[i as int].shape(),
            ));
            render_doc_push(shapes.subrange(0, i as int), items@[i as int].shape());
            assert(out@ =~= render_doc(shapes.subrange(0, i + 1)));
        }
        i = i + 1;
    }
    proof {
        shape_seq_len(items@);
        assert(shape_seq(items@).subrange(0, n as int) =~= shape_seq(items@));
    }
    out
}

/// Parses a whole document: zero or more whitespace-separated top-level
/// nodes, up to the end of the input.
#[verifier::loop_isolation(false)]
pub fn parse_sexpr_stream(input: &str) -> (res: Result<Vec<SExprItem>, SExprError>)
    ensures
        res is Ok <==> parse_doc(input@, 0) is Some,
        res matches Ok(v) ==> parse_doc(input@, 0) matches Some(shapes) && shape_seq(v@) == shapes,
{
    let ghost s = input@;
    let mut r = Reader::new(input);
    let mut out: Vec<SExprItem> = Vec::new();
    loop
        invariant
            r.chars() == s,
            0 <= r.pos() <= s.len(),
            (parse_doc(s, r.pos()) matches Some(rest) ==> parse_doc(s, 0) matches Some(all) && all
                == shape_seq(out@) + rest),
            (parse_doc(s, r.pos()) is None ==> parse_doc(s, 0) is None),
        decreases s.len() - r.pos(),
    {
        let ghost before = r.pos();
        r.consume_whitespace();
        proof {
            ws_end_props(s, before);
            assert(parse_doc(s, before) == parse_doc(s, r.pos()));
        }
        if r.is_eof() {
            proof {
                assert(parse_doc(s, r.pos()) == Some(Seq::<ItemShape>::empty()));
                assert(shape_seq(out@) + Seq::<ItemShape>::empty() =~= shape_seq(out@));
            }
            return Ok(out);
        }
        let ghost cur = r.pos();
        proof {
            assert(ws_end(s, cur) == cur);
        }
        match read_node(&mut r) {
            Ok(item) => {
                proof {
                    parse_item_props(s, cur);
                    let p = parse_item(s, cur)->Some_0;
                    if let Some(rest2) = parse_doc(s, p.1) {
                        shape_seq_push(out@, item);
                        assert(shape_seq(out@) + (seq![p.0] + rest2) =~= shape_seq(out@.push(item))
                            + rest2);
                    }
                }
                out.push(item);
            },
            Err(e) => {
                return Err(e);
            },
        }
    }
}

/// A segment of `s` equal to `r` has `r`'s characters, position by
/// position.
proof fn seq_seg_index(s: Seq<char>, i: int, r: Seq<char>, j: int)
    requires
        0 <= i,
        i + r.len() <= s.len(),
        s.subrange(i, i + r.len() as int) == r,
        0 <= j < r.len(),
    ensures
        s[i + j] == r[j],
{
    assert(s.subrange(i, i + r.len() as int)[j] == s[i + j]);
}

/// Scanning a bare token from `a` ends exactly at `b` when everything
/// before `b` is token material and `b` holds a delimiter or the end.
proof fn sym_end_of_run(s: Seq<char>, a: int, b: int)
    requires
        0 <= a <= b <= s.len(),
        forall|j: int| a <= j < b ==> !is_delim(#[trigger] s[j]),
        b == s.len() || is_delim(s[b]),
    ensures
        sym_end(s, a) == b,
    decreases b - a,
{
    if a < b {
        sym_end_of_run(s, a + 1, b);
    }
}

/// Scanning a text literal whose content needs no escapes ends at the
/// closing quote just after the content.
proof fn scan_text_of_content(s: Seq<char>, i: int, t: Seq<char>)
    requires
        0 <= i,
        i + t.len() + 1 <= s.len(),
        s.subrange(i, i + t.len() as int) == t,
        forall|j: int| 0 <= j < t.len() ==> text_char_ok(#[trigger] t[j]),
        s[i + t.len()] == '"',
    ensures
        scan_text(s, i) == Some((t, i + t.len() + 1)),
    decreases t.len(),
{
    if t.len() == 0 {
        assert(t =~= Seq::<char>::empty());
    } else {
        seq_seg_index(s, i, t, 0);
        let t2 = t.subrange(1, t.len() as int);
        assert forall|j: int| 0 <= j < t2.len() implies s.subrange(i + 1, i + 1 + t2.len() as int)[j]
            == t2[j] by {
            seq_seg_index(s, i, t, j + 1);
        }
        assert(s.subrange(i + 1, i + 1 + t2.len() as int) =~= t2);
        scan_text_of_content(s, i + 1, t2);
        assert(seq![t[0]] + t2 =~= t);
    }
}

/// A well-formed item renders to at least one character, and the first is
/// neither whitespace nor a closing parenthesis.
proof fn render_shape_head(m: ItemShape)
    requires
        shape_wf(m),
    ensures
        render_shape(m).len() > 0,
        !is_ws(render_shape(m)[0]),
        render_shape(m)[0] != ')',
{
    match m {
        ItemShape::Atom(t) => {
            assert(atom_char_ok(t[0]));
        },
        ItemShape::Text(t) => {
            assert(render_shape(m)[0] == '"');
        },
        ItemShape::Node(name, items) => {
            assert(render_shape(m)[0] == '(');
        },
    }
}

/// Parsing at the start of a rendered well-formed item yields exactly
/// that item and stops just after its rendering.
proof fn parse_rendered_item(s: Seq<char>, i: int, m: ItemShape)
    requires
        shape_wf(m),
        0 <= i,
        i + render_shape(m).len() <= s.len(),
        s.subrange(i, i + render_shape(m).len() as int) == render_shape(m),
        m is Atom ==> (i + render_shape(m).len() == s.len() || is_delim(
            s[i + render_shape(m).len()],
        )),
    ensures
        parse_item(s, i) == Some((m, i + render_shape(m).len())),
    decreases m,
{
    let r = render_shape(m);
    match m {
        ItemShape::Atom(t) => {
            assert forall|j: int| i <= j < i + t.len() implies !is_delim(#[trigger] s[j]) by {
                seq_seg_index(s, i, t, j - i);
                assert(atom_char_ok(t[j - i]));
            }
            seq_seg_index(s, i, t, 0);
            assert(atom_char_ok(t[0]));
            sym_end_of_run(s, i, i + t.len() as int);
            assert(s.subrange(i, sym_end(s, i)) == t);
        },
        ItemShape::Text(t) => {
            assert(r[0] == '"');
            assert(r.len() == t.len() + 2);
            seq_seg_index(s, i, r, 0);
            assert forall|j: int| 0 <= j < t.len() implies s.subrange(
                i + 1,
                i + 1 + t.len() as int,
            )[j] == t[j] by {
                seq_seg_index(s, i, r, j + 1);
                assert(r[j + 1] == t[j]);
            }
            assert(s.subrange(i + 1, i + 1 + t.len() as int) =~= t);
            seq_seg_index(s, i, r, t.len() as int + 1);
            assert(r[t.len() as int + 1] == '"');
            scan_text_of_content(s, i + 1, t);
        },
        ItemShape::Node(name, items) => {
            let rc = render_children(items);
            assert(r.len() == 1 + name.len() + rc.len() + 1);
            assert(r[0] == '(');
            seq_seg_index(s, i, r, 0);
            assert forall|j: int| i + 1 <= j < i + 1 + name.len() implies !is_delim(
                #[trigger] s[j],
            ) by {
                seq_seg_index(s, i, r, j - i);
                assert(r[j - i] == name[j - i - 1]);
                assert(atom_char_ok(name[j - i - 1]));
            }
            if items.len() == 0 {
                assert(r[1 + name.len() as int] == ')');
            } else {
                assert(decreases_to!(m => m->Node_1));
                assert(rc[0] == ' ');
                assert(r[1 + name.len() as int] == ' ');
            }
            seq_seg_index(s, i, r, 1 + name.len() as int);
            sym_end_of_run(s, i + 1, i + 1 + name.len() as int);
            let k = i + 1 + name.len() as int;
            assert forall|j: int| 0 <= j < name.len() implies s.subrange(i + 1, k)[j] == name[j] by {
                seq_seg_index(s, i, r, j + 1);
                assert(r[j + 1] == name[j]);
            }
            assert(s.subrange(i + 1, k) =~= name);
            assert forall|j: int| 0 <= j < rc.len() implies s.subrange(k, k + rc.len() as int)[j]
                == rc[j] by {
                seq_seg_index(s, i, r, 1 + name.len() as int + j);
                assert(r[1 + name.len() as int + j] == rc[j]);
            }
            assert(s.subrange(k, k + rc.len() as int) =~= rc);
            seq_seg_index(s, i, r, 1 + name.len() as int + rc.len() as int);
            assert(r[1 + name.len() as int + rc.len() as int] == ')');
            assert(decreases_to!(m => m->Node_1));
            parse_rendered_children(s, k, items);
        },
    }
}

/// Parsing the rendered children of a well-formed node consumes exactly
/// those children and the closing parenthesis after them.
proof fn parse_rendered_children(s: Seq<char>, i: int, items: Seq<ItemShape>)
    requires
        shapes_wf(items),
        0 <= i,
        i + render_children(items).len() + 1 <= s.len(),
        s.subrange(i, i + render_children(items).len() as int) == render_children(items),
        s[i + render_children(items).len()] == ')',
    ensures
        parse_children(s, i) == Some((items, i + render_children(items).len() + 1)),
    decreases items,
{
    let rc = render_children(items);
    if items.len() == 0 {
        assert(ws_end(s, i) == i);
        assert(items =~= Seq::<ItemShape>::empty());
    } else {
        let m0 = items[0];
        let r0 = render_shape(m0);
        let rest = items.subrange(1, items.len() as int);
        let rr = render_children(rest);
        assert(rc == seq![' '] + r0 + rr);
        assert(shape_wf(m0));
        render_shape_head(m0);
        seq_seg_index(s, i, rc, 0);
        assert(rc[0] == ' ');
        seq_seg_index(s, i, rc, 1);
        assert(rc[1] == r0[0]);
        assert(ws_end(s, i + 1) == i + 1);
        assert(ws_end(s, i) == i + 1);
        assert forall|j: int| 0 <= j < r0.len() implies s.subrange(
            i + 1,
            i + 1 + r0.len() as int,
        )[j] == r0[j] by {
            seq_seg_index(s, i, rc, 1 + j);
            assert(rc[1 + j] == r0[j]);
        }
        assert(s.subrange(i + 1, i + 1 + r0.len() as int) =~= r0);
        let j1 = i + 1 + r0.len() as int;
        if rest.len() == 0 {
            assert(rc.len() == 1 + r0.len());
            assert(s[j1] == ')');
        } else {
            seq_seg_index(s, i, rc, 1 + r0.len() as int);
            assert(rr[0] == ' ');
            assert(rc[1 + r0.len() as int] == ' ');
        }
        assert(decreases_to!(items => items[0]));
        parse_rendered_item(s, i + 1, m0);
        assert forall|j: int| 0 <= j < rr.len() implies s.subrange(j1, j1 + rr.len() as int)[j]
            == rr[j] by {
            seq_seg_index(s, i, rc, 1 + r0.len() as int + j);
            assert(rc[1 + r0.len() as int + j] == rr[j]);
        }
        assert(s.subrange(j1, j1 + rr.len() as int) =~= rr);
        assert(j1 + rr.len() == i + rc.len());
        assert(decreases_to!(items => items.subrange(1, items.len() as int)));
        parse_rendered_children(s, j1, rest);
        assert(seq![m0] + rest =~= items);
    }
}

/// Parsing the rendering of a whole well-formed document of top-level
/// nodes, from position `i` to the end of the input, yields exactly that
/// document.
proof fn parse_rendered_doc(s: Seq<char>, i: int, items: Seq<ItemShape>)
    requires
        shapes_wf(items),
        forall|j: int| 0 <= j < items.len() ==> (#[trigger] items[j]) is Node,
        0 <= i <= s.len(),
        s.len() == i + render_doc(items).len(),
        s.subrange(i, s.len() as int) == render_doc(items),
    ensures
        parse_doc(s, i) == Some(items),
    decreases items,
{
    let rd = render_doc(items);
    if items.len() == 0 {
        assert(ws_end(s, i) == i);
        assert(items =~= Seq::<ItemShape>::empty());
    } else {
        let m0 = items[0];
        let r0 = render_shape(m0);
        let rest = items.subrange(1, items.len() as int);
        let rr = render_children(rest);
        assert(rd == r0 + rr);
        assert(shape_wf(m0));
        render_shape_head(m0);
        assert(r0[0] == '(');
        seq_seg_index(s, i, rd, 0);
        assert(rd[0] == r0[0]);
        assert(ws_end(s, i) == i);
        assert forall|j: int| 0 <= j < r0.len() implies s.subrange(i, i + r0.len() as int)[j]
            == r0[j] by {
            seq_seg_index(s, i, rd, j);
            assert(rd[j] == r0[j]);
        }
        assert(s.subrange(i, i + r0.len() as int) =~= r0);
        assert(decreases_to!(items => items[0]));
        parse_rendered_item(s, i, m0);
        let j1 = i + r0.len() as int;
        assert(decreases_to!(items => items.subrange(1, items.len() as int)));
        if rest.len() == 0 {
            assert(rr =~= Seq::<char>::empty());
            assert(j1 == s.len());
            assert(s.subrange(j1, s.len() as int) =~= render_doc(rest));
            parse_rendered_doc(s, j1, rest);
            assert(seq![m0] + rest =~= items);
        } else {
            assert(rr == seq![' '] + render_doc(rest));
            seq_seg_index(s, i, rd, r0.len() as int);
            assert(rd[r0.len() as int] == ' ');
            assert(rest[0] is Node);
            assert(shape_wf(rest[0]));
            assert(render_doc(rest)[0] == render_shape(rest[0])[0]);
            assert(render_shape(rest[0])[0] == '(');
            seq_seg_index(s, i, rd, r0.len() as int + 1);
            assert(rd[r0.len() as int + 1] == render_doc(rest)[0]);
            assert(ws_end(s, j1 + 1) == j1 + 1);
            assert(ws_end(s, j1) == j1 + 1);
            assert forall|j: int| 0 <= j < render_doc(rest).len() implies s.subrange(
                j1 + 1,
                s.len() as int,
            )[j] == render_doc(rest)[j] by {
                seq_seg_index(s, i, rd, r0.len() as int + 1 + j);
                assert(rd[r0.len() as int + 1 + j] == render_doc(rest)[j]);
            }
            assert(s.subrange(j1 + 1, s.len() as int) =~= render_doc(rest));
            parse_rendered_doc(s, j1 + 1, rest);
            assert(parse_doc(s, j1) == parse_doc(s, j1 + 1));
            assert(seq![m0] + rest =~= items);
        }
    }
}

/// Round trip: rendering a document of well-formed top-level nodes and
/// parsing the result yields the document back, unchanged.  The rendering
/// is the single-space normal form of the document's text.
pub proof fn lemma_render_parse_round_trip(items: Seq<ItemShape>)
    requires
        shapes_wf(items),
        forall|j: int| 0 <= j < items.len() ==> (#[trigger] items[j]) is Node,
    ensures
        parse_doc(render_doc(items), 0) == Some(items),
{
    let s = render_doc(items);
    assert(s.subrange(0, s.len() as int) =~= s);
    parse_rendered_doc(s, 0, items);
}

} // verus!
