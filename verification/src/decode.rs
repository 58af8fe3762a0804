//! The typed decode protocol: a probe / decode pair for every decodable
//! type, together with the greedy list and optional consumption operations
//! that walk an ordered, peekable stream of items.

use vstd::prelude::*;

use crate::sexpr::SExprItem;

verus! {

/// An error of the decode engine.  A failure is produced at a leaf and may
/// be wrapped with context annotations as it propagates outward; the
/// original cause is never replaced.
#[derive(Debug)]
pub enum DecodeError {
    /// An atom's text matched no tag of the target type.
    UnrecognisedSymbol(String),
    /// The stream was exhausted before a mandatory item.
    MissingItem,
    /// An item of the wrong kind, or one left unconsumed by a variant's
    /// fields.
    UnexpectedItem(SExprItem),
    /// A reader error, carried through the convenience composition.
    SExpr(crate::sexpr::SExprError),
    /// An atom's text did not parse as a boolean literal.
    ParseBool(String),
    /// An atom's text did not parse as an integer literal.
    ParseInt(String),
    /// A wrapped error with one human-readable context annotation.
    WithContext { source: Box<DecodeError>, context: String },
}

impl DecodeError {
    /// Wraps this error with one context annotation, keeping the cause.
    pub fn with_context(self, context: &str) -> (r: DecodeError)
        ensures
            r matches DecodeError::WithContext { source, context: c } && *source == self && c@
                == context@,
            r.cause() == self.cause(),
    {
        DecodeError::WithContext { source: Box::new(self), context: context.to_owned() }
    }

    /// The innermost cause of this error, with every context frame removed.
    pub open spec fn cause(self) -> DecodeError
        decreases self,
    {
        match self {
            DecodeError::WithContext { source, context } => (*source).cause(),
            _ => self,
        }
    }
}

/// Compares a string against a literal tag.
pub fn text_is(s: &String, tag: &str) -> (r: bool)
    ensures
        r == (s@ == tag@),
{
    *s == tag.to_owned()
}

/// Builds an owned copy of an item tree, with the same shape.
pub fn clone_item(item: &SExprItem) -> (r: SExprItem)
    ensures
        r.shape() == item.shape(),
    decreases item,
{
    match item {
        SExprItem::Atom(t) => SExprItem::Atom(t.clone()),
        SExprItem::Text(t) => SExprItem::Text(t.clone()),
        SExprItem::Node(name, children) => {
            let mut out: Vec<SExprItem> = Vec::new();
            let n = children.len();
            let mut i: usize = 0;
            while i < n
                invariant
                    i <= n,
                    n == children@.len(),
                    *item matches SExprItem::Node(_, c) && c == *children,
                    out@.len() == i,
                    forall|k: int|
                        0 <= k < i ==> (#[trigger] out@[k]).shape() == children@[k].shape(),
                decreases n - i,
            {
                proof {
                    assert(decreases_to!(*item => item->Node_1));
                    assert(decreases_to!(item->Node_1 => item->Node_1@));
                    assert(decreases_to!(item->Node_1@ => item->Node_1@[i as int]));
                    assert(decreases_to!(*item => item->Node_1@[i as int]));
                }
                out.push(clone_item(&children[i]));
                i = i + 1;
            }
            proof {
                crate::sexpr::shape_seq_len(out@);
                crate::sexpr::shape_seq_len(children@);
                assert forall|k: int| 0 <= k < children@.len() implies crate::sexpr::shape_seq(
                    out@,
                )[k] == crate::sexpr::shape_seq(children@)[k] by {
                    crate::sexpr::shape_seq_index(out@, k);
                    crate::sexpr::shape_seq_index(children@, k);
                }
                assert(crate::sexpr::shape_seq(out@) =~= crate::sexpr::shape_seq(children@));
            }
            SExprItem::Node(name.clone(), out)
        },
    }
}

/// A type that can be decoded from s-expression items.
///
/// `accepts` is the exact success condition of `decode`, and `can_decode`
/// decides it without consuming anything: the probe is consistent with the
/// decoder on every item.  `decodes` relates an accepted item to the value
/// that decoding it produces.
pub trait Decode: Sized {
    /// Whether `decode` succeeds on this item.
    spec fn accepts(item: SExprItem) -> bool;

    /// Whether decoding `item` produces `v`.
    spec fn decodes(item: SExprItem, v: Self) -> bool;

    /// Checks whether the item can be decoded into `Self`, without
    /// consuming or changing anything.
    fn can_decode(item: &SExprItem) -> (r: bool)
        ensures
            r == Self::accepts(*item),
    ;

    /// Decodes one item into `Self`, or reports why it cannot be.
    fn decode(item: &SExprItem) -> (r: Result<Self, DecodeError>)
        ensures
            r is Ok <==> Self::accepts(*item),
            r matches Ok(v) ==> Self::decodes(*item, v),
    ;
}

/// The end of the maximal run of items starting at `i` that `T` accepts.
pub open spec fn accepted_run_end<T: Decode>(s: Seq<SExprItem>, i: int) -> int
    decreases s.len() - i,
{
    if 0 <= i < s.len() && T::accepts(s[i]) {
        accepted_run_end::<T>(s, i + 1)
    } else {
        i
    }
}

/// Consumes the maximal leading run of items that `T` accepts, decoding
/// each.  Stops, without error, at the first item that fails the probe or
/// at the end of the stream: the remainder is left untouched.
pub fn decode_iter<T: Decode>(items: &Vec<SExprItem>, pos: &mut usize) -> (r: Result<
    Vec<T>,
    DecodeError,
>)
    requires
        *old(pos) <= items@.len(),
    ensures
        r is Ok,
        *final(pos) == accepted_run_end::<T>(items@, *old(pos) as int),
        *old(pos) <= *final(pos) <= items@.len(),
        r matches Ok(vs) ==> vs@.len() == *final(pos) - *old(pos) && forall|k: int|
            0 <= k < vs@.len() ==> T::decodes(items@[*old(pos) + k], #[trigger] vs@[k]),
{
    let mut out: Vec<T> = Vec::new();
    let ghost start = *pos as int;
    while *pos < items.len() && T::can_decode(&items[*pos])
        invariant
            start <= *pos <= items@.len(),
            out@.len() == *pos - start,
            accepted_run_end::<T>(items@, *pos as int) == accepted_run_end::<T>(items@, start),
            forall|k: int| 0 <= k < out@.len() ==> T::decodes(items@[start + k], #[trigger] out@[k]),
        decreases items@.len() - *pos,
    {
        let v = match T::decode(&items[*pos]) {
            Ok(v) => v,
            Err(_) => vstd::pervasive::unreached(),
        };
        out.push(v);
        *pos = *pos + 1;
    }
    Ok(out)
}

/// Walks over the maximal leading run of items that `T` accepts and
/// reports that decoding them as a list would succeed, which it always
/// would, possibly with zero elements.
pub fn can_decode_iter<T: Decode>(items: &Vec<SExprItem>, pos: &mut usize) -> (r: bool)
    requires
        *old(pos) <= items@.len(),
    ensures
        r == true,
        *final(pos) == accepted_run_end::<T>(items@, *old(pos) as int),
        *old(pos) <= *final(pos) <= items@.len(),
{
    let ghost start = *pos as int;
    while *pos < items.len() && T::can_decode(&items[*pos])
        invariant
            start <= *pos <= items@.len(),
            accepted_run_end::<T>(items@, *pos as int) == accepted_run_end::<T>(items@, start),
        decreases items@.len() - *pos,
    {
        *pos = *pos + 1;
    }
    true
}

/// Consumes one item only if `T` accepts it, decoding it; otherwise leaves
/// the stream untouched and reports absence.
pub fn decode_option<T: Decode>(items: &Vec<SExprItem>, pos: &mut usize) -> (r: Result<
    Option<T>,
    DecodeError,
>)
    requires
        *old(pos) <= items@.len(),
    ensures
        r is Ok,
        *old(pos) < items@.len() && T::accepts(items@[*old(pos) as int]) ==> *final(pos) == *old(
            pos,
        ) + 1 && (r matches Ok(v) && v matches Some(x) && T::decodes(
            items@[*old(pos) as int],
            x,
        )),
        !(*old(pos) < items@.len() && T::accepts(items@[*old(pos) as int])) ==> *final(pos) == *old(
            pos,
        ) && (r matches Ok(v) && v is None),
{
    if *pos < items.len() && T::can_decode(&items[*pos]) {
        match T::decode(&items[*pos]) {
            Ok(v) => {
                *pos = *pos + 1;
                Ok(Some(v))
            },
            Err(_) => vstd::pervasive::unreached(),
        }
    } else {
        Ok(None)
    }
}

/// Walks over one item only if `T` accepts it, and reports that decoding
/// an optional value would succeed, which it always would.
pub fn can_decode_option<T: Decode>(items: &Vec<SExprItem>, pos: &mut usize) -> (r: bool)
    requires
        *old(pos) <= items@.len(),
    ensures
        r == true,
        *old(pos) < items@.len() && T::accepts(items@[*old(pos) as int]) ==> *final(pos) == *old(
            pos,
        ) + 1,
        !(*old(pos) < items@.len() && T::accepts(items@[*old(pos) as int])) ==> *final(pos) == *old(
            pos,
        ),
{
    if *pos < items.len() && T::can_decode(&items[*pos]) {
        *pos = *pos + 1;
    }
    true
}

/// The value of one digit character, or a negative number for anything
/// that is no digit.  Letters `a` to `f` in either case count as ten to
/// fifteen.
pub open spec fn digit_val(c: char) -> int {
    if ('0' as u32) <= (c as u32) && (c as u32) <= ('9' as u32) {
        (c as u32) - ('0' as u32)
    } else if ('a' as u32) <= (c as u32) && (c as u32) <= ('f' as u32) {
        (c as u32) - ('a' as u32) + 10
    } else if ('A' as u32) <= (c as u32) && (c as u32) <= ('F' as u32) {
        (c as u32) - ('A' as u32) + 10
    } else {
        -1
    }
}

/// Whether `c` is a digit of the given base.
pub open spec fn is_digit(c: char, base: int) -> bool {
    0 <= digit_val(c) < base
}

/// Whether `s` is one or more digits of the given base.
pub open spec fn digits_ok(s: Seq<char>, base: int) -> bool {
    s.len() > 0 && forall|i: int| 0 <= i < s.len() ==> is_digit(s[i], base)
}

/// The numeric value of a digit string, most significant digit first.
pub open spec fn digits_value(s: Seq<char>, base: int) -> int
    decreases s.len(),
{
    if s.len() == 0 {
        0
    } else {
        digits_value(s.drop_last(), base) * base + digit_val(s.last())
    }
}

/// The value of a digit string is never negative.
pub proof fn digits_value_nonneg(s: Seq<char>, base: int)
    requires
        base >= 2,
        forall|i: int| 0 <= i < s.len() ==> is_digit(s[i], base),
    ensures
        digits_value(s, base) >= 0,
    decreases s.len(),
{
    if s.len() > 0 {
        digits_value_nonneg(s.drop_last(), base);
        assert(digits_value(s.drop_last(), base) * base >= 0) by (nonlinear_arith)
            requires
                digits_value(s.drop_last(), base) >= 0,
                base >= 2,
        ;
    }
}

/// A digit string is worth at least as much as any of its prefixes.
pub proof fn digits_value_prefix_le(s: Seq<char>, base: int, k: int)
    requires
        base >= 2,
        forall|i: int| 0 <= i < s.len() ==> is_digit(s[i], base),
        0 <= k <= s.len(),
    ensures
        digits_value(s.subrange(0, k), base) <= digits_value(s, base),
    decreases s.len() - k,
{
    if k < s.len() {
        let shorter = s.subrange(0, k);
        let longer = s.subrange(0, k + 1);
        assert(longer.drop_last() =~= shorter);
        digits_value_nonneg(shorter, base);
        assert(digits_value(shorter, base) * base >= digits_value(shorter, base))
            by (nonlinear_arith)
            requires
                digits_value(shorter, base) >= 0,
                base >= 2,
        ;
        digits_value_prefix_le(s, base, k + 1);
    } else {
        assert(s.subrange(0, k) =~= s);
    }
}

/// The digit value of a character, or nothing when it is no digit.
fn digit_of(c: char) -> (r: Option<u64>)
    ensures
        r is Some <==> digit_val(c) >= 0,
        r matches Some(v) ==> v == digit_val(c),
{
    let v = c as u32;
    if ('0' as u32) <= v && v <= ('9' as u32) {
        Some((v - ('0' as u32)) as u64)
    } else if ('a' as u32) <= v && v <= ('f' as u32) {
        Some((v - ('a' as u32) + 10) as u64)
    } else if ('A' as u32) <= v && v <= ('F' as u32) {
        Some((v - ('A' as u32) + 10) as u64)
    } else {
        None
    }
}

/// Reads the digits of `cs` from `start` to the end as one number of the
/// given base; nothing when a non-digit appears, no digit at all is there,
/// or the value does not fit.
#[verifier::loop_isolation(false)]
fn parse_digits(cs: &Vec<char>, start: usize, hex: bool) -> (r: Option<u64>)
    requires
        start <= cs@.len(),
    ensures
        ({
            let body = cs@.subrange(start as int, cs@.len() as int);
            let base: int = if hex {
                16
            } else {
                10
            };
            &&& (r is Some <==> digits_ok(body, base) && digits_value(body, base) <= u64::MAX)
            &&& (r matches Some(v) ==> v == digits_value(body, base))
        }),
{
    let ghost body = cs@.subrange(start as int, cs@.len() as int);
    let ghost base_s: int = if hex {
        16
    } else {
        10
    };
    let n = cs.len();
    if start >= n {
        return None;
    }
    let base: u64 = if hex {
        16
    } else {
        10
    };
    let mut acc: u64 = 0;
    let mut j = start;
    while j < n
        invariant
            start <= j <= n,
            forall|i: int| 0 <= i < j - start ==> is_digit(body[i], base_s),
            acc == digits_value(cs@.subrange(start as int, j as int), base_s),
        decreases n - j,
    {
        let ghost pre = cs@.subrange(start as int, j as int);
        let d = match digit_of(cs[j]) {
            Some(d) => d,
            None => {
                proof {
                    assert(body[j - start] == cs@[j as int]);
                }
                return None;
            },
        };
        if d >= base {
            proof {
                assert(body[j - start] == cs@[j as int]);
            }
            return None;
        }
        proof {
            assert(cs@.subrange(start as int, j + 1).drop_last() =~= pre);
            assert(cs@.subrange(start as int, j + 1).last() == cs@[j as int]);
            assert(digits_value(cs@.subrange(start as int, j + 1), base_s) == acc * base_s + d);
        }
        let m = match acc.checked_mul(base) {
            Some(m) => m,
            None => {
                proof {
                    overflow_means_no_fit(cs@, start as int, j as int, base_s, acc * base_s);
                }
                return None;
            },
        };
        let acc2 = match m.checked_add(d) {
            Some(a) => a,
            None => {
                proof {
                    overflow_means_no_fit(cs@, start as int, j as int, base_s, m + d);
                }
                return None;
            },
        };
        acc = acc2;
        j = j + 1;
    }
    proof {
        assert(cs@.subrange(start as int, j as int) =~= body);
    }
    Some(acc)
}

/// If the digits seen so far are already worth more than the largest
/// machine word, the whole digit string cannot fit either.
proof fn overflow_means_no_fit(s: Seq<char>, start: int, j: int, base: int, worth: int)
    requires
        base == 10 || base == 16,
        0 <= start <= j < s.len(),
        is_digit(s[j], base),
        forall|i: int| 0 <= i < j - start ==> is_digit(s.subrange(start, s.len() as int)[i], base),
        digits_value(s.subrange(start, j + 1), base) >= worth,
        worth > u64::MAX,
    ensures
        !(digits_ok(s.subrange(start, s.len() as int), base) && digits_value(
            s.subrange(start, s.len() as int),
            base,
        ) <= u64::MAX),
{
    let body = s.subrange(start, s.len() as int);
    if digits_ok(body, base) {
        digits_value_prefix_le(body, base, j + 1 - start);
        assert(body.subrange(0, j + 1 - start) =~= s.subrange(start, j + 1));
    }
}

/// Whether a numeric literal carries the hexadecimal marker `0x`.
pub open spec fn has_hex_prefix(s: Seq<char>) -> bool {
    s.len() >= 2 && s[0] == '0' && s[1] == 'x'
}

/// A literal without its hexadecimal marker, when it has one.
pub open spec fn strip_hex_prefix(s: Seq<char>) -> Seq<char> {
    if has_hex_prefix(s) {
        s.subrange(2, s.len() as int)
    } else {
        s
    }
}

/// The base a numeric literal is written in: sixteen under the `0x`
/// marker, ten otherwise.
pub open spec fn base_of(s: Seq<char>) -> int {
    if has_hex_prefix(s) {
        16
    } else {
        10
    }
}

/// A literal without its sign, when it has one.  `minus_ok` admits a
/// leading minus, as the signed integers do.
pub open spec fn strip_sign(s: Seq<char>, minus_ok: bool) -> Seq<char> {
    if s.len() > 0 && (s[0] == '+' || (minus_ok && s[0] == '-')) {
        s.subrange(1, s.len() as int)
    } else {
        s
    }
}

/// The sign of a literal: negative exactly under a leading minus.
pub open spec fn sign_of(s: Seq<char>) -> int {
    if s.len() > 0 && s[0] == '-' {
        -1
    } else {
        1
    }
}

/// The digits of an unsigned literal: the text after the hexadecimal
/// marker and an optional plus sign.
pub open spec fn u64_digits(s: Seq<char>) -> Seq<char> {
    strip_sign(strip_hex_prefix(s), false)
}

/// Whether `s` is a well-formed unsigned integer literal whose value fits
/// in a machine word: an optional `0x` marker, an optional plus sign, and
/// one or more digits of the base.
pub open spec fn u64_text_ok(s: Seq<char>) -> bool {
    digits_ok(u64_digits(s), base_of(s)) && digits_value(u64_digits(s), base_of(s)) <= u64::MAX
}

/// The value of an unsigned integer literal.
pub open spec fn u64_text_val(s: Seq<char>) -> int {
    digits_value(u64_digits(s), base_of(s))
}

/// The digits of a signed literal: the text after the hexadecimal marker
/// and an optional sign.
pub open spec fn i64_digits(s: Seq<char>) -> Seq<char> {
    strip_sign(strip_hex_prefix(s), true)
}

/// The signed value of a signed integer literal, before any range check.
pub open spec fn i64_text_val(s: Seq<char>) -> int {
    sign_of(strip_hex_prefix(s)) * digits_value(i64_digits(s), base_of(s))
}

/// Whether `s` is a well-formed signed integer literal whose value fits:
/// an optional `0x` marker, an optional sign, and one or more digits of
/// the base.
pub open spec fn i64_text_ok(s: Seq<char>) -> bool {
    digits_ok(i64_digits(s), base_of(s)) && i64::MIN <= i64_text_val(s) <= i64::MAX
}

/// Reads an unsigned integer literal: hexadecimal under a `0x` prefix,
/// decimal otherwise.  Nothing on malformed text or a value out of range.
pub fn parse_u64_str(s: &str) -> (r: Option<u64>)
    ensures
        r is Some <==> u64_text_ok(s@),
        r matches Some(v) ==> v == u64_text_val(s@),
{
    let cs = crate::reader::chars_of(s);
    let n = cs.len();
    let hex = n >= 2 && cs[0] == '0' && cs[1] == 'x';
    let mut start: usize = if hex {
        2
    } else {
        0
    };
    if start < n && cs[start] == '+' {
        start = start + 1;
    }
    proof {
        assert(u64_digits(s@) =~= cs@.subrange(start as int, n as int));
    }
    parse_digits(&cs, start, hex)
}

/// Reads a signed integer literal: hexadecimal under a `0x` prefix,
/// decimal otherwise, with an optional leading sign.  Nothing on
/// malformed text or a value out of range.
pub fn parse_i64_str(s: &str) -> (r: Option<i64>)
    ensures
        r is Some <==> i64_text_ok(s@),
        r matches Some(v) ==> v == i64_text_val(s@),
{
    let cs = crate::reader::chars_of(s);
    let n = cs.len();
    let hex = n >= 2 && cs[0] == '0' && cs[1] == 'x';
    let mut start: usize = if hex {
        2
    } else {
        0
    };
    let mut negative = false;
    if start < n && cs[start] == '+' {
        start = start + 1;
    } else if start < n && cs[start] == '-' {
        negative = true;
        start = start + 1;
    }
    proof {
        assert(strip_hex_prefix(s@) =~= cs@.subrange(
            if hex {
                2int
            } else {
                0int
            },
            n as int,
        ));
        assert(i64_digits(s@) =~= cs@.subrange(start as int, n as int));
        assert(sign_of(strip_hex_prefix(s@)) == if negative {
            -1int
        } else {
            1int
        });
    }
    let magnitude = match parse_digits(&cs, start, hex) {
        Some(m) => m,
        None => {
            proof {
                if digits_ok(i64_digits(s@), base_of(s@)) {
                    digits_value_nonneg(i64_digits(s@), base_of(s@));
                }
            }
            return None;
        },
    };
    if negative {
        if magnitude > 9223372036854775808u64 {
            return None;
        }
        if magnitude == 9223372036854775808u64 {
            Some(i64::MIN)
        } else {
            Some(-(magnitude as i64))
        }
    } else {
        if magnitude > i64::MAX as u64 {
            return None;
        }
        Some(magnitude as i64)
    }
}

/// A text item decodes to the string it holds, verbatim; atoms and nodes
/// are rejected.
impl Decode for String {
    open spec fn accepts(item: SExprItem) -> bool {
        item is Text
    }

    open spec fn decodes(item: SExprItem, v: Self) -> bool {
        item matches SExprItem::Text(t) && v == t
    }

    fn can_decode(item: &SExprItem) -> (r: bool) {
        match item {
            SExprItem::Text(_) => true,
            _ => false,
        }
    }

    fn decode(item: &SExprItem) -> (r: Result<Self, DecodeError>) {
        match item {
            SExprItem::Text(t) => Ok(t.clone()),
            _ => Err(
                DecodeError::UnexpectedItem(clone_item(item)).with_context(
                    "while decoding a text value",
                ),
            ),
        }
    }
}

/// Whether an atom's text is a boolean literal.
pub open spec fn bool_text_ok(s: Seq<char>) -> bool {
    s == "true"@ || s == "false"@
}

/// The value of a boolean literal.
pub open spec fn bool_text_val(s: Seq<char>) -> bool {
    s == "true"@
}

/// An atom whose text is `true` or `false` decodes to that boolean;
/// everything else is rejected.
impl Decode for bool {
    open spec fn accepts(item: SExprItem) -> bool {
        item matches SExprItem::Atom(t) && bool_text_ok(t@)
    }

    open spec fn decodes(item: SExprItem, v: Self) -> bool {
        item matches SExprItem::Atom(t) && bool_text_ok(t@) && v == bool_text_val(t@)
    }

    fn can_decode(item: &SExprItem) -> (r: bool) {
        match item {
            SExprItem::Atom(t) => text_is(t, "true") || text_is(t, "false"),
            _ => false,
        }
    }

    fn decode(item: &SExprItem) -> (r: Result<Self, DecodeError>) {
        match item {
            SExprItem::Atom(t) => {
                if text_is(t, "true") {
                    Ok(true)
                } else if text_is(t, "false") {
                    Ok(false)
                } else {
                    Err(DecodeError::ParseBool(t.clone()).with_context("while decoding a boolean"))
                }
            },
            _ => Err(
                DecodeError::UnexpectedItem(clone_item(item)).with_context(
                    "while decoding a boolean",
                ),
            ),
        }
    }
}

/// An atom whose text is an unsigned integer literal, hexadecimal under a
/// `0x` prefix and decimal otherwise, decodes to its value; everything
/// else is rejected.
impl Decode for u64 {
    open spec fn accepts(item: SExprItem) -> bool {
        item matches SExprItem::Atom(t) && u64_text_ok(t@)
    }

    open spec fn decodes(item: SExprItem, v: Self) -> bool {
        item matches SExprItem::Atom(t) && u64_text_ok(t@) && v == u64_text_val(t@)
    }

    fn can_decode(item: &SExprItem) -> (r: bool) {
        match item {
            SExprItem::Atom(t) => parse_u64_str(t.as_str()).is_some(),
            _ => false,
        }
    }

    fn decode(item: &SExprItem) -> (r: Result<Self, DecodeError>) {
        match item {
            SExprItem::Atom(t) => match parse_u64_str(t.as_str()) {
                Some(v) => Ok(v),
                None => Err(
                    DecodeError::ParseInt(t.clone()).with_context("while decoding an integer"),
                ),
            },
            _ => Err(
                DecodeError::UnexpectedItem(clone_item(item)).with_context(
                    "while decoding an integer",
                ),
            ),
        }
    }
}

/// An atom whose text is a signed integer literal, hexadecimal under a
/// `0x` prefix and decimal otherwise, decodes to its value; everything
/// else is rejected.
impl Decode for i64 {
    open spec fn accepts(item: SExprItem) -> bool {
        item matches SExprItem::Atom(t) && i64_text_ok(t@)
    }

    open spec fn decodes(item: SExprItem, v: Self) -> bool {
        item matches SExprItem::Atom(t) && i64_text_ok(t@) && v == i64_text_val(t@)
    }

    fn can_decode(item: &SExprItem) -> (r: bool) {
        match item {
            SExprItem::Atom(t) => parse_i64_str(t.as_str()).is_some(),
            _ => false,
        }
    }

    fn decode(item: &SExprItem) -> (r: Result<Self, DecodeError>) {
        match item {
            SExprItem::Atom(t) => match parse_i64_str(t.as_str()) {
                Some(v) => Ok(v),
                None => Err(
                    DecodeError::ParseInt(t.clone()).with_context("while decoding an integer"),
                ),
            },
            _ => Err(
                DecodeError::UnexpectedItem(clone_item(item)).with_context(
                    "while decoding an integer",
                ),
            ),
        }
    }
}

/// A heap indirection is a pure pass-through: it probes and decodes
/// exactly as the wrapped type does, then boxes the result.
impl<T: Decode> Decode for Box<T> {
    open spec fn accepts(item: SExprItem) -> bool {
        T::accepts(item)
    }

    open spec fn decodes(item: SExprItem, v: Self) -> bool {
        T::decodes(item, *v)
    }

    fn can_decode(item: &SExprItem) -> (r: bool) {
        T::can_decode(item)
    }

    fn decode(item: &SExprItem) -> (r: Result<Self, DecodeError>) {
        match T::decode(item) {
            Ok(v) => Ok(Box::new(v)),
            Err(e) => Err(e.with_context("while decoding a boxed value")),
        }
    }
}

/// As a stream element, an optional value is present exactly when the
/// wrapped type accepts the item; absence never comes from `decode` on a
/// single item, only from the optional stream operation.
impl<T: Decode> Decode for Option<T> {
    open spec fn accepts(item: SExprItem) -> bool {
        T::accepts(item)
    }

    open spec fn decodes(item: SExprItem, v: Self) -> bool {
        v matches Some(x) && T::decodes(item, x)
    }

    fn can_decode(item: &SExprItem) -> (r: bool) {
        T::can_decode(item)
    }

    fn decode(item: &SExprItem) -> (r: Result<Self, DecodeError>) {
        match T::decode(item) {
            Ok(v) => Ok(Some(v)),
            Err(e) => Err(e),
        }
    }
}

} // verus!
