//! A forward-only cursor over the characters of an input text.

use vstd::prelude::*;
use vstd::string::StrSliceExecFns;

verus! {

/// True for the ASCII whitespace characters, which separate items of the
/// textual grammar and are otherwise insignificant outside text literals.
pub open spec fn is_ws(c: char) -> bool {
    c == ' ' || c == '\t' || c == '\n' || c == '\r' || c == '\u{000c}'
}

/// The first position at or after `i` that does not hold whitespace, or the
/// end of `s`.
pub open spec fn ws_end(s: Seq<char>, i: int) -> int
    decreases s.len() - i,
{
    if 0 <= i < s.len() && is_ws(s[i]) {
        ws_end(s, i + 1)
    } else {
        i
    }
}

/// Decides [`is_ws`] for one character.
pub fn is_whitespace_char(c: char) -> (r: bool)
    ensures
        r == is_ws(c),
{
    c == ' ' || c == '\t' || c == '\n' || c == '\r' || c == '\u{000c}'
}

/// Relies on `String::push`: appends one character at the end of the
/// string.
#[verifier::external_body]
pub(crate) fn push_char(s: &mut String, c: char)
    ensures
        final(s)@ == old(s)@.push(c),
{
    s.push(c);
}

/// The characters of a text, as a vector.
pub fn chars_of(data: &str) -> (r: Vec<char>)
    ensures
        r@ == data@,
{
    let n = data.unicode_len();
    let mut chars: Vec<char> = Vec::new();
    let mut i: usize = 0;
    while i < n
        invariant
            i <= n,
            n == data@.len(),
            chars@ =~= data@.subrange(0, i as int),
        decreases n - i,
    {
        chars.push(data.get_char(i));
        i = i + 1;
    }
    proof {
        assert(chars@ =~= data@);
    }
    chars
}

/// A reading position inside a fixed sequence of characters.  The position
/// only ever moves forward while scanning; it is never rewound by the
/// scanning functions themselves.
pub struct Reader {
    pub data: Vec<char>,
    pub position: usize,
}

impl Reader {
    /// The characters being read.
    pub open spec fn chars(self) -> Seq<char> {
        self.data@
    }

    /// The current position, as a count of characters from the start.
    pub open spec fn pos(self) -> int {
        self.position as int
    }

    /// Starts a reader at the beginning of the given text.
    pub fn new(data: &str) -> (r: Reader)
        ensures
            r.chars() == data@,
            r.pos() == 0,
    {
        Reader { data: chars_of(data), position: 0 }
    }

    /// The number of characters in the input.
    pub fn len(&self) -> (r: usize)
        ensures
            r == self.chars().len(),
    {
        self.data.len()
    }

    /// The current position.
    pub fn position(&self) -> (r: usize)
        ensures
            r == self.pos(),
    {
        self.position
    }

    /// Moves the reader to an arbitrary position.
    pub fn set_position(&mut self, pos: usize)
        ensures
            final(self).chars() == old(self).chars(),
            final(self).pos() == pos,
    {
        self.position = pos;
    }

    /// Moves the reader forward by `n` characters.
    pub fn advance(&mut self, n: usize)
        requires
            old(self).pos() + n <= usize::MAX,
        ensures
            final(self).chars() == old(self).chars(),
            final(self).pos() == old(self).pos() + n,
    {
        self.position = self.position + n;
    }

    /// True when the position has reached or passed the end of the input.
    pub fn is_eof(&self) -> (r: bool)
        ensures
            r == (self.pos() >= self.chars().len()),
    {
        self.position >= self.data.len()
    }

    /// The character at an arbitrary position.
    pub fn char_at(&self, i: usize) -> (r: char)
        requires
            i < self.chars().len(),
        ensures
            r == self.chars()[i as int],
    {
        self.data[i]
    }

    /// The character at the current position, without consuming it.
    pub fn peek(&self) -> (r: Option<char>)
        ensures
            r == (if self.pos() < self.chars().len() {
                Some(self.chars()[self.pos()])
            } else {
                None::<char>
            }),
    {
        if self.position < self.data.len() {
            Some(self.data[self.position])
        } else {
            None
        }
    }

    /// Skips every whitespace character at the current position.
    pub fn consume_whitespace(&mut self)
        ensures
            final(self).chars() == old(self).chars(),
            final(self).pos() == ws_end(old(self).chars(), old(self).pos()),
            final(self).pos() >= old(self).pos(),
    {
        while self.position < self.data.len() && is_whitespace_char(self.data[self.position])
            invariant
                self.chars() == old(self).chars(),
                self.pos() >= old(self).pos(),
                ws_end(self.chars(), self.pos()) == ws_end(old(self).chars(), old(self).pos()),
            decreases self.chars().len() - self.pos(),
        {
            self.position = self.position + 1;
        }
    }
}

} // verus!
