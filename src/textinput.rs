use vstd::prelude::*;

verus! {

/// Whether a text view is taking typed text.
#[derive(Clone, Copy, PartialEq, Eq, Structural)]
pub enum InputMode {
    Normal,
    Editing,
}

/// A line of typed text with a cursor, as plain values.
pub struct TextInputModel {
    pub input: Seq<char>,
    pub index: usize,
    pub mode: InputMode,
}

impl TextInputModel {
    /// A cursor position held within the text.
    pub open spec fn clamped(self, pos: int) -> usize {
        min_of(pos, self.input.len() as int) as usize
    }

    pub open spec fn moved_left(self) -> TextInputModel {
        TextInputModel {
            index: self.clamped(if self.index == 0 {
                0
            } else {
                self.index - 1
            }),
            ..self
        }
    }

    pub open spec fn moved_right(self) -> TextInputModel {
        TextInputModel { index: self.clamped(self.index + 1), ..self }
    }

    /// Typing `c`: it goes in at the cursor, which then moves past it.
    pub open spec fn typed(self, c: char) -> TextInputModel {
        TextInputModel {
            input: with_char(self.input, self.index as int, c),
            ..self
        }.moved_right()
    }

    /// Backspace: the character before the cursor goes, and the cursor moves
    /// back over it.
    pub open spec fn backspaced(self) -> TextInputModel {
        if self.index > 0 {
            TextInputModel {
                input: without_char(self.input, self.index - 1),
                ..self
            }.moved_left()
        } else {
            self
        }
    }

    /// An empty line in normal mode.
    pub open spec fn cleared(self) -> TextInputModel {
        TextInputModel { input: Seq::empty(), index: 0, mode: InputMode::Normal }
    }
}

/// The number of bytes of `c` in UTF-8.
pub open spec fn utf8_width(c: char) -> nat {
    if (c as u32) < 0x80 {
        1
    } else if (c as u32) < 0x800 {
        2
    } else if (c as u32) < 0x10000 {
        3
    } else {
        4
    }
}

/// The number of bytes of `s` in UTF-8.
pub open spec fn utf8_len(s: Seq<char>) -> nat
    decreases s.len(),
{
    if s.len() == 0 {
        0
    } else {
        utf8_len(s.drop_last()) + utf8_width(s.last())
    }
}

/// The smaller of `a` and `b`.
pub open spec fn min_of(a: int, b: int) -> int {
    if a < b {
        a
    } else {
        b
    }
}

/// `s` without the character at position `i`, or `s` where there is none.
pub open spec fn without_char(s: Seq<char>, i: int) -> Seq<char> {
    if 0 <= i < s.len() {
        s.remove(i)
    } else {
        s
    }
}

/// `s` with `c` inserted before position `i`, or appended where `i` lies
/// beyond `s`.
pub open spec fn with_char(s: Seq<char>, i: int, c: char) -> Seq<char> {
    s.insert(min_of(i, s.len() as int), c)
}

/// The number of bytes of the character in UTF-8, as `char::len_utf8`
/// gives it.
pub fn char_width(c: char) -> (r: usize)
    ensures
        r == utf8_width(c),
{
    let v = c as u32;
    if v < 0x80 {
        1
    } else if v < 0x800 {
        2
    } else if v < 0x10000 {
        3
    } else {
        4
    }
}

/// Relies on std's `String::push`: appends the character.
#[verifier::external_body]
fn push_char(s: &mut String, c: char)
    ensures
        final(s)@ == old(s)@.push(c),
{
    s.push(c)
}

/// The text of the characters.
pub fn text_of(chars: &Vec<char>) -> (r: String)
    ensures
        r@ == chars@,
{
    let mut out = String::new();
    let mut i: usize = 0;
    while i < chars.len()
        invariant
            i <= chars@.len(),
            out@ == chars@.take(i as int),
        decreases chars@.len() - i,
    {
        push_char(&mut out, chars[i]);
        assert(chars@.take(i + 1) =~= chars@.take(i as int).push(chars@[i as int]));
        i += 1;
    }
    assert(chars@.take(chars@.len() as int) =~= chars@);
    out
}

/// The characters of the text.
pub fn chars_of(s: &str) -> (r: Vec<char>)
    ensures
        r@ == s@,
{
    let n = s.unicode_len();
    let mut out: Vec<char> = Vec::new();
    let mut i: usize = 0;
    while i < n
        invariant
            n == s@.len(),
            i <= n,
            out@ == s@.take(i as int),
        decreases n - i,
    {
        out.push(s.get_char(i));
        assert(s@.take(i + 1) =~= s@.take(i as int).push(s@[i as int]));
        i += 1;
    }
    assert(s@.take(n as int) =~= s@);
    out
}

/// The byte offset in UTF-8 of position `index` of `chars`, or the length
/// in bytes where `index` lies beyond.
pub fn utf8_offset(chars: &Vec<char>, index: usize) -> (r: usize)
    requires
        chars@.len() <= usize::MAX / 4,
    ensures
        r == utf8_len(chars@.take(min_of(index as int, chars@.len() as int))),
{
    let end = if index < chars.len() {
        index
    } else {
        chars.len()
    };
    let mut total: usize = 0;
    let mut i: usize = 0;
    while i < end
        invariant
            end <= chars@.len() <= usize::MAX / 4,
            end == min_of(index as int, chars@.len() as int),
            i <= end,
            total == utf8_len(chars@.take(i as int)),
            total <= 4 * i,
        decreases end - i,
    {
        let w = char_width(chars[i]);
        proof {
            let t = chars@.take(i + 1);
            assert(t.drop_last() =~= chars@.take(i as int));
            assert(t.last() == chars@[i as int]);
        }
        total = total + w;
        i += 1;
    }
    total
}

} // verus!
