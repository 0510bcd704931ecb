//! Coloured console text: a string wrapped in the ANSI escape sequences that
//! select a colour and reset it.

use vstd::prelude::*;

verus! {

/// The colour of a log level, by its ANSI foreground code.
#[derive(Debug, Clone, Copy, PartialEq, Eq, Structural)]
#[allow(non_camel_case_types)]
pub enum Color {
    /// red
    ERROR,
    /// yellow
    WARN,
    /// blue
    INFO,
    /// green
    DEBUG,
    /// gray
    TRACE,
}

/// The ANSI foreground code of `color`.
pub open spec fn color_code(color: Color) -> u8 {
    match color {
        Color::ERROR => 31,
        Color::WARN => 93,
        Color::INFO => 34,
        Color::DEBUG => 32,
        Color::TRACE => 90,
    }
}

/// The escape sequence that selects `color`: ESC, `[`, the code's two
/// decimal digits, `m`.
pub open spec fn color_prefix(color: Color) -> Seq<char> {
    match color {
        Color::ERROR => seq!['\x1b', '[', '3', '1', 'm'],
        Color::WARN => seq!['\x1b', '[', '9', '3', 'm'],
        Color::INFO => seq!['\x1b', '[', '3', '4', 'm'],
        Color::DEBUG => seq!['\x1b', '[', '3', '2', 'm'],
        Color::TRACE => seq!['\x1b', '[', '9', '0', 'm'],
    }
}

/// The escape sequence that resets the colour: ESC, `[`, `0`, `m`.
pub open spec fn color_suffix() -> Seq<char> {
    seq!['\x1b', '[', '0', 'm']
}

/// The decimal digit character for `d`, a number from 0 to 9.
pub open spec fn digit_char(d: int) -> char {
    (48 + d) as char
}

/// The ANSI sequence that selects the foreground colour with code `code`, a
/// two-digit number: ESC, `[`, the code's tens digit, its units digit, `m`.
pub open spec fn ansi_select(code: int) -> Seq<char> {
    seq!['\x1b', '['] + seq![digit_char(code / 10), digit_char(code % 10)] + seq!['m']
}

/// The characters of `s` rendered in `color`.
pub open spec fn rendered(s: Seq<char>, color: Color) -> Seq<char> {
    color_prefix(color) + s + color_suffix()
}

impl Color {
    /// The ANSI foreground code of this colour.
    pub fn code(&self) -> (c: u8)
        ensures
            c == color_code(*self),
    {
        match self {
            Color::ERROR => 31,
            Color::WARN => 93,
            Color::INFO => 34,
            Color::DEBUG => 32,
            Color::TRACE => 90,
        }
    }
}

/// The characters of a rendered string, handed out one at a time: first the
/// colour prefix, then the string, then the reset suffix.
pub struct ColorStrIter {
    inner_str: Vec<char>,
    inner_pos: usize,
    color_prefix: Vec<char>,
    prefix_pos: usize,
    color_suffix: Vec<char>,
    suffix_pos: usize,
}

impl View for ColorStrIter {
    type V = Seq<char>;

    /// The characters still to come.
    closed spec fn view(&self) -> Seq<char> {
        self.color_prefix@.subrange(self.prefix_pos as int, self.color_prefix@.len() as int)
            + self.inner_str@.subrange(self.inner_pos as int, self.inner_str@.len() as int)
            + self.color_suffix@.subrange(self.suffix_pos as int, self.color_suffix@.len() as int)
    }
}

impl ColorStrIter {
    /// The invariant: each position lies within its part.
    pub closed spec fn wf(&self) -> bool {
        &&& self.prefix_pos <= self.color_prefix@.len()
        &&& self.inner_pos <= self.inner_str@.len()
        &&& self.suffix_pos <= self.color_suffix@.len()
    }

    /// The next character, or `None` once all have come.
    pub fn next(&mut self) -> (c: Option<char>)
        requires
            old(self).wf(),
        ensures
            final(self).wf(),
            old(self)@.len() > 0 ==> c == Some(old(self)@[0]) && final(self)@ == old(
                self,
            )@.drop_first(),
            old(self)@.len() == 0 ==> c is None && final(self)@ == old(self)@,
    {
        let ghost before = self@;
        if self.prefix_pos < self.color_prefix.len() {
            let c = self.color_prefix[self.prefix_pos];
            self.prefix_pos = self.prefix_pos + 1;
            assert(self@ =~= before.drop_first());
            return Some(c);
        }
        if self.inner_pos < self.inner_str.len() {
            let c = self.inner_str[self.inner_pos];
            self.inner_pos = self.inner_pos + 1;
            assert(self@ =~= before.drop_first());
            return Some(c);
        }
        if self.suffix_pos < self.color_suffix.len() {
            let c = self.color_suffix[self.suffix_pos];
            self.suffix_pos = self.suffix_pos + 1;
            assert(self@ =~= before.drop_first());
            return Some(c);
        }
        assert(self@ =~= Seq::<char>::empty());
        None
    }

    /// Calls `next` until it returns `None` and says how many characters it
    /// returned: every remaining character comes out exactly once, and
    /// nothing after them.
    pub fn count(&mut self) -> (n: usize)
        requires
            old(self).wf(),
            old(self)@.len() <= usize::MAX,
        ensures
            final(self).wf(),
            n == old(self)@.len(),
            final(self)@.len() == 0,
    {
        let ghost start = self@;
        let mut n: usize = 0;
        loop
            invariant
                self.wf(),
                start == old(self)@,
                start.len() <= usize::MAX,
                n + self@.len() == start.len(),
                self@ == start.skip(n as int),
            decreases self@.len(),
        {
            match self.next() {
                Some(c) => {
                    assert(c == start[n as int]);
                    assert(self@ =~= start.skip(n + 1));
                    n = n + 1;
                },
                None => {
                    return n;
                },
            }
        }
    }
}

/// Each colour's prefix selects that colour's own code: it is the ANSI
/// sequence for `color_code(color)`, and different colours have different
/// prefixes.
pub proof fn lemma_prefix_selects_color_code(color: Color, other: Color)
    ensures
        color_prefix(color) == ansi_select(color_code(color) as int),
        color != other ==> color_prefix(color) != color_prefix(other),
{
    assert(color_prefix(color) =~= ansi_select(color_code(color) as int));
    if color != other {
        assert(color_prefix(other) =~= ansi_select(color_code(other) as int));
        assert(color_code(color) != color_code(other));
        assert(color_prefix(color)[2] != color_prefix(other)[2] || color_prefix(color)[3]
            != color_prefix(other)[3]);
    }
}

/// A rendered string is the text and nine more characters: five of the
/// colour prefix, four of the reset suffix.
pub proof fn lemma_rendered_len(s: Seq<char>, color: Color)
    ensures
        rendered(s, color).len() == s.len() + 9,
        rendered(s, color).subrange(5, 5 + s.len() as int) == s,
{
    assert(rendered(s, color).subrange(5, 5 + s.len() as int) =~= s);
}

/// The characters of `s`.
fn chars_of(s: &str) -> (v: Vec<char>)
    ensures
        v@ == s@,
{
    let mut v: Vec<char> = Vec::new();
    for c in it: s.chars()
        invariant
            v@ == it.seq().take(it.index() as int),
    {
        v.push(c);
    }
    v
}

/// The escape sequence that selects `color`.
fn prefix_chars(color: Color) -> (v: Vec<char>)
    ensures
        v@ == color_prefix(color),
{
    let v = match color {
        Color::ERROR => vec!['\x1b', '[', '3', '1', 'm'],
        Color::WARN => vec!['\x1b', '[', '9', '3', 'm'],
        Color::INFO => vec!['\x1b', '[', '3', '4', 'm'],
        Color::DEBUG => vec!['\x1b', '[', '3', '2', 'm'],
        Color::TRACE => vec!['\x1b', '[', '9', '0', 'm'],
    };
    assert(v@ =~= color_prefix(color));
    v
}

/// Text that can be shown in colour.
pub trait ColorChar: View<V = Seq<char>> {
    /// The text in the colour of the `INFO` level.
    fn default_color_chars(&self) -> (it: ColorStrIter)
        ensures
            it.wf(),
            it@ == rendered(self@, Color::INFO),
    {
        self.render_color(Color::INFO)
    }

    /// The text in `color`.
    fn render_color(&self, color: Color) -> (it: ColorStrIter)
        ensures
            it.wf(),
            it@ == rendered(self@, color),
    ;
}

impl ColorChar for str {
    fn render_color(&self, color: Color) -> (it: ColorStrIter) {
        let suffix = vec!['\x1b', '[', '0', 'm'];
        let it = ColorStrIter {
            inner_str: chars_of(self),
            inner_pos: 0,
            color_prefix: prefix_chars(color),
            prefix_pos: 0,
            color_suffix: suffix,
            suffix_pos: 0,
        };
        assert(it@ =~= rendered(self@, color));
        it
    }
}

} // verus!
