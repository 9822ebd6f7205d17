//! Styled text: spans of characters with a tone.

use vstd::prelude::*;

verus! {

/// How a span of text is drawn.
#[derive(Debug, Clone, Copy, PartialEq, Eq, Structural)]
pub enum Tone {
    /// Default colours.
    Plain,
    White,
    WhiteBold,
    Gray,
    DarkGray,
    Red,
    RedBold,
    Green,
    GreenBold,
    Yellow,
    YellowBold,
    Cyan,
    CyanBold,
    /// Cyan, bold and underlined (section headings).
    CyanHeading,
    Magenta,
    MagentaBold,
    Blue,
    BlueBold,
    GrayBold,
    /// Light red, bold and underlined (changed words of a deleted line).
    DeletedWord,
    /// Light green, bold and underlined (changed words of an added line).
    AddedWord,
    /// Black on dark gray, bold (key caps in the status bar).
    KeyCap,
    /// Black on cyan, bold (the selected palette entry).
    Selected,
    /// Dark gray on cyan (the shortcut of the selected palette entry).
    SelectedDim,
    /// Cyan background only.
    SelectedBackground,
    /// Black on green, bold (an active green button).
    GreenButton,
    /// Black on yellow, bold (an active yellow button, the selected menu entry).
    YellowButton,
    /// Black on red, bold (an active red button).
    RedButton,
    /// Black on magenta, bold (the selected option of a choice).
    MagentaButton,
    /// Dark gray on yellow (the shortcut of the selected menu entry).
    YellowDim,
    /// White on dark gray (a text field).
    InputField,
}

/// A run of text drawn with one tone.
#[derive(Debug, Clone)]
pub struct StyledSpan {
    pub text: String,
    pub tone: Tone,
}

impl View for StyledSpan {
    type V = (Seq<char>, Tone);

    open spec fn view(&self) -> (Seq<char>, Tone) {
        (self.text@, self.tone)
    }
}

/// A line of styled spans as plain values.
pub open spec fn line_view(l: Seq<StyledSpan>) -> Seq<(Seq<char>, Tone)> {
    l.map_values(|s: StyledSpan| s@)
}

/// Lines of styled spans as plain values.
pub open spec fn lines_view(ls: Seq<Vec<StyledSpan>>) -> Seq<Seq<(Seq<char>, Tone)>> {
    ls.map_values(|l: Vec<StyledSpan>| line_view(l@))
}

/// A span.
pub fn span(text: String, tone: Tone) -> (r: StyledSpan)
    ensures
        r@ == (text@, tone),
{
    StyledSpan { text, tone }
}

/// A span of a fixed text.
pub fn span_str(text: &str, tone: Tone) -> (r: StyledSpan)
    ensures
        r@ == (text@, tone),
{
    StyledSpan { text: text.to_owned(), tone }
}

/// `n` spaces.
pub open spec fn spaces(n: nat) -> Seq<char> {
    Seq::new(n, |i: int| ' ')
}

/// The text padded on the left with spaces to `w` characters (unchanged
/// when it is that long already).
pub open spec fn pad_left(s: Seq<char>, w: nat) -> Seq<char> {
    if s.len() < w {
        spaces((w - s.len()) as nat) + s
    } else {
        s
    }
}

/// The text padded on the right with spaces to `w` characters (unchanged
/// when it is that long already).
pub open spec fn pad_right(s: Seq<char>, w: nat) -> Seq<char> {
    if s.len() < w {
        s + spaces((w - s.len()) as nat)
    } else {
        s
    }
}

fn push_spaces(v: &mut Vec<char>, n: usize)
    ensures
        final(v)@ == old(v)@ + spaces(n as nat),
{
    let mut i: usize = 0;
    while i < n
        invariant
            i <= n,
            v@ == old(v)@ + spaces(i as nat),
        decreases n - i,
    {
        v.push(' ');
        i = i + 1;
        assert(v@ =~= old(v)@ + spaces(i as nat));
    }
}

/// The text padded on the left with spaces to `w` characters.
pub fn pad_left_str(s: &str, w: usize) -> (r: String)
    ensures
        r@ == pad_left(s@, w as nat),
{
    let cs = crate::util::chars_of(s);
    let mut v: Vec<char> = Vec::new();
    if cs.len() < w {
        push_spaces(&mut v, w - cs.len());
    }
    let mut i: usize = 0;
    let ghost head = v@;
    while i < cs.len()
        invariant
            i <= cs@.len(),
            cs@ == s@,
            v@ == head + cs@.subrange(0, i as int),
        decreases cs@.len() - i,
    {
        v.push(cs[i]);
        i = i + 1;
    }
    assert(cs@.subrange(0, cs@.len() as int) =~= cs@);
    assert(v@ =~= pad_left(s@, w as nat));
    crate::util::string_from_chars(&v)
}

/// The text padded on the right with spaces to `w` characters.
pub fn pad_right_str(s: &str, w: usize) -> (r: String)
    ensures
        r@ == pad_right(s@, w as nat),
{
    let cs = crate::util::chars_of(s);
    let mut v: Vec<char> = Vec::new();
    let mut i: usize = 0;
    while i < cs.len()
        invariant
            i <= cs@.len(),
            cs@ == s@,
            v@ == cs@.subrange(0, i as int),
        decreases cs@.len() - i,
    {
        v.push(cs[i]);
        i = i + 1;
    }
    if cs.len() < w {
        push_spaces(&mut v, w - cs.len());
    }
    assert(v@ =~= pad_right(s@, w as nat));
    crate::util::string_from_chars(&v)
}

} // verus!
