//! The command palette overlay: its commands, their filtering, its place
//! on the screen and its rows.

use vstd::prelude::*;

use crate::input::mouse::Rect;
use crate::ui::text::{line_view, span, span_str, spaces, StyledSpan, Tone};
use crate::util::{chars_of, contains_chars, occurs_in};

verus! {

/// The commands the palette overlay lists, as (name, shortcut) pairs.
pub open spec fn palette_commands() -> Seq<(Seq<char>, Seq<char>)> {
    seq![
        ("Commit"@, "c"@),
        ("Amend"@, "C"@),
        ("Stage File"@, "s"@),
        ("Unstage File"@, "u"@),
        ("Stage All"@, "S"@),
        ("Unstage All"@, "U"@),
        ("Fetch"@, "f"@),
        ("Pull"@, "p"@),
        ("Push"@, "P"@),
        ("Create Branch"@, "b"@),
        ("Delete Branch"@, "D"@),
        ("Stash"@, "z"@),
        ("Pop Stash"@, "Z"@),
        ("Toggle Diff Mode"@, "d"@),
        ("Refresh"@, "r"@),
        ("Quit"@, "q"@),
        ("Help"@, "?"@),
        ("Search"@, "/"@),
    ]
}

/// The commands the palette overlay lists, in order.
pub fn commands() -> (r: Vec<(&'static str, &'static str)>)
    ensures
        r@.map_values(|c: (&'static str, &'static str)| (c.0@, c.1@)) == palette_commands(),
{
    let r = vec![
        ("Commit", "c"),
        ("Amend", "C"),
        ("Stage File", "s"),
        ("Unstage File", "u"),
        ("Stage All", "S"),
        ("Unstage All", "U"),
        ("Fetch", "f"),
        ("Pull", "p"),
        ("Push", "P"),
        ("Create Branch", "b"),
        ("Delete Branch", "D"),
        ("Stash", "z"),
        ("Pop Stash", "Z"),
        ("Toggle Diff Mode", "d"),
        ("Refresh", "r"),
        ("Quit", "q"),
        ("Help", "?"),
        ("Search", "/"),
    ];
    assert(r@.map_values(|c: (&'static str, &'static str)| (c.0@, c.1@)) =~= palette_commands());
    r
}

/// The lower-case form of a text that `str::to_lowercase` gives (full
/// Unicode case mapping).
pub uninterp spec fn lower_text(s: Seq<char>) -> Seq<char>;

/// The lower-case form of an ASCII character.
pub open spec fn ascii_lower(c: char) -> char {
    if 'A' <= c <= 'Z' { ((c as u32) + 32) as char } else { c }
}

/// `str::to_lowercase`: the text in lower case; it depends on the text
/// alone, and an ASCII text has its letters A to Z turned into a to z.
#[verifier::external_body]
pub(crate) fn to_lowercase(s: &str) -> (r: String)
    ensures
        r@ == lower_text(s@),
        (forall|i: int| 0 <= i < s@.len() ==> (#[trigger] s@[i] as u32) < 128) ==> r@ == s@.map_values(
            |c: char| ascii_lower(c),
        ),
{
    s.to_lowercase()
}

/// Whether a command name matches a query: case-insensitive substring.
pub open spec fn name_matches(name: Seq<char>, query: Seq<char>) -> bool {
    occurs_in(lower_text(query), lower_text(name))
}

/// The commands that match the first `n` entries of the list.
pub open spec fn matches_upto(cmds: Seq<(Seq<char>, Seq<char>)>, query: Seq<char>, n: nat) -> Seq<(Seq<char>, Seq<char>)>
    decreases n,
{
    if n == 0 {
        Seq::empty()
    } else {
        let r = matches_upto(cmds, query, (n - 1) as nat);
        if name_matches(cmds[n - 1].0, query) {
            r.push(cmds[n - 1])
        } else {
            r
        }
    }
}

/// The commands the overlay shows for a query: all of them for an empty
/// query, else those whose name contains it, ignoring case.
pub open spec fn filtered_commands(query: Seq<char>) -> Seq<(Seq<char>, Seq<char>)> {
    if query.len() == 0 {
        palette_commands()
    } else {
        matches_upto(palette_commands(), query, palette_commands().len())
    }
}

/// Filter the commands by case-insensitive substring match on the name.
pub fn filter_commands(query: &str) -> (r: Vec<(&'static str, &'static str)>)
    ensures
        r@.map_values(|c: (&'static str, &'static str)| (c.0@, c.1@)) == filtered_commands(query@),
{
    let all = commands();
    if query.is_empty() {
        return all;
    }
    let q = chars_of(to_lowercase(query).as_str());
    let ghost pv = all@.map_values(|c: (&'static str, &'static str)| (c.0@, c.1@));
    let mut r: Vec<(&'static str, &'static str)> = Vec::new();
    let mut i: usize = 0;
    assert(r@.map_values(|c: (&'static str, &'static str)| (c.0@, c.1@)) =~= matches_upto(pv, query@, 0));
    while i < all.len()
        invariant
            i <= all@.len(),
            pv == all@.map_values(|c: (&'static str, &'static str)| (c.0@, c.1@)),
            pv == palette_commands(),
            q@ == lower_text(query@),
            r@.map_values(|c: (&'static str, &'static str)| (c.0@, c.1@)) == matches_upto(pv, query@, i as nat),
        decreases all@.len() - i,
    {
        let (name, shortcut) = all[i];
        let lname = chars_of(to_lowercase(name).as_str());
        assert(pv[i as int] == (name@, shortcut@));
        if contains_chars(&lname, &q) {
            let ghost r0 = r@.map_values(|c: (&'static str, &'static str)| (c.0@, c.1@));
            r.push((name, shortcut));
            assert(r@.map_values(|c: (&'static str, &'static str)| (c.0@, c.1@)) =~= r0.push((name@, shortcut@)));
        }
        i = i + 1;
    }
    r
}

/// `x` kept within `[lo, hi]` (for `lo <= hi`).
pub open spec fn clamp_u16(x: int, lo: int, hi: int) -> int {
    if x < lo { lo } else if x > hi { hi } else { x }
}

/// The place of the palette on a screen area: 60% of the width (30 to 80
/// columns), 50% of the height (6 to 20 rows), centred horizontally and
/// a sixth of the height down.
pub open spec fn palette_area(area: Rect) -> Rect {
    let width = clamp_u16(area.width * 60 / 100, 30, 80);
    let height = clamp_u16(area.height * 50 / 100, 6, 20);
    let x = (if area.width > width { area.width - width } else { 0 }) / 2;
    let y = area.height / 6;
    Rect {
        x: x as u16,
        y: y as u16,
        width: if width > u16::MAX - x { (u16::MAX - x) as u16 } else { width as u16 },
        height: if height > u16::MAX - y { (u16::MAX - y) as u16 } else { height as u16 },
    }
}

/// Compute the palette area (see [`palette_area`]).
pub fn palette_rect(area: Rect) -> (r: Rect)
    requires
        area.width * 60 <= u16::MAX,
        area.height * 50 <= u16::MAX,
    ensures
        r == palette_area(area),
{
    let w = area.width * 60 / 100;
    let width = if w < 30 { 30 } else if w > 80 { 80 } else { w };
    let h = area.height * 50 / 100;
    let height = if h < 6 { 6 } else if h > 20 { 20 } else { h };
    let x = area.width.saturating_sub(width) / 2;
    let y = area.height / 6;
    Rect::new(x, y, width, height)
}

/// The row of palette entry `name`/`shortcut` in a list `avail` columns
/// wide: the shortcut right-aligned, the selected entry highlighted.
pub open spec fn palette_row(name: Seq<char>, shortcut: Seq<char>, avail: int, selected: bool) -> Seq<(Seq<char>, Tone)> {
    let used = vstd::utf8::encode_utf8(name).len() + vstd::utf8::encode_utf8(shortcut).len() + 4;
    let pad = if avail > used { avail - used } else { 0 };
    let bg = if selected { Tone::SelectedBackground } else { Tone::Plain };
    seq![
        ("  "@, bg),
        (name, if selected { Tone::Selected } else { Tone::White }),
        (spaces(pad as nat), bg),
        (shortcut, if selected { Tone::SelectedDim } else { Tone::DarkGray }),
        ("  "@, bg),
    ]
}

/// The row of a palette entry (see [`palette_row`]).
pub fn palette_item(name: &str, shortcut: &str, avail: usize, selected: bool) -> (r: Vec<StyledSpan>)
    requires
        vstd::utf8::encode_utf8(name@).len() + vstd::utf8::encode_utf8(shortcut@).len() + 4 <= usize::MAX,
    ensures
        line_view(r@) == palette_row(name@, shortcut@, avail as int, selected),
{
    let used = crate::input::text_editor::byte_len(name) + crate::input::text_editor::byte_len(shortcut) + 4;
    let pad = avail.saturating_sub(used);
    let mut sp: Vec<char> = Vec::new();
    let mut i: usize = 0;
    while i < pad
        invariant
            i <= pad,
            sp@ == spaces(i as nat),
        decreases pad - i,
    {
        sp.push(' ');
        i = i + 1;
        assert(sp@ =~= spaces(i as nat));
    }
    let bg = if selected { Tone::SelectedBackground } else { Tone::Plain };
    let r = vec![
        span_str("  ", bg),
        span_str(name, if selected { Tone::Selected } else { Tone::White }),
        span(crate::util::string_from_chars(&sp), bg),
        span_str(shortcut, if selected { Tone::SelectedDim } else { Tone::DarkGray }),
        span_str("  ", bg),
    ];
    assert(line_view(r@) =~= palette_row(name@, shortcut@, avail as int, selected));
    r
}

} // verus!
