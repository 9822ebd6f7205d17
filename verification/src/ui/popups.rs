//! The commit panel, the context menu, dialogs and the search bar.

use vstd::prelude::*;
use vstd::utf8::encode_utf8;

use crate::app::overlay::{ContextMenu, ContextMenuItem};
use crate::input::mouse::Rect;
use crate::input::text_editor::byte_len;
use crate::ui::text::{line_view, lines_view, span, span_str, spaces, StyledSpan, Tone};
use crate::util::{concat, concat3, decimal, fmt_decimal};

verus! {

// ---------------------------------------------------------------------------
// Commit panel
// ---------------------------------------------------------------------------

/// The title of the commit panel.
pub fn commit_title(amend: bool) -> (r: &'static str)
    ensures
        r@ == if amend { " COMMIT (AMEND) "@ } else { " COMMIT "@ },
{
    if amend { " COMMIT (AMEND) " } else { " COMMIT " }
}

/// The text shown in the commit panel: a hint while the message is empty
/// and not being edited, else the message; white while editing, gray
/// otherwise.
pub open spec fn commit_text_span(msg: Seq<char>, editing: bool) -> (Seq<char>, Tone) {
    (
        if msg.len() == 0 && !editing { "Enter commit message..."@ } else { msg },
        if editing { Tone::White } else { Tone::Gray },
    )
}

/// The message span of the commit panel (see [`commit_text_span`]).
pub fn commit_text(msg: &str, editing: bool) -> (r: StyledSpan)
    ensures
        r@ == commit_text_span(msg@, editing),
{
    let tone = if editing { Tone::White } else { Tone::Gray };
    if msg.is_empty() && !editing {
        span_str("Enter commit message...", tone)
    } else {
        span_str(msg, tone)
    }
}

/// The button bar of the commit panel: the button of the current mode is
/// filled while the panel has the focus.
pub open spec fn commit_button_row(focused: bool, amend: bool) -> Seq<(Seq<char>, Tone)> {
    seq![
        (" [Commit] "@, if focused && !amend { Tone::GreenButton } else { Tone::Green }),
        (" "@, Tone::Plain),
        (" [Amend] "@, if focused && amend { Tone::YellowButton } else { Tone::Yellow }),
    ]
}

/// The button bar of the commit panel (see [`commit_button_row`]).
pub fn commit_buttons(focused: bool, amend: bool) -> (r: Vec<StyledSpan>)
    ensures
        line_view(r@) == commit_button_row(focused, amend),
{
    let r = vec![
        span_str(" [Commit] ", if focused && !amend { Tone::GreenButton } else { Tone::Green }),
        span_str(" ", Tone::Plain),
        span_str(" [Amend] ", if focused && amend { Tone::YellowButton } else { Tone::Yellow }),
    ];
    assert(line_view(r@) =~= commit_button_row(focused, amend));
    r
}

// ---------------------------------------------------------------------------
// Framed titles
// ---------------------------------------------------------------------------

/// A title as drawn in a frame: with a space on each side.
pub fn framed_title(t: &str) -> (r: String)
    ensures
        r@ == " "@ + t@ + " "@,
{
    concat3(" ", t, " ")
}

// ---------------------------------------------------------------------------
// Context menu
// ---------------------------------------------------------------------------

/// Byte length of a text.
pub open spec fn blen(s: Seq<char>) -> int {
    encode_utf8(s).len() as int
}

/// The width an item needs: label, shortcut and six cells of margin.
pub open spec fn item_need(it: (Seq<char>, Seq<char>)) -> int {
    blen(it.0) + blen(it.1) + 6
}

/// The largest need among the first `n` items.
pub open spec fn max_need(items: Seq<(Seq<char>, Seq<char>)>, n: nat) -> int
    decreases n,
{
    if n == 0 {
        0
    } else if n == 1 {
        item_need(items[0])
    } else {
        let m = max_need(items, (n - 1) as nat);
        let k = item_need(items[n - 1]);
        if k > m { k } else { m }
    }
}

/// The width of a context menu: the widest item (20 without items, the
/// count cut to 16 bits), at least the title with its frame, at most 60.
pub open spec fn menu_width(title: Seq<char>, items: Seq<(Seq<char>, Seq<char>)>) -> u16 {
    let w0: u16 = if items.len() == 0 { 20 } else { max_need(items, items.len()) as u16 };
    let t = ((blen(title) as u16) + 4) as u16;
    let w = if w0 > t { w0 } else { t };
    if w < 60 { w } else { 60 }
}

/// The height of a context menu: its items and the frame, at most 20.
pub open spec fn menu_height(n: nat) -> u16 {
    let h = ((n as u16) + 2) as u16;
    if h < 20 { h } else { 20 }
}

/// Whether the sizes of a menu fit the arithmetic of its layout.
pub open spec fn menu_fits(m: ContextMenu) -> bool {
    &&& (blen(m.title@) as u16) + 4 <= u16::MAX
    &&& (m.items@.len() as u16) + 2 <= u16::MAX
    &&& forall|i: int| 0 <= i < m.items@.len() ==> item_need(#[trigger] m.items@[i]@) <= usize::MAX
}

/// Whether the sizes of a menu fit the arithmetic of its layout (see
/// [`menu_fits`]).
pub fn context_menu_fits(m: &ContextMenu) -> (r: bool)
    ensures
        r == menu_fits(*m),
{
    let t = byte_len(m.title.as_str()) as u16;
    if t > u16::MAX - 4 {
        return false;
    }
    let n = m.items.len() as u16;
    if n > u16::MAX - 2 {
        return false;
    }
    let mut i: usize = 0;
    while i < m.items.len()
        invariant
            i <= m.items@.len(),
            forall|j: int| 0 <= j < i ==> item_need(#[trigger] m.items@[j]@) <= usize::MAX,
        decreases m.items@.len() - i,
    {
        let a = byte_len(m.items[i].label.as_str());
        let b = byte_len(m.items[i].shortcut.as_str());
        if a > usize::MAX - 6 || b > usize::MAX - 6 - a {
            assert(m.items@[i as int]@ == (m.items@[i as int].label@, m.items@[i as int].shortcut@));
            assert(item_need(m.items@[i as int]@) > usize::MAX);
            return false;
        }
        i = i + 1;
    }
    true
}

/// Where a context menu opens: at its anchor, moved left and up so that
/// it stays on a `term_width` x `term_height` screen where it can.
pub open spec fn menu_area(m: ContextMenu, term_width: u16, term_height: u16) -> Rect {
    let v = m@;
    let w = menu_width(v.title, v.items);
    let h = menu_height(v.items.len());
    let max_x = if term_width > w { term_width - w } else { 0 };
    let max_y = if term_height > h { term_height - h } else { 0 };
    let cx = if m.x < max_x { m.x } else { max_x as u16 };
    let cy = if m.y < max_y { m.y } else { max_y as u16 };
    Rect {
        x: cx,
        y: cy,
        width: if w > u16::MAX - cx { (u16::MAX - cx) as u16 } else { w },
        height: if h > u16::MAX - cy { (u16::MAX - cy) as u16 } else { h },
    }
}

fn item_need_of(it: &ContextMenuItem) -> (r: usize)
    requires
        item_need(it@) <= usize::MAX,
    ensures
        r == item_need(it@),
{
    byte_len(it.label.as_str()) + byte_len(it.shortcut.as_str()) + 6
}

/// The width of a context menu (see [`menu_width`]).
pub fn context_menu_width(m: &ContextMenu) -> (r: u16)
    requires
        menu_fits(*m),
    ensures
        r == menu_width(m@.title, m@.items),
{
    let ghost items = m@.items;
    let mut best: usize = 0;
    let mut i: usize = 0;
    while i < m.items.len()
        invariant
            i <= m.items@.len(),
            items == m@.items,
            menu_fits(*m),
            best == max_need(items, i as nat),
        decreases m.items@.len() - i,
    {
        assert(items[i as int] == m.items@[i as int]@);
        let k = item_need_of(&m.items[i]);
        if i == 0 || k > best {
            best = k;
        }
        i = i + 1;
    }
    let w0: u16 = if m.items.len() == 0 { 20 } else { best as u16 };
    let t: u16 = (byte_len(m.title.as_str()) as u16) + 4;
    let w = if w0 > t { w0 } else { t };
    if w < 60 { w } else { 60 }
}

/// Where a context menu is drawn (see [`menu_area`]).
pub fn context_menu_area(m: &ContextMenu, term_width: u16, term_height: u16) -> (r: Rect)
    requires
        menu_fits(*m),
    ensures
        r == menu_area(*m, term_width, term_height),
{
    let w = context_menu_width(m);
    let h0: u16 = (m.items.len() as u16) + 2;
    let h = if h0 < 20 { h0 } else { 20 };
    let cx = if m.x < term_width.saturating_sub(w) { m.x } else { term_width.saturating_sub(w) };
    let cy = if m.y < term_height.saturating_sub(h) { m.y } else { term_height.saturating_sub(h) };
    Rect::new(cx, cy, w, h)
}

/// The row of menu item `it` in a menu `width` cells wide: the label, the
/// shortcut pushed to the right, and the selected entry on yellow.
pub open spec fn menu_row(it: (Seq<char>, Seq<char>), selected: bool, width: u16) -> Seq<(Seq<char>, Tone)> {
    let style = if selected { Tone::YellowButton } else { Tone::White };
    let pad = if width > 4 {
        let room = width - (blen(it.0) + blen(it.1) + 2 + 4);
        spaces(if room > 0 { room as nat } else { 0 })
    } else {
        Seq::empty()
    };
    seq![
        (" "@ + it.0, style),
        (pad, style),
        (it.1, if selected { Tone::YellowDim } else { Tone::DarkGray }),
        (" "@, style),
    ]
}

/// The rows of a context menu `width` cells wide.
pub open spec fn menu_rows(v: Seq<(Seq<char>, Seq<char>)>, selected: usize, width: u16) -> Seq<Seq<(Seq<char>, Tone)>> {
    Seq::new(v.len(), |i: int| menu_row(v[i], i == selected, width))
}

fn space_string(n: usize) -> (r: String)
    ensures
        r@ == spaces(n as nat),
{
    let mut v: Vec<char> = Vec::new();
    let mut i: usize = 0;
    while i < n
        invariant
            i <= n,
            v@ == spaces(i as nat),
        decreases n - i,
    {
        v.push(' ');
        i = i + 1;
        assert(v@ =~= spaces(i as nat));
    }
    crate::util::string_from_chars(&v)
}

fn menu_line(it: &ContextMenuItem, selected: bool, width: u16) -> (r: Vec<StyledSpan>)
    requires
        item_need(it@) <= usize::MAX,
    ensures
        line_view(r@) == menu_row(it@, selected, width),
{
    let style = if selected { Tone::YellowButton } else { Tone::White };
    let pad = if width > 4 {
        let used = byte_len(it.label.as_str()) + byte_len(it.shortcut.as_str()) + 2;
        space_string((width as usize).saturating_sub(used + 4))
    } else {
        String::new()
    };
    let r = vec![
        span(concat(" ", it.label.as_str()), style),
        span(pad, style),
        span(it.shortcut.clone(), if selected { Tone::YellowDim } else { Tone::DarkGray }),
        span_str(" ", style),
    ];
    assert(line_view(r@) =~= menu_row(it@, selected, width));
    r
}

/// The rows of a context menu drawn `width` cells wide (see [`menu_row`]).
pub fn context_menu_lines(m: &ContextMenu, width: u16) -> (r: Vec<Vec<StyledSpan>>)
    requires
        menu_fits(*m),
    ensures
        lines_view(r@) == menu_rows(m@.items, m.selected, width),
{
    let ghost want = menu_rows(m@.items, m.selected, width);
    let mut out: Vec<Vec<StyledSpan>> = Vec::new();
    let mut i: usize = 0;
    while i < m.items.len()
        invariant
            i <= m.items@.len(),
            menu_fits(*m),
            want == menu_rows(m@.items, m.selected, width),
            lines_view(out@) == want.subrange(0, i as int),
        decreases m.items@.len() - i,
    {
        let row = menu_line(&m.items[i], i == m.selected, width);
        let ghost o = lines_view(out@);
        out.push(row);
        assert(lines_view(out@) =~= o.push(want[i as int]));
        assert(want.subrange(0, i + 1) =~= want.subrange(0, i as int).push(want[i as int]));
        i = i + 1;
    }
    assert(want.subrange(0, want.len() as int) =~= want);
    out
}

// ---------------------------------------------------------------------------
// Dialogs
// ---------------------------------------------------------------------------

/// The buttons of a confirmation dialog: `Yes` filled when selected (0),
/// `No` filled when selected (1).
pub open spec fn confirm_button_row(selected: usize) -> Seq<(Seq<char>, Tone)> {
    seq![
        ("  "@, Tone::Plain),
        (" [Yes] "@, if selected == 0 { Tone::GreenButton } else { Tone::Green }),
        ("  "@, Tone::Plain),
        (" [No] "@, if selected == 1 { Tone::RedButton } else { Tone::Red }),
    ]
}

/// The buttons of a confirmation dialog (see [`confirm_button_row`]).
pub fn confirm_buttons(selected: usize) -> (r: Vec<StyledSpan>)
    ensures
        line_view(r@) == confirm_button_row(selected),
{
    let r = vec![
        span_str("  ", Tone::Plain),
        span_str(" [Yes] ", if selected == 0 { Tone::GreenButton } else { Tone::Green }),
        span_str("  ", Tone::Plain),
        span_str(" [No] ", if selected == 1 { Tone::RedButton } else { Tone::Red }),
    ];
    assert(line_view(r@) =~= confirm_button_row(selected));
    r
}

/// The option rows of a choice dialog: the selected one marked and filled.
pub open spec fn option_rows(options: Seq<Seq<char>>, selected: usize) -> Seq<Seq<(Seq<char>, Tone)>> {
    Seq::new(
        options.len(),
        |i: int|
            if i == selected {
                seq![("> "@ + options[i], Tone::MagentaButton)]
            } else {
                seq![("  "@ + options[i], Tone::White)]
            },
    )
}

/// The option rows of a choice dialog (see [`option_rows`]).
pub fn option_lines(options: &Vec<String>, selected: usize) -> (r: Vec<Vec<StyledSpan>>)
    ensures
        lines_view(r@) == option_rows(options@.map_values(|o: String| o@), selected),
{
    let ghost want = option_rows(options@.map_values(|o: String| o@), selected);
    let mut out: Vec<Vec<StyledSpan>> = Vec::new();
    let mut i: usize = 0;
    while i < options.len()
        invariant
            i <= options@.len(),
            want == option_rows(options@.map_values(|o: String| o@), selected),
            lines_view(out@) == want.subrange(0, i as int),
        decreases options@.len() - i,
    {
        let row = if i == selected {
            vec![span(concat("> ", options[i].as_str()), Tone::MagentaButton)]
        } else {
            vec![span(concat("  ", options[i].as_str()), Tone::White)]
        };
        let ghost o = lines_view(out@);
        assert(line_view(row@) =~= want[i as int]);
        out.push(row);
        assert(lines_view(out@) =~= o.push(want[i as int]));
        assert(want.subrange(0, i + 1) =~= want.subrange(0, i as int).push(want[i as int]));
        i = i + 1;
    }
    assert(want.subrange(0, want.len() as int) =~= want);
    out
}

// ---------------------------------------------------------------------------
// Search bar
// ---------------------------------------------------------------------------

/// The result count shown after the query: nothing before a search, a
/// note when nothing matched, else the position among the results.
pub open spec fn search_info(query: Seq<char>, n: usize, index: usize) -> Seq<char> {
    if n == 0 {
        if query.len() == 0 { Seq::empty() } else { " (no results)"@ }
    } else {
        " ("@ + decimal((index + 1) as nat) + "/"@ + decimal(n as nat) + ")"@
    }
}

/// The row of the search bar.
pub open spec fn search_row(query: Seq<char>, n: usize, index: usize) -> Seq<(Seq<char>, Tone)> {
    seq![(" / "@, Tone::CyanBold), (query, Tone::White), (search_info(query, n, index), Tone::DarkGray)]
}

/// The row of the search bar for a query with `n` results, the current one
/// at `index` (see [`search_row`]).
pub fn search_line(query: &str, n: usize, index: usize) -> (r: Vec<StyledSpan>)
    requires
        n > 0 ==> index < usize::MAX,
    ensures
        line_view(r@) == search_row(query@, n, index),
{
    let info = if n == 0 {
        if query.is_empty() { String::new() } else { " (no results)".to_owned() }
    } else {
        let a = fmt_decimal((index + 1) as u64);
        let b = fmt_decimal(n as u64);
        let mut s = concat3(" (", a.as_str(), "/");
        vstd::string::StringExecFns::append(&mut s, b.as_str());
        vstd::string::StringExecFns::append(&mut s, ")");
        s
    };
    proof {
        reveal_strlit("");
    }
    let r = vec![span_str(" / ", Tone::CyanBold), span_str(query, Tone::White), span(info, Tone::DarkGray)];
    assert(line_view(r@) =~= search_row(query@, n, index));
    r
}

} // verus!
