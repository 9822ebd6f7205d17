//! The help overlay: the key bindings by category.

use vstd::prelude::*;

use crate::ui::text::{line_view, lines_view, pad_right, pad_right_str, span, span_str, StyledSpan, Tone};

verus! {

/// An item of the help overlay, as plain values.
pub enum HelpItem {
    Heading(Seq<char>),
    Blank,
    Entry(Seq<char>, Seq<char>),
    Footer(Seq<char>),
}

/// An item of the help overlay.
#[derive(Debug, Clone, Copy)]
pub enum HelpEntry {
    Heading(&'static str),
    Blank,
    Entry(&'static str, &'static str),
    Footer(&'static str),
}

impl View for HelpEntry {
    type V = HelpItem;

    open spec fn view(&self) -> HelpItem {
        match self {
            HelpEntry::Heading(t) => HelpItem::Heading(t@),
            HelpEntry::Blank => HelpItem::Blank,
            HelpEntry::Entry(k, d) => HelpItem::Entry(k@, d@),
            HelpEntry::Footer(t) => HelpItem::Footer(t@),
        }
    }
}

/// The items of the help overlay, in order.
pub open spec fn help_items() -> Seq<HelpItem> {
    seq![
        HelpItem::Heading("Navigation"@),
        HelpItem::Blank,
        HelpItem::Entry("j / \u{2193}"@, "Move down"@),
        HelpItem::Entry("k / \u{2191}"@, "Move up"@),
        HelpItem::Entry("Tab"@, "Next panel"@),
        HelpItem::Entry("Shift+Tab"@, "Previous panel"@),
        HelpItem::Entry("1\u{2013}8"@, "Jump to panel by number"@),
        HelpItem::Entry("g / Home"@, "Go to top of list"@),
        HelpItem::Entry("G / End"@, "Go to bottom of list"@),
        HelpItem::Entry("Ctrl+d"@, "Half-page down"@),
        HelpItem::Entry("Ctrl+u"@, "Half-page up"@),
        HelpItem::Blank,
        HelpItem::Heading("Staging"@),
        HelpItem::Blank,
        HelpItem::Entry("s"@, "Stage file under cursor"@),
        HelpItem::Entry("u"@, "Unstage file under cursor"@),
        HelpItem::Entry("S"@, "Stage all changes"@),
        HelpItem::Entry("U"@, "Unstage all files"@),
        HelpItem::Blank,
        HelpItem::Heading("Committing"@),
        HelpItem::Blank,
        HelpItem::Entry("c"@, "Open commit message editor"@),
        HelpItem::Entry("C"@, "Amend last commit"@),
        HelpItem::Entry("Enter"@, "Submit commit (when editing)"@),
        HelpItem::Entry("Escape"@, "Cancel editing / close overlay"@),
        HelpItem::Blank,
        HelpItem::Heading("Branches"@),
        HelpItem::Blank,
        HelpItem::Entry("b"@, "Create new branch"@),
        HelpItem::Entry("B"@, "Rename branch"@),
        HelpItem::Entry("D"@, "Delete branch"@),
        HelpItem::Entry("Enter"@, "Checkout branch"@),
        HelpItem::Blank,
        HelpItem::Heading("Remote"@),
        HelpItem::Blank,
        HelpItem::Entry("f"@, "Fetch"@),
        HelpItem::Entry("p"@, "Pull"@),
        HelpItem::Entry("P"@, "Push"@),
        HelpItem::Blank,
        HelpItem::Heading("Stash"@),
        HelpItem::Blank,
        HelpItem::Entry("z"@, "Stash changes"@),
        HelpItem::Entry("Z"@, "Pop stash"@),
        HelpItem::Blank,
        HelpItem::Heading("Diff"@),
        HelpItem::Blank,
        HelpItem::Entry("d"@, "Toggle diff mode (unified/split)"@),
        HelpItem::Entry("Enter"@, "Expand/collapse hunk"@),
        HelpItem::Blank,
        HelpItem::Heading("General"@),
        HelpItem::Blank,
        HelpItem::Entry("?"@, "Toggle this help"@),
        HelpItem::Entry("q"@, "Quit"@),
        HelpItem::Entry("/"@, "Search"@),
        HelpItem::Entry("r"@, "Refresh"@),
        HelpItem::Entry("Ctrl+p"@, "Command palette"@),
        HelpItem::Blank,
        HelpItem::Footer("Press Escape or ? to close"@),
    ]
}

/// The items of the help overlay, in order.
pub fn help_entries() -> (r: Vec<HelpEntry>)
    ensures
        r@.map_values(|e: HelpEntry| e@) == help_items(),
{
    let r = vec![
        HelpEntry::Heading("Navigation"),
        HelpEntry::Blank,
        HelpEntry::Entry("j / \u{2193}", "Move down"),
        HelpEntry::Entry("k / \u{2191}", "Move up"),
        HelpEntry::Entry("Tab", "Next panel"),
        HelpEntry::Entry("Shift+Tab", "Previous panel"),
        HelpEntry::Entry("1\u{2013}8", "Jump to panel by number"),
        HelpEntry::Entry("g / Home", "Go to top of list"),
        HelpEntry::Entry("G / End", "Go to bottom of list"),
        HelpEntry::Entry("Ctrl+d", "Half-page down"),
        HelpEntry::Entry("Ctrl+u", "Half-page up"),
        HelpEntry::Blank,
        HelpEntry::Heading("Staging"),
        HelpEntry::Blank,
        HelpEntry::Entry("s", "Stage file under cursor"),
        HelpEntry::Entry("u", "Unstage file under cursor"),
        HelpEntry::Entry("S", "Stage all changes"),
        HelpEntry::Entry("U", "Unstage all files"),
        HelpEntry::Blank,
        HelpEntry::Heading("Committing"),
        HelpEntry::Blank,
        HelpEntry::Entry("c", "Open commit message editor"),
        HelpEntry::Entry("C", "Amend last commit"),
        HelpEntry::Entry("Enter", "Submit commit (when editing)"),
        HelpEntry::Entry("Escape", "Cancel editing / close overlay"),
        HelpEntry::Blank,
        HelpEntry::Heading("Branches"),
        HelpEntry::Blank,
        HelpEntry::Entry("b", "Create new branch"),
        HelpEntry::Entry("B", "Rename branch"),
        HelpEntry::Entry("D", "Delete branch"),
        HelpEntry::Entry("Enter", "Checkout branch"),
        HelpEntry::Blank,
        HelpEntry::Heading("Remote"),
        HelpEntry::Blank,
        HelpEntry::Entry("f", "Fetch"),
        HelpEntry::Entry("p", "Pull"),
        HelpEntry::Entry("P", "Push"),
        HelpEntry::Blank,
        HelpEntry::Heading("Stash"),
        HelpEntry::Blank,
        HelpEntry::Entry("z", "Stash changes"),
        HelpEntry::Entry("Z", "Pop stash"),
        HelpEntry::Blank,
        HelpEntry::Heading("Diff"),
        HelpEntry::Blank,
        HelpEntry::Entry("d", "Toggle diff mode (unified/split)"),
        HelpEntry::Entry("Enter", "Expand/collapse hunk"),
        HelpEntry::Blank,
        HelpEntry::Heading("General"),
        HelpEntry::Blank,
        HelpEntry::Entry("?", "Toggle this help"),
        HelpEntry::Entry("q", "Quit"),
        HelpEntry::Entry("/", "Search"),
        HelpEntry::Entry("r", "Refresh"),
        HelpEntry::Entry("Ctrl+p", "Command palette"),
        HelpEntry::Blank,
        HelpEntry::Footer("Press Escape or ? to close"),
    ];
    assert(r@.map_values(|e: HelpEntry| e@) =~= help_items());
    r
}

/// The row of a help item: headings in cyan, keys padded to sixteen
/// columns before their description.
pub open spec fn help_row(i: HelpItem) -> Seq<(Seq<char>, Tone)> {
    match i {
        HelpItem::Heading(t) => seq![(t, Tone::CyanHeading)],
        HelpItem::Blank => seq![(Seq::<char>::empty(), Tone::Plain)],
        HelpItem::Entry(k, d) => seq![("  "@, Tone::Plain), (pad_right(k, 16), Tone::YellowBold), (d, Tone::White)],
        HelpItem::Footer(t) => seq![(t, Tone::DarkGray)],
    }
}

/// The row of a help item (see [`help_row`]).
pub fn help_line(e: HelpEntry) -> (r: Vec<StyledSpan>)
    ensures
        line_view(r@) == help_row(e@),
{
    let r = match e {
        HelpEntry::Heading(t) => vec![span_str(t, Tone::CyanHeading)],
        HelpEntry::Blank => vec![span(String::new(), Tone::Plain)],
        HelpEntry::Entry(k, d) => vec![
            span_str("  ", Tone::Plain),
            span(pad_right_str(k, 16), Tone::YellowBold),
            span_str(d, Tone::White),
        ],
        HelpEntry::Footer(t) => vec![span_str(t, Tone::DarkGray)],
    };
    assert(line_view(r@) =~= help_row(e@));
    r
}

/// All rows of the help overlay.
pub fn help_lines() -> (r: Vec<Vec<StyledSpan>>)
    ensures
        lines_view(r@) == help_items().map_values(|i: HelpItem| help_row(i)),
{
    let es = help_entries();
    let ghost iv = es@.map_values(|e: HelpEntry| e@);
    let mut out: Vec<Vec<StyledSpan>> = Vec::new();
    let mut k: usize = 0;
    while k < es.len()
        invariant
            k <= es@.len(),
            iv == es@.map_values(|e: HelpEntry| e@),
            iv == help_items(),
            lines_view(out@) =~= iv.subrange(0, k as int).map_values(|i: HelpItem| help_row(i)),
        decreases es@.len() - k,
    {
        let row = help_line(es[k]);
        let ghost o = lines_view(out@);
        out.push(row);
        assert(lines_view(out@) =~= o.push(help_row(iv[k as int])));
        assert(iv.subrange(0, k + 1) =~= iv.subrange(0, k as int).push(iv[k as int]));
        k = k + 1;
    }
    assert(iv.subrange(0, iv.len() as int) =~= iv);
    out
}

} // verus!
