//! The remote panel, the status bar and the header bar.

use vstd::prelude::*;

use crate::git::remote::{RemoteInfo, SyncStatus};
use crate::ui::text::{line_view, lines_view, span, span_str, StyledSpan, Tone};
use crate::util::{concat, concat3, decimal, fmt_decimal};

verus! {

/// The span describing a sync status.
pub open spec fn sync_span(s: SyncStatus) -> (Seq<char>, Tone) {
    match s {
        SyncStatus::UpToDate => (" \u{2713} up to date"@, Tone::Green),
        SyncStatus::Ahead(n) => (" \u{2191}"@ + decimal(n as nat) + " ahead"@, Tone::Green),
        SyncStatus::Behind(n) => (" \u{2193}"@ + decimal(n as nat) + " behind"@, Tone::Red),
        SyncStatus::Diverged { ahead, behind } => (
            " \u{2191}"@ + decimal(ahead as nat) + " \u{2193}"@ + decimal(behind as nat) + " diverged"@,
            Tone::Yellow,
        ),
        SyncStatus::Unknown => (" ? unknown"@, Tone::DarkGray),
    }
}

fn sync_span_of(s: SyncStatus) -> (r: StyledSpan)
    ensures
        r@ == sync_span(s),
{
    match s {
        SyncStatus::UpToDate => span_str(" \u{2713} up to date", Tone::Green),
        SyncStatus::Ahead(n) => {
            let d = fmt_decimal(n as u64);
            span(concat3(" \u{2191}", d.as_str(), " ahead"), Tone::Green)
        },
        SyncStatus::Behind(n) => {
            let d = fmt_decimal(n as u64);
            span(concat3(" \u{2193}", d.as_str(), " behind"), Tone::Red)
        },
        SyncStatus::Diverged { ahead, behind } => {
            let a = fmt_decimal(ahead as u64);
            let b = fmt_decimal(behind as u64);
            let mut t = concat3(" \u{2191}", a.as_str(), " \u{2193}");
            vstd::string::StringExecFns::append(&mut t, b.as_str());
            vstd::string::StringExecFns::append(&mut t, " diverged");
            span(t, Tone::Yellow)
        },
        SyncStatus::Unknown => span_str(" ? unknown", Tone::DarkGray),
    }
}

/// The rows describing the first `n` remotes; the URL row only when the
/// panel is taller than three rows.
pub open spec fn remote_rows(remotes: Seq<RemoteInfo>, n: nat, height: u16) -> Seq<Seq<(Seq<char>, Tone)>>
    decreases n,
{
    if n == 0 {
        Seq::empty()
    } else {
        let r = remotes[n - 1];
        remote_rows(remotes, (n - 1) as nat, height) + seq![
            seq![(" "@ + r.name@, Tone::WhiteBold), sync_span(r.sync_status)],
        ] + if height > 3 {
            seq![seq![("   "@ + r.url@, Tone::DarkGray)]]
        } else {
            Seq::empty()
        }
    }
}

/// The rows of the remote panel with `height` inner rows: the remotes (or
/// a note that there are none), the running operation, and the buttons
/// after a blank row when they fit.
pub open spec fn remote_panel_rows(
    remotes: Seq<RemoteInfo>,
    status: Option<Seq<char>>,
    height: u16,
    focused: bool,
) -> Seq<Seq<(Seq<char>, Tone)>> {
    let info = if remotes.len() == 0 {
        seq![seq![(" (no remotes configured)"@, Tone::DarkGray)]]
    } else {
        remote_rows(remotes, remotes.len(), height)
    };
    let with_status = info + match status {
        Some(s) => seq![seq![(" \u{21bb} "@ + s, Tone::CyanBold)]],
        None => Seq::empty(),
    };
    let btn = if focused { Tone::Cyan } else { Tone::DarkGray };
    if height > with_status.len() + 1 {
        with_status + seq![
            seq![(Seq::<char>::empty(), Tone::Plain)],
            seq![
                (" [Fetch] "@, btn),
                (" "@, Tone::Plain),
                (" [Pull] "@, btn),
                (" "@, Tone::Plain),
                (" [Push] "@, btn),
            ],
        ]
    } else {
        with_status
    }
}

fn push_line(out: &mut Vec<Vec<StyledSpan>>, row: Vec<StyledSpan>)
    ensures
        lines_view(final(out)@) == lines_view(old(out)@).push(line_view(row@)),
{
    let ghost o = lines_view(out@);
    out.push(row);
    assert(lines_view(out@) =~= o.push(line_view(row@)));
}

/// The rows of the remote panel (see [`remote_panel_rows`]).
pub fn remote_lines(
    remotes: &Vec<RemoteInfo>,
    status: &Option<String>,
    height: u16,
    focused: bool,
) -> (r: Vec<Vec<StyledSpan>>)
    ensures
        lines_view(r@) == remote_panel_rows(
            remotes@,
            match status {
                Some(s) => Some(s@),
                None => None,
            },
            height,
            focused,
        ),
{
    let mut out: Vec<Vec<StyledSpan>> = Vec::new();
    assert(lines_view(out@) =~= Seq::<Seq<(Seq<char>, Tone)>>::empty());
    if remotes.len() == 0 {
        let row = vec![span_str(" (no remotes configured)", Tone::DarkGray)];
        assert(line_view(row@) =~= seq![(" (no remotes configured)"@, Tone::DarkGray)]);
        push_line(&mut out, row);
    } else {
        let mut i: usize = 0;
        while i < remotes.len()
            invariant
                i <= remotes@.len(),
                lines_view(out@) == remote_rows(remotes@, i as nat, height),
            decreases remotes@.len() - i,
        {
            let rm = &remotes[i];
            let row = vec![span(concat(" ", rm.name.as_str()), Tone::WhiteBold), sync_span_of(rm.sync_status)];
            assert(line_view(row@) =~= seq![(" "@ + rm.name@, Tone::WhiteBold), sync_span(rm.sync_status)]);
            push_line(&mut out, row);
            if height > 3 {
                let row2 = vec![span(concat("   ", rm.url.as_str()), Tone::DarkGray)];
                assert(line_view(row2@) =~= seq![("   "@ + rm.url@, Tone::DarkGray)]);
                push_line(&mut out, row2);
            }
            i = i + 1;
        }
    }
    if let Some(st) = status {
        let row = vec![span(concat(" \u{21bb} ", st.as_str()), Tone::CyanBold)];
        assert(line_view(row@) =~= seq![(" \u{21bb} "@ + st@, Tone::CyanBold)]);
        push_line(&mut out, row);
    }
    if (height as usize) > out.len() && (height as usize) - out.len() > 1 {
        let btn = if focused { Tone::Cyan } else { Tone::DarkGray };
        let blank = vec![span(String::new(), Tone::Plain)];
        assert(line_view(blank@) =~= seq![(Seq::<char>::empty(), Tone::Plain)]);
        push_line(&mut out, blank);
        let row = vec![
            span_str(" [Fetch] ", btn),
            span_str(" ", Tone::Plain),
            span_str(" [Pull] ", btn),
            span_str(" ", Tone::Plain),
            span_str(" [Push] ", btn),
        ];
        assert(line_view(row@) =~= seq![
            (" [Fetch] "@, btn),
            (" "@, Tone::Plain),
            (" [Pull] "@, btn),
            (" "@, Tone::Plain),
            (" [Push] "@, btn),
        ]);
        push_line(&mut out, row);
    }
    out
}

/// The status bar: key hints, whether the tree is clean, and the current
/// notification (red when it is an error).
pub open spec fn status_row(clean: bool, note: Option<(Seq<char>, bool)>) -> Seq<(Seq<char>, Tone)> {
    seq![
        (" [?] "@, Tone::KeyCap),
        ("Help "@, Tone::Gray),
        (" [q] "@, Tone::KeyCap),
        ("Quit "@, Tone::Gray),
        (" [/] "@, Tone::KeyCap),
        ("Search "@, Tone::Gray),
        (" [r] "@, Tone::KeyCap),
        ("Refresh "@, Tone::Gray),
        ("  \u{2502} "@, Tone::Plain),
        if clean { ("\u{2713} clean"@, Tone::Green) } else { ("\u{2717} dirty"@, Tone::YellowBold) },
    ] + match note {
        Some((m, err)) => seq![("  \u{2502} "@, Tone::Plain), (m, if err { Tone::RedBold } else { Tone::Cyan })],
        None => Seq::empty(),
    }
}

/// The spans of the status bar (see [`status_row`]).
pub fn status_line(clean: bool, message: Option<&String>, is_error: bool) -> (r: Vec<StyledSpan>)
    ensures
        line_view(r@) == status_row(
            clean,
            match message {
                Some(m) => Some((m@, is_error)),
                None => None,
            },
        ),
{
    let mut r = vec![
        span_str(" [?] ", Tone::KeyCap),
        span_str("Help ", Tone::Gray),
        span_str(" [q] ", Tone::KeyCap),
        span_str("Quit ", Tone::Gray),
        span_str(" [/] ", Tone::KeyCap),
        span_str("Search ", Tone::Gray),
        span_str(" [r] ", Tone::KeyCap),
        span_str("Refresh ", Tone::Gray),
        span_str("  \u{2502} ", Tone::Plain),
        if clean { span_str("\u{2713} clean", Tone::Green) } else { span_str("\u{2717} dirty", Tone::YellowBold) },
    ];
    let ghost head = line_view(r@);
    if let Some(m) = message {
        r.push(span_str("  \u{2502} ", Tone::Plain));
        r.push(span(m.clone(), if is_error { Tone::RedBold } else { Tone::Cyan }));
    }
    assert(line_view(r@) =~= status_row(
        clean,
        match message {
            Some(m) => Some((m@, is_error)),
            None => None,
        },
    ));
    r
}

/// The header bar: the name, the branch (or `(detached)`), and the counts
/// ahead and behind when there are any.
pub open spec fn header_row(branch: Option<Seq<char>>, ahead: usize, behind: usize) -> Seq<(Seq<char>, Tone)> {
    seq![
        (" gittui"@, Tone::CyanBold),
        (" \u{2500}\u{2500} "@, Tone::DarkGray),
        (match branch {
            Some(b) => b,
            None => "(detached)"@,
        }, Tone::GreenBold),
    ] + if ahead > 0 || behind > 0 {
        seq![(" \u{2500}\u{2500} "@, Tone::DarkGray)] + (if ahead > 0 {
            seq![("\u{2191}"@ + decimal(ahead as nat), Tone::Green)]
        } else {
            Seq::empty()
        }) + (if ahead > 0 && behind > 0 { seq![(" "@, Tone::Plain)] } else { Seq::empty() }) + (if behind > 0 {
            seq![("\u{2193}"@ + decimal(behind as nat), Tone::Red)]
        } else {
            Seq::empty()
        })
    } else {
        Seq::empty()
    }
}

/// The spans of the header bar (see [`header_row`]).
pub fn header_line(branch: &Option<String>, ahead: usize, behind: usize) -> (r: Vec<StyledSpan>)
    ensures
        line_view(r@) == header_row(
            match branch {
                Some(b) => Some(b@),
                None => None,
            },
            ahead,
            behind,
        ),
{
    let name = match branch {
        Some(b) => b.clone(),
        None => "(detached)".to_owned(),
    };
    let mut r = vec![
        span_str(" gittui", Tone::CyanBold),
        span_str(" \u{2500}\u{2500} ", Tone::DarkGray),
        span(name, Tone::GreenBold),
    ];
    let ghost head = line_view(r@);
    if ahead > 0 || behind > 0 {
        r.push(span_str(" \u{2500}\u{2500} ", Tone::DarkGray));
        if ahead > 0 {
            let d = fmt_decimal(ahead as u64);
            r.push(span(concat("\u{2191}", d.as_str()), Tone::Green));
        }
        if ahead > 0 && behind > 0 {
            r.push(span_str(" ", Tone::Plain));
        }
        if behind > 0 {
            let d = fmt_decimal(behind as u64);
            r.push(span(concat("\u{2193}", d.as_str()), Tone::Red));
        }
    }
    assert(line_view(r@) =~= header_row(
        match branch {
            Some(b) => Some(b@),
            None => None,
        },
        ahead,
        behind,
    ));
    r
}

} // verus!
