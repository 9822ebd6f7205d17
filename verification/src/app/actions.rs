//! Searching the log and running context menu entries.

use vstd::prelude::*;

use crate::app::effect::{effects_view, Effect, EffectView};
use crate::app::list::ListSelection;
use crate::app::panel::InputMode;
use crate::app::state::{
    checkout_selected_effects, delete_ask_effects, delete_asked, discard_asked, stash_drop_asked,
    stash_pop_effects, stage_selected_effects, unstage_selected_effects, with_dialog, input_view,
    App, AppView,
};
use crate::app::overlay::DialogActionView;
use crate::git::branch::str_eq;
use crate::git::log::CommitInfo;
use crate::util::{chars_of, contains_chars, occurs_in};

verus! {

/// Indices, in order, of the first `n` commits whose summary contains `q`.
pub open spec fn hits_upto(log: Seq<CommitInfo>, q: Seq<char>, n: nat) -> Seq<usize>
    decreases n,
{
    if n == 0 {
        Seq::empty()
    } else {
        let r = hits_upto(log, q, (n - 1) as nat);
        if occurs_in(q, log[n - 1].summary@) {
            r.push((n - 1) as usize)
        } else {
            r
        }
    }
}

/// Indices, in order, of the commits whose summary contains the query; none
/// for an empty query.
pub open spec fn search_hits(log: Seq<CommitInfo>, q: Seq<char>) -> Seq<usize> {
    if q.len() == 0 {
        Seq::empty()
    } else {
        hits_upto(log, q, log.len())
    }
}

/// The state after searching the log for the current query: the first hit
/// is selected.
pub open spec fn searched(v: AppView) -> AppView {
    let hits = search_hits(v.log@, v.search_query);
    AppView {
        search_results: hits,
        search_result_index: 0,
        log_list_state: if hits.len() > 0 {
            ListSelection { index: Some(hits[0]) }
        } else {
            v.log_list_state
        },
        ..v
    }
}

/// The state after moving to the next search hit, wrapping around.
pub open spec fn searched_next(v: AppView) -> AppView {
    let n = v.search_results.len();
    if n == 0 {
        v
    } else {
        let i = if v.search_result_index + 1 < n { (v.search_result_index + 1) as usize } else { 0usize };
        AppView {
            search_result_index: i,
            log_list_state: ListSelection { index: Some(v.search_results[i as int]) },
            ..v
        }
    }
}

/// The state after moving to the previous search hit, wrapping around.
pub open spec fn searched_prev(v: AppView) -> AppView {
    let n = v.search_results.len();
    if n == 0 {
        v
    } else {
        let i = if v.search_result_index == 0 || v.search_result_index > n {
            (n - 1) as usize
        } else {
            (v.search_result_index - 1) as usize
        };
        AppView {
            search_result_index: i,
            log_list_state: ListSelection { index: Some(v.search_results[i as int]) },
            ..v
        }
    }
}

/// The label of the selected context menu entry, if any.
pub open spec fn menu_choice(v: AppView) -> Option<Seq<char>> {
    match v.context_menu {
        Some(m) => if m.selected < m.items.len() {
            Some(m.items[m.selected as int].0)
        } else {
            None
        },
        None => None,
    }
}

/// The state with the context menu closed.
pub open spec fn menu_closed(v: AppView) -> AppView {
    AppView { context_menu: None, input_mode: InputMode::Normal, ..v }
}

/// The state and the effects after running the entry labelled `l` (the
/// menu already closed), in the order the labels are tried.
pub open spec fn menu_entry(w: AppView, l: Seq<char>) -> (AppView, Seq<EffectView>) {
    if l == "Stage"@ {
        (w, stage_selected_effects(w))
    } else if l == "Discard"@ {
        (discard_asked(w), Seq::empty())
    } else if l == "Stage All"@ {
        (w, seq![EffectView::StageAll, EffectView::RefreshStatus])
    } else if l == "Unstage"@ {
        (w, unstage_selected_effects(w))
    } else if l == "Unstage All"@ {
        (w, seq![EffectView::UnstageAll, EffectView::RefreshStatus])
    } else if l == "Show Diff"@ {
        (w, seq![EffectView::UpdateDiff])
    } else if l == "Checkout"@ {
        (w, checkout_selected_effects(w))
    } else if l == "Create"@ {
        (
            with_dialog(
                w,
                input_view("Create Branch"@, "Enter new branch name:"@, DialogActionView::CreateBranch),
            ),
            Seq::empty(),
        )
    } else if l == "Delete"@ {
        (delete_asked(w), delete_ask_effects(w))
    } else if l == "Pop"@ {
        (w, stash_pop_effects())
    } else if l == "Apply"@ {
        (
            w,
            seq![
                EffectView::StashApply(
                    match w.stash_list_state.index {
                        Some(i) => i,
                        None => 0,
                    },
                ),
                EffectView::Refresh,
            ],
        )
    } else if l == "Drop"@ {
        (stash_drop_asked(w), Seq::empty())
    } else {
        (w, Seq::empty())
    }
}

impl App {
    /// Search the commit summaries of the log for the query and select the
    /// first hit.
    pub fn perform_search(&mut self)
        ensures
            final(self)@ == searched(old(self)@),
    {
        let q = chars_of(self.search_query.as_str());
        let mut hits: Vec<usize> = Vec::new();
        if q.len() > 0 {
            let mut i: usize = 0;
            while i < self.log.len()
                invariant
                    i <= self.log@.len(),
                    q@ == self.search_query@,
                    hits@ == hits_upto(self.log@, q@, i as nat),
                decreases self.log@.len() - i,
            {
                let summary = chars_of(self.log[i].summary.as_str());
                if contains_chars(&summary, &q) {
                    hits.push(i);
                }
                i = i + 1;
            }
        }
        if hits.len() > 0 {
            self.log_list_state = ListSelection { index: Some(hits[0]) };
        }
        self.search_results = hits;
        self.search_result_index = 0;
    }

    /// Move to the next search hit, wrapping around.
    pub fn search_next(&mut self)
        ensures
            final(self)@ == searched_next(old(self)@),
    {
        let n = self.search_results.len();
        if n == 0 {
            return;
        }
        let i = if self.search_result_index < n - 1 { self.search_result_index + 1 } else { 0 };
        self.search_result_index = i;
        self.log_list_state = ListSelection { index: Some(self.search_results[i]) };
    }

    /// Move to the previous search hit, wrapping around.
    pub fn search_prev(&mut self)
        ensures
            final(self)@ == searched_prev(old(self)@),
    {
        let n = self.search_results.len();
        if n == 0 {
            return;
        }
        let i = if self.search_result_index == 0 || self.search_result_index > n {
            n - 1
        } else {
            self.search_result_index - 1
        };
        self.search_result_index = i;
        self.log_list_state = ListSelection { index: Some(self.search_results[i]) };
    }

    /// Close the context menu and run its selected entry.
    pub fn execute_context_menu_action(&mut self) -> (r: Vec<Effect>)
        ensures
            final(self)@ == match menu_choice(old(self)@) {
                Some(l) => menu_entry(menu_closed(old(self)@), l).0,
                None => menu_closed(old(self)@),
            },
            effects_view(r@) == match menu_choice(old(self)@) {
                Some(l) => menu_entry(menu_closed(old(self)@), l).1,
                None => Seq::empty(),
            },
    {
        let menu = self.context_menu.take();
        self.input_mode = InputMode::Normal;
        let label = match &menu {
            Some(m) => {
                if m.selected < m.items.len() {
                    Some(m.items[m.selected].label.clone())
                } else {
                    None
                }
            },
            None => None,
        };
        let ghost w = self@;
        assert(w == menu_closed(old(self)@));
        let l = match label {
            Some(l) => l,
            None => {
                let r: Vec<Effect> = Vec::new();
                assert(effects_view(r@) =~= Seq::<EffectView>::empty());
                return r;
            },
        };
        self.run_menu_entry(l.as_str())
    }

    /// Run the context menu entry labelled `label`.
    #[verifier::rlimit(40)]
    pub fn run_menu_entry(&mut self, label: &str) -> (r: Vec<Effect>)
        ensures
            final(self)@ == menu_entry(old(self)@, label@).0,
            effects_view(r@) == menu_entry(old(self)@, label@).1,
    {
        let ghost w = self@;
        let ls = label;
        if str_eq(ls, "Stage") {
            self.stage_selected()
        } else if str_eq(ls, "Discard") {
            self.discard_selected();
            let r: Vec<Effect> = Vec::new();
            assert(effects_view(r@) =~= menu_entry(w, label@).1);
            r
        } else if str_eq(ls, "Stage All") {
            self.stage_all()
        } else if str_eq(ls, "Unstage") {
            self.unstage_selected()
        } else if str_eq(ls, "Unstage All") {
            self.unstage_all()
        } else if str_eq(ls, "Show Diff") {
            let r = vec![Effect::UpdateDiff];
            assert(effects_view(r@) =~= menu_entry(w, label@).1);
            r
        } else if str_eq(ls, "Checkout") {
            self.checkout_selected_branch()
        } else if str_eq(ls, "Create") {
            self.create_branch();
            let r: Vec<Effect> = Vec::new();
            assert(effects_view(r@) =~= menu_entry(w, label@).1);
            r
        } else if str_eq(ls, "Delete") {
            self.delete_selected_branch()
        } else if str_eq(ls, "Pop") {
            self.stash_pop()
        } else if str_eq(ls, "Apply") {
            let idx = self.stash_index();
            let r = vec![Effect::StashApply(idx), Effect::Refresh];
            assert(effects_view(r@) =~= menu_entry(w, label@).1);
            r
        } else if str_eq(ls, "Drop") {
            self.stash_drop_selected();
            let r: Vec<Effect> = Vec::new();
            assert(effects_view(r@) =~= menu_entry(w, label@).1);
            r
        } else {
            let r: Vec<Effect> = Vec::new();
            assert(effects_view(r@) =~= menu_entry(w, label@).1);
            r
        }
    }
}


proof fn lemma_hits(log: Seq<CommitInfo>, q: Seq<char>, n: nat)
    requires
        n <= log.len(),
        n <= usize::MAX,
    ensures
        forall|j: int|
            0 <= j < hits_upto(log, q, n).len() ==> (#[trigger] hits_upto(log, q, n)[j]) < n,
        forall|j: int, k: int|
            0 <= j < k < hits_upto(log, q, n).len() ==> hits_upto(log, q, n)[j] < hits_upto(log, q, n)[k],
        forall|i: int| 0 <= i < n ==> (hits_upto(log, q, n).contains(i as usize) <==> occurs_in(q, #[trigger] log[i].summary@)),
    decreases n,
{
    if n > 0 {
        lemma_hits(log, q, (n - 1) as nat);
        let r = hits_upto(log, q, (n - 1) as nat);
        if occurs_in(q, log[n - 1].summary@) {
            assert forall|i: int| 0 <= i < n implies (r.push((n - 1) as usize).contains(i as usize) <==> occurs_in(q, #[trigger] log[i].summary@)) by {
                if i < n - 1 {
                    if r.push((n - 1) as usize).contains(i as usize) {
                        let w = choose|w: int| 0 <= w < r.len() + 1 && #[trigger] r.push((n - 1) as usize)[w] == i as usize;
                        if w < r.len() {
                            assert(r.contains(i as usize));
                        }
                    }
                    if r.contains(i as usize) {
                        let w = choose|w: int| 0 <= w < r.len() && #[trigger] r[w] == i as usize;
                        assert(r.push((n - 1) as usize)[w] == i as usize);
                    }
                } else {
                    assert(r.push((n - 1) as usize)[r.len() as int] == (n - 1) as usize);
                }
            }
        } else {
            assert forall|i: int| 0 <= i < n implies (r.contains(i as usize) <==> occurs_in(q, #[trigger] log[i].summary@)) by {
                if i == n - 1 {
                    if r.contains(i as usize) {
                        let w = choose|w: int| 0 <= w < r.len() && #[trigger] r[w] == i as usize;
                        assert(r[w] < n - 1);
                    }
                }
            }
        }
    }
}

/// A search selects exactly the commits whose summary contains the query,
/// in log order, each once; an empty query selects none.
pub proof fn law_search_finds_matches(log: Seq<CommitInfo>, q: Seq<char>)
    requires
        log.len() <= usize::MAX,
    ensures
        forall|j: int, k: int|
            0 <= j < k < search_hits(log, q).len() ==> search_hits(log, q)[j] < search_hits(log, q)[k],
        forall|i: int|
            0 <= i < log.len() ==> (search_hits(log, q).contains(i as usize) <==> (q.len() > 0
                && occurs_in(q, #[trigger] log[i].summary@))),
{
    if q.len() > 0 {
        lemma_hits(log, q, log.len());
    }
}

} // verus!
