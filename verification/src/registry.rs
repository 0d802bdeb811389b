//! The set of open windows, in which no label occurs twice.

use vstd::prelude::*;
use crate::window::{WindowConfig, WindowModel};

verus! {

/// Some window in `ws` carries `label`.
pub open spec fn has_label(ws: Seq<WindowModel>, label: Seq<char>) -> bool {
    exists|i: int| 0 <= i < ws.len() && (#[trigger] ws[i]).label == label
}

/// How many windows in `ws` carry `label`.
pub open spec fn count(ws: Seq<WindowModel>, label: Seq<char>) -> nat
    decreases ws.len(),
{
    if ws.len() == 0 {
        0
    } else {
        let rest = count(ws.drop_last(), label);
        if ws.last().label == label {
            rest + 1
        } else {
            rest
        }
    }
}

/// No two windows in `ws` share a label.
pub open spec fn distinct_labels(ws: Seq<WindowModel>) -> bool {
    forall|i: int, j: int|
        0 <= i < j < ws.len() ==> (#[trigger] ws[i]).label != (#[trigger] ws[j]).label
}

/// The window in `ws` that carries `label`, if there is one.
pub open spec fn lookup(ws: Seq<WindowModel>, label: Seq<char>) -> Option<WindowModel> {
    if has_label(ws, label) {
        Some(ws[choose|i: int| 0 <= i < ws.len() && (#[trigger] ws[i]).label == label])
    } else {
        None
    }
}

/// Values of a run of window descriptions, in order.
pub open spec fn models(windows: Seq<WindowConfig>) -> Seq<WindowModel> {
    windows.map_values(|w: WindowConfig| w@)
}

/// A label is counted at least once exactly when some window carries it.
pub proof fn lemma_count_positive(ws: Seq<WindowModel>, label: Seq<char>)
    ensures
        count(ws, label) > 0 <==> has_label(ws, label),
    decreases ws.len(),
{
    if ws.len() > 0 {
        let front = ws.drop_last();
        lemma_count_positive(front, label);
        if has_label(front, label) {
            let i = choose|i: int| 0 <= i < front.len() && (#[trigger] front[i]).label == label;
            assert(ws[i].label == label);
        }
        if ws.last().label == label {
            assert(ws[ws.len() - 1].label == label);
        }
        if has_label(ws, label) && ws.last().label != label {
            let i = choose|i: int| 0 <= i < ws.len() && (#[trigger] ws[i]).label == label;
            assert(front[i].label == label);
        }
    }
}

/// Where labels are distinct, none is counted more than once.
pub proof fn lemma_count_at_most_one(ws: Seq<WindowModel>, label: Seq<char>)
    requires
        distinct_labels(ws),
    ensures
        count(ws, label) <= 1,
    decreases ws.len(),
{
    if ws.len() > 0 {
        let front = ws.drop_last();
        assert(distinct_labels(front)) by {
            assert forall|i: int, j: int| 0 <= i < j < front.len() implies (#[trigger] front[i]).label
                != (#[trigger] front[j]).label by {
                assert(ws[i].label != ws[j].label);
            }
        }
        lemma_count_at_most_one(front, label);
        if ws.last().label == label {
            lemma_count_positive(front, label);
            if has_label(front, label) {
                let i = choose|i: int| 0 <= i < front.len() && (#[trigger] front[i]).label == label;
                assert(ws[i].label != ws[ws.len() - 1].label);
            }
        }
    }
}

/// Appending a window adds one to the count of its own label and leaves
/// every other count as it was.
pub proof fn lemma_count_push(ws: Seq<WindowModel>, w: WindowModel, label: Seq<char>)
    ensures
        count(ws.push(w), label) == count(ws, label) + if w.label == label {
            1nat
        } else {
            0nat
        },
{
    assert(ws.push(w).drop_last() =~= ws);
}

/// Appending a window whose label is new keeps the labels distinct.
pub proof fn lemma_push_keeps_distinct(ws: Seq<WindowModel>, w: WindowModel)
    requires
        distinct_labels(ws),
        !has_label(ws, w.label),
    ensures
        distinct_labels(ws.push(w)),
        has_label(ws.push(w), w.label),
        lookup(ws.push(w), w.label) == Some(w),
{
    let after = ws.push(w);
    assert forall|i: int, j: int| 0 <= i < j < after.len() implies (#[trigger] after[i]).label
        != (#[trigger] after[j]).label by {
        if j < ws.len() {
            assert(ws[i].label != ws[j].label);
        } else {
            assert(ws[i].label != w.label);
        }
    }
    assert(after[ws.len() as int].label == w.label);
    let k = choose|i: int| 0 <= i < after.len() && (#[trigger] after[i]).label == w.label;
    if k < ws.len() {
        assert(ws[k].label == w.label);
    }
}

/// The windows that are open, in the order in which they were created.
pub struct WindowRegistry {
    windows: Vec<WindowConfig>,
}

impl View for WindowRegistry {
    type V = Seq<WindowModel>;

    closed spec fn view(&self) -> Seq<WindowModel> {
        models(self.windows@)
    }
}

impl WindowRegistry {
    /// At most one window exists per label.
    pub open spec fn wf(&self) -> bool {
        distinct_labels(self@)
    }

    /// A registry with no window open.
    pub fn new() -> (registry: WindowRegistry)
        ensures
            registry.wf(),
            registry@ == Seq::<WindowModel>::empty(),
    {
        let registry = WindowRegistry { windows: Vec::new() };
        assert(registry@ =~= Seq::<WindowModel>::empty());
        registry
    }

    /// Number of open windows.
    pub fn len(&self) -> (n: usize)
        ensures
            n == self@.len(),
    {
        self.windows.len()
    }

    /// Index of the first window that carries `label`.
    fn position(&self, label: &str) -> (found: Option<usize>)
        ensures
            match found {
                Some(i) => i < self@.len() && self@[i as int].label == label@ && self@[i as int]
                    == self.windows@[i as int]@,
                None => !has_label(self@, label@),
            },
    {
        let probe: String = label.to_owned();
        let mut i: usize = 0;
        while i < self.windows.len()
            invariant
                i <= self.windows@.len(),
                probe@ == label@,
                self@.len() == self.windows@.len(),
                forall|k: int| 0 <= k < i ==> (#[trigger] self@[k]).label != label@,
            decreases self.windows@.len() - i,
        {
            if self.windows[i].label == probe {
                return Some(i);
            }
            i += 1;
        }
        None
    }

    /// Whether a window with this label is open.
    pub fn contains(&self, label: &str) -> (present: bool)
        ensures
            present == has_label(self@, label@),
    {
        self.position(label).is_some()
    }

    /// The open window with this label.
    pub fn get(&self, label: &str) -> (window: Option<&WindowConfig>)
        requires
            self.wf(),
        ensures
            match window {
                Some(w) => lookup(self@, label@) == Some(w@),
                None => lookup(self@, label@) is None,
            },
    {
        match self.position(label) {
            Some(i) => {
                proof {
                    let k = choose|k: int|
                        0 <= k < self@.len() && (#[trigger] self@[k]).label == label@;
                    if k < i {
                        assert(self@[k].label != self@[i as int].label);
                    } else if i < k {
                        assert(self@[i as int].label != self@[k].label);
                    }
                }
                Some(&self.windows[i])
            },
            None => None,
        }
    }

    /// How many open windows carry this label: one or none.
    pub fn count(&self, label: &str) -> (n: usize)
        requires
            self.wf(),
        ensures
            n == count(self@, label@),
            n <= 1,
            n == 1 <==> has_label(self@, label@),
    {
        proof {
            lemma_count_at_most_one(self@, label@);
            lemma_count_positive(self@, label@);
        }
        if self.contains(label) {
            1
        } else {
            0
        }
    }

    /// Opens `window` unless its label is taken: a single "create if absent".
    /// Says whether the window was added.
    pub fn register(&mut self, window: WindowConfig) -> (added: bool)
        requires
            old(self).wf(),
        ensures
            final(self).wf(),
            added == !has_label(old(self)@, window@.label),
            final(self)@ == if added {
                old(self)@.push(window@)
            } else {
                old(self)@
            },
            has_label(final(self)@, window@.label),
            added ==> lookup(final(self)@, window@.label) == Some(window@),
    {
        if self.contains(window.label.as_str()) {
            return false;
        }
        proof {
            lemma_push_keeps_distinct(self@, window@);
        }
        let ghost before = self@;
        self.windows.push(window);
        assert(self@ =~= before.push(window@));
        true
    }
}

} // verus!
