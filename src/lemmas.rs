use vstd::prelude::*;

use crate::controller::{spec_run, spec_step, Command};
use crate::model::{
    initial_model, keep_from, spec_delete, spec_toggle, wf_model, without_marked, AppModel,
    TodoItem,
};
use crate::view::{left_pane, padded};

verus! {

/// The marked indices in `lo..n`.
pub open spec fn marks_between(marks: Set<usize>, lo: int, n: int) -> Set<usize> {
    marks.filter(|i: usize| lo <= i < n)
}

/// Keeping the unmarked items from `lo` on leaves as many items as there are
/// indices in `lo..len` less the marked ones among them.
pub proof fn lemma_keep_from_len(s: Seq<TodoItem>, marks: Set<usize>, lo: int)
    requires
        marks.finite(),
        0 <= lo <= s.len(),
        s.len() <= usize::MAX,
    ensures
        keep_from(s, marks, lo).len() + marks_between(marks, lo, s.len() as int).len() == s.len()
            - lo,
    decreases s.len() - lo,
{
    let n = s.len() as int;
    marks.lemma_len_filter(|i: usize| lo <= i < n);
    if lo == n {
        assert(marks_between(marks, lo, n) =~= Set::empty());
    } else {
        lemma_keep_from_len(s, marks, lo + 1);
        marks.lemma_len_filter(|i: usize| lo + 1 <= i < n);
        if marks.contains(lo as usize) {
            assert(marks_between(marks, lo, n) =~= marks_between(marks, lo + 1, n).insert(
                lo as usize,
            ));
        } else {
            assert(marks_between(marks, lo, n) =~= marks_between(marks, lo + 1, n));
        }
    }
}

/// Any run of `next` and `prev` commands keeps the selection on an item of a
/// non-empty list, leaves an empty list's selection alone, and changes neither
/// the items nor the marks.
pub proof fn lemma_navigation_stays_in_bounds(m: AppModel, cmds: Seq<Command>)
    requires
        wf_model(m),
        forall|i: int|
            0 <= i < cmds.len() ==> #[trigger] cmds[i] == Command::Next || cmds[i]
                == Command::Prev,
    ensures
        spec_run(m, cmds).items == m.items,
        spec_run(m, cmds).marks == m.marks,
        m.items.len() > 0 ==> spec_run(m, cmds).sel < m.items.len(),
        m.items.len() == 0 ==> spec_run(m, cmds).sel == m.sel,
    decreases cmds.len(),
{
    if cmds.len() > 0 {
        let next = spec_step(m, cmds[0]);
        assert forall|i: int| 0 <= i < cmds.drop_first().len() implies #[trigger] cmds.drop_first()[i]
            == Command::Next || cmds.drop_first()[i] == Command::Prev by {
            assert(cmds.drop_first()[i] == cmds[i + 1]);
        }
        lemma_navigation_stays_in_bounds(next, cmds.drop_first());
    }
}

/// Toggling the mark of the selected item twice restores the state.
pub proof fn lemma_toggle_twice(m: AppModel)
    requires
        wf_model(m),
    ensures
        spec_toggle(spec_toggle(m)) == m,
{
    if m.items.len() > 0 {
        if m.marks.contains(m.sel) {
            assert(m.marks.remove(m.sel).insert(m.sel) =~= m.marks);
        } else {
            assert(m.marks.insert(m.sel).remove(m.sel) =~= m.marks);
        }
    }
}

/// With nothing marked, delete removes exactly the selected item.
pub proof fn lemma_delete_unmarked_removes_selected(m: AppModel)
    requires
        wf_model(m),
        m.items.len() > 0,
        m.marks.is_empty(),
    ensures
        spec_delete(m).items == m.items.remove(m.sel as int),
        spec_delete(m).items.len() == m.items.len() - 1,
        wf_model(spec_delete(m)),
{
}

/// With some items marked, delete removes exactly the marked items, keeps the
/// others in their order, and clears the marks.
pub proof fn lemma_delete_marked_removes_marked(m: AppModel)
    requires
        wf_model(m),
        m.items.len() > 0,
        !m.marks.is_empty(),
    ensures
        spec_delete(m).items == without_marked(m.items, m.marks),
        spec_delete(m).items.len() == m.items.len() - m.marks.len(),
        spec_delete(m).marks.is_empty(),
        wf_model(spec_delete(m)),
{
    lemma_keep_from_len(m.items, m.marks, 0);
    assert(marks_between(m.marks, 0, m.items.len() as int) =~= m.marks);
}

/// A session that has just loaded its items shows them in the left pane in
/// their loaded order.
pub proof fn lemma_loaded_order_is_shown(items: Seq<TodoItem>)
    ensures
        left_pane(initial_model(items).items).len() == items.len(),
        forall|i: int|
            0 <= i < items.len() ==> #[trigger] left_pane(initial_model(items).items)[i]
                == padded(items[i].title@),
{
}

} // verus!
