use vstd::prelude::*;

verus! {

broadcast use vstd::seq_lib::lemma_seq_contains_after_push;

/// Pushing a value that is not yet in a sequence keeps it free of duplicates.
proof fn lemma_push_no_duplicates(s: Seq<usize>, v: usize)
    requires
        s.no_duplicates(),
        !s.contains(v),
    ensures
        s.push(v).no_duplicates(),
{
    assert forall|a: int, b: int| 0 <= a < b < s.push(v).len() implies s.push(v)[a] != s.push(
        v,
    )[b] by {
        if b == s.len() {
            assert(s.contains(s[a]));
        }
    }
}

/// One step of deleting marked items from the back: index `i - 1` is dropped
/// exactly when it is marked.
proof fn lemma_keep_step(s: Seq<TodoItem>, marks: Set<usize>, i: int)
    requires
        0 < i <= s.len(),
    ensures
        marks.contains((i - 1) as usize) ==> (s.take(i) + keep_from(s, marks, i)).remove(i - 1)
            == s.take(i - 1) + keep_from(s, marks, i - 1),
        !marks.contains((i - 1) as usize) ==> s.take(i) + keep_from(s, marks, i) == s.take(i - 1)
            + keep_from(s, marks, i - 1),
{
    if marks.contains((i - 1) as usize) {
        assert((s.take(i) + keep_from(s, marks, i)).remove(i - 1) =~= s.take(i - 1) + keep_from(
            s,
            marks,
            i,
        ));
    } else {
        assert(s.take(i) + keep_from(s, marks, i) =~= s.take(i - 1) + keep_from(s, marks, i - 1));
    }
}

/// One entry of the list: free text fields and a small priority number.
pub struct TodoItem {
    pub title: String,
    pub date: String,
    pub deadline: String,
    pub priority: u8,
}

/// The ordered items of a list; their order is the display order.
pub struct TodoList {
    pub items: Vec<TodoItem>,
}

/// The editing mode of a session. `Rename` is reserved: no command enters it yet.
#[derive(Clone, Copy, PartialEq, Eq, Structural, Debug)]
pub enum Mode {
    Normal,
    Rename,
}

/// The abstract state of a session.
pub struct AppModel {
    pub items: Seq<TodoItem>,
    pub sel: usize,
    pub marks: Set<usize>,
    pub mode: Mode,
    pub exit: bool,
}

/// A session state is well formed when the selection addresses an item (or is 0
/// on an empty list) and every mark addresses an item.
pub open spec fn wf_model(m: AppModel) -> bool {
    &&& (m.items.len() == 0 ==> m.sel == 0)
    &&& (m.items.len() > 0 ==> m.sel < m.items.len())
    &&& forall|i: usize| #[trigger] m.marks.contains(i) ==> i < m.items.len()
    &&& m.marks.finite()
    &&& m.items.len() <= usize::MAX
}

/// The selection one step down, saturating at the last item.
pub open spec fn next_index(sel: usize, len: nat) -> usize {
    if len == 0 || sel + 1 >= len {
        sel
    } else {
        (sel + 1) as usize
    }
}

/// The selection one step up, saturating at the first item.
pub open spec fn prev_index(sel: usize, len: nat) -> usize {
    if len == 0 || sel == 0 {
        sel
    } else {
        (sel - 1) as usize
    }
}

/// The items of `s` from index `lo` on whose index is not in `marks`, in order.
pub open spec fn keep_from(s: Seq<TodoItem>, marks: Set<usize>, lo: int) -> Seq<TodoItem>
    decreases s.len() - lo,
{
    if lo < 0 || lo >= s.len() {
        Seq::empty()
    } else if marks.contains(lo as usize) {
        keep_from(s, marks, lo + 1)
    } else {
        seq![s[lo]].add(keep_from(s, marks, lo + 1))
    }
}

/// The items of `s` whose index is not in `marks`, in order.
pub open spec fn without_marked(s: Seq<TodoItem>, marks: Set<usize>) -> Seq<TodoItem> {
    keep_from(s, marks, 0)
}

/// A selection brought back into a list of length `len`.
pub open spec fn clamp_index(sel: usize, len: nat) -> usize {
    if len == 0 {
        0
    } else if sel >= len {
        (len - 1) as usize
    } else {
        sel
    }
}

/// The state after moving the selection down.
pub open spec fn spec_next(m: AppModel) -> AppModel {
    AppModel { sel: next_index(m.sel, m.items.len()), ..m }
}

/// The state after moving the selection up.
pub open spec fn spec_prev(m: AppModel) -> AppModel {
    AppModel { sel: prev_index(m.sel, m.items.len()), ..m }
}

/// The state after toggling the mark of the selected item.
pub open spec fn spec_toggle(m: AppModel) -> AppModel {
    if m.items.len() == 0 {
        m
    } else if m.marks.contains(m.sel) {
        AppModel { marks: m.marks.remove(m.sel), ..m }
    } else {
        AppModel { marks: m.marks.insert(m.sel), ..m }
    }
}

/// Delete: the selected item when nothing is marked, else every marked item.
pub open spec fn spec_delete(m: AppModel) -> AppModel {
    if m.items.len() == 0 {
        m
    } else if m.marks.is_empty() {
        AppModel {
            items: m.items.remove(m.sel as int),
            sel: if m.sel + 1 == m.items.len() && m.sel > 0 {
                (m.sel - 1) as usize
            } else {
                m.sel
            },
            ..m
        }
    } else {
        let rest = without_marked(m.items, m.marks);
        AppModel { items: rest, sel: clamp_index(m.sel, rest.len()), marks: Set::empty(), ..m }
    }
}

/// The state after a request to end the session.
pub open spec fn spec_quit(m: AppModel) -> AppModel {
    AppModel { exit: true, ..m }
}

/// The state of a session that has just loaded `items`.
pub open spec fn initial_model(items: Seq<TodoItem>) -> AppModel {
    AppModel { items, sel: 0, marks: Set::empty(), mode: Mode::Normal, exit: false }
}

/// An interactive session over a list of items.
pub struct App {
    todo_list: TodoList,
    exit: bool,
    sel_index: usize,
    mark_done_list: Vec<usize>,
    mode: Mode,
}

impl View for App {
    type V = AppModel;

    closed spec fn view(&self) -> AppModel {
        AppModel {
            items: self.todo_list.items@,
            sel: self.sel_index,
            marks: self.mark_done_list@.to_set(),
            mode: self.mode,
            exit: self.exit,
        }
    }
}

impl App {
    /// The internal invariant: a well-formed state, and no index marked twice.
    pub closed spec fn inv(&self) -> bool {
        wf_model(self@) && self.mark_done_list@.no_duplicates()
    }

    /// A session that keeps its invariant is in a well-formed state.
    pub proof fn lemma_inv_wf(&self)
        requires
            self.inv(),
        ensures
            wf_model(self@),
    {
    }

    /// A session over `todo_list`, with the first item selected and nothing marked.
    pub fn new(todo_list: TodoList) -> (r: App)
        ensures
            r.inv(),
            r@ == initial_model(todo_list.items@),
    {
        assert(todo_list.items@.len() == todo_list.items.len());
        let r = App {
            todo_list,
            exit: false,
            sel_index: 0,
            mark_done_list: Vec::new(),
            mode: Mode::Normal,
        };
        assert(r.mark_done_list@.to_set() =~= Set::empty());
        r
    }

    /// Whether `index` is marked done; never on an empty list.
    pub fn is_marked_done(&self, index: usize) -> (r: bool)
        ensures
            r == (self@.items.len() > 0 && self@.marks.contains(index)),
    {
        if self.todo_list.items.len() == 0 {
            return false;
        }
        let mut j: usize = 0;
        while j < self.mark_done_list.len()
            invariant
                j <= self.mark_done_list@.len(),
                self.todo_list.items@.len() > 0,
                forall|k: int| 0 <= k < j ==> self.mark_done_list@[k] != index,
            decreases self.mark_done_list@.len() - j,
        {
            if self.mark_done_list[j] == index {
                assert(self.mark_done_list@[j as int] == index);
                assert(self.mark_done_list@.contains(index));
                assert(self.mark_done_list@.to_set().contains(index));
                return true;
            }
            j += 1;
        }
        assert(!self.mark_done_list@.to_set().contains(index));
        false
    }

    /// Moves the selection one item down, stopping at the last item.
    pub fn next_item(&mut self)
        requires
            old(self).inv(),
        ensures
            final(self).inv(),
            final(self)@ == spec_next(old(self)@),
    {
        if self.todo_list.items.len() == 0 {
            return;
        }
        if self.sel_index < self.todo_list.items.len() - 1 {
            self.sel_index += 1;
        }
    }

    /// Moves the selection one item up, stopping at the first item.
    pub fn prev_item(&mut self)
        requires
            old(self).inv(),
        ensures
            final(self).inv(),
            final(self)@ == spec_prev(old(self)@),
    {
        if self.todo_list.items.len() == 0 {
            return;
        }
        if self.sel_index > 0 {
            self.sel_index -= 1;
        }
    }

    /// Marks the selected item done, or removes its mark if it has one.
    pub fn mark_as_done(&mut self)
        requires
            old(self).inv(),
        ensures
            final(self).inv(),
            final(self)@ == spec_toggle(old(self)@),
    {
        if self.todo_list.items.len() == 0 {
            return;
        }
        let sel = self.sel_index;
        if self.is_marked_done(sel) {
            let ghost old_marks = self.mark_done_list@;
            let mut kept: Vec<usize> = Vec::new();
            let mut j: usize = 0;
            while j < self.mark_done_list.len()
                invariant
                    j <= old_marks.len(),
                    self.mark_done_list@ == old_marks,
                    old_marks.no_duplicates(),
                    kept@.no_duplicates(),
                    forall|x: usize| #[trigger]
                        kept@.contains(x) <==> (old_marks.take(j as int).contains(x) && x != sel),
                decreases old_marks.len() - j,
            {
                let x = self.mark_done_list[j];
                proof {
                    assert(old_marks.take(j + 1) =~= old_marks.take(j as int).push(x));
                    assert(!old_marks.take(j as int).contains(x)) by {
                        if old_marks.take(j as int).contains(x) {
                            let k = choose|k: int| 0 <= k < j && old_marks.take(j as int)[k] == x;
                            assert(old_marks[k] == old_marks[j as int]);
                        }
                    }
                }
                if x != sel {
                    proof {
                        lemma_push_no_duplicates(kept@, x);
                    }
                    kept.push(x);
                }
                j += 1;
            }
            assert(old_marks.take(old_marks.len() as int) =~= old_marks);
            self.mark_done_list = kept;
            assert(self.mark_done_list@.to_set() =~= old_marks.to_set().remove(sel));
        } else {
            let ghost old_marks = self.mark_done_list@;
            proof {
                lemma_push_no_duplicates(old_marks, sel);
            }
            self.mark_done_list.push(sel);
            assert(self.mark_done_list@.to_set() =~= old_marks.to_set().insert(sel));
        }
    }

    /// Deletes the selected item when nothing is marked, else every marked
    /// item, from the highest index down, and clears the marks.
    pub fn delete_marks(&mut self)
        requires
            old(self).inv(),
        ensures
            final(self).inv(),
            final(self)@ == spec_delete(old(self)@),
    {
        let len = self.todo_list.items.len();
        if len == 0 {
            return;
        }
        if self.mark_done_list.len() == 0 {
            assert(self@.marks =~= Set::empty());
            let sel = self.sel_index;
            if sel == len - 1 {
                let _ = self.todo_list.items.remove(sel);
                if self.todo_list.items.len() != 0 {
                    self.sel_index -= 1;
                }
            } else {
                let _ = self.todo_list.items.remove(sel);
            }
        } else {
            let ghost s = self.todo_list.items@;
            let ghost m = self@.marks;
            let ghost before = self@;
            assert(m.contains(self.mark_done_list@[0]));
            let mut i: usize = len;
            assert(s.take(len as int) =~= s);
            while i > 0
                invariant
                    len == s.len(),
                    i <= len,
                    self.todo_list.items@ == s.take(i as int) + keep_from(s, m, i as int),
                    self.mark_done_list@.to_set() == m,
                    self.sel_index == before.sel,
                    self.mode == before.mode,
                    self.exit == before.exit,
                decreases i,
            {
                let idx = i - 1;
                proof {
                    lemma_keep_step(s, m, i as int);
                }
                if self.is_marked_done(idx) {
                    let _ = self.todo_list.items.remove(idx);
                }
                i = idx;
            }
            assert(s.take(0) + keep_from(s, m, 0) =~= keep_from(s, m, 0));
            self.mark_done_list.clear();
            assert(self.mark_done_list@.to_set() =~= Set::empty());
            let new_len = self.todo_list.items.len();
            if new_len == 0 {
                self.sel_index = 0;
            } else if self.sel_index >= new_len {
                self.sel_index = new_len - 1;
            }
        }
    }

    /// Reserved for renaming the selected item; it changes nothing yet.
    pub fn rename_marks(&mut self)
        requires
            old(self).inv(),
        ensures
            final(self).inv(),
            final(self)@ == old(self)@,
    {
        if self.todo_list.items.len() == 0 {
            return;
        }
    }

    /// Asks the session to end.
    pub fn exit(&mut self)
        requires
            old(self).inv(),
        ensures
            final(self).inv(),
            final(self)@ == spec_quit(old(self)@),
    {
        self.exit = true;
    }

    /// The number of items.
    pub fn item_count(&self) -> (r: usize)
        ensures
            r == self@.items.len(),
    {
        self.todo_list.items.len()
    }

    /// The index of the selected item (0 on an empty list).
    pub fn selection_index(&self) -> (r: usize)
        ensures
            r == self@.sel,
    {
        self.sel_index
    }

    /// Whether the session was asked to end.
    pub fn exit_requested(&self) -> (r: bool)
        ensures
            r == self@.exit,
    {
        self.exit
    }

    /// The current mode.
    pub fn mode(&self) -> (r: Mode)
        ensures
            r == self@.mode,
    {
        self.mode
    }

    /// The number of marked items.
    pub fn marked_count(&self) -> (r: usize)
        requires
            self.inv(),
        ensures
            r == self@.marks.len(),
    {
        proof {
            self.mark_done_list@.unique_seq_to_set();
        }
        self.mark_done_list.len()
    }

    /// The item at index `i`.
    pub fn item_at(&self, i: usize) -> (r: &TodoItem)
        requires
            i < self@.items.len(),
        ensures
            *r == self@.items[i as int],
    {
        &self.todo_list.items[i]
    }

    /// The title of the item at index `i`.
    pub fn title_at(&self, i: usize) -> (r: &String)
        requires
            i < self@.items.len(),
        ensures
            *r == self@.items[i as int].title,
    {
        &self.todo_list.items[i].title
    }

    /// The titles of all items, in list order.
    pub fn get_titles_from_todo_items(&self) -> (r: Vec<String>)
        ensures
            r@.len() == self@.items.len(),
            forall|i: int| 0 <= i < r@.len() ==> #[trigger] r@[i] == self@.items[i].title,
    {
        let mut r: Vec<String> = Vec::new();
        let mut i: usize = 0;
        while i < self.todo_list.items.len()
            invariant
                i <= self.todo_list.items@.len(),
                r@.len() == i,
                forall|k: int| 0 <= k < i ==> #[trigger] r@[k] == self.todo_list.items@[k].title,
            decreases self.todo_list.items@.len() - i,
        {
            r.push(self.todo_list.items[i].title.clone());
            i += 1;
        }
        r
    }

    /// Whether some item has the title `item_name`.
    pub fn check_if_todo_item_exists(&self, item_name: &str) -> (r: bool)
        ensures
            r == exists|i: int| 0 <= i < self@.items.len() && #[trigger] self@.items[i].title@
                == item_name@,
    {
        let name = item_name.to_owned();
        let mut i: usize = 0;
        while i < self.todo_list.items.len()
            invariant
                i <= self.todo_list.items@.len(),
                name@ == item_name@,
                forall|k: int| 0 <= k < i ==> #[trigger] self.todo_list.items@[k].title@ != name@,
            decreases self.todo_list.items@.len() - i,
        {
            if self.todo_list.items[i].title == name {
                assert(self@.items[i as int].title@ == item_name@);
                return true;
            }
            i += 1;
        }
        false
    }

    /// Reserved for adding an item with the given title; the list is not
    /// changed yet, whether or not the title is already present.
    pub fn add_todo_item(&mut self, title: String)
        requires
            old(self).inv(),
        ensures
            final(self).inv(),
            final(self)@ == old(self)@,
    {
        if !self.check_if_todo_item_exists(title.as_str()) {
        }
    }
}

} // verus!
