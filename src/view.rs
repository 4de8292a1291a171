use vstd::prelude::*;

use crate::model::{App, AppModel, TodoItem};

verus! {

/// How a row of the item list is drawn.
#[derive(Clone, Copy, PartialEq, Eq, Structural, Debug)]
pub enum RowStyle {
    /// Default colours.
    Plain,
    /// Highlighted background and emphasis.
    Selected,
    /// Struck through, default colours.
    Marked,
    /// Highlighted background, emphasis, struck through.
    SelectedMarked,
}

/// One row of the item list.
pub struct RowView {
    pub text: String,
    pub style: RowStyle,
}

/// One labelled line of the detail pane.
pub struct DetailLine {
    pub label: String,
    pub value: String,
}

/// One entry of the key legend: an action and the key bound to it.
pub struct LegendEntry {
    pub action: String,
    pub key: String,
}

/// What one frame shows: the item list on the left, details on the right.
pub struct FrameView {
    pub rows: Vec<RowView>,
    pub details: Vec<DetailLine>,
}

/// The decimal digit for `d < 10`.
pub open spec fn digit_char(d: nat) -> char {
    ((d + 48) as u8) as char
}

/// The decimal text of `n`, without leading zeros.
pub open spec fn decimal(n: nat) -> Seq<char>
    decreases n,
{
    if n < 10 {
        seq![digit_char(n)]
    } else {
        decimal(n / 10).push(digit_char(n % 10))
    }
}

/// A title with one space on each side.
pub open spec fn padded(t: Seq<char>) -> Seq<char> {
    seq![' '] + t + seq![' ']
}

/// The style of row `i`: the selection is highlighted, a mark strikes through.
pub open spec fn row_style(m: AppModel, i: int) -> RowStyle {
    let selected = i == m.sel;
    let marked = i >= 0 && m.marks.contains(i as usize);
    if selected && marked {
        RowStyle::SelectedMarked
    } else if selected {
        RowStyle::Selected
    } else if marked {
        RowStyle::Marked
    } else {
        RowStyle::Plain
    }
}

/// The texts of the left pane, one per item, in list order.
pub open spec fn left_pane(items: Seq<TodoItem>) -> Seq<Seq<char>> {
    Seq::new(items.len(), |i: int| padded(items[i].title@))
}

/// The right pane: four labelled lines for the selected item, or a placeholder.
pub open spec fn detail_pane(m: AppModel) -> Seq<(Seq<char>, Seq<char>)> {
    if m.items.len() == 0 {
        seq![(Seq::empty(), " No Item Selected "@)]
    } else {
        let it = m.items[m.sel as int];
        seq![
            ("TITLE: "@, it.title@),
            ("DATE: "@, it.date@),
            ("PRIORITY: "@, decimal(it.priority as nat)),
            ("DEADLINE: "@, it.deadline@),
        ]
    }
}

/// The key legend shown under the detail pane.
pub open spec fn legend() -> Seq<(Seq<char>, Seq<char>)> {
    seq![
        (" Next Item "@, " j "@),
        (" Prev Item "@, " k "@),
        (" Select Item "@, " Enter "@),
        (" Quit "@, " q "@),
    ]
}

fn legend_entry(action: &str, key: &str) -> (r: LegendEntry)
    ensures
        r.action@ == action@,
        r.key@ == key@,
{
    LegendEntry { action: String::from_str(action), key: String::from_str(key) }
}

/// The key legend, in display order.
pub fn key_legend() -> (r: Vec<LegendEntry>)
    ensures
        r@.len() == legend().len(),
        forall|i: int|
            0 <= i < r@.len() ==> (#[trigger] r@[i]).action@ == legend()[i].0 && r@[i].key@
                == legend()[i].1,
{
    let mut r: Vec<LegendEntry> = Vec::new();
    r.push(legend_entry(" Next Item ", " j "));
    r.push(legend_entry(" Prev Item ", " k "));
    r.push(legend_entry(" Select Item ", " Enter "));
    r.push(legend_entry(" Quit ", " q "));
    r
}

fn digit_str(d: u8) -> (r: &'static str)
    requires
        d < 10,
    ensures
        r@ == seq![digit_char(d as nat)],
{
    proof {
        reveal_strlit("0");
        reveal_strlit("1");
        reveal_strlit("2");
        reveal_strlit("3");
        reveal_strlit("4");
        reveal_strlit("5");
        reveal_strlit("6");
        reveal_strlit("7");
        reveal_strlit("8");
        reveal_strlit("9");
    }
    let r = match d {
        0 => "0",
        1 => "1",
        2 => "2",
        3 => "3",
        4 => "4",
        5 => "5",
        6 => "6",
        7 => "7",
        8 => "8",
        _ => "9",
    };
    assert(r@ =~= seq![digit_char(d as nat)]);
    r
}

/// The decimal text of a priority.
pub fn priority_text(n: u8) -> (r: String)
    ensures
        r@ == decimal(n as nat),
    decreases n,
{
    if n < 10 {
        String::from_str(digit_str(n))
    } else {
        let mut r = priority_text(n / 10);
        r.append(digit_str(n % 10));
        assert(r@ =~= decimal(n as nat));
        r
    }
}

/// A title with one space on each side.
pub fn padded_title(t: &String) -> (r: String)
    ensures
        r@ == padded(t@),
{
    proof {
        reveal_strlit(" ");
    }
    let mut r = String::from_str(" ");
    r.append(t.as_str());
    r.append(" ");
    assert(r@ =~= padded(t@));
    r
}

fn detail_line(label: &str, value: String) -> (r: DetailLine)
    ensures
        r.label@ == label@,
        r.value@ == value@,
{
    DetailLine { label: String::from_str(label), value }
}

impl App {
    /// The style of row `i`.
    pub fn row_style_at(&self, i: usize) -> (r: RowStyle)
        requires
            i < self@.items.len(),
        ensures
            r == row_style(self@, i as int),
    {
        let selected = i == self.selection_index();
        let marked = self.is_marked_done(i);
        if selected && marked {
            RowStyle::SelectedMarked
        } else if selected {
            RowStyle::Selected
        } else if marked {
            RowStyle::Marked
        } else {
            RowStyle::Plain
        }
    }

    /// What the current state shows. Changes nothing.
    pub fn frame_view(&self) -> (r: FrameView)
        requires
            self.inv(),
        ensures
            r.rows@.len() == self@.items.len(),
            forall|i: int|
                0 <= i < r.rows@.len() ==> (#[trigger] r.rows@[i]).text@ == left_pane(
                    self@.items,
                )[i] && r.rows@[i].style == row_style(self@, i),
            r.details@.len() == detail_pane(self@).len(),
            forall|i: int|
                0 <= i < r.details@.len() ==> (#[trigger] r.details@[i]).label@ == detail_pane(
                    self@,
                )[i].0 && r.details@[i].value@ == detail_pane(self@)[i].1,
    {
        let n = self.item_count();
        let mut rows: Vec<RowView> = Vec::new();
        let mut i: usize = 0;
        while i < n
            invariant
                n == self@.items.len(),
                i <= n,
                rows@.len() == i,
                forall|k: int|
                    0 <= k < i ==> (#[trigger] rows@[k]).text@ == left_pane(self@.items)[k]
                        && rows@[k].style == row_style(self@, k),
            decreases n - i,
        {
            let text = padded_title(self.title_at(i));
            let style = self.row_style_at(i);
            rows.push(RowView { text, style });
            i += 1;
        }
        proof {
            self.lemma_inv_wf();
        }
        let mut details: Vec<DetailLine> = Vec::new();
        if n == 0 {
            details.push(detail_line("", String::from_str(" No Item Selected ")));
        } else {
            let it = self.item_at(self.selection_index());
            details.push(detail_line("TITLE: ", it.title.clone()));
            details.push(detail_line("DATE: ", it.date.clone()));
            details.push(detail_line("PRIORITY: ", priority_text(it.priority)));
            details.push(detail_line("DEADLINE: ", it.deadline.clone()));
        }
        proof {
            reveal_strlit("");
        }
        FrameView { rows, details }
    }
}

} // verus!
