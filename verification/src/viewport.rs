//! The viewport: which rows of the filtered list are drawn in a bounded
//! number of terminal rows, and how the visible window tracks the cursor.
//!
//! The window is a half-window centering with top anchoring: near the top
//! of the list it shows the list from index zero, deeper in the list it
//! centers on the cursor. No symmetric anchoring is applied at the bottom;
//! that asymmetry is deliberate and kept.

use vstd::prelude::*;
use vstd::string::StringExecFns;
use crate::command::Command;

verus! {

/// One drawn row of the two-column table.
pub struct ViewRow {
    pub title: String,
    pub command_text: String,
    /// This row is the one under the cursor, drawn distinctly.
    pub is_selected: bool,
}

/// Half of the data-row budget: one terminal row is reserved for the
/// header, one for the trailing filter-status line.
pub open spec fn half_window(rows: int) -> int {
    if rows < 2 {
        0
    } else {
        (rows - 2) / 2
    }
}

/// How far from the cursor a list index may lie and still be drawn. With
/// the cursor within the first half-window the window is anchored to the
/// top of the list (the slack above the cursor widens the reach); deeper
/// in the list it centers on the cursor.
pub open spec fn view_reach(rows: int, selected: int) -> int {
    if rows < 2 {
        0
    } else if selected <= half_window(rows) {
        2 * half_window(rows) - selected
    } else {
        half_window(rows)
    }
}

/// The data row at list index `idx` is drawn.
pub open spec fn row_visible(rows: int, selected: int, idx: int) -> bool {
    if idx >= selected {
        idx - selected < view_reach(rows, selected)
    } else {
        selected - idx < view_reach(rows, selected)
    }
}

/// The drawn rows are the slice of the filtered list that starts at list
/// index `start`: exactly the visible indices, in ascending list order,
/// with the cursor's row marked and no other.
pub open spec fn window_from(
    out: Seq<ViewRow>,
    filtered: Seq<Command>,
    selected: int,
    rows: int,
    start: int,
) -> bool {
    &&& 0 <= start
    &&& start + out.len() <= filtered.len()
    &&& forall|i: int|
        0 <= i < out.len() ==> {
            &&& (#[trigger] out[i]).title@ == filtered[start + i].title@
            &&& out[i].command_text@ == filtered[start + i].command_text@
            &&& (out[i].is_selected <==> start + i == selected)
        }
    &&& forall|idx: int|
        0 <= idx < filtered.len() ==> (#[trigger] row_visible(rows, selected, idx) <==> start <= idx
            < start + out.len())
}

/// The visible window of the filtered list, in ascending list order.
///
/// The row count never exceeds the data-row budget of `rows - 2`, and the
/// cursor's row is always among the drawn rows whenever at least one full
/// half-window fits (`rows >= 4`) and the list is non-empty.
pub fn visible_rows(filtered: &Vec<Command>, selected: usize, rows: usize) -> (out: Vec<ViewRow>)
    requires
        filtered@.len() > 0 ==> (selected as int) < filtered@.len(),
    ensures
        rows >= 2 ==> out@.len() <= rows - 2,
        rows < 2 ==> out@.len() == 0,
        exists|start: int| #[trigger] window_from(out@, filtered@, selected as int, rows as int, start),
        rows >= 4 && filtered@.len() > 0 ==> exists|i: int|
            0 <= i < out@.len() && (#[trigger] out@[i]).is_selected,
{
    let len = filtered.len();
    let mut out: Vec<ViewRow> = Vec::new();
    if len == 0 {
        proof {
            assert(window_from(out@, filtered@, selected as int, rows as int, 0));
        }
        return out;
    }
    let half: usize = if rows < 2 {
        0
    } else {
        (rows - 2) / 2
    };
    let reach: usize = if rows < 2 {
        0
    } else if selected <= half {
        2 * half - selected
    } else {
        half
    };
    let start: usize = if selected >= reach {
        selected - reach + 1
    } else {
        0
    };
    let end: usize = if len - selected < reach {
        len
    } else {
        selected + reach
    };
    proof {
        assert(reach == view_reach(rows as int, selected as int));
        assert(forall|idx: int|
            0 <= idx < filtered@.len() ==> (#[trigger] row_visible(rows as int, selected as int, idx)
                <==> start <= idx < end));
    }
    let mut idx: usize = start;
    while idx < end
        invariant
            start <= idx,
            idx <= end || idx == start,
            end <= len,
            len == filtered@.len(),
            (selected as int) < len,
            out@.len() == idx - start || (start > end && out@.len() == 0),
            start > end ==> idx == start,
            forall|i: int|
                0 <= i < out@.len() ==> {
                    &&& (#[trigger] out@[i]).title@ == filtered@[start + i].title@
                    &&& out@[i].command_text@ == filtered@[start + i].command_text@
                    &&& (out@[i].is_selected <==> start + i == selected as int)
                },
        decreases len - idx,
    {
        let c = &filtered[idx];
        out.push(
            ViewRow {
                title: c.title.clone(),
                command_text: c.command_text.clone(),
                is_selected: idx == selected,
            },
        );
        idx += 1;
    }
    proof {
        if start <= end {
            assert(out@.len() == end - start);
        }
        assert(window_from(out@, filtered@, selected as int, rows as int, start as int));
        if rows >= 4 && filtered@.len() > 0 {
            assert(view_reach(rows as int, selected as int) >= 1);
            assert(start <= selected < end);
            assert(out@[selected - start].is_selected);
        }
    }
    out
}

/// The trailing status row: the literal prefix `"Filter: "` followed by the
/// current search string.
pub fn filter_line(search_filter: &String) -> (r: String)
    ensures
        r@ == "Filter: "@ + search_filter@,
{
    let mut r = String::from_str("Filter: ");
    r.append(search_filter.as_str());
    r
}

} // verus!
