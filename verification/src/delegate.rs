//! The list of windows in the picker and the selection that moves
//! through it, one after another or across the rows of a grid.

use vstd::prelude::*;
use vstd::math::min;
use vstd::arithmetic::div_mod::{lemma_fundamental_div_mod, lemma_hoist_over_denominator};
use crate::config::LabelConfig;
use crate::platform::WindowInfo;
use crate::text::str_eq;

verus! {

/// A direction in the grid.
#[derive(Clone, Copy, Debug, PartialEq, Eq, Structural)]
pub enum GridDirection {
    Left,
    Right,
    Up,
    Down,
}

/// The windows of the picker and the position of the selected one.
pub struct WindowDelegate {
    windows: Vec<WindowInfo>,
    selected_index: Option<usize>,
    label_config: LabelConfig,
}

/// The number of columns that a grid of `total` windows really has when
/// `columns` are asked for: one at least, and no more than windows.
pub open spec fn grid_columns(columns: int, total: int) -> int {
    min(if columns < 1 {
        1
    } else {
        columns
    }, total)
}

/// The first position of row `row`.
pub open spec fn row_start(row: int, cols: int) -> int {
    row * cols
}

/// The position behind the last one of row `row`.
pub open spec fn row_end(row: int, cols: int, total: int) -> int {
    min((row + 1) * cols, total)
}

/// The number of rows of the grid.
pub open spec fn grid_rows(total: int, cols: int) -> int {
    (total + cols - 1) / cols
}

/// Where a step in the grid leads from `current`. A step to the side
/// stays in the row and stops at its ends. A step up or down keeps the
/// column, or goes to the end of a shorter row, and stops at the first
/// and at the last row.
pub open spec fn grid_step(total: int, columns: int, current: int, direction: GridDirection) -> int
    recommends
        0 <= current < total,
{
    let cols = grid_columns(columns, total);
    let row = current / cols;
    let col = current % cols;
    match direction {
        GridDirection::Left => if current > row_start(row, cols) {
            current - 1
        } else {
            current
        },
        GridDirection::Right => if current + 1 < row_end(row, cols, total) {
            current + 1
        } else {
            current
        },
        GridDirection::Up => if row == 0 {
            current
        } else {
            row_start(row - 1, cols) + min(
                col,
                row_end(row - 1, cols, total) - row_start(row - 1, cols) - 1,
            )
        },
        GridDirection::Down => if row + 1 >= grid_rows(total, cols) {
            current
        } else {
            row_start(row + 1, cols) + min(
                col,
                row_end(row + 1, cols, total) - row_start(row + 1, cols) - 1,
            )
        },
    }
}

/// The position that is selected, counting no selection as the first.
pub open spec fn selected_or_first(selected: Option<usize>) -> int {
    match selected {
        Some(i) => i as int,
        None => 0,
    }
}

/// The selection once the list holds `len` windows: none in an empty
/// list, the first window after a reset, else the old position or, where
/// the list has become too short for it, the last window.
pub open spec fn selection_for(selected: Option<usize>, len: int, reset: bool) -> Option<usize> {
    if len == 0 {
        None
    } else if reset {
        Some(0usize)
    } else {
        Some(min(selected_or_first(selected), len - 1) as usize)
    }
}

/// The windows that do not have the given identifier, in their order.
pub open spec fn without_id(windows: Seq<WindowInfo>, id: u32) -> Seq<WindowInfo> {
    windows.filter(|w: WindowInfo| w.id != id)
}

/// The windows that do not belong to the given application, in their
/// order.
pub open spec fn without_app(windows: Seq<WindowInfo>, app_name: Seq<char>) -> Seq<WindowInfo> {
    windows.filter(|w: WindowInfo| w.app_name@ != app_name)
}

/// The last window with the given identifier, if there is one.
pub open spec fn last_with_id(windows: Seq<WindowInfo>, id: u32) -> Option<WindowInfo>
    decreases windows.len(),
{
    if windows.len() == 0 {
        None
    } else if windows.last().id == id {
        Some(windows.last())
    } else {
        last_with_id(windows.drop_last(), id)
    }
}

/// The window marked as minimized.
pub open spec fn minimized(window: WindowInfo) -> WindowInfo {
    WindowInfo { is_minimized: true, ..window }
}

/// The list after a window was minimized: the other windows keep their
/// order, and the minimized one follows them.
pub open spec fn with_minimized(windows: Seq<WindowInfo>, id: u32) -> Seq<WindowInfo> {
    match last_with_id(windows, id) {
        Some(w) => without_id(windows, id).push(minimized(w)),
        None => without_id(windows, id),
    }
}

/// Taking one more window into account extends the filtered list by that
/// window or leaves it as it is.
proof fn lemma_filter_next(windows: Seq<WindowInfo>, k: int, pred: spec_fn(WindowInfo) -> bool)
    requires
        0 <= k < windows.len(),
    ensures
        windows.take(k + 1).filter(pred) == if pred(windows[k]) {
            windows.take(k).filter(pred).push(windows[k])
        } else {
            windows.take(k).filter(pred)
        },
{
    reveal(Seq::filter);
    assert(windows.take(k + 1).drop_last() =~= windows.take(k));
}

/// Taking one more window into account keeps the last window found with
/// the identifier, unless the new window has it.
proof fn lemma_last_with_id_next(windows: Seq<WindowInfo>, k: int, id: u32)
    requires
        0 <= k < windows.len(),
    ensures
        last_with_id(windows.take(k + 1), id) == if windows[k].id == id {
            Some(windows[k])
        } else {
            last_with_id(windows.take(k), id)
        },
{
    assert(windows.take(k + 1).drop_last() =~= windows.take(k));
}

/// Removes the windows with the given identifier and hands out the last
/// of them.
fn take_out_id(windows: &mut Vec<WindowInfo>, id: u32) -> (found: Option<WindowInfo>)
    ensures
        final(windows)@ == without_id(old(windows)@, id),
        found == last_with_id(old(windows)@, id),
{
    let ghost orig = windows@;
    let ghost pred = |w: WindowInfo| w.id != id;
    let ghost mut k: int = 0;
    let mut found: Option<WindowInfo> = None;
    let mut i: usize = 0;
    proof {
        reveal(Seq::filter);
        assert(orig.take(0).filter(pred) =~= Seq::<WindowInfo>::empty());
        assert(orig.skip(0) =~= orig);
    }
    while i < windows.len()
        invariant
            0 <= k <= orig.len(),
            i == orig.take(k).filter(pred).len(),
            windows@ == orig.take(k).filter(pred) + orig.skip(k),
            found == last_with_id(orig.take(k), id),
            pred == (|w: WindowInfo| w.id != id),
        decreases orig.len() - k,
    {
        proof {
            lemma_filter_next(orig, k, pred);
            lemma_last_with_id_next(orig, k, id);
            assert(windows@[i as int] == orig[k]);
        }
        if windows[i].id == id {
            let removed = windows.remove(i);
            found = Some(removed);
            proof {
                assert(windows@ =~= orig.take(k + 1).filter(pred) + orig.skip(k + 1));
            }
        } else {
            proof {
                assert(windows@ =~= orig.take(k + 1).filter(pred) + orig.skip(k + 1));
            }
            i += 1;
        }
        proof {
            k = k + 1;
        }
    }
    proof {
        assert(orig.take(k) =~= orig);
        assert(windows@ =~= orig.filter(pred));
    }
    found
}

/// Removes the windows of the given application.
fn take_out_app(windows: &mut Vec<WindowInfo>, app_name: &str)
    ensures
        final(windows)@ == without_app(old(windows)@, app_name@),
{
    let ghost orig = windows@;
    let ghost pred = |w: WindowInfo| w.app_name@ != app_name@;
    let ghost mut k: int = 0;
    let mut i: usize = 0;
    proof {
        reveal(Seq::filter);
        assert(orig.take(0).filter(pred) =~= Seq::<WindowInfo>::empty());
        assert(orig.skip(0) =~= orig);
    }
    while i < windows.len()
        invariant
            0 <= k <= orig.len(),
            i == orig.take(k).filter(pred).len(),
            windows@ == orig.take(k).filter(pred) + orig.skip(k),
            pred == (|w: WindowInfo| w.app_name@ != app_name@),
        decreases orig.len() - k,
    {
        proof {
            lemma_filter_next(orig, k, pred);
            assert(windows@[i as int] == orig[k]);
        }
        if str_eq(windows[i].app_name.as_str(), app_name) {
            windows.remove(i);
            proof {
                assert(windows@ =~= orig.take(k + 1).filter(pred) + orig.skip(k + 1));
            }
        } else {
            proof {
                assert(windows@ =~= orig.take(k + 1).filter(pred) + orig.skip(k + 1));
            }
            i += 1;
        }
        proof {
            k = k + 1;
        }
    }
    proof {
        assert(orig.take(k) =~= orig);
        assert(windows@ =~= orig.filter(pred));
    }
}

impl WindowDelegate {
    /// The windows, in the order in which the picker shows them.
    pub closed spec fn spec_windows(&self) -> Seq<WindowInfo> {
        self.windows@
    }

    /// The position of the selected window.
    pub closed spec fn spec_selected(&self) -> Option<usize> {
        self.selected_index
    }

    /// A window is selected exactly when there are windows, and the
    /// selected position lies in the list.
    pub open spec fn wf(&self) -> bool {
        match self.spec_selected() {
            Some(i) => i < self.spec_windows().len(),
            None => self.spec_windows().len() == 0,
        }
    }

    /// A delegate that selects the first window, if there is one.
    pub fn new(windows: Vec<WindowInfo>, label_config: LabelConfig) -> (delegate: WindowDelegate)
        ensures
            delegate.wf(),
            delegate.spec_windows() == windows@,
            delegate.spec_selected() == selection_for(None, windows@.len() as int, true),
            delegate.spec_label_config() == label_config,
    {
        let selected_index = if windows.len() == 0 {
            None
        } else {
            Some(0)
        };
        WindowDelegate { windows, selected_index, label_config }
    }

    /// The windows.
    pub fn windows(&self) -> (windows: &Vec<WindowInfo>)
        ensures
            windows@ == self.spec_windows(),
    {
        &self.windows
    }

    /// The position of the selected window.
    pub fn selected_index(&self) -> (selected: Option<usize>)
        ensures
            selected == self.spec_selected(),
    {
        self.selected_index
    }

    /// The selected window.
    pub fn selected_window(&self) -> (window: Option<&WindowInfo>)
        requires
            self.wf(),
        ensures
            match self.spec_selected() {
                Some(i) => window == Some(&self.spec_windows()[i as int]),
                None => window is None,
            },
    {
        match self.selected_index {
            Some(i) => Some(&self.windows[i]),
            None => None,
        }
    }

    /// How the windows are labelled.
    pub closed spec fn spec_label_config(&self) -> LabelConfig {
        self.label_config
    }

    /// How the windows are labelled.
    pub fn label_config(&self) -> (config: LabelConfig)
        ensures
            config == self.spec_label_config(),
    {
        self.label_config
    }

    /// Replaces the windows. The selection starts over on request and is
    /// else kept as far as the new list reaches.
    pub fn set_windows(&mut self, windows: Vec<WindowInfo>, reset_selection: bool)
        ensures
            final(self).wf(),
            final(self).spec_windows() == windows@,
            final(self).spec_selected() == selection_for(
                old(self).spec_selected(),
                windows@.len() as int,
                reset_selection,
            ),
    {
        self.windows = windows;
        let len = self.windows.len();
        if len == 0 {
            self.selected_index = None;
            return ;
        }
        if reset_selection {
            self.selected_index = Some(0);
            return ;
        }
        let selected = match self.selected_index {
            Some(i) => i,
            None => 0,
        };
        self.selected_index = Some(if selected < len - 1 {
            selected
        } else {
            len - 1
        });
    }

    fn settle_selection(&mut self)
        ensures
            final(self).wf(),
            final(self).spec_windows() == old(self).spec_windows(),
            final(self).spec_selected() == selection_for(
                old(self).spec_selected(),
                old(self).spec_windows().len() as int,
                false,
            ),
    {
        let len = self.windows.len();
        if len == 0 {
            self.selected_index = None;
            return ;
        }
        let selected = match self.selected_index {
            Some(i) => i,
            None => 0,
        };
        self.selected_index = Some(if selected < len - 1 {
            selected
        } else {
            len - 1
        });
    }

    /// Takes a window out of the list, as after closing it.
    pub fn remove_window(&mut self, window_id: u32)
        ensures
            final(self).wf(),
            final(self).spec_windows() == without_id(old(self).spec_windows(), window_id),
            final(self).spec_selected() == selection_for(
                old(self).spec_selected(),
                final(self).spec_windows().len() as int,
                false,
            ),
    {
        take_out_id(&mut self.windows, window_id);
        self.settle_selection();
    }

    /// Takes all windows of an application out of the list, as after
    /// quitting it.
    pub fn remove_app_windows(&mut self, app_name: &str)
        ensures
            final(self).wf(),
            final(self).spec_windows() == without_app(old(self).spec_windows(), app_name@),
            final(self).spec_selected() == selection_for(
                old(self).spec_selected(),
                final(self).spec_windows().len() as int,
                false,
            ),
    {
        take_out_app(&mut self.windows, app_name);
        self.settle_selection();
    }

    /// Marks a window as minimized and moves it behind the others.
    pub fn mark_minimized(&mut self, window_id: u32)
        ensures
            final(self).wf(),
            final(self).spec_windows() == with_minimized(old(self).spec_windows(), window_id),
            final(self).spec_selected() == selection_for(
                old(self).spec_selected(),
                final(self).spec_windows().len() as int,
                false,
            ),
    {
        let target = take_out_id(&mut self.windows, window_id);
        if let Some(window) = target {
            let mut window = window;
            window.is_minimized = true;
            self.windows.push(window);
        }
        self.settle_selection();
    }

    /// Selects the window at the given position. A position beyond the
    /// list changes nothing.
    pub fn select(&mut self, index: usize)
        requires
            old(self).wf(),
        ensures
            final(self).wf(),
            final(self).spec_windows() == old(self).spec_windows(),
            final(self).spec_selected() == if index < old(self).spec_windows().len() {
                Some(index)
            } else {
                old(self).spec_selected()
            },
    {
        if index < self.windows.len() {
            self.selected_index = Some(index);
        }
    }

    /// Changes how the windows are labelled.
    pub fn set_label_config(&mut self, label_config: LabelConfig)
        ensures
            final(self).spec_windows() == old(self).spec_windows(),
            final(self).spec_selected() == old(self).spec_selected(),
            final(self).spec_label_config() == label_config,
    {
        self.label_config = label_config;
    }

    /// Selects the window behind the selected one, and the first one
    /// behind the last.
    pub fn select_next(&mut self)
        requires
            old(self).wf(),
        ensures
            final(self).wf(),
            final(self).spec_windows() == old(self).spec_windows(),
            match old(self).spec_selected() {
                Some(i) => final(self).spec_selected() == Some(
                    ((i + 1) % (old(self).spec_windows().len() as int)) as usize,
                ),
                None => final(self).spec_selected() is None,
            },
    {
        let len = self.windows.len();
        if len == 0 {
            return ;
        }
        let current = match self.selected_index {
            Some(i) => i,
            None => 0,
        };
        proof {
            if current + 1 == len {
                vstd::arithmetic::div_mod::lemma_mod_self_0(len as int);
            } else {
                vstd::arithmetic::div_mod::lemma_small_mod((current + 1) as nat, len as nat);
            }
        }
        self.selected_index = Some(if current + 1 == len {
            0
        } else {
            current + 1
        });
    }

    /// Selects the window before the selected one, and the last one
    /// before the first.
    pub fn select_prev(&mut self)
        requires
            old(self).wf(),
        ensures
            final(self).wf(),
            final(self).spec_windows() == old(self).spec_windows(),
            match old(self).spec_selected() {
                Some(i) => final(self).spec_selected() == Some(
                    if i == 0 {
                        (old(self).spec_windows().len() - 1) as usize
                    } else {
                        (i - 1) as usize
                    },
                ),
                None => final(self).spec_selected() is None,
            },
    {
        let len = self.windows.len();
        if len == 0 {
            return ;
        }
        let current = match self.selected_index {
            Some(i) => i,
            None => 0,
        };
        self.selected_index = Some(if current == 0 {
            len - 1
        } else {
            current - 1
        });
    }

    /// Moves the selection one step in a grid of `columns` columns.
    pub fn move_in_grid(&mut self, direction: GridDirection, columns: usize)
        requires
            old(self).wf(),
        ensures
            final(self).wf(),
            final(self).spec_windows() == old(self).spec_windows(),
            match old(self).spec_selected() {
                Some(i) => final(self).spec_selected() == Some(
                    grid_step(
                        old(self).spec_windows().len() as int,
                        columns as int,
                        i as int,
                        direction,
                    ) as usize,
                ),
                None => final(self).spec_selected() is None,
            },
    {
        let total = self.windows.len();
        if total == 0 {
            return ;
        }
        let cols = if columns < 1 {
            1
        } else if columns > total {
            total
        } else {
            columns
        };
        let current = match self.selected_index {
            Some(i) => i,
            None => 0,
        };
        proof {
            lemma_grid_facts(total as int, cols as int, current as int);
        }
        let row = current / cols;
        let col = current % cols;
        let start = current - col;
        let last_row = (total - 1) / cols;
        let next = match direction {
            GridDirection::Left => {
                if col > 0 {
                    current - 1
                } else {
                    current
                }
            },
            GridDirection::Right => {
                if col + 1 < cols && current + 1 < total {
                    current + 1
                } else {
                    current
                }
            },
            GridDirection::Up => {
                if row == 0 {
                    current
                } else {
                    current - cols
                }
            },
            GridDirection::Down => {
                if row >= last_row {
                    current
                } else {
                    let below = start + cols;
                    let room = total - below;
                    if col < room {
                        below + col
                    } else {
                        total - 1
                    }
                }
            },
        };
        self.selected_index = Some(next);
    }

    /// Moves the selection one window to the left.
    pub fn select_left(&mut self, columns: usize)
        requires
            old(self).wf(),
        ensures
            final(self).wf(),
            final(self).spec_windows() == old(self).spec_windows(),
            match old(self).spec_selected() {
                Some(i) => final(self).spec_selected() == Some(
                    grid_step(
                        old(self).spec_windows().len() as int,
                        columns as int,
                        i as int,
                        GridDirection::Left,
                    ) as usize,
                ),
                None => final(self).spec_selected() is None,
            },
    {
        self.move_in_grid(GridDirection::Left, columns);
    }

    /// Moves the selection one window to the right.
    pub fn select_right(&mut self, columns: usize)
        requires
            old(self).wf(),
        ensures
            final(self).wf(),
            final(self).spec_windows() == old(self).spec_windows(),
            match old(self).spec_selected() {
                Some(i) => final(self).spec_selected() == Some(
                    grid_step(
                        old(self).spec_windows().len() as int,
                        columns as int,
                        i as int,
                        GridDirection::Right,
                    ) as usize,
                ),
                None => final(self).spec_selected() is None,
            },
    {
        self.move_in_grid(GridDirection::Right, columns);
    }

    /// Moves the selection one row up.
    pub fn select_up(&mut self, columns: usize)
        requires
            old(self).wf(),
        ensures
            final(self).wf(),
            final(self).spec_windows() == old(self).spec_windows(),
            match old(self).spec_selected() {
                Some(i) => final(self).spec_selected() == Some(
                    grid_step(
                        old(self).spec_windows().len() as int,
                        columns as int,
                        i as int,
                        GridDirection::Up,
                    ) as usize,
                ),
                None => final(self).spec_selected() is None,
            },
    {
        self.move_in_grid(GridDirection::Up, columns);
    }

    /// Moves the selection one row down.
    pub fn select_down(&mut self, columns: usize)
        requires
            old(self).wf(),
        ensures
            final(self).wf(),
            final(self).spec_windows() == old(self).spec_windows(),
            match old(self).spec_selected() {
                Some(i) => final(self).spec_selected() == Some(
                    grid_step(
                        old(self).spec_windows().len() as int,
                        columns as int,
                        i as int,
                        GridDirection::Down,
                    ) as usize,
                ),
                None => final(self).spec_selected() is None,
            },
    {
        self.move_in_grid(GridDirection::Down, columns);
    }
}

/// The arithmetic of a grid position: its row starts `col` positions
/// before it, the rows above are full, and the row below, if there is
/// one, starts within the list.
pub proof fn lemma_grid_facts(total: int, cols: int, current: int)
    requires
        0 <= current < total,
        1 <= cols <= total,
    ensures
        row_start(current / cols, cols) == current - current % cols,
        0 <= current % cols < cols,
        current % cols <= current,
        0 <= current / cols,
        grid_rows(total, cols) == (total - 1) / cols + 1,
        current / cols <= (total - 1) / cols,
        current / cols > 0 ==> row_start(current / cols - 1, cols) == current - current % cols
            - cols && row_end(current / cols - 1, cols, total) == current - current % cols,
        current / cols < (total - 1) / cols ==> current - current % cols + cols < total,
        current / cols >= (total - 1) / cols ==> current - current % cols + cols >= total,
        row_end(current / cols, cols, total) == min(current - current % cols + cols, total),
        row_start(current / cols + 1, cols) == current - current % cols + cols,
        row_end(current / cols + 1, cols, total) == min(
            current - current % cols + 2 * cols,
            total,
        ),
{
    let row = current / cols;
    let col = current % cols;
    let last = (total - 1) / cols;
    lemma_fundamental_div_mod(current, cols);
    lemma_fundamental_div_mod(total - 1, cols);
    lemma_hoist_over_denominator(total - 1, 1, cols as nat);
    assert(row * cols == cols * row) by (nonlinear_arith);
    assert((row + 1) * cols == row * cols + cols) by (nonlinear_arith);
    assert((row + 2) * cols == row * cols + 2 * cols) by (nonlinear_arith);
    assert((row - 1) * cols == row * cols - cols) by (nonlinear_arith);
    assert(0 <= col < cols);
    assert(row >= 0) by (nonlinear_arith)
        requires
            current >= 0,
            cols > 0,
            row == current / cols,
    ;
    assert(row <= last) by (nonlinear_arith)
        requires
            current <= total - 1,
            cols > 0,
            row == current / cols,
            last == (total - 1) / cols,
    ;
    if row < last {
        assert(cols * (row + 1) <= cols * last) by (nonlinear_arith)
            requires
                row + 1 <= last,
                cols > 0,
        ;
        assert(cols * (row + 1) == cols * row + cols) by (nonlinear_arith);
    } else {
        assert(cols * row + cols > total - 1);
    }
}

/// A step in the grid stays in the list. A step to the left or right
/// moves by one window unless the row ends there; a step up moves by a
/// full row unless the selection is in the first row; a step down moves
/// by a full row, or to the last window where the row below is too short,
/// unless the selection is in the last row.
pub proof fn lemma_grid_step(total: int, columns: int, current: int)
    requires
        0 <= current < total,
    ensures
        ({
            let cols = grid_columns(columns, total);
            let col = current % cols;
            &&& 1 <= cols <= total
            &&& 0 <= col < cols
            &&& grid_step(total, columns, current, GridDirection::Left) == if col > 0 {
                current - 1
            } else {
                current
            }
            &&& grid_step(total, columns, current, GridDirection::Right) == if col + 1 < cols
                && current + 1 < total {
                current + 1
            } else {
                current
            }
            &&& grid_step(total, columns, current, GridDirection::Up) == if current >= cols {
                current - cols
            } else {
                current
            }
            &&& grid_step(total, columns, current, GridDirection::Down) == if current - col + cols
                < total {
                min(current + cols, total - 1)
            } else {
                current
            }
        }),
{
    let cols = grid_columns(columns, total);
    lemma_grid_facts(total, cols, current);
    let row = current / cols;
    if row == 0 {
        assert(row_start(0, cols) == 0) by (nonlinear_arith);
    } else {
        assert(row * cols >= cols) by (nonlinear_arith)
            requires
                row >= 1,
                cols >= 1,
        ;
    }
}

} // verus!
