//! Per-tab menu state of the editor: which lines are selected, which menu each frame
//! bulk shows for its strafe settings, where a new line goes and whether the tab holds
//! unsaved changes.
use vstd::prelude::*;
use std::ops::Range;
use crate::model::FrameBulkMovement;
use crate::script::{line_movement, movement_of_line};
use crate::new_line_menu::{kind_of_line, LineKind};
use crate::sequences::{lemma_true_positions, repeat_bool, true_positions};

verus! {

/// Which editor the strafe menu of a frame bulk shows.
#[derive(Clone, Copy, Debug, PartialEq, Eq, Structural)]
pub enum StrafeMenuSelection {
    Strafe,
    Keys,
}

/// The strafe menu a frame bulk starts with: the strafe editor when it strafes or holds
/// no movement key, the key editor otherwise.
pub open spec fn selection_for(m: FrameBulkMovement) -> StrafeMenuSelection {
    if m.strafing {
        StrafeMenuSelection::Strafe
    } else if m.movement_keys.down || m.movement_keys.up || m.movement_keys.forward
        || m.movement_keys.left || m.movement_keys.right || m.movement_keys.back {
        StrafeMenuSelection::Keys
    } else {
        StrafeMenuSelection::Strafe
    }
}

/// The strafe menu entry of a line: `Some` for a frame bulk, `None` for any other line.
pub open spec fn selection_for_line(line: hltas::types::Line) -> Option<StrafeMenuSelection> {
    match line_movement(line) {
        Some(m) => Some(selection_for(m)),
        None => None,
    }
}

/// The strafe menu entries of a list of lines.
pub open spec fn selections_for_lines(lines: Seq<hltas::types::Line>) -> Seq<Option<StrafeMenuSelection>> {
    lines.map_values(|l: hltas::types::Line| selection_for_line(l))
}

impl StrafeMenuSelection {
    pub fn new(framebulk: &FrameBulkMovement) -> (r: Self)
        ensures
            r == selection_for(*framebulk),
    {
        if framebulk.strafing {
            StrafeMenuSelection::Strafe
        } else {
            let movement_keys = &framebulk.movement_keys;
            if movement_keys.down || movement_keys.up || movement_keys.forward
                || movement_keys.left || movement_keys.right || movement_keys.back {
                StrafeMenuSelection::Keys
            } else {
                StrafeMenuSelection::Strafe
            }
        }
    }
}

/// Computes the strafe menu entry of a line.
pub fn selection_of_line(line: &hltas::types::Line) -> (r: Option<StrafeMenuSelection>)
    ensures
        r == selection_for_line(*line),
        (r is Some) == (kind_of_line(*line) == LineKind::FrameBulk),
{
    match movement_of_line(line) {
        Some(m) => Some(StrafeMenuSelection::new(&m)),
        None => None,
    }
}

/// Struct to keep track of some menu states for the hltas object in the tab.
#[derive(Debug)]
pub struct HLTASMenuState {
    strafe_menu_selections: Vec<Option<StrafeMenuSelection>>,
    right_click_popup_index: Option<usize>,
    selected_indexes: Vec<bool>,
    got_modified: bool,
    goto_line: Option<usize>,
    is_modifying_something: bool,
}

/// The menu state as values: one strafe menu entry and one selection flag per line.
pub struct MenuStateView {
    pub selections: Seq<Option<StrafeMenuSelection>>,
    pub selected: Seq<bool>,
    pub right_click_popup_index: Option<usize>,
    pub modified: bool,
    pub goto_line: Option<usize>,
    pub modifying_something: bool,
}

impl MenuStateView {
    /// One strafe menu entry per selection flag.
    pub open spec fn wf(self) -> bool {
        self.selections.len() == self.selected.len()
    }

    /// The number of lines the state is kept for.
    pub open spec fn len(self) -> nat {
        self.selected.len()
    }
}

impl View for HLTASMenuState {
    type V = MenuStateView;

    closed spec fn view(&self) -> MenuStateView {
        MenuStateView {
            selections: self.strafe_menu_selections@,
            selected: self.selected_indexes@,
            right_click_popup_index: self.right_click_popup_index,
            modified: self.got_modified,
            goto_line: self.goto_line,
            modifying_something: self.is_modifying_something,
        }
    }
}

impl HLTASMenuState {
    /// Menu state for a script with the given lines: nothing selected, no pending jump,
    /// unmodified.
    pub fn new(lines: &Vec<hltas::types::Line>) -> (r: Self)
        ensures
            r@.selections == selections_for_lines(lines@),
            r@.selected == repeat_bool(false, lines@.len()),
            forall|i: int| 0 <= i < lines@.len() ==> (#[trigger] r@.selections[i] is Some) == (kind_of_line(lines@[i])
                == LineKind::FrameBulk),
            r@.right_click_popup_index is None,
            !r@.modified,
            r@.goto_line is None,
            !r@.modifying_something,
            r@.wf(),
    {
        let mut strafe_menu_selections: Vec<Option<StrafeMenuSelection>> = Vec::new();
        let mut selected_indexes: Vec<bool> = Vec::new();
        let n = lines.len();
        for i in 0..n
            invariant
                n == lines@.len(),
                strafe_menu_selections@ == selections_for_lines(lines@.take(i as int)),
                selected_indexes@ == repeat_bool(false, i as nat),
                forall|j: int| 0 <= j < i ==> (#[trigger] strafe_menu_selections@[j] is Some) == (kind_of_line(lines@[j])
                    == LineKind::FrameBulk),
        {
            strafe_menu_selections.push(selection_of_line(&lines[i]));
            selected_indexes.push(false);
            assert(selections_for_lines(lines@.take(i + 1)) =~= selections_for_lines(lines@.take(i as int)).push(selection_for_line(lines@[i as int])));
            assert(selected_indexes@ =~= repeat_bool(false, (i + 1) as nat));
        }
        assert(lines@.take(n as int) =~= lines@);
        Self {
            is_modifying_something: false,
            strafe_menu_selections,
            right_click_popup_index: None,
            selected_indexes,
            got_modified: false,
            goto_line: None,
        }
    }

    pub fn is_index_selected(&self, index: usize) -> (r: bool)
        requires
            index < self@.len(),
        ensures
            r == self@.selected[index as int],
    {
        self.selected_indexes[index]
    }

    /// Get a reference to the hltasmenu state's selected indexes.
    pub fn selected_indexes(&self) -> (r: &[bool])
        ensures
            r@ == self@.selected,
    {
        self.selected_indexes.as_slice()
    }

    /// The selected positions, in increasing order.
    pub fn selected_indexes_collection(&self) -> (r: Vec<usize>)
        ensures
            r@ == true_positions(self@.selected),
    {
        let mut r: Vec<usize> = Vec::new();
        let n = self.selected_indexes.len();
        for i in 0..n
            invariant
                n == self.selected_indexes@.len(),
                r@ == true_positions(self.selected_indexes@.take(i as int)),
        {
            assert(self.selected_indexes@.take(i + 1).drop_last() =~= self.selected_indexes@.take(i as int));
            if self.selected_indexes[i] {
                r.push(i);
            }
        }
        assert(self.selected_indexes@.take(n as int) =~= self.selected_indexes@);
        r
    }

    pub fn reset_selected_indexes(&mut self)
        ensures
            final(self)@ == (MenuStateView { selected: repeat_bool(false, old(self)@.len()), ..old(self)@ }),
    {
        self.selected_indexes = vec_of(false, self.selected_indexes.len());
    }

    pub fn select_all_indexes(&mut self)
        ensures
            final(self)@ == (MenuStateView { selected: repeat_bool(true, old(self)@.len()), ..old(self)@ }),
    {
        self.selected_indexes = vec_of(true, self.selected_indexes.len());
    }

    pub fn change_selected_index(&mut self, index: usize, state: bool)
        requires
            index < old(self)@.len(),
        ensures
            final(self)@ == (MenuStateView { selected: old(self)@.selected.update(index as int, state), ..old(self)@ }),
    {
        self.selected_indexes.set(index, state);
    }

    /// Sets the selection flag of every position in `range`.
    pub fn select_index_range(&mut self, range: Range<usize>, state: bool)
        requires
            range.start < range.end ==> range.end <= old(self)@.len(),
        ensures
            final(self)@ == (MenuStateView {
                selected: Seq::new(old(self)@.len(), |i: int|
                    if range.start <= i < range.end { state } else { old(self)@.selected[i] }),
                ..old(self)@
            }),
    {
        let ghost before = self.selected_indexes@;
        let ghost whole = self@;
        if range.start >= range.end {
            assert(self@.selected =~= Seq::new(before.len(), |j: int|
                if range.start <= j < range.end { state } else { before[j] }));
            return;
        }
        let mut i: usize = range.start;
        while i < range.end
            invariant
                range.start <= i <= range.end <= before.len(),
                before == whole.selected,
                self@ == (MenuStateView { selected: self.selected_indexes@, ..whole }),
                self.selected_indexes@.len() == before.len(),
                forall|j: int| 0 <= j < before.len() ==> self.selected_indexes@[j] ==
                    if range.start <= j < i { state } else { before[j] },
            decreases range.end - i,
        {
            self.selected_indexes.set(i, state);
            i = i + 1;
        }
        proof {
            let target = Seq::new(before.len(), |j: int|
                if range.start <= j < range.end { state } else { before[j] });
            assert(self.selected_indexes@ =~= target);
        }
    }

    /// Adds the state of a line inserted at `index`: its strafe menu entry, unselected.
    pub fn insert_hltas_line(&mut self, index: usize, line: &hltas::types::Line)
        requires
            index <= old(self)@.len(),
            old(self)@.wf(),
        ensures
            final(self)@ == (MenuStateView {
                selections: old(self)@.selections.insert(index as int, selection_for_line(*line)),
                selected: old(self)@.selected.insert(index as int, false),
                ..old(self)@
            }),
            (final(self)@.selections[index as int] is Some) == (kind_of_line(*line) == LineKind::FrameBulk),
    {
        self.strafe_menu_selections.insert(index, selection_of_line(line));
        self.selected_indexes.insert(index, false);
    }

    /// Adds the state of a line appended at the end: its strafe menu entry, unselected.
    pub fn push_hltas_line(&mut self, line: &hltas::types::Line)
        ensures
            final(self)@ == (MenuStateView {
                selections: old(self)@.selections.push(selection_for_line(*line)),
                selected: old(self)@.selected.push(false),
                ..old(self)@
            }),
            (final(self)@.selections.last() is Some) == (kind_of_line(*line) == LineKind::FrameBulk),
    {
        self.strafe_menu_selections.push(selection_of_line(line));
        self.selected_indexes.push(false);
    }

    /// Drops the state of the line at `index`.
    pub fn remove_line_at_index(&mut self, index: usize)
        requires
            index < old(self)@.len(),
            old(self)@.wf(),
        ensures
            final(self)@ == (MenuStateView {
                selections: old(self)@.selections.remove(index as int),
                selected: old(self)@.selected.remove(index as int),
                ..old(self)@
            }),
    {
        self.strafe_menu_selections.remove(index);
        self.selected_indexes.remove(index);
    }

    pub fn set_right_click_index(&mut self, index: usize)
        ensures
            final(self)@ == (MenuStateView { right_click_popup_index: Some(index), ..old(self)@ }),
    {
        self.right_click_popup_index = Some(index);
    }

    pub fn right_click_elsewhere(&mut self)
        ensures
            final(self)@ == (MenuStateView { right_click_popup_index: None, ..old(self)@ }),
    {
        self.right_click_popup_index = None;
    }

    /// Get a reference to the hltasmenu state's right click popup index.
    pub fn right_click_popup_index(&self) -> (r: Option<usize>)
        ensures
            r == self@.right_click_popup_index,
    {
        self.right_click_popup_index
    }

    pub fn got_modified(&mut self)
        ensures
            final(self)@ == (MenuStateView { modified: true, ..old(self)@ }),
    {
        self.got_modified = true;
    }

    pub fn saved_modified(&mut self)
        ensures
            final(self)@ == (MenuStateView { modified: false, ..old(self)@ }),
    {
        self.got_modified = false;
    }

    pub fn is_modified(&self) -> (r: bool)
        ensures
            r == self@.modified,
    {
        self.got_modified
    }

    /// The strafe menu entry of the line at `index`, to read or change, if there is such a line.
    pub fn strafe_menu_selection_at_mut(&mut self, index: usize) -> (r: Option<&mut Option<StrafeMenuSelection>>)
        ensures
            index < old(self)@.selections.len() <==> r is Some,
            r matches Some(e) ==> *e == old(self)@.selections[index as int]
                && final(self)@ == (MenuStateView {
                    selections: old(self)@.selections.update(index as int, *final(e)),
                    ..old(self)@
                }),
            r is None ==> final(self)@ == old(self)@,
    {
        if index < self.strafe_menu_selections.len() {
            Some(&mut self.strafe_menu_selections[index])
        } else {
            None
        }
    }

    pub fn is_line_selected(&self, index: usize) -> (r: bool)
        requires
            index < self@.len(),
        ensures
            r == self@.selected[index as int],
    {
        self.selected_indexes()[index]
    }

    /// Gets goto line and sets itself to None
    pub fn goto_line(&mut self) -> (r: Option<usize>)
        ensures
            r == old(self)@.goto_line,
            final(self)@ == (MenuStateView { goto_line: None, ..old(self)@ }),
    {
        let goto = self.goto_line;
        self.goto_line = None;
        goto
    }

    pub fn set_goto_line(&mut self, index: usize)
        ensures
            final(self)@ == (MenuStateView { goto_line: Some(index), ..old(self)@ }),
    {
        self.goto_line = Some(index);
    }

    pub fn set_modifying_something(&mut self, value: bool)
        ensures
            final(self)@ == (MenuStateView { modifying_something: value, ..old(self)@ }),
    {
        self.is_modifying_something = value;
    }

    /// Changes the selection for a click on the grab area of line `index`, as the line
    /// list does: with ctrl held the line's flag flips; with shift held while exactly one
    /// line is selected, every line between that one and the clicked one becomes selected;
    /// otherwise the clicked line becomes the only selected line, or, if it was selected,
    /// nothing stays selected.
    pub fn select_on_click(&mut self, index: usize, ctrl_held: bool, shift_held: bool)
        requires
            index < old(self)@.len(),
        ensures
            final(self)@ == (MenuStateView { selected: click_selection(old(self)@.selected, index as int, ctrl_held, shift_held), ..old(self)@ }),
    {
        if ctrl_held {
            let selected = self.is_index_selected(index);
            self.change_selected_index(index, !selected);
        } else {
            let selected_collection = self.selected_indexes_collection();
            let _n = self.selected_indexes.len();
            proof {
                lemma_true_positions(self@.selected);
            }
            if selected_collection.len() == 1 && shift_held {
                let selected_index = selected_collection[0];
                let (start_index, end_index) = if index < selected_index {
                    (index, selected_index)
                } else {
                    (selected_index, index + 1)
                };
                self.select_index_range(start_index..end_index, true);
            } else {
                let is_selected = self.is_index_selected(index);
                self.reset_selected_indexes();
                self.change_selected_index(index, !is_selected);
            }
        }
        proof {
            let target = click_selection(old(self)@.selected, index as int, ctrl_held, shift_held);
            assert(self@.selected =~= target);
        }
    }

    /// Get a reference to the hltasmenu state's is modifying something.
    pub fn is_modifying_something(&self) -> (r: bool)
        ensures
            r == self@.modifying_something,
    {
        self.is_modifying_something
    }
}

/// The selection flags after a click on line `i` (see `select_on_click`).
pub open spec fn click_selection(sel: Seq<bool>, i: int, ctrl_held: bool, shift_held: bool) -> Seq<bool> {
    if ctrl_held {
        sel.update(i, !sel[i])
    } else if true_positions(sel).len() == 1 && shift_held {
        let s = true_positions(sel)[0] as int;
        let (lo, hi) = if i < s { (i, s) } else { (s, i + 1) };
        Seq::new(sel.len(), |j: int| if lo <= j < hi { true } else { sel[j] })
    } else {
        Seq::new(sel.len(), |j: int| j == i && !sel[i])
    }
}

/// A vector of `n` copies of `b`.
fn vec_of(b: bool, n: usize) -> (r: Vec<bool>)
    ensures
        r@ == repeat_bool(b, n as nat),
{
    let mut r: Vec<bool> = Vec::new();
    for i in 0..n
        invariant
            r@ == repeat_bool(b, i as nat),
    {
        r.push(b);
        assert(r@ =~= repeat_bool(b, (i + 1) as nat));
    }
    r
}

} // verus!
