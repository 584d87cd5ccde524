//! Undo / redo of line edits. Each recorded action says how to change the lines back;
//! taking an action returns the action that changes them forward again.
use vstd::prelude::*;
use crate::menu_state::{selection_for_line, HLTASMenuState, MenuStateView};
use crate::script::clone_line;
use crate::sequences::{
    can_insert_each, can_remove_each_rev, elements_at, insert_each, inserts_in_place,
    lemma_insert_then_remove_restores, lemma_remove_then_insert_restores, remove_each_rev,
    repeat_bool, strictly_increasing,
};

verus! {

#[derive(Debug)]
enum Action {
    Delete { indexes_and_lines: Vec<(usize, hltas::types::Line)> },
    Add { indexes: Vec<usize> },
    Edit { line: hltas::types::Line, index: usize },
}

/// An undo / redo action as values.
pub enum ActionView {
    /// Lines that were deleted, with the positions they had: taking it inserts them back.
    Delete { indexes_and_lines: Seq<(usize, hltas::types::Line)> },
    /// Positions of lines that were added: taking it removes them.
    Add { indexes: Seq<usize> },
    /// A line's content before an edit: taking it puts that content back.
    Edit { line: hltas::types::Line, index: usize },
}

impl View for Action {
    type V = ActionView;

    closed spec fn view(&self) -> ActionView {
        match self {
            Action::Delete { indexes_and_lines } => ActionView::Delete { indexes_and_lines: indexes_and_lines@ },
            Action::Add { indexes } => ActionView::Add { indexes: indexes@ },
            Action::Edit { line, index } => ActionView::Edit { line: *line, index: *index },
        }
    }
}

/// The positions of the deleted lines.
pub open spec fn positions_of(ils: Seq<(usize, hltas::types::Line)>) -> Seq<usize> {
    ils.map_values(|p: (usize, hltas::types::Line)| p.0)
}

/// The deleted lines themselves.
pub open spec fn lines_of(ils: Seq<(usize, hltas::types::Line)>) -> Seq<hltas::types::Line> {
    ils.map_values(|p: (usize, hltas::types::Line)| p.1)
}

/// Taking the action on `len` lines stays in bounds.
pub open spec fn applicable(a: ActionView, len: nat) -> bool {
    match a {
        ActionView::Delete { indexes_and_lines } => can_insert_each(len, positions_of(indexes_and_lines)),
        ActionView::Add { indexes } => (forall|k: int| 0 <= k < indexes.len() ==> indexes[k] < len)
            && can_remove_each_rev(len as int, indexes),
        ActionView::Edit { line, index } => index < len,
    }
}

/// Taking the action is undone by taking the action it returns: its positions are
/// strictly increasing, and lines put back go to positions that exist.
pub open spec fn invertible(a: ActionView, len: nat) -> bool {
    &&& applicable(a, len)
    &&& match a {
        ActionView::Delete { indexes_and_lines } => strictly_increasing(positions_of(indexes_and_lines))
            && inserts_in_place(len, positions_of(indexes_and_lines)),
        ActionView::Add { indexes } => strictly_increasing(indexes),
        ActionView::Edit { .. } => true,
    }
}

/// The lines after taking the action.
pub open spec fn apply_to_lines(a: ActionView, lines: Seq<hltas::types::Line>) -> Seq<hltas::types::Line> {
    match a {
        ActionView::Delete { indexes_and_lines } =>
            insert_each(lines, positions_of(indexes_and_lines), lines_of(indexes_and_lines)),
        ActionView::Add { indexes } => remove_each_rev(lines, indexes),
        ActionView::Edit { line, index } => lines.update(index as int, line),
    }
}

/// The menu state after taking the action: lines put back get their strafe menu entry
/// and are unselected; removed lines lose theirs. An edit leaves the menu state alone.
pub open spec fn apply_to_menu(a: ActionView, m: MenuStateView) -> MenuStateView {
    match a {
        ActionView::Delete { indexes_and_lines } => MenuStateView {
            selections: insert_each(m.selections, positions_of(indexes_and_lines),
                lines_of(indexes_and_lines).map_values(|l: hltas::types::Line| selection_for_line(l))),
            selected: insert_each(m.selected, positions_of(indexes_and_lines),
                repeat_bool(false, indexes_and_lines.len())),
            ..m
        },
        ActionView::Add { indexes } => MenuStateView {
            selections: remove_each_rev(m.selections, indexes),
            selected: remove_each_rev(m.selected, indexes),
            ..m
        },
        ActionView::Edit { .. } => m,
    }
}

/// The action that taking `a` on `lines` returns.
pub open spec fn reverse_of(a: ActionView, lines: Seq<hltas::types::Line>) -> ActionView {
    match a {
        ActionView::Delete { indexes_and_lines } => ActionView::Add { indexes: positions_of(indexes_and_lines) },
        ActionView::Add { indexes } => ActionView::Delete {
            indexes_and_lines: indexes.map_values(|i: usize| (i, lines[i as int])),
        },
        ActionView::Edit { line, index } => ActionView::Edit { line: lines[index as int], index },
    }
}

impl Action {
    /// Whether taking the action on `len` lines stays in bounds.
    fn applicable_to(&self, len: usize) -> (r: bool)
        ensures
            r == applicable(self@, len as nat),
    {
        match self {
            Action::Delete { indexes_and_lines } => {
                let n = indexes_and_lines.len();
                let ghost idx = positions_of(indexes_and_lines@);
                for k in 0..n
                    invariant
                        n == indexes_and_lines@.len(),
                        idx == positions_of(indexes_and_lines@),
                        self@ == (ActionView::Delete { indexes_and_lines: indexes_and_lines@ }),
                        forall|j: int| 0 <= j < k ==> len + j == 0 || idx[j] <= len + j,
                {
                    let i = indexes_and_lines[k].0;
                    assert(idx[k as int] == i);
                    if len as u128 + k as u128 != 0 && i as u128 > len as u128 + k as u128 {
                        assert(!(len + k == 0 || idx[k as int] <= len + k));
                        assert(!can_insert_each(len as nat, idx));
                        assert(self@ == ActionView::Delete { indexes_and_lines: indexes_and_lines@ });
                        return false;
                    }
                }
                true
            },
            Action::Add { indexes } => {
                let n = indexes.len();
                for k in 0..n
                    invariant
                        n == indexes@.len(),
                        self@ == (ActionView::Add { indexes: indexes@ }),
                        forall|j: int| 0 <= j < k ==> indexes@[j] < len && indexes@[j] < len - (n - 1 - j),
                {
                    let i = indexes[k];
                    if i as u128 + (n - 1 - k) as u128 >= len as u128 {
                        assert(!(indexes@[k as int] < len - (indexes@.len() - 1 - k)));
                        assert(!can_remove_each_rev(len as int, indexes@));
                        assert(self@ == ActionView::Add { indexes: indexes@ });
                        return false;
                    }
                }
                true
            },
            Action::Edit { line, index } => *index < len,
        }
    }

    /// Takes action to the lines depending on what enum is selected, and keeps the menu
    /// state in step. Returns a reverse of what action was taken in a new Action instance.
    fn take_action(self, lines: &mut Vec<hltas::types::Line>, tab_menu_data: &mut HLTASMenuState) -> (r: Action)
        requires
            applicable(self@, old(lines)@.len()),
            old(tab_menu_data)@.wf(),
            old(tab_menu_data)@.len() == old(lines)@.len(),
        ensures
            final(lines)@ == apply_to_lines(self@, old(lines)@),
            final(tab_menu_data)@ == apply_to_menu(self@, old(tab_menu_data)@),
            r@ == reverse_of(self@, old(lines)@),
            final(tab_menu_data)@.wf(),
            final(tab_menu_data)@.len() == final(lines)@.len(),
    {
        match self {
            Action::Delete { indexes_and_lines } => {
                let ghost ils = indexes_and_lines@;
                let ghost idx = positions_of(ils);
                let ghost ls = lines_of(ils);
                let ghost sels = ls.map_values(|l: hltas::types::Line| selection_for_line(l));
                let ghost lines0 = lines@;
                let ghost m0 = tab_menu_data@;
                let mut indexes: Vec<usize> = Vec::new();
                let n = indexes_and_lines.len();
                for k in 0..n
                    invariant
                        n == ils.len(),
                        ils == indexes_and_lines@,
                        idx == positions_of(ils),
                        ls == lines_of(ils),
                        sels == ls.map_values(|l: hltas::types::Line| selection_for_line(l)),
                        can_insert_each(lines0.len(), idx),
                        lines@ == insert_each(lines0, idx.take(k as int), ls.take(k as int)),
                        lines@.len() == lines0.len() + k,
                        tab_menu_data@ == (MenuStateView {
                            selections: insert_each(m0.selections, idx.take(k as int), sels.take(k as int)),
                            selected: insert_each(m0.selected, idx.take(k as int), repeat_bool(false, k as nat)),
                            ..m0
                        }),
                        tab_menu_data@.wf(),
                        tab_menu_data@.len() == lines@.len(),
                        indexes@ == idx.take(k as int),
                {
                    let i = indexes_and_lines[k].0;
                    let line = &indexes_and_lines[k].1;
                    proof {
                        assert(idx.take(k + 1).drop_last() =~= idx.take(k as int));
                        assert(ls.take(k + 1).drop_last() =~= ls.take(k as int));
                        assert(sels.take(k + 1).drop_last() =~= sels.take(k as int));
                        assert(repeat_bool(false, (k + 1) as nat).drop_last() =~= repeat_bool(false, k as nat));
                        assert(idx[k as int] == i);
                        assert(ls[k as int] == *line);
                        assert(lines0.len() + k == 0 || idx[k as int] <= lines0.len() + k);
                    }
                    if lines.is_empty() {
                        tab_menu_data.push_hltas_line(line);
                        lines.push(clone_line(line));
                        proof {
                            assert(tab_menu_data@.selections =~= seq![selection_for_line(*line)]);
                            assert(tab_menu_data@.selected =~= seq![false]);
                        }
                    } else {
                        tab_menu_data.insert_hltas_line(i, line);
                        lines.insert(i, clone_line(line));
                    }
                    indexes.push(i);
                    proof {
                        assert(indexes@ =~= idx.take(k + 1));
                    }
                }
                proof {
                    assert(idx.take(n as int) =~= idx);
                    assert(ls.take(n as int) =~= ls);
                    assert(sels.take(n as int) =~= sels);
                }
                Action::Add { indexes }
            },
            Action::Add { indexes } => {
                let ghost idx = indexes@;
                let ghost lines0 = lines@;
                let ghost m0 = tab_menu_data@;
                let n = indexes.len();
                let mut indexes_and_lines: Vec<(usize, hltas::types::Line)> = Vec::new();
                for k in 0..n
                    invariant
                        n == idx.len(),
                        idx == indexes@,
                        lines@ == lines0,
                        forall|j: int| 0 <= j < idx.len() ==> idx[j] < lines0.len(),
                        indexes_and_lines@ == idx.take(k as int).map_values(|i: usize| (i, lines0[i as int])),
                {
                    let i = indexes[k];
                    indexes_and_lines.push((i, clone_line(&lines[i])));
                    proof {
                        assert(indexes_and_lines@ =~= idx.take(k + 1).map_values(|i: usize| (i, lines0[i as int])));
                    }
                }
                proof {
                    assert(idx.take(n as int) =~= idx);
                }
                let mut k: usize = n;
                while k > 0
                    invariant
                        k <= n == idx.len(),
                        idx == indexes@,
                        can_remove_each_rev(lines@.len() as int, idx.take(k as int)),
                        lines@.len() == lines0.len() - (n - k),
                        remove_each_rev(lines@, idx.take(k as int)) == remove_each_rev(lines0, idx),
                        remove_each_rev(tab_menu_data@.selections, idx.take(k as int)) == remove_each_rev(m0.selections, idx),
                        remove_each_rev(tab_menu_data@.selected, idx.take(k as int)) == remove_each_rev(m0.selected, idx),
                        tab_menu_data@ == (MenuStateView {
                            selections: tab_menu_data@.selections,
                            selected: tab_menu_data@.selected,
                            ..m0
                        }),
                        tab_menu_data@.wf(),
                        tab_menu_data@.len() == lines@.len(),
                    decreases k,
                {
                    let i = indexes[k - 1];
                    let ghost pre = idx.take(k as int);
                    let ghost cur = lines@;
                    let ghost msel = tab_menu_data@.selections;
                    let ghost mflags = tab_menu_data@.selected;
                    proof {
                        assert(pre.last() == i);
                        assert(pre.drop_last() =~= idx.take(k - 1));
                        assert(i < cur.len() - (pre.len() - 1 - (k - 1)));
                        let pre2 = idx.take(k - 1);
                        assert forall|j: int| 0 <= j < pre2.len() implies
                            #[trigger] pre2[j] < (cur.len() - 1) - (pre2.len() - 1 - j) by {
                            assert(pre[j] < cur.len() - (pre.len() - 1 - j));
                        }
                    }
                    tab_menu_data.remove_line_at_index(i);
                    lines.remove(i);
                    k = k - 1;
                }
                proof {
                    assert(idx.take(0) =~= Seq::<usize>::empty());
                }
                Action::Delete { indexes_and_lines }
            },
            Action::Edit { line, index } => {
                let line_before_edit = clone_line(&lines[index]);
                lines.set(index, line);
                Action::Edit { line: line_before_edit, index }
            },
        }
    }
}

/// Undo and redo history: the last action of each stack is taken first.
#[derive(Debug)]
pub struct UndoRedoHandler {
    undo_stack: Vec<Action>,
    redo_stack: Vec<Action>,
}

/// The undo and redo stacks as values.
pub struct UndoRedoView {
    pub undo: Seq<ActionView>,
    pub redo: Seq<ActionView>,
}

impl View for UndoRedoHandler {
    type V = UndoRedoView;

    closed spec fn view(&self) -> UndoRedoView {
        UndoRedoView {
            undo: self.undo_stack@.map_values(|a: Action| a@),
            redo: self.redo_stack@.map_values(|a: Action| a@),
        }
    }
}

/// The history after an undo of `h` on `lines`.
pub open spec fn history_after_undo(h: UndoRedoView, lines: Seq<hltas::types::Line>) -> UndoRedoView {
    if h.undo.len() == 0 {
        h
    } else {
        UndoRedoView { undo: h.undo.drop_last(), redo: h.redo.push(reverse_of(h.undo.last(), lines)) }
    }
}

/// The lines after an undo of `h` on `lines`.
pub open spec fn lines_after_undo(h: UndoRedoView, lines: Seq<hltas::types::Line>) -> Seq<hltas::types::Line> {
    if h.undo.len() == 0 { lines } else { apply_to_lines(h.undo.last(), lines) }
}

/// The history after a redo of `h` on `lines`.
pub open spec fn history_after_redo(h: UndoRedoView, lines: Seq<hltas::types::Line>) -> UndoRedoView {
    if h.redo.len() == 0 {
        h
    } else {
        UndoRedoView { undo: h.undo.push(reverse_of(h.redo.last(), lines)), redo: h.redo.drop_last() }
    }
}

/// The lines after a redo of `h` on `lines`.
pub open spec fn lines_after_redo(h: UndoRedoView, lines: Seq<hltas::types::Line>) -> Seq<hltas::types::Line> {
    if h.redo.len() == 0 { lines } else { apply_to_lines(h.redo.last(), lines) }
}

/// An undo can be taken on `len` lines: the undo stack is empty or its last action applies.
pub open spec fn undo_applicable(h: UndoRedoView, len: nat) -> bool {
    h.undo.len() > 0 ==> applicable(h.undo.last(), len)
}

/// A redo can be taken on `len` lines: the redo stack is empty or its last action applies.
pub open spec fn redo_applicable(h: UndoRedoView, len: nat) -> bool {
    h.redo.len() > 0 ==> applicable(h.redo.last(), len)
}

impl UndoRedoHandler {
    /// An empty history.
    pub fn new() -> (r: Self)
        ensures
            r@.undo.len() == 0,
            r@.redo.len() == 0,
    {
        UndoRedoHandler { undo_stack: Vec::new(), redo_stack: Vec::new() }
    }

    /// Takes the last undo action, if any, on the lines and menu state, keeps its reverse
    /// for redo, and marks the tab modified.
    pub fn undo(&mut self, lines: &mut Vec<hltas::types::Line>, tab_menu_data: &mut HLTASMenuState)
        requires
            undo_applicable(old(self)@, old(lines)@.len()),
            old(tab_menu_data)@.wf(),
            old(tab_menu_data)@.len() == old(lines)@.len(),
        ensures
            final(self)@ == history_after_undo(old(self)@, old(lines)@),
            final(lines)@ == lines_after_undo(old(self)@, old(lines)@),
            old(self)@.undo.len() == 0 ==> final(tab_menu_data)@ == old(tab_menu_data)@,
            old(self)@.undo.len() > 0 ==> final(tab_menu_data)@ == (MenuStateView {
                modified: true,
                ..apply_to_menu(old(self)@.undo.last(), old(tab_menu_data)@)
            }),
            final(tab_menu_data)@.wf(),
            final(tab_menu_data)@.len() == final(lines)@.len(),
    {
        let ghost undo0 = self.undo_stack@;
        if let Some(undo_action) = self.undo_stack.pop() {
            proof {
                assert(undo_action@ == old(self)@.undo.last());
            }
            let reverse = undo_action.take_action(lines, tab_menu_data);
            self.redo_stack.push(reverse);
            tab_menu_data.got_modified();
            proof {
                assert(self@.undo =~= old(self)@.undo.drop_last());
                assert(self@.redo =~= old(self)@.redo.push(reverse_of(old(self)@.undo.last(), old(lines)@)));
            }
        }
    }

    /// Takes the last redo action, if any, on the lines and menu state, keeps its reverse
    /// for undo, and marks the tab modified.
    pub fn redo(&mut self, lines: &mut Vec<hltas::types::Line>, tab_menu_data: &mut HLTASMenuState)
        requires
            redo_applicable(old(self)@, old(lines)@.len()),
            old(tab_menu_data)@.wf(),
            old(tab_menu_data)@.len() == old(lines)@.len(),
        ensures
            final(self)@ == history_after_redo(old(self)@, old(lines)@),
            final(lines)@ == lines_after_redo(old(self)@, old(lines)@),
            old(self)@.redo.len() == 0 ==> final(tab_menu_data)@ == old(tab_menu_data)@,
            old(self)@.redo.len() > 0 ==> final(tab_menu_data)@ == (MenuStateView {
                modified: true,
                ..apply_to_menu(old(self)@.redo.last(), old(tab_menu_data)@)
            }),
            final(tab_menu_data)@.wf(),
            final(tab_menu_data)@.len() == final(lines)@.len(),
    {
        if let Some(redo_action) = self.redo_stack.pop() {
            proof {
                assert(redo_action@ == old(self)@.redo.last());
            }
            let reverse = redo_action.take_action(lines, tab_menu_data);
            self.undo_stack.push(reverse);
            tab_menu_data.got_modified();
            proof {
                assert(self@.redo =~= old(self)@.redo.drop_last());
                assert(self@.undo =~= old(self)@.undo.push(reverse_of(old(self)@.redo.last(), old(lines)@)));
            }
        }
    }

    /// Whether an undo can be taken on `len` lines.
    pub fn can_undo(&self, len: usize) -> (r: bool)
        ensures
            r == undo_applicable(self@, len as nat),
    {
        let n = self.undo_stack.len();
        if n == 0 {
            true
        } else {
            assert(self@.undo.last() == self.undo_stack@[n - 1]@);
            self.undo_stack[n - 1].applicable_to(len)
        }
    }

    /// Whether a redo can be taken on `len` lines.
    pub fn can_redo(&self, len: usize) -> (r: bool)
        ensures
            r == redo_applicable(self@, len as nat),
    {
        let n = self.redo_stack.len();
        if n == 0 {
            true
        } else {
            assert(self@.redo.last() == self.redo_stack@[n - 1]@);
            self.redo_stack[n - 1].applicable_to(len)
        }
    }

    /// Records lines that were deleted, with the positions they had; clears redo.
    pub fn delete_lines(&mut self, deleted_lines: Vec<(usize, hltas::types::Line)>)
        ensures
            final(self)@ == (UndoRedoView {
                undo: old(self)@.undo.push(ActionView::Delete { indexes_and_lines: deleted_lines@ }),
                redo: Seq::empty(),
            }),
    {
        self.redo_stack.clear();
        self.undo_stack.push(Action::Delete { indexes_and_lines: deleted_lines });
        proof {
            assert(self@.undo =~= old(self)@.undo.push(ActionView::Delete { indexes_and_lines: deleted_lines@ }));
            assert(self@.redo =~= Seq::<ActionView>::empty());
        }
    }

    /// Records the positions of lines that were added; clears redo.
    pub fn add_lines(&mut self, indexes: Vec<usize>)
        ensures
            final(self)@ == (UndoRedoView {
                undo: old(self)@.undo.push(ActionView::Add { indexes: indexes@ }),
                redo: Seq::empty(),
            }),
    {
        self.redo_stack.clear();
        self.undo_stack.push(Action::Add { indexes });
        proof {
            assert(self@.undo =~= old(self)@.undo.push(ActionView::Add { indexes: indexes@ }));
            assert(self@.redo =~= Seq::<ActionView>::empty());
        }
    }

    /// Records the content a line had before an edit; clears redo.
    pub fn edit_line(&mut self, prev_state: hltas::types::Line, index: usize)
        ensures
            final(self)@ == (UndoRedoView {
                undo: old(self)@.undo.push(ActionView::Edit { line: prev_state, index }),
                redo: Seq::empty(),
            }),
    {
        self.redo_stack.clear();
        self.undo_stack.push(Action::Edit { index, line: prev_state });
        proof {
            assert(self@.undo =~= old(self)@.undo.push(ActionView::Edit { line: prev_state, index }));
            assert(self@.redo =~= Seq::<ActionView>::empty());
        }
    }
}

/// Taking an invertible action and then the action it returned gives back the lines; the
/// returned action is itself invertible, and taking it returns the first action again.
pub proof fn lemma_reverse_restores(a: ActionView, lines: Seq<hltas::types::Line>)
    requires
        invertible(a, lines.len()),
    ensures
        invertible(reverse_of(a, lines), apply_to_lines(a, lines).len()),
        apply_to_lines(reverse_of(a, lines), apply_to_lines(a, lines)) == lines,
        reverse_of(reverse_of(a, lines), apply_to_lines(a, lines)) == a,
{
    match a {
        ActionView::Delete { indexes_and_lines } => {
            let idx = positions_of(indexes_and_lines);
            let xs = lines_of(indexes_and_lines);
            lemma_insert_then_remove_restores(lines, idx, xs);
            let l2 = insert_each(lines, idx, xs);
            let back = idx.map_values(|i: usize| (i, l2[i as int]));
            assert(back =~= indexes_and_lines) by {
                assert forall|k: int| 0 <= k < back.len() implies back[k] == indexes_and_lines[k] by {
                    assert(elements_at(l2, idx)[k] == xs[k]);
                }
            }
        },
        ActionView::Add { indexes } => {
            lemma_remove_then_insert_restores(lines, indexes);
            let ils = indexes.map_values(|i: usize| (i, lines[i as int]));
            assert(positions_of(ils) =~= indexes);
            assert(lines_of(ils) =~= elements_at(lines, indexes));
        },
        ActionView::Edit { line, index } => {
            assert(lines.update(index as int, line).update(index as int, lines[index as int]) =~= lines);
        },
    }
}

/// Undoing the latest recorded action and then redoing gives back the same lines and the
/// same undo and redo history.
pub proof fn lemma_undo_then_redo(h: UndoRedoView, lines: Seq<hltas::types::Line>)
    requires
        h.undo.len() > 0,
        invertible(h.undo.last(), lines.len()),
    ensures
        redo_applicable(history_after_undo(h, lines), lines_after_undo(h, lines).len()),
        lines_after_redo(history_after_undo(h, lines), lines_after_undo(h, lines)) == lines,
        history_after_redo(history_after_undo(h, lines), lines_after_undo(h, lines)) == h,
{
    let a = h.undo.last();
    lemma_reverse_restores(a, lines);
    let h1 = history_after_undo(h, lines);
    assert(h1.redo.last() == reverse_of(a, lines));
    assert(h1.redo.drop_last() =~= h.redo);
    assert(h1.undo.push(a) =~= h.undo);
}

/// Redoing the latest undone action and then undoing gives back the same lines and the
/// same undo and redo history.
pub proof fn lemma_redo_then_undo(h: UndoRedoView, lines: Seq<hltas::types::Line>)
    requires
        h.redo.len() > 0,
        invertible(h.redo.last(), lines.len()),
    ensures
        undo_applicable(history_after_redo(h, lines), lines_after_redo(h, lines).len()),
        lines_after_undo(history_after_redo(h, lines), lines_after_redo(h, lines)) == lines,
        history_after_undo(history_after_redo(h, lines), lines_after_redo(h, lines)) == h,
{
    let a = h.redo.last();
    lemma_reverse_restores(a, lines);
    let h1 = history_after_redo(h, lines);
    assert(h1.undo.last() == reverse_of(a, lines));
    assert(h1.undo.drop_last() =~= h.undo);
    assert(h1.redo.push(a) =~= h.redo);
}

impl Default for UndoRedoHandler {
    fn default() -> (r: Self)
        ensures
            r@.undo.len() == 0,
            r@.redo.len() == 0,
    {
        Self::new()
    }
}

} // verus!
