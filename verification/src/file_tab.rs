//! A tab of the editor: one script with its title, the file it came from, its menu
//! state and its undo history.
use vstd::prelude::*;
use crate::new_line_menu::{kind_of_line, LineKind};
use crate::menu_state::{selection_for_line, selections_for_lines, HLTASMenuState, MenuStateView};
use crate::sequences::repeat_bool;
use crate::model::{opt_string_view, Properties, PropertiesView};
use crate::script::{clone_line, parse_script, parsed_lines, parsed_properties, script_parses, script_text, script_to_text, Script};
use crate::sequences::{
    elements_at, insert_each, insert_or_push, lemma_remove_then_insert_restores, lemma_remove_true_positions, lemma_true_positions,
    remove_each_rev, true_positions, unflagged,
};
use crate::text::{file_name_of, path_file_name};
use crate::undo_redo::{
    apply_to_lines, apply_to_menu, lines_of, positions_of, history_after_redo, history_after_undo, invertible, lines_after_redo,
    lines_after_undo, redo_applicable, undo_applicable, ActionView, UndoRedoHandler, UndoRedoView,
};

verus! {

/// A tab of the editor. Its fields are open; the tab's operations state what they do to
/// each, and whoever edits a field directly keeps the tab well formed (`TabView::wf`).
pub struct HLTASFileTab {
    pub title: String,
    pub path: Option<String>,
    pub hltas: Script,
    pub tab_menu_data: HLTASMenuState,
    pub undo_redo_handler: UndoRedoHandler,
}

/// A tab as values.
pub struct TabView {
    pub title: Seq<char>,
    pub path: Option<Seq<char>>,
    pub properties: PropertiesView,
    pub lines: Seq<hltas::types::Line>,
    pub menu: MenuStateView,
    pub history: UndoRedoView,
}

impl TabView {
    /// The menu state keeps one entry per line, and the properties are valid.
    pub open spec fn wf(self) -> bool {
        &&& self.menu.wf()
        &&& self.menu.len() == self.lines.len()
        &&& self.properties.valid()
    }
}

impl View for HLTASFileTab {
    type V = TabView;

    open spec fn view(&self) -> TabView {
        TabView {
            title: self.title@,
            path: opt_string_view(self.path),
            properties: self.hltas.properties@,
            lines: self.hltas.lines@,
            menu: self.tab_menu_data@,
            history: self.undo_redo_handler@,
        }
    }
}

/// The title of a tab for a file: the file's name, or the given default title when the
/// path has none.
pub open spec fn title_for(path: Seq<char>, default_title: Seq<char>) -> Seq<char> {
    match path_file_name(path) {
        Some(name) => name,
        None => default_title,
    }
}

/// A tab just opened from the file at `path` holding `content`: the file's script, titled by
/// the file's name, with a strafe menu entry exactly for each frame bulk, nothing selected or
/// pending, unmodified, and an empty history.
pub open spec fn opened_tab(tab: TabView, path: Seq<char>, content: Seq<char>) -> bool {
    &&& tab.wf()
    &&& tab.properties == parsed_properties(content)
    &&& tab.lines == parsed_lines(content)
    &&& tab.title == path_file_name(path).unwrap()
    &&& tab.path == Some(path)
    &&& tab.menu.selections == selections_for_lines(tab.lines)
    &&& tab.menu.selected == repeat_bool(false, tab.lines.len())
    &&& forall|i: int| 0 <= i < tab.lines.len() ==> (#[trigger] tab.menu.selections[i] is Some)
        == (kind_of_line(tab.lines[i]) == LineKind::FrameBulk)
    &&& !tab.menu.selected.contains(true)
    &&& !tab.menu.modified
    &&& tab.menu.right_click_popup_index is None
    &&& tab.menu.goto_line is None
    &&& !tab.menu.modifying_something
    &&& tab.history.undo.len() == 0
    &&& tab.history.redo.len() == 0
}

/// A tab just made for a new script titled `title`: no file, no properties, no lines,
/// nothing pending, unmodified, and an empty history.
pub open spec fn new_tab(tab: TabView, title: Seq<char>) -> bool {
    &&& tab.wf()
    &&& tab.title == title
    &&& tab.path is None
    &&& tab.properties.is_empty()
    &&& tab.lines.len() == 0
    &&& tab.menu.selections.len() == 0
    &&& tab.menu.selected.len() == 0
    &&& !tab.menu.modified
    &&& tab.menu.right_click_popup_index is None
    &&& tab.menu.goto_line is None
    &&& !tab.menu.modifying_something
    &&& tab.history.undo.len() == 0
    &&& tab.history.redo.len() == 0
}

impl HLTASFileTab {
    /// Opens a script read from `path`: the title is the file's name. Fails, with the
    /// parser's message, exactly when the `hltas` parser rejects the text.
    pub fn open_path(path: &str, file_content: &str) -> (r: Result<Self, String>)
        requires
            path_file_name(path@) is Some,
        ensures
            r is Ok <==> script_parses(file_content@),
            r matches Ok(tab) ==> opened_tab(tab@, path@, file_content@),
    {
        let hltas = match parse_script(file_content) {
            Ok(hltas) => hltas,
            Err(err) => return Err(err),
        };
        let title = match file_name_of(path) {
            Some(name) => name,
            None => String::new(),
        };
        let tab_menu_data = HLTASMenuState::new(&hltas.lines);
        Ok(Self {
            title,
            path: Some(path.to_owned()),
            hltas,
            tab_menu_data,
            undo_redo_handler: UndoRedoHandler::new(),
        })
    }

    /// `open_path` where the path has a file name; `None` where it has none.
    pub fn try_open_path(path: &str, file_content: &str) -> (r: Option<Result<Self, String>>)
        ensures
            r is None <==> path_file_name(path@) is None,
            r matches Some(res) ==> (res is Ok <==> script_parses(file_content@)),
            r matches Some(Ok(tab)) ==> opened_tab(tab@, path@, file_content@),
    {
        match file_name_of(path) {
            Some(_) => Some(Self::open_path(path, file_content)),
            None => None,
        }
    }

    /// The title for a file at `path`: its file name, else `default_title`.
    pub fn title_from_path(path: &str, default_title: String) -> (r: String)
        ensures
            r@ == title_for(path@, default_title@),
    {
        match file_name_of(path) {
            Some(name) => name,
            None => default_title,
        }
    }

    /// A tab for a new, empty script that has no file yet.
    pub fn new_file(default_title: String) -> (r: Self)
        ensures
            new_tab(r@, default_title@),
    {
        let lines: Vec<hltas::types::Line> = Vec::new();
        let tab_menu_data = HLTASMenuState::new(&lines);
        Self {
            title: default_title,
            path: None,
            hltas: Script { properties: Properties::empty(), lines },
            tab_menu_data,
            undo_redo_handler: UndoRedoHandler::new(),
        }
    }

    /// The script's properties, to read or change.
    pub fn hltas_properties_mut(&mut self) -> (r: &mut Properties)
        ensures
            r@ == old(self)@.properties,
            final(self)@.properties == final(r)@,
            final(self)@.lines == old(self)@.lines,
            final(self)@.menu == old(self)@.menu,
            final(self)@.history == old(self)@.history,
            final(self)@.title == old(self)@.title,
            final(self)@.path == old(self)@.path,
    {
        &mut self.hltas.properties
    }

    /// Inserts a line at `index` and marks the tab modified.
    pub fn insert_line(&mut self, index: usize, line: hltas::types::Line)
        requires
            old(self)@.wf(),
            index <= old(self)@.lines.len(),
        ensures
            final(self)@.wf(),
            final(self)@.lines == old(self)@.lines.insert(index as int, line),
            final(self)@.menu == (MenuStateView {
                selections: old(self)@.menu.selections.insert(index as int, selection_for_line(line)),
                selected: old(self)@.menu.selected.insert(index as int, false),
                modified: true,
                ..old(self)@.menu
            }),
            (final(self)@.menu.selections[index as int] is Some) == (kind_of_line(line) == LineKind::FrameBulk),
            final(self)@.properties == old(self)@.properties,
            final(self)@.history == old(self)@.history,
            final(self)@.title == old(self)@.title,
            final(self)@.path == old(self)@.path,
    {
        self.tab_menu_data.insert_hltas_line(index, &line);
        self.hltas.lines.insert(index, line);
        self.tab_menu_data.got_modified();
    }

    /// Appends a line and marks the tab modified.
    pub fn push_line(&mut self, line: hltas::types::Line)
        requires
            old(self)@.wf(),
        ensures
            final(self)@.wf(),
            final(self)@.lines == old(self)@.lines.push(line),
            final(self)@.menu == (MenuStateView {
                selections: old(self)@.menu.selections.push(selection_for_line(line)),
                selected: old(self)@.menu.selected.push(false),
                modified: true,
                ..old(self)@.menu
            }),
            (final(self)@.menu.selections.last() is Some) == (kind_of_line(line) == LineKind::FrameBulk),
            final(self)@.properties == old(self)@.properties,
            final(self)@.history == old(self)@.history,
            final(self)@.title == old(self)@.title,
            final(self)@.path == old(self)@.path,
    {
        self.tab_menu_data.push_hltas_line(&line);
        self.hltas.lines.push(line);
        self.tab_menu_data.got_modified();
    }

    /// Adds a line where the new-line menu was opened: at the right-clicked position, or at
    /// the end when there is none.
    pub fn new_line_at_click_index(&mut self, line: hltas::types::Line)
        requires
            old(self)@.wf(),
            old(self)@.menu.right_click_popup_index matches Some(i) ==> i <= old(self)@.lines.len(),
        ensures
            final(self)@.wf(),
            final(self)@.lines == match old(self)@.menu.right_click_popup_index {
                Some(i) => old(self)@.lines.insert(i as int, line),
                None => old(self)@.lines.push(line),
            },
            final(self)@.menu == (MenuStateView {
                selections: match old(self)@.menu.right_click_popup_index {
                    Some(i) => old(self)@.menu.selections.insert(i as int, selection_for_line(line)),
                    None => old(self)@.menu.selections.push(selection_for_line(line)),
                },
                selected: match old(self)@.menu.right_click_popup_index {
                    Some(i) => old(self)@.menu.selected.insert(i as int, false),
                    None => old(self)@.menu.selected.push(false),
                },
                modified: true,
                ..old(self)@.menu
            }),
            (final(self)@.menu.selections[match old(self)@.menu.right_click_popup_index {
                Some(i) => i as int,
                None => old(self)@.lines.len() as int,
            }] is Some) == (kind_of_line(line) == LineKind::FrameBulk),
            final(self)@.properties == old(self)@.properties,
            final(self)@.history == old(self)@.history,
            final(self)@.title == old(self)@.title,
            final(self)@.path == old(self)@.path,
    {
        match self.tab_menu_data.right_click_popup_index() {
            Some(index) => self.insert_line(index, line),
            None => self.push_line(line),
        }
        self.tab_menu_data.got_modified();
    }

    /// Removes the line at `index` and marks the tab modified.
    pub fn remove_line_at_index(&mut self, index: usize)
        requires
            old(self)@.wf(),
            index < old(self)@.lines.len(),
        ensures
            final(self)@.wf(),
            final(self)@.lines == old(self)@.lines.remove(index as int),
            final(self)@.menu == (MenuStateView {
                selections: old(self)@.menu.selections.remove(index as int),
                selected: old(self)@.menu.selected.remove(index as int),
                modified: true,
                ..old(self)@.menu
            }),
            final(self)@.properties == old(self)@.properties,
            final(self)@.history == old(self)@.history,
            final(self)@.title == old(self)@.title,
            final(self)@.path == old(self)@.path,
    {
        self.hltas.lines.remove(index);
        self.tab_menu_data.remove_line_at_index(index);
        self.tab_menu_data.got_modified();
    }

    pub fn hltas_lines_is_empty(&self) -> (r: bool)
        ensures
            r == (self@.lines.len() == 0),
    {
        self.hltas.lines.is_empty()
    }

    pub fn hltas_lines_len(&self) -> (r: usize)
        ensures
            r == self@.lines.len(),
    {
        self.hltas.lines.len()
    }

    /// Get a reference to the hltasfile tab's path.
    pub fn path(&self) -> (r: Option<&String>)
        ensures
            r matches Some(p) ==> self@.path == Some(p@),
            r is None ==> self@.path is None,
    {
        self.path.as_ref()
    }

    /// The `.hltas` text of the tab's script, as the `hltas` writer produces it.
    pub fn hltas_text(&self) -> (r: String)
        requires
            self@.wf(),
        ensures
            r@ == script_text(self@.properties, self@.lines),
    {
        script_to_text(&self.hltas.properties, &self.hltas.lines)
    }

    /// After the script was written to a file chosen for a tab that had none: the tab takes
    /// its title from that file's path. Its path and modified flag stay as they were.
    pub fn saved_as_new_file(&mut self, path: &str, default_title: String)
        ensures
            final(self)@.title == title_for(path@, default_title@),
            final(self)@.path == old(self)@.path,
            final(self)@.properties == old(self)@.properties,
            final(self)@.lines == old(self)@.lines,
            final(self)@.menu == old(self)@.menu,
            final(self)@.history == old(self)@.history,
    {
        self.title = Self::title_from_path(path, default_title);
    }

    pub fn select_all_lines(&mut self)
        ensures
            final(self)@.menu == (MenuStateView {
                selected: crate::sequences::repeat_bool(true, old(self)@.menu.len()),
                ..old(self)@.menu
            }),
            final(self)@.properties == old(self)@.properties,
            final(self)@.lines == old(self)@.lines,
            final(self)@.history == old(self)@.history,
            final(self)@.title == old(self)@.title,
            final(self)@.path == old(self)@.path,
    {
        self.tab_menu_data.select_all_indexes();
    }

    /// Get a reference to the hltasfile tab's title.
    pub fn title(&self) -> (r: &str)
        ensures
            r@ == self@.title,
    {
        self.title.as_str()
    }

    /// The selected lines, in order.
    pub fn get_selected_lines(&self) -> (r: Vec<&hltas::types::Line>)
        requires
            self@.wf(),
        ensures
            r@.len() == true_positions(self@.menu.selected).len(),
            forall|k: int| 0 <= k < r@.len() ==>
                *r@[k] == self@.lines[true_positions(self@.menu.selected)[k] as int],
    {
        let n = self.hltas.lines.len();
        let ghost sel = self@.menu.selected;
        let mut r: Vec<&hltas::types::Line> = Vec::new();
        for i in 0..n
            invariant
                n == self@.lines.len() == sel.len(),
                sel == self@.menu.selected,
                r@.len() == true_positions(sel.take(i as int)).len(),
                forall|k: int| 0 <= k < r@.len() ==>
                    *r@[k] == self@.lines[true_positions(sel.take(i as int))[k] as int],
        {
            assert(sel.take(i + 1).drop_last() =~= sel.take(i as int));
            if self.tab_menu_data.is_index_selected(i) {
                r.push(&self.hltas.lines[i]);
            }
        }
        assert(sel.take(n as int) =~= sel);
        r
    }

    /// Removes the selected lines; the other lines stay, in order.
    pub fn remove_selected_lines(&mut self)
        requires
            old(self)@.wf(),
        ensures
            final(self)@.wf(),
            final(self)@.lines == unflagged(old(self)@.lines, old(self)@.menu.selected),
            final(self)@.lines == remove_each_rev(old(self)@.lines, true_positions(old(self)@.menu.selected)),
            final(self)@.menu.selected == unflagged(old(self)@.menu.selected, old(self)@.menu.selected),
            true_positions(old(self)@.menu.selected).len() > 0 ==> final(self)@.menu.modified,
            true_positions(old(self)@.menu.selected).len() == 0 ==> final(self)@.menu == old(self)@.menu,
            final(self)@.properties == old(self)@.properties,
            final(self)@.history == old(self)@.history,
            final(self)@.title == old(self)@.title,
            final(self)@.path == old(self)@.path,
    {
        let indexes = self.tab_menu_data.selected_indexes_collection();
        let ghost lines0 = self@.lines;
        let ghost sel0 = self@.menu.selected;
        let ghost m0 = self@.menu;
        let ghost idx = indexes@;
        let n = indexes.len();
        let _len = self.hltas.lines.len();
        proof {
            assert(idx.take(n as int) =~= idx);
            lemma_true_positions(sel0);
            lemma_remove_then_insert_restores(lines0, idx);
            lemma_remove_then_insert_restores(sel0, idx);
            lemma_remove_then_insert_restores(m0.selections, idx);
        }
        let mut k: usize = n;
        while k > 0
            invariant
                k <= n == idx.len(),
                idx == indexes@,
                old(self)@.properties == self@.properties,
                old(self)@.history == self@.history,
                old(self)@.title == self@.title,
                old(self)@.path == self@.path,
                self@.wf(),
                crate::sequences::can_remove_each_rev(self@.lines.len() as int, idx.take(k as int)),
                self@.lines.len() == lines0.len() - (n - k),
                remove_each_rev(self@.lines, idx.take(k as int)) == remove_each_rev(lines0, idx),
                remove_each_rev(self@.menu.selections, idx.take(k as int)) == remove_each_rev(m0.selections, idx),
                remove_each_rev(self@.menu.selected, idx.take(k as int)) == remove_each_rev(sel0, idx),
                k < n ==> self@.menu.modified,
                k == n ==> self@.menu == m0,
                self@.menu.right_click_popup_index == m0.right_click_popup_index,
                self@.menu.goto_line == m0.goto_line,
                self@.menu.modifying_something == m0.modifying_something,
            decreases k,
        {
            let index = indexes[k - 1];
            let ghost pre = idx.take(k as int);
            let ghost cur = self@.lines.len();
            proof {
                assert(pre.last() == index);
                assert(pre.drop_last() =~= idx.take(k - 1));
                assert(index < cur - (pre.len() - 1 - (k - 1)));
                let pre2 = idx.take(k - 1);
                assert forall|j: int| 0 <= j < pre2.len() implies
                    #[trigger] pre2[j] < (cur - 1) - (pre2.len() - 1 - j) by {
                    assert(pre[j] < cur - (pre.len() - 1 - j));
                }
            }
            self.remove_line_at_index(index);
            k = k - 1;
        }
        proof {
            assert(idx.take(0) =~= Seq::<usize>::empty());
            lemma_remove_true_positions(lines0, sel0);
            lemma_remove_true_positions(sel0, sel0);
        }
    }

    /// Removes the line at `index` and records the removal for undo: undoing it puts the
    /// line back where it was.
    pub fn remove_line_with_undo(&mut self, index: usize)
        requires
            old(self)@.wf(),
            index < old(self)@.lines.len(),
        ensures
            final(self)@.wf(),
            final(self)@.lines == old(self)@.lines.remove(index as int),
            final(self)@.history == (UndoRedoView {
                undo: old(self)@.history.undo.push(ActionView::Delete {
                    indexes_and_lines: seq![(index, old(self)@.lines[index as int])],
                }),
                redo: Seq::empty(),
            }),
            final(self)@.menu == (MenuStateView {
                selections: old(self)@.menu.selections.remove(index as int),
                selected: old(self)@.menu.selected.remove(index as int),
                modified: true,
                ..old(self)@.menu
            }),
            invertible(final(self)@.history.undo.last(), final(self)@.lines.len()),
            apply_to_lines(final(self)@.history.undo.last(), final(self)@.lines) == old(self)@.lines,
            final(self)@.properties == old(self)@.properties,
            final(self)@.title == old(self)@.title,
            final(self)@.path == old(self)@.path,
    {
        let ghost lines0 = self.hltas.lines@;
        let line = clone_line(&self.hltas.lines[index]);
        let mut deleted: Vec<(usize, hltas::types::Line)> = Vec::new();
        deleted.push((index, line));
        self.undo_redo_handler.delete_lines(deleted);
        self.remove_line_at_index(index);
        proof {
            let ils = seq![(index, lines0[index as int])];
            assert(deleted@ =~= ils);
            assert(positions_of(ils) =~= seq![index]);
            assert(lines_of(ils) =~= seq![lines0[index as int]]);
            let rest = lines0.remove(index as int);
            let p = positions_of(ils);
            let l = lines_of(ils);
            assert(p.drop_last() =~= Seq::<usize>::empty());
            assert(l.drop_last() =~= Seq::<hltas::types::Line>::empty());
            assert(insert_each(rest, p.drop_last(), l.drop_last()) == rest);
            assert(p.last() == index);
            assert(l.last() == lines0[index as int]);
            if rest.len() == 0 {
                assert(insert_or_push(rest, index as int, lines0[index as int]) =~= lines0);
            } else {
                assert(rest.insert(index as int, lines0[index as int]) =~= lines0);
            }
        }
    }

    /// Removes the selected lines and records the removal for undo: undoing it puts every
    /// removed line back where it was.
    pub fn remove_selected_lines_with_undo(&mut self)
        requires
            old(self)@.wf(),
        ensures
            final(self)@.wf(),
            final(self)@.lines == unflagged(old(self)@.lines, old(self)@.menu.selected),
            final(self)@.history == (UndoRedoView {
                undo: old(self)@.history.undo.push(ActionView::Delete {
                    indexes_and_lines: true_positions(old(self)@.menu.selected).map_values(
                        |i: usize| (i, old(self)@.lines[i as int])),
                }),
                redo: Seq::empty(),
            }),
            invertible(final(self)@.history.undo.last(), final(self)@.lines.len()),
            apply_to_lines(final(self)@.history.undo.last(), final(self)@.lines) == old(self)@.lines,
            final(self)@.menu.selected == unflagged(old(self)@.menu.selected, old(self)@.menu.selected),
            forall|i: int| 0 <= i < final(self)@.menu.selected.len() ==> !#[trigger] final(self)@.menu.selected[i],
            true_positions(old(self)@.menu.selected).len() > 0 ==> final(self)@.menu.modified,
            final(self)@.properties == old(self)@.properties,
            final(self)@.title == old(self)@.title,
            final(self)@.path == old(self)@.path,
    {
        let ghost lines0 = self.hltas.lines@;
        let ghost sel0 = self.tab_menu_data@.selected;
        let indexes = self.tab_menu_data.selected_indexes_collection();
        let _len = self.hltas.lines.len();
        proof {
            lemma_true_positions(sel0);
        }
        let mut lines_to_delete: Vec<(usize, hltas::types::Line)> = Vec::new();
        let n = indexes.len();
        for k in 0..n
            invariant
                n == indexes@.len(),
                indexes@ == true_positions(sel0),
                sel0.len() == lines0.len(),
                self.hltas.lines@ == lines0,
                forall|j: int| 0 <= j < indexes@.len() ==> #[trigger] indexes@[j] < sel0.len(),
                lines_to_delete@ == indexes@.take(k as int).map_values(|i: usize| (i, lines0[i as int])),
        {
            let i = indexes[k];
            lines_to_delete.push((i, clone_line(&self.hltas.lines[i])));
            proof {
                assert(lines_to_delete@ =~= indexes@.take(k + 1).map_values(|i: usize| (i, lines0[i as int])));
            }
        }
        proof {
            assert(indexes@.take(n as int) =~= indexes@);
        }
        self.undo_redo_handler.delete_lines(lines_to_delete);
        self.remove_selected_lines();
        proof {
            let idx = true_positions(sel0);
            let ils = idx.map_values(|i: usize| (i, lines0[i as int]));
            lemma_remove_then_insert_restores(lines0, idx);
            assert(positions_of(ils) =~= idx);
            assert(lines_of(ils) =~= elements_at(lines0, idx));
        }
        proof {
            crate::sequences::lemma_unflagged_flags_unset(old(self)@.menu.selected, old(self)@.menu.selected);
        }
    }

    /// Adds a line where the new-line menu was opened (see `new_line_at_click_index`) and
    /// records the addition for undo: undoing it removes the line again.
    pub fn new_line_at_click_index_with_undo(&mut self, line: hltas::types::Line)
        requires
            old(self)@.wf(),
            old(self)@.menu.right_click_popup_index matches Some(i) ==> i <= old(self)@.lines.len(),
        ensures
            final(self)@.wf(),
            final(self)@.lines == match old(self)@.menu.right_click_popup_index {
                Some(i) => old(self)@.lines.insert(i as int, line),
                None => old(self)@.lines.push(line),
            },
            final(self)@.history == (UndoRedoView {
                undo: old(self)@.history.undo.push(ActionView::Add {
                    indexes: seq![match old(self)@.menu.right_click_popup_index {
                        Some(i) => i,
                        None => old(self)@.lines.len() as usize,
                    }],
                }),
                redo: Seq::empty(),
            }),
            final(self)@.menu == (MenuStateView {
                selections: match old(self)@.menu.right_click_popup_index {
                    Some(i) => old(self)@.menu.selections.insert(i as int, selection_for_line(line)),
                    None => old(self)@.menu.selections.push(selection_for_line(line)),
                },
                selected: match old(self)@.menu.right_click_popup_index {
                    Some(i) => old(self)@.menu.selected.insert(i as int, false),
                    None => old(self)@.menu.selected.push(false),
                },
                modified: true,
                ..old(self)@.menu
            }),
            (final(self)@.menu.selections[match old(self)@.menu.right_click_popup_index {
                Some(i) => i as int,
                None => old(self)@.lines.len() as int,
            }] is Some) == (kind_of_line(line) == LineKind::FrameBulk),
            invertible(final(self)@.history.undo.last(), final(self)@.lines.len()),
            apply_to_lines(final(self)@.history.undo.last(), final(self)@.lines) == old(self)@.lines,
            final(self)@.properties == old(self)@.properties,
            final(self)@.title == old(self)@.title,
            final(self)@.path == old(self)@.path,
    {
        let ghost lines0 = self.hltas.lines@;
        self.new_line_at_click_index(line);
        let right_click_index = match self.tab_menu_data.right_click_popup_index() {
            Some(index) => index,
            None => self.hltas.lines.len() - 1,
        };
        let mut indexes: Vec<usize> = Vec::new();
        indexes.push(right_click_index);
        self.undo_redo_handler.add_lines(indexes);
        proof {
            let idx = seq![right_click_index];
            assert(indexes@ =~= idx);
            assert(idx.drop_last() =~= Seq::<usize>::empty());
            assert(idx.last() == right_click_index);
            let removed = self.hltas.lines@.remove(right_click_index as int);
            assert(removed =~= lines0);
            assert(remove_each_rev(removed, idx.drop_last()) == removed);
        }
    }

    /// Undoes the latest recorded action on the tab's lines.
    pub fn undo_hltas(&mut self)
        requires
            old(self)@.wf(),
            undo_applicable(old(self)@.history, old(self)@.lines.len()),
        ensures
            final(self)@.wf(),
            final(self)@.history == history_after_undo(old(self)@.history, old(self)@.lines),
            final(self)@.lines == lines_after_undo(old(self)@.history, old(self)@.lines),
            old(self)@.history.undo.len() == 0 ==> final(self)@.menu == old(self)@.menu,
            old(self)@.history.undo.len() > 0 ==> final(self)@.menu == (MenuStateView {
                modified: true,
                ..apply_to_menu(old(self)@.history.undo.last(), old(self)@.menu)
            }),
            final(self)@.properties == old(self)@.properties,
            final(self)@.title == old(self)@.title,
            final(self)@.path == old(self)@.path,
    {
        self.undo_redo_handler.undo(&mut self.hltas.lines, &mut self.tab_menu_data);
    }

    /// Redoes the latest undone action on the tab's lines.
    pub fn redo_hltas(&mut self)
        requires
            old(self)@.wf(),
            redo_applicable(old(self)@.history, old(self)@.lines.len()),
        ensures
            final(self)@.wf(),
            final(self)@.history == history_after_redo(old(self)@.history, old(self)@.lines),
            final(self)@.lines == lines_after_redo(old(self)@.history, old(self)@.lines),
            old(self)@.history.redo.len() == 0 ==> final(self)@.menu == old(self)@.menu,
            old(self)@.history.redo.len() > 0 ==> final(self)@.menu == (MenuStateView {
                modified: true,
                ..apply_to_menu(old(self)@.history.redo.last(), old(self)@.menu)
            }),
            final(self)@.properties == old(self)@.properties,
            final(self)@.title == old(self)@.title,
            final(self)@.path == old(self)@.path,
    {
        self.undo_redo_handler.redo(&mut self.hltas.lines, &mut self.tab_menu_data);
    }

    /// Whether an undo can be taken now.
    pub fn can_undo(&self) -> (r: bool)
        ensures
            r == undo_applicable(self@.history, self@.lines.len()),
    {
        self.undo_redo_handler.can_undo(self.hltas.lines.len())
    }

    /// Whether a redo can be taken now.
    pub fn can_redo(&self) -> (r: bool)
        ensures
            r == redo_applicable(self@.history, self@.lines.len()),
    {
        self.undo_redo_handler.can_redo(self.hltas.lines.len())
    }
}

} // verus!
