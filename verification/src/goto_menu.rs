//! The "go to line" window: whether it is open and the line number typed into it.
use vstd::prelude::*;
use crate::menu_state::{HLTASMenuState, MenuStateView};

verus! {

/// State of the "go to line" window.
pub struct GotoMenu {
    opened: bool,
    selected_index: usize,
}

/// The window's state as values.
pub struct GotoMenuView {
    pub opened: bool,
    pub selected_index: usize,
}

impl View for GotoMenu {
    type V = GotoMenuView;

    closed spec fn view(&self) -> GotoMenuView {
        GotoMenuView { opened: self.opened, selected_index: self.selected_index }
    }
}

impl GotoMenu {
    /// Opens the window; the typed line number stays.
    pub fn open(&mut self)
        ensures
            final(self)@ == (GotoMenuView { opened: true, ..old(self)@ }),
    {
        self.opened = true;
    }

    /// Closes the window; the typed line number stays.
    pub fn close(&mut self)
        ensures
            final(self)@ == (GotoMenuView { opened: false, ..old(self)@ }),
    {
        self.opened = false;
    }

    /// Whether the window is open.
    pub fn is_opened(&self) -> (r: bool)
        ensures
            r == self@.opened,
    {
        self.opened
    }

    /// The open flag, for the window's own close button.
    pub fn opened_mut(&mut self) -> (r: &mut bool)
        ensures
            *r == old(self)@.opened,
            final(self)@ == (GotoMenuView { opened: *final(r), ..old(self)@ }),
    {
        &mut self.opened
    }

    /// The typed line number.
    pub fn selected_index(&self) -> (r: usize)
        ensures
            r == self@.selected_index,
    {
        self.selected_index
    }

    /// The typed line number, for the number field to edit.
    pub fn selected_index_mut(&mut self) -> (r: &mut usize)
        ensures
            *r == old(self)@.selected_index,
            final(self)@ == (GotoMenuView { selected_index: *final(r), ..old(self)@ }),
    {
        &mut self.selected_index
    }

    /// The "jump to line" button: asks the tab to scroll to the typed line and closes the
    /// window.
    pub fn jump_to_line(&mut self, tab_menu_data: &mut HLTASMenuState)
        ensures
            final(self)@ == (GotoMenuView { opened: false, ..old(self)@ }),
            final(tab_menu_data)@ == (MenuStateView {
                goto_line: Some(old(self)@.selected_index),
                ..old(tab_menu_data)@
            }),
    {
        tab_menu_data.set_goto_line(self.selected_index);
        self.opened = false;
    }
}

impl Default for GotoMenu {
    /// Closed, with line 0 typed.
    fn default() -> (r: Self)
        ensures
            r@ == (GotoMenuView { opened: false, selected_index: 0 }),
    {
        GotoMenu { opened: false, selected_index: 0 }
    }
}

} // verus!
