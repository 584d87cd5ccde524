//! The options window: its category tabs, the backup it restores on cancel, the
//! line-editing defaults, and how the recent-path size field reads its text.
use vstd::prelude::*;
use crate::model::LeaveGroundActionSpeed;
use crate::text::{parse_usize, usize_from_text, IntErrorKind};

verus! {

/// The tabs of the options window.
#[derive(Clone, Copy, Debug, PartialEq, Eq, Structural)]
pub enum Category {
    MenuOption,
    LineOption,
    Language,
}

impl Default for Category {
    /// The menu options tab.
    fn default() -> (r: Self)
        ensures
            r == Category::MenuOption,
    {
        Category::MenuOption
    }
}

/// Defaults for a new leave-ground action (jump or duck-tap) on a frame bulk.
#[derive(Clone, Copy, Debug, PartialEq, Eq, Structural)]
pub struct LgagstOption {
    pub default_selection: LeaveGroundActionSpeed,
    pub copy_previous_framebulk: bool,
}

impl Default for LgagstOption {
    /// Optimal speed, copied from the previous frame bulk.
    fn default() -> (r: Self)
        ensures
            r == (LgagstOption {
                default_selection: LeaveGroundActionSpeed::Optimal,
                copy_previous_framebulk: true,
            }),
    {
        LgagstOption { default_selection: LeaveGroundActionSpeed::Optimal, copy_previous_framebulk: true }
    }
}

/// The recent-path size after its field was edited to `text`: the parsed number, the
/// largest number on overflow, and 0 for any other text that does not parse.
pub open spec fn recent_path_size_after_edit(text: Seq<char>) -> usize {
    match usize_from_text(text) {
        Ok(v) => v,
        Err(kind) => match kind {
            IntErrorKind::PosOverflow => usize::MAX,
            _ => 0,
        },
    }
}

/// The recent-path size from what `str::parse::<usize>` returned.
pub fn recent_path_size_from_parse(parsed: Result<usize, IntErrorKind>) -> (r: usize)
    ensures
        r == (match parsed {
            Ok(v) => v,
            Err(kind) => match kind {
                IntErrorKind::PosOverflow => usize::MAX,
                _ => 0usize,
            },
        }),
{
    match parsed {
        Ok(v) => v,
        Err(kind) => match kind {
            IntErrorKind::PosOverflow => usize::MAX,
            IntErrorKind::NegOverflow => usize::MIN,
            _ => 0,
        },
    }
}

/// The recent-path size after its field was edited.
pub fn edited_recent_path_size(text: &str) -> (r: usize)
    ensures
        r == recent_path_size_after_edit(text@),
{
    recent_path_size_from_parse(parse_usize(text))
}

/// State of the options window, over the options type `O` that it edits: the selected tab,
/// whether it is open, a backup of the options taken when editing began, and whether they
/// were changed since.
pub struct OptionMenu<O> {
    category_selection: Category,
    opened: bool,
    option_menu_before: Option<O>,
    modified: bool,
}

/// The window's state as values.
pub struct OptionMenuView<O> {
    pub category_selection: Category,
    pub opened: bool,
    pub option_menu_before: Option<O>,
    pub modified: bool,
}

impl<O> View for OptionMenu<O> {
    type V = OptionMenuView<O>;

    closed spec fn view(&self) -> OptionMenuView<O> {
        OptionMenuView {
            category_selection: self.category_selection,
            opened: self.opened,
            option_menu_before: self.option_menu_before,
            modified: self.modified,
        }
    }
}

impl<O> OptionMenu<O> {
    /// Closed, on the menu options tab, with no backup and nothing changed.
    pub fn closed() -> (r: Self)
        ensures
            r@ == (OptionMenuView::<O> {
                category_selection: Category::MenuOption,
                opened: false,
                option_menu_before: None,
                modified: false,
            }),
    {
        OptionMenu { category_selection: Category::MenuOption, option_menu_before: None, modified: false, opened: false }
    }

    /// Whether the options were changed since the backup.
    pub fn modified(&self) -> (r: bool)
        ensures
            r == self@.modified,
    {
        self.modified
    }

    /// Cancel: puts the backed-up options back, if there is a backup, and forgets the backup
    /// and the change mark.
    pub fn revert(&mut self, app_settings: &mut O)
        ensures
            final(self)@ == (OptionMenuView { option_menu_before: None, modified: false, ..old(self)@ }),
            *final(app_settings) == restored(old(self)@, *old(app_settings)),
    {
        let before = self.option_menu_before.take();
        if let Some(before) = before {
            *app_settings = before;
        }
        self.modified = false;
    }

    /// Opens the window afresh: on the menu options tab, with no backup and nothing changed.
    pub fn open(&mut self)
        ensures
            final(self)@ == (OptionMenuView::<O> {
                category_selection: Category::MenuOption,
                opened: true,
                option_menu_before: None,
                modified: false,
            }),
    {
        *self = OptionMenu { category_selection: Category::MenuOption, option_menu_before: None, modified: false, opened: true };
    }

    /// Whether the window is open.
    pub fn is_opened(&self) -> (r: bool)
        ensures
            r == self@.opened,
    {
        self.opened
    }

    /// Closes the window; the backup and the change mark stay.
    pub fn close(&mut self)
        ensures
            final(self)@ == (OptionMenuView { opened: false, ..old(self)@ }),
    {
        self.opened = false;
    }

    /// The selected tab.
    pub fn category_selection(&self) -> (r: Category)
        ensures
            r == self@.category_selection,
    {
        self.category_selection
    }

    /// Selects a tab.
    pub fn select_category(&mut self, category: Category)
        ensures
            final(self)@ == (OptionMenuView { category_selection: category, ..old(self)@ }),
    {
        self.category_selection = category;
    }

    /// Whether there is no backup yet, so that one is taken before editing.
    pub fn needs_backup(&self) -> (r: bool)
        ensures
            r == (self@.option_menu_before is None),
    {
        self.option_menu_before.is_none()
    }

    /// Keeps a backup of the options, unless one is kept already.
    pub fn back_up(&mut self, options: O)
        ensures
            final(self)@ == backed_up(old(self)@, options),
    {
        if self.option_menu_before.is_none() {
            self.option_menu_before = Some(options);
        }
    }

    /// Notes an edit made in the window: once something was edited, the options count as
    /// changed until saved or reverted.
    pub fn note_edit(&mut self, edited: bool)
        ensures
            final(self)@ == (OptionMenuView { modified: old(self)@.modified || edited, ..old(self)@ }),
    {
        if edited {
            self.modified = true;
        }
    }

    /// Save: the current options become the ones kept; the backup and the change mark go.
    pub fn saved(&mut self)
        ensures
            final(self)@ == (OptionMenuView { option_menu_before: None, modified: false, ..old(self)@ }),
    {
        self.option_menu_before = None;
        self.modified = false;
    }
}

impl<O> Default for OptionMenu<O> {
    /// Closed, on the menu options tab, with no backup and nothing changed.
    fn default() -> (r: Self)
        ensures
            r@ == (OptionMenuView::<O> {
                category_selection: Category::MenuOption,
                opened: false,
                option_menu_before: None,
                modified: false,
            }),
    {
        Self::closed()
    }
}

/// The options after a cancel: the backup if there is one, else the current ones.
pub open spec fn restored<O>(menu: OptionMenuView<O>, current: O) -> O {
    match menu.option_menu_before {
        Some(before) => before,
        None => current,
    }
}

/// The window after a backup of `options` was asked for: an earlier backup is kept.
pub open spec fn backed_up<O>(menu: OptionMenuView<O>, options: O) -> OptionMenuView<O> {
    OptionMenuView {
        option_menu_before: match menu.option_menu_before {
            Some(before) => Some(before),
            None => Some(options),
        },
        ..menu
    }
}

/// A cancel gives back the options as they were when the window first backed them up,
/// whatever was edited since, and later backups do not replace the first.
pub proof fn lemma_revert_restores<O>(menu: OptionMenuView<O>, first: O, later: O, current: O)
    requires
        menu.option_menu_before is None,
    ensures
        restored(backed_up(backed_up(menu, first), later), current) == first,
{
}

} // verus!
