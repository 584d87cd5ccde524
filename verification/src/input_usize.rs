//! A text field that edits an unsigned number: its options, and how a typed text
//! becomes the new number.
use vstd::prelude::*;
use crate::text::{parse_usize, usize_from_text, IntErrorKind};

verus! {

/// Options of a number field; an option left `None` keeps the widget's own default.
pub struct InputUsize {
    hint: String,
    auto_select_all: Option<bool>,
    allow_tab_input: Option<bool>,
    no_horizontal_scroll: Option<bool>,
    always_insert_mode: Option<bool>,
    read_only: Option<bool>,
    password: Option<bool>,
    no_undo_redo: Option<bool>,
}

/// The options of a number field as values.
pub struct InputUsizeView {
    pub hint: Seq<char>,
    pub auto_select_all: Option<bool>,
    pub allow_tab_input: Option<bool>,
    pub no_horizontal_scroll: Option<bool>,
    pub always_insert_mode: Option<bool>,
    pub read_only: Option<bool>,
    pub password: Option<bool>,
    pub no_undo_redo: Option<bool>,
}

impl View for InputUsize {
    type V = InputUsizeView;

    closed spec fn view(&self) -> InputUsizeView {
        InputUsizeView {
            hint: self.hint@,
            auto_select_all: self.auto_select_all,
            allow_tab_input: self.allow_tab_input,
            no_horizontal_scroll: self.no_horizontal_scroll,
            always_insert_mode: self.always_insert_mode,
            read_only: self.read_only,
            password: self.password,
            no_undo_redo: self.no_undo_redo,
        }
    }
}

/// The number a field holds after its text was edited to `text`, from `current`: the
/// parsed number, or for a text that does not parse, 0 when empty or zero, the largest
/// number on overflow, the smallest on underflow, and `current` otherwise.
pub open spec fn value_after_edit(current: usize, text: Seq<char>) -> usize {
    match usize_from_text(text) {
        Ok(v) => v,
        Err(kind) => match kind {
            IntErrorKind::Empty => 0,
            IntErrorKind::InvalidDigit => current,
            IntErrorKind::PosOverflow => usize::MAX,
            IntErrorKind::NegOverflow => 0,
            IntErrorKind::Zero => 0,
            IntErrorKind::Other => current,
        },
    }
}

/// The number from what `str::parse::<usize>` returned, as `value_after_edit` says.
pub fn value_from_parse(current: usize, parsed: Result<usize, IntErrorKind>) -> (r: usize)
    ensures
        r == (match parsed {
            Ok(v) => v,
            Err(kind) => match kind {
                IntErrorKind::Empty => 0,
                IntErrorKind::InvalidDigit => current,
                IntErrorKind::PosOverflow => usize::MAX,
                IntErrorKind::NegOverflow => 0,
                IntErrorKind::Zero => 0,
                IntErrorKind::Other => current,
            },
        }),
{
    match parsed {
        Ok(value) => value,
        Err(kind) => match kind {
            IntErrorKind::Empty => 0,
            IntErrorKind::InvalidDigit => current,
            IntErrorKind::PosOverflow => usize::MAX,
            IntErrorKind::NegOverflow => usize::MIN,
            IntErrorKind::Zero => 0,
            IntErrorKind::Other => current,
        },
    }
}

/// The number a field holds after its text was edited.
pub fn edited_value(current: usize, text: &str) -> (r: usize)
    ensures
        r == value_after_edit(current, text@),
{
    value_from_parse(current, parse_usize(text))
}

impl InputUsize {
    /// A field with no hint and every option left to the widget.
    pub fn new() -> (r: Self)
        ensures
            r@ == (InputUsizeView {
                hint: Seq::empty(),
                auto_select_all: None,
                allow_tab_input: None,
                no_horizontal_scroll: None,
                always_insert_mode: None,
                read_only: None,
                password: None,
                no_undo_redo: None,
            }),
    {
        InputUsize {
            hint: String::new(),
            auto_select_all: None,
            allow_tab_input: None,
            no_horizontal_scroll: None,
            always_insert_mode: None,
            read_only: None,
            password: None,
            no_undo_redo: None,
        }
    }

    /// Sets whether the text is selected when the field is focused.
    pub fn auto_select_all(self, value: bool) -> (r: Self)
        ensures
            r@ == (InputUsizeView { auto_select_all: Some(value), ..self@ }),
    {
        let mut s = self;
        s.auto_select_all = Some(value);
        s
    }

    /// The hint shown in an empty field.
    pub fn hint(&self) -> (r: &str)
        ensures
            r@ == self@.hint,
    {
        self.hint.as_str()
    }

    /// Whether the text is selected on focus, if set.
    pub fn auto_select_all_option(&self) -> (r: Option<bool>)
        ensures
            r == self@.auto_select_all,
    {
        self.auto_select_all
    }

    /// Whether tab is typed into the field, if set.
    pub fn allow_tab_input_option(&self) -> (r: Option<bool>)
        ensures
            r == self@.allow_tab_input,
    {
        self.allow_tab_input
    }

    /// Whether horizontal scrolling is off, if set.
    pub fn no_horizontal_scroll_option(&self) -> (r: Option<bool>)
        ensures
            r == self@.no_horizontal_scroll,
    {
        self.no_horizontal_scroll
    }

    /// Whether the field is in insert mode, if set.
    pub fn always_insert_mode_option(&self) -> (r: Option<bool>)
        ensures
            r == self@.always_insert_mode,
    {
        self.always_insert_mode
    }

    /// Whether the field is read only, if set.
    pub fn read_only_option(&self) -> (r: Option<bool>)
        ensures
            r == self@.read_only,
    {
        self.read_only
    }

    /// Whether the text is hidden, if set.
    pub fn password_option(&self) -> (r: Option<bool>)
        ensures
            r == self@.password,
    {
        self.password
    }

    /// Whether the field's own undo is off, if set.
    pub fn no_undo_redo_option(&self) -> (r: Option<bool>)
        ensures
            r == self@.no_undo_redo,
    {
        self.no_undo_redo
    }
}

} // verus!
