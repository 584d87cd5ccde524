//! Editing state of HLTAS (Half-Life TAS) scripts: the per-tab line list, its
//! selection and menu state, undo / redo, keyboard shortcuts and the option
//! values that the editor keeps.

pub mod model;
pub mod script;
pub mod sequences;
pub mod text;
pub mod menu_state;
pub mod undo_redo;
pub mod file_tab;
pub mod jump_duck;
pub mod labels;
pub mod keyboard;
pub mod hltas_text;
pub mod raw_hltas;
pub mod raw_tab;
pub mod goto_menu;
pub mod input_usize;
pub mod option_menu;
pub mod property_field;
pub mod editors;
pub mod locale_lang;
pub mod tabs;
pub mod new_line_menu;
pub mod strafe;
