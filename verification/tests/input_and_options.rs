use hltas_editor::goto_menu::GotoMenu;
use hltas_editor::input_usize::{edited_value, value_from_parse, InputUsize};
use hltas_editor::keyboard::{KeyCombination, KeyboardState};
use hltas_editor::locale_lang::{get_fallback_lang, language_or_fallback, LocaleLang};
use hltas_editor::menu_state::HLTASMenuState;
use hltas_editor::model::LeaveGroundActionSpeed;
use hltas_editor::option_menu::{edited_recent_path_size, recent_path_size_from_parse, Category, LgagstOption, OptionMenu};
use hltas_editor::property_field::{apply_field_result, unset_field_result, PropertyFieldResult};
use hltas_editor::text::IntErrorKind;
use winit::event::VirtualKeyCode;

fn keys_held(held: &[VirtualKeyCode]) -> [bool; 512] {
    let mut keys = [false; 512];
    for key in held {
        keys[*key as usize] = true;
    }
    keys
}

#[test]
fn key_just_pressed_only_on_first_frame() {
    let mut state = KeyboardState::default();
    assert!(!state.held(VirtualKeyCode::N));
    state.update(&keys_held(&[VirtualKeyCode::N]));
    assert!(state.held(VirtualKeyCode::N));
    assert!(state.just_pressed(VirtualKeyCode::N));
    state.update(&keys_held(&[VirtualKeyCode::N]));
    assert!(state.held(VirtualKeyCode::N));
    assert!(!state.just_pressed(VirtualKeyCode::N));
    state.update(&keys_held(&[]));
    assert!(!state.held(VirtualKeyCode::N));
    state.update(&keys_held(&[VirtualKeyCode::N]));
    assert!(state.just_pressed(VirtualKeyCode::N));
}

#[test]
fn key_combination_needs_exact_modifiers() {
    let save = KeyCombination::new(VirtualKeyCode::S).ctrl();
    let mut state = KeyboardState::default();
    state.update(&keys_held(&[VirtualKeyCode::S]));
    assert!(!save.just_pressed(&state));
    let mut state = KeyboardState::default();
    state.update(&keys_held(&[VirtualKeyCode::RControl, VirtualKeyCode::S]));
    assert!(save.just_pressed(&state));
    let mut state = KeyboardState::default();
    state.update(&keys_held(&[VirtualKeyCode::LControl, VirtualKeyCode::LShift, VirtualKeyCode::S]));
    assert!(!save.just_pressed(&state));
    let delete = KeyCombination::new(VirtualKeyCode::Delete);
    let mut state = KeyboardState::default();
    state.update(&keys_held(&[VirtualKeyCode::Delete]));
    assert!(delete.just_pressed(&state));
}

#[test]
fn key_combination_text() {
    assert_eq!(KeyCombination::new(VirtualKeyCode::N).ctrl().to_string(), "ctrl+N");
    assert_eq!(KeyCombination::new(VirtualKeyCode::Delete).to_string(), "Delete");
}

#[test]
fn goto_menu_jumps_and_closes() {
    let mut menu = GotoMenu::default();
    assert!(!menu.is_opened());
    assert_eq!(menu.selected_index(), 0);
    menu.open();
    assert!(menu.is_opened());
    *menu.selected_index_mut() = 7;
    let mut tab_menu = HLTASMenuState::new(&Vec::new());
    menu.jump_to_line(&mut tab_menu);
    assert!(!menu.is_opened());
    assert_eq!(menu.selected_index(), 7);
    assert_eq!(tab_menu.goto_line(), Some(7));
    menu.open();
    *menu.opened_mut() = false;
    assert!(!menu.is_opened());
    menu.open();
    menu.close();
    assert!(!menu.is_opened());
}

#[test]
fn number_field_reads_text() {
    assert_eq!(edited_value(5, "42"), 42);
    assert_eq!(edited_value(5, "+7"), 7);
    assert_eq!(edited_value(5, "007"), 7);
    assert_eq!(edited_value(5, ""), 0);
    assert_eq!(edited_value(5, "4x"), 5);
    assert_eq!(edited_value(5, "-3"), 5);
    assert_eq!(edited_value(5, "99999999999999999999999999999"), usize::MAX);
    assert_eq!(value_from_parse(5, Err(IntErrorKind::NegOverflow)), 0);
    assert_eq!(value_from_parse(5, Err(IntErrorKind::Zero)), 0);
    assert_eq!(value_from_parse(5, Err(IntErrorKind::Other)), 5);
    assert_eq!(value_from_parse(5, Ok(9)), 9);
}

#[test]
fn number_field_options() {
    let field = InputUsize::new();
    assert_eq!(field.hint(), "");
    assert_eq!(field.auto_select_all_option(), None);
    let field = field.auto_select_all(true);
    assert_eq!(field.auto_select_all_option(), Some(true));
    assert_eq!(field.read_only_option(), None);
    assert_eq!(field.password_option(), None);
    assert_eq!(field.no_undo_redo_option(), None);
    assert_eq!(field.allow_tab_input_option(), None);
    assert_eq!(field.no_horizontal_scroll_option(), None);
    assert_eq!(field.always_insert_mode_option(), None);
}

#[test]
fn recent_path_size_field() {
    assert_eq!(edited_recent_path_size("30"), 30);
    assert_eq!(edited_recent_path_size(""), 0);
    assert_eq!(edited_recent_path_size("abc"), 0);
    assert_eq!(edited_recent_path_size("99999999999999999999999999"), usize::MAX);
    assert_eq!(recent_path_size_from_parse(Err(IntErrorKind::NegOverflow)), 0);
}

#[test]
fn option_defaults() {
    assert_eq!(Category::default(), Category::MenuOption);
    assert_eq!(
        LgagstOption::default(),
        LgagstOption { default_selection: LeaveGroundActionSpeed::Optimal, copy_previous_framebulk: true }
    );
}

#[test]
fn option_menu_cancel_restores_backup() {
    let mut menu: OptionMenu<u32> = OptionMenu::default();
    assert!(!menu.is_opened());
    menu.open();
    assert!(menu.is_opened());
    assert_eq!(menu.category_selection(), Category::MenuOption);
    let mut options: u32 = 10;
    assert!(menu.needs_backup());
    menu.back_up(options);
    menu.back_up(99);
    options = 20;
    menu.note_edit(true);
    menu.select_category(Category::Language);
    assert!(menu.modified());
    menu.revert(&mut options);
    assert_eq!(options, 10);
    assert!(!menu.modified());
    assert!(menu.needs_backup());
    assert_eq!(menu.category_selection(), Category::Language);
}

#[test]
fn option_menu_save_keeps_options() {
    let mut menu: OptionMenu<u32> = OptionMenu::closed();
    menu.open();
    let mut options: u32 = 1;
    menu.back_up(options);
    options = 2;
    menu.note_edit(true);
    menu.saved();
    assert!(!menu.modified());
    menu.revert(&mut options);
    assert_eq!(options, 2);
    menu.close();
    assert!(!menu.is_opened());
}

#[test]
fn optional_property_field() {
    let mut field: Option<String> = None;
    let changed = apply_field_result(&mut field, "default".to_string(), unset_field_result(true));
    assert!(changed);
    assert_eq!(field, Some("default".to_string()));
    let changed = apply_field_result(&mut field, String::new(), PropertyFieldResult { field_enabled: true, edited: false });
    assert!(!changed);
    assert_eq!(field, Some("default".to_string()));
    let changed = apply_field_result(&mut field, String::new(), PropertyFieldResult { field_enabled: true, edited: true });
    assert!(changed);
    let changed = apply_field_result(&mut field, String::new(), PropertyFieldResult { field_enabled: false, edited: false });
    assert!(changed);
    assert_eq!(field, None);
    let changed = apply_field_result(&mut field, String::new(), unset_field_result(false));
    assert!(!changed);
    assert_eq!(field, None);
}

#[test]
fn language_choice() {
    let english: fluent_templates::LanguageIdentifier = "en-US".parse().unwrap();
    let german: fluent_templates::LanguageIdentifier = "de".parse().unwrap();
    let mut lang = LocaleLang::new(Some(english.clone()));
    assert!(!lang.is_using_system_lang());
    assert_eq!(lang.get_lang(), english);
    lang.set_lang(&german);
    assert_eq!(lang.get_lang(), german);
    assert_eq!(lang.copy().get_lang(), german);
    lang.use_system_lang();
    assert!(lang.is_using_system_lang());
    assert_eq!(get_fallback_lang(), english);
}

#[test]
fn language_or_fallback_choice() {
    let german: fluent_templates::LanguageIdentifier = "de".parse().unwrap();
    let english: fluent_templates::LanguageIdentifier = "en-US".parse().unwrap();
    assert_eq!(language_or_fallback(Some(german.clone())), german);
    assert_eq!(language_or_fallback(None), english);
}
