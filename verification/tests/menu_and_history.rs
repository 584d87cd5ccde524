use hltas_editor::file_tab::HLTASFileTab;
use hltas_editor::menu_state::{HLTASMenuState, StrafeMenuSelection};
use hltas_editor::model::{FrameBulkMovement, MovementKeys};
use hltas_editor::undo_redo::UndoRedoHandler;

const FOUR_LINES: &str = "version 1\nframes\n----------|------|------|0.001|-|-|1\ns03-------|------|------|0.001|90|-|2\n// comment\n----------|f-----|------|0.001|-|-|4\n";

fn four_lines() -> Vec<hltas::types::Line> {
    hltas::HLTAS::from_str(FOUR_LINES).unwrap().lines
}

fn keys(forward: bool) -> MovementKeys {
    MovementKeys { forward, left: false, right: false, back: false, up: false, down: false }
}

#[test]
fn strafe_menu_selection_for_frame_bulks() {
    let strafing = FrameBulkMovement { strafing: true, movement_keys: keys(false) };
    let keyed = FrameBulkMovement { strafing: false, movement_keys: keys(true) };
    let idle = FrameBulkMovement { strafing: false, movement_keys: keys(false) };
    assert_eq!(StrafeMenuSelection::new(&strafing), StrafeMenuSelection::Strafe);
    assert_eq!(StrafeMenuSelection::new(&keyed), StrafeMenuSelection::Keys);
    assert_eq!(StrafeMenuSelection::new(&idle), StrafeMenuSelection::Strafe);
}

#[test]
fn menu_state_for_new_lines() {
    let lines = four_lines();
    let mut menu = HLTASMenuState::new(&lines);
    assert_eq!(menu.selected_indexes(), &[false, false, false, false]);
    assert!(!menu.is_modified());
    assert_eq!(menu.right_click_popup_index(), None);
    assert_eq!(menu.goto_line(), None);
    assert_eq!(*menu.strafe_menu_selection_at_mut(0).unwrap(), Some(StrafeMenuSelection::Strafe));
    assert_eq!(*menu.strafe_menu_selection_at_mut(1).unwrap(), Some(StrafeMenuSelection::Strafe));
    assert_eq!(*menu.strafe_menu_selection_at_mut(2).unwrap(), None);
    assert_eq!(*menu.strafe_menu_selection_at_mut(3).unwrap(), Some(StrafeMenuSelection::Keys));
    assert!(menu.strafe_menu_selection_at_mut(4).is_none());
}

#[test]
fn selection_changes() {
    let lines = four_lines();
    let mut menu = HLTASMenuState::new(&lines);
    menu.change_selected_index(2, true);
    assert!(menu.is_index_selected(2));
    assert!(menu.is_line_selected(2));
    menu.select_index_range(0..2, true);
    assert_eq!(menu.selected_indexes_collection(), vec![0, 1, 2]);
    menu.reset_selected_indexes();
    assert!(menu.selected_indexes_collection().is_empty());
    menu.select_all_indexes();
    assert_eq!(menu.selected_indexes_collection(), vec![0, 1, 2, 3]);
}

#[test]
fn select_on_click_plain_ctrl_and_shift() {
    let lines = four_lines();
    let mut menu = HLTASMenuState::new(&lines);
    menu.select_on_click(1, false, false);
    assert_eq!(menu.selected_indexes_collection(), vec![1]);
    menu.select_on_click(1, false, false);
    assert!(menu.selected_indexes_collection().is_empty());
    menu.select_on_click(0, false, false);
    menu.select_on_click(3, false, true);
    assert_eq!(menu.selected_indexes_collection(), vec![0, 1, 2, 3]);
    menu.select_on_click(2, true, false);
    assert_eq!(menu.selected_indexes_collection(), vec![0, 1, 3]);
    menu.select_on_click(2, false, true);
    assert_eq!(menu.selected_indexes_collection(), vec![2]);
    menu.select_on_click(0, false, true);
    assert_eq!(menu.selected_indexes_collection(), vec![0, 1, 2]);
}

#[test]
fn menu_flags() {
    let lines = four_lines();
    let mut menu = HLTASMenuState::new(&lines);
    menu.got_modified();
    assert!(menu.is_modified());
    menu.saved_modified();
    assert!(!menu.is_modified());
    menu.set_right_click_index(3);
    assert_eq!(menu.right_click_popup_index(), Some(3));
    menu.right_click_elsewhere();
    assert_eq!(menu.right_click_popup_index(), None);
    menu.set_goto_line(2);
    assert_eq!(menu.goto_line(), Some(2));
    assert_eq!(menu.goto_line(), None);
    menu.set_modifying_something(true);
    assert!(menu.is_modifying_something());
}

#[test]
fn menu_lines_follow_inserts_and_removals() {
    let lines = four_lines();
    let mut menu = HLTASMenuState::new(&lines);
    menu.change_selected_index(3, true);
    menu.insert_hltas_line(0, &lines[2]);
    assert_eq!(menu.selected_indexes_collection(), vec![4]);
    menu.push_hltas_line(&lines[0]);
    assert_eq!(menu.selected_indexes().len(), 6);
    menu.remove_line_at_index(0);
    assert_eq!(menu.selected_indexes_collection(), vec![3]);
}

#[test]
fn undo_redo_of_deleted_lines() {
    let mut lines = four_lines();
    let initial = lines.clone();
    let mut menu = HLTASMenuState::new(&lines);
    let mut history = UndoRedoHandler::new();
    assert!(history.can_undo(lines.len()));
    let deleted = vec![(1, lines[1].clone()), (3, lines[3].clone())];
    lines.remove(3);
    lines.remove(1);
    menu.remove_line_at_index(3);
    menu.remove_line_at_index(1);
    history.delete_lines(deleted);
    assert!(history.can_undo(lines.len()));
    history.undo(&mut lines, &mut menu);
    assert_eq!(lines, initial);
    assert!(menu.is_modified());
    assert!(history.can_redo(lines.len()));
    history.redo(&mut lines, &mut menu);
    assert_eq!(lines, vec![initial[0].clone(), initial[2].clone()]);
    history.undo(&mut lines, &mut menu);
    assert_eq!(lines, initial);
}

#[test]
fn undo_redo_of_added_and_edited_lines() {
    let mut lines = four_lines();
    let initial = lines.clone();
    let mut menu = HLTASMenuState::new(&lines);
    let mut history = UndoRedoHandler::default();
    lines.insert(0, initial[2].clone());
    menu.insert_hltas_line(0, &initial[2]);
    history.add_lines(vec![0]);
    history.undo(&mut lines, &mut menu);
    assert_eq!(lines, initial);
    history.redo(&mut lines, &mut menu);
    assert_eq!(lines.len(), 5);
    assert_eq!(lines[0], initial[2]);

    let mut lines = initial.clone();
    let mut menu = HLTASMenuState::new(&lines);
    let mut history = UndoRedoHandler::new();
    history.edit_line(lines[1].clone(), 1);
    lines[1] = initial[3].clone();
    history.undo(&mut lines, &mut menu);
    assert_eq!(lines, initial);
    history.redo(&mut lines, &mut menu);
    assert_eq!(lines[1], initial[3]);
}

#[test]
fn undo_with_empty_history_changes_nothing() {
    let mut lines = four_lines();
    let initial = lines.clone();
    let mut menu = HLTASMenuState::new(&lines);
    let mut history = UndoRedoHandler::new();
    history.undo(&mut lines, &mut menu);
    history.redo(&mut lines, &mut menu);
    assert_eq!(lines, initial);
    assert!(!menu.is_modified());
}

#[test]
fn tab_opens_file() {
    let tab = HLTASFileTab::open_path("scripts/bhop.hltas", FOUR_LINES).unwrap();
    assert_eq!(tab.title(), "bhop.hltas");
    assert_eq!(tab.path(), Some(&"scripts/bhop.hltas".to_string()));
    assert_eq!(tab.hltas_lines_len(), 4);
    assert!(!tab.hltas_lines_is_empty());
    assert!(!tab.tab_menu_data.is_modified());
    assert!(HLTASFileTab::open_path("scripts/bhop.hltas", "version 9\nframes\n").is_err());
    assert!(HLTASFileTab::try_open_path("/", FOUR_LINES).is_none());
}

#[test]
fn tab_new_file_and_titles() {
    let tab = HLTASFileTab::new_file("New file".to_string());
    assert_eq!(tab.title(), "New file");
    assert_eq!(tab.path(), None);
    assert!(tab.hltas_lines_is_empty());
    assert_eq!(tab.hltas_text(), "version 1\nframes\n");
    assert_eq!(HLTASFileTab::title_from_path("x/y/z.hltas", "d".to_string()), "z.hltas");
    assert_eq!(HLTASFileTab::title_from_path("/", "d".to_string()), "d");
}

#[test]
fn tab_line_edits_with_undo() {
    let mut tab = HLTASFileTab::open_path("a.hltas", FOUR_LINES).unwrap();
    let initial = tab.hltas.lines.clone();
    tab.tab_menu_data.change_selected_index(0, true);
    tab.tab_menu_data.change_selected_index(2, true);
    let selected: Vec<hltas::types::Line> = tab.get_selected_lines().into_iter().cloned().collect();
    assert_eq!(selected, vec![initial[0].clone(), initial[2].clone()]);
    tab.remove_selected_lines_with_undo();
    assert_eq!(tab.hltas.lines, vec![initial[1].clone(), initial[3].clone()]);
    assert!(tab.tab_menu_data.is_modified());
    assert!(tab.can_undo());
    tab.undo_hltas();
    assert_eq!(tab.hltas.lines, initial);
    assert!(tab.can_redo());
    tab.redo_hltas();
    assert_eq!(tab.hltas.lines.len(), 2);
    tab.undo_hltas();

    tab.remove_line_with_undo(3);
    assert_eq!(tab.hltas.lines.len(), 3);
    tab.undo_hltas();
    assert_eq!(tab.hltas.lines, initial);

    tab.tab_menu_data.set_right_click_index(1);
    tab.new_line_at_click_index_with_undo(initial[2].clone());
    assert_eq!(tab.hltas.lines[1], initial[2]);
    assert_eq!(tab.hltas.lines.len(), 5);
    tab.undo_hltas();
    assert_eq!(tab.hltas.lines, initial);
}

#[test]
fn tab_plain_line_edits() {
    let mut tab = HLTASFileTab::new_file("n".to_string());
    let lines = four_lines();
    tab.push_line(lines[0].clone());
    tab.insert_line(0, lines[2].clone());
    assert_eq!(tab.hltas.lines, vec![lines[2].clone(), lines[0].clone()]);
    tab.new_line_at_click_index(lines[3].clone());
    assert_eq!(tab.hltas.lines.last(), Some(&lines[3]));
    tab.remove_line_at_index(0);
    assert_eq!(tab.hltas.lines, vec![lines[0].clone(), lines[3].clone()]);
    tab.select_all_lines();
    tab.remove_selected_lines();
    assert!(tab.hltas_lines_is_empty());
    tab.hltas_properties_mut().demo = Some("d".to_string());
    assert_eq!(tab.hltas_text(), "version 1\ndemo d\nframes\n");
    tab.saved_as_new_file("dir/saved.hltas", "n".to_string());
    assert_eq!(tab.title(), "saved.hltas");
}

#[test]
fn deleting_selected_lines_clears_selection_and_marks_modified() {
    let mut tab = HLTASFileTab::open_path("a.hltas", FOUR_LINES).unwrap();
    tab.tab_menu_data.change_selected_index(1, true);
    tab.tab_menu_data.change_selected_index(3, true);
    tab.remove_selected_lines_with_undo();
    assert_eq!(tab.tab_menu_data.selected_indexes(), &[false, false]);
    assert!(tab.tab_menu_data.is_modified());
    assert_eq!(tab.hltas_lines_len(), 2);
}

#[test]
fn inserted_lines_get_strafe_entries_only_for_frame_bulks() {
    let lines = four_lines();
    let mut tab = HLTASFileTab::new_file("n".to_string());
    tab.push_line(lines[2].clone());
    tab.insert_line(0, lines[0].clone());
    assert_eq!(*tab.tab_menu_data.strafe_menu_selection_at_mut(0).unwrap(), Some(StrafeMenuSelection::Strafe));
    assert_eq!(*tab.tab_menu_data.strafe_menu_selection_at_mut(1).unwrap(), None);
}

#[test]
fn opened_tab_keeps_properties_and_starts_fresh() {
    let text = "version 1\ndemo bhop\nsave run\nseed 3 4\nframes\n----------|------|------|0.001|-|-|1\n// note\n";
    let mut tab = HLTASFileTab::try_open_path("dir/run.hltas", text).unwrap().unwrap();
    assert_eq!(tab.hltas.properties.demo, Some("bhop".to_string()));
    assert_eq!(tab.hltas.properties.save, Some("run".to_string()));
    let seeds = tab.hltas.properties.seeds.unwrap();
    assert_eq!((seeds.shared, seeds.non_shared), (3, 4));
    assert_eq!(tab.hltas.properties.load_command, None);
    assert_eq!(tab.tab_menu_data.selected_indexes(), &[false, false]);
    assert_eq!(tab.tab_menu_data.right_click_popup_index(), None);
    assert_eq!(tab.tab_menu_data.goto_line(), None);
    assert!(!tab.tab_menu_data.is_modifying_something());
    assert_eq!(*tab.tab_menu_data.strafe_menu_selection_at_mut(0).unwrap(), Some(StrafeMenuSelection::Strafe));
    assert_eq!(*tab.tab_menu_data.strafe_menu_selection_at_mut(1).unwrap(), None);
    let lines = tab.hltas.lines.clone();
    tab.undo_hltas();
    tab.redo_hltas();
    assert_eq!(tab.hltas.lines, lines);
    assert!(!tab.tab_menu_data.is_modified());
}

#[test]
fn new_line_keeps_selection_flags_in_place() {
    let mut tab = HLTASFileTab::open_path("a.hltas", FOUR_LINES).unwrap();
    let lines = four_lines();
    tab.tab_menu_data.change_selected_index(0, true);
    tab.tab_menu_data.change_selected_index(2, true);
    tab.tab_menu_data.set_right_click_index(1);
    tab.new_line_at_click_index_with_undo(lines[2].clone());
    assert_eq!(tab.tab_menu_data.selected_indexes(), &[true, false, false, true, false]);
    assert_eq!(*tab.tab_menu_data.strafe_menu_selection_at_mut(1).unwrap(), None);
    tab.tab_menu_data.right_click_elsewhere();
    tab.new_line_at_click_index(lines[0].clone());
    assert_eq!(tab.tab_menu_data.selected_indexes(), &[true, false, false, true, false, false]);
    assert_eq!(*tab.tab_menu_data.strafe_menu_selection_at_mut(5).unwrap(), Some(StrafeMenuSelection::Strafe));
}

#[test]
fn undo_puts_menu_entries_back_with_the_lines() {
    let mut tab = HLTASFileTab::open_path("a.hltas", FOUR_LINES).unwrap();
    tab.tab_menu_data.change_selected_index(0, true);
    tab.remove_line_with_undo(1);
    assert_eq!(tab.tab_menu_data.selected_indexes(), &[true, false, false]);
    tab.undo_hltas();
    assert_eq!(tab.tab_menu_data.selected_indexes(), &[true, false, false, false]);
    assert_eq!(*tab.tab_menu_data.strafe_menu_selection_at_mut(1).unwrap(), Some(StrafeMenuSelection::Strafe));
    assert_eq!(*tab.tab_menu_data.strafe_menu_selection_at_mut(2).unwrap(), None);
    assert!(tab.tab_menu_data.is_modified());
}
