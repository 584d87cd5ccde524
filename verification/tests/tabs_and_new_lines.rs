use hltas_editor::file_tab::HLTASFileTab;
use hltas_editor::new_line_menu::{
    last_line_of_kind, new_empty_framebulk_line, new_framebulk_line, new_lgagst_min_speed_line, new_vectorial_strafing_line,
    previous_lines, LineKind,
};
use hltas_editor::strafe::{
    has_previous_yaw, strafe_selection_changed, strafe_selector, strafe_type_selection, MovementPlan, MovementShape,
    StrafeDirKind, StrafeType, YawSource,
};
use hltas_editor::tabs::{RecentPaths, TabList};
use hltas::types::Line;

const SCRIPT: &str = "version 1\nframes\n----------|------|------|0.004|-|-|1\nlgagstminspeed 30\ntarget_yaw velocity_lock\n----------|------|------|0.01|-|-|2\n// note\n";

fn script_lines(text: &str) -> Vec<Line> {
    hltas::HLTAS::from_str(text).unwrap().lines
}

fn recent_list(paths: &RecentPaths) -> Vec<String> {
    (0..paths.len()).map(|i| paths.get(i).to_string()).collect()
}

#[test]
fn recent_paths_move_reopened_file_last() {
    let mut paths = RecentPaths::new();
    paths.add_recent_path("a", 3);
    paths.add_recent_path("b", 3);
    paths.add_recent_path("c", 3);
    assert_eq!(recent_list(&paths), vec!["a", "b", "c"]);
    paths.add_recent_path("a", 3);
    assert_eq!(recent_list(&paths), vec!["b", "c", "a"]);
    paths.add_recent_path("d", 3);
    assert_eq!(recent_list(&paths), vec!["c", "a", "d"]);
}

#[test]
fn recent_paths_with_no_room() {
    let mut paths = RecentPaths::new();
    paths.add_recent_path("a", 0);
    assert_eq!(paths.len(), 0);
    paths.add_recent_path("a", 1);
    paths.add_recent_path("b", 1);
    assert_eq!(recent_list(&paths), vec!["b"]);
}

#[test]
fn tab_list_new_files_and_switching() {
    let mut tabs = TabList::new();
    assert!(tabs.is_empty());
    tabs.new_file("one".to_string(), true);
    assert_eq!(tabs.take_tab_switch_index(), Some(0));
    assert_eq!(tabs.take_tab_switch_index(), None);
    tabs.new_file("two".to_string(), false);
    assert_eq!(tabs.take_tab_switch_index(), None);
    assert_eq!(tabs.len(), 2);
    assert_eq!(tabs.tab(1).title(), "two");
    tabs.tab_mut(1).push_line(script_lines(SCRIPT)[0].clone());
    assert_eq!(tabs.tab(1).hltas_lines_len(), 1);
}

#[test]
fn tab_list_finds_open_file() {
    let mut tabs = TabList::new();
    tabs.new_file("new".to_string(), false);
    tabs.push_tab(HLTASFileTab::open_path("dir/a.hltas", SCRIPT).unwrap(), false);
    tabs.push_tab(HLTASFileTab::open_path("dir/b.hltas", SCRIPT).unwrap(), false);
    assert_eq!(tabs.tab_with_path("dir/b.hltas"), Some(2));
    assert_eq!(tabs.tab_with_path("dir/./a.hltas"), Some(1));
    assert_eq!(tabs.tab_with_path("dir/c.hltas"), None);
    assert!(tabs.switch_to_open_file("dir/a.hltas", true));
    assert_eq!(tabs.take_tab_switch_index(), Some(1));
    assert!(!tabs.switch_to_open_file("dir/c.hltas", true));
    assert_eq!(tabs.take_tab_switch_index(), None);
}

#[test]
fn tab_list_closing_keeps_shown_tab() {
    let mut tabs = TabList::new();
    tabs.new_file("a".to_string(), false);
    tabs.new_file("b".to_string(), false);
    tabs.new_file("c".to_string(), false);
    tabs.set_current_tab(Some(2));
    tabs.close_tab(0);
    assert_eq!(tabs.current_tab(), Some(1));
    assert_eq!(tabs.tab(1).title(), "c");
    tabs.close_tab(7);
    assert_eq!(tabs.len(), 2);
    tabs.close_current_tab();
    assert_eq!(tabs.len(), 1);
    assert_eq!(tabs.current_tab(), None);
    assert_eq!(tabs.take_tab_switch_index(), Some(0));
    tabs.set_current_tab(Some(0));
    tabs.close_tab(0);
    assert!(tabs.is_empty());
    assert_eq!(tabs.current_tab(), None);
}

#[test]
fn last_lines_of_a_kind() {
    let lines = script_lines(SCRIPT);
    assert_eq!(last_line_of_kind(&lines, lines.len(), LineKind::FrameBulk), Some(3));
    assert_eq!(last_line_of_kind(&lines, 3, LineKind::FrameBulk), Some(0));
    assert_eq!(last_line_of_kind(&lines, 0, LineKind::FrameBulk), None);
    assert_eq!(last_line_of_kind(&lines, lines.len(), LineKind::Comment), Some(4));
    assert_eq!(last_line_of_kind(&lines, lines.len(), LineKind::Save), None);
    assert_eq!(last_line_of_kind(&lines, lines.len(), LineKind::VectorialStrafingConstraints), Some(2));
}

#[test]
fn lines_a_new_line_is_based_on() {
    let lines = script_lines(SCRIPT);
    assert_eq!(previous_lines(Some(2), &lines), Some(2));
    assert_eq!(previous_lines(None, &lines), Some(lines.len()));
    assert_eq!(previous_lines(None, &Vec::new()), None);
}

#[test]
fn new_framebulk_lines() {
    let lines = script_lines(SCRIPT);
    let copied = new_framebulk_line(&lines, Some(lines.len()), "0.001", true);
    assert_eq!(copied, lines[3]);
    let fresh = new_framebulk_line(&lines, Some(3), "0.001", false);
    match fresh {
        Line::FrameBulk(fb) => {
            assert_eq!(fb.frame_time, "0.004");
            assert_eq!(fb.frame_count.get(), 1);
        },
        _ => panic!("not a frame bulk"),
    }
    match new_empty_framebulk_line(&lines, None, "0.001") {
        Line::FrameBulk(fb) => assert_eq!(fb.frame_time, "0.001"),
        _ => panic!("not a frame bulk"),
    }
    match new_framebulk_line(&lines, Some(0), "0.02", true) {
        Line::FrameBulk(fb) => assert_eq!(fb.frame_time, "0.02"),
        _ => panic!("not a frame bulk"),
    }
}

#[test]
fn new_vectorial_and_lgagst_lines() {
    let lines = script_lines("version 1\nframes\nstrafing yaw\n----------|------|------|0.004|-|-|1\n");
    assert_eq!(new_vectorial_strafing_line(&lines, Some(lines.len())), Line::VectorialStrafing(true));
    let lines = script_lines("version 1\nframes\nstrafing vectorial\n");
    assert_eq!(new_vectorial_strafing_line(&lines, Some(1)), Line::VectorialStrafing(false));
    assert_eq!(new_vectorial_strafing_line(&lines, None), Line::VectorialStrafing(true));
    let lines = script_lines(SCRIPT);
    assert_eq!(new_lgagst_min_speed_line(&lines, Some(lines.len()), Line::LGAGSTMinSpeed(5.0), true), lines[1]);
    assert_eq!(
        new_lgagst_min_speed_line(&lines, Some(lines.len()), Line::LGAGSTMinSpeed(5.0), false),
        Line::LGAGSTMinSpeed(5.0)
    );
    assert_eq!(new_lgagst_min_speed_line(&lines, Some(1), Line::LGAGSTMinSpeed(5.0), true), Line::LGAGSTMinSpeed(5.0));
}

#[test]
fn strafe_type_choice() {
    let set_yaw = MovementShape::SetYaw;
    let strafe_left = MovementShape::Strafe { type_: StrafeType::MaxAccel, dir: StrafeDirKind::Left };
    let strafe_line = MovementShape::Strafe { type_: StrafeType::MaxAngle, dir: StrafeDirKind::Line };
    assert_eq!(strafe_type_selection(strafe_left), Some(StrafeType::MaxAccel));
    assert_eq!(strafe_type_selection(set_yaw), None);
    assert!(has_previous_yaw(set_yaw));
    assert!(has_previous_yaw(strafe_line));
    assert!(!has_previous_yaw(strafe_left));
    assert!(!has_previous_yaw(MovementShape::Nothing));
    assert_eq!(
        strafe_selection_changed(Some(StrafeType::MaxDeccel), set_yaw),
        MovementPlan::StrafeBest { type_: StrafeType::MaxDeccel }
    );
    assert_eq!(
        strafe_selection_changed(Some(StrafeType::ConstSpeed), set_yaw),
        MovementPlan::StrafeYaw { type_: StrafeType::ConstSpeed, yaw: YawSource::Previous }
    );
    assert_eq!(
        strafe_selection_changed(Some(StrafeType::MaxAccel), strafe_left),
        MovementPlan::StrafeYaw { type_: StrafeType::MaxAccel, yaw: YawSource::Zero }
    );
    assert_eq!(strafe_selection_changed(None, strafe_line), MovementPlan::SetPreviousYaw);
    assert_eq!(strafe_selection_changed(None, strafe_left), MovementPlan::Nothing);
    assert_eq!(
        strafe_selector(Some(StrafeType::MaxDeccel), MovementShape::Nothing),
        MovementPlan::StrafeYaw { type_: StrafeType::MaxDeccel, yaw: YawSource::Zero }
    );
    assert_eq!(strafe_selector(None, set_yaw), MovementPlan::Nothing);
}

#[test]
fn chosen_strafe_type_is_shown_after() {
    let chosen = strafe_selection_changed(Some(StrafeType::MaxAngle), MovementShape::Nothing);
    let shape = match chosen {
        MovementPlan::StrafeYaw { type_, .. } => MovementShape::Strafe { type_, dir: StrafeDirKind::Yaw },
        MovementPlan::StrafeBest { type_ } => MovementShape::Strafe { type_, dir: StrafeDirKind::Best },
        MovementPlan::SetPreviousYaw => MovementShape::SetYaw,
        MovementPlan::Nothing => MovementShape::Nothing,
    };
    assert_eq!(strafe_type_selection(shape), Some(StrafeType::MaxAngle));
    assert_eq!(
        strafe_selection_changed(Some(StrafeType::MaxAngle), shape),
        MovementPlan::StrafeYaw { type_: StrafeType::MaxAngle, yaw: YawSource::Previous }
    );
}

#[test]
fn closing_a_tab_leaves_switch_position() {
    let mut tabs = TabList::new();
    tabs.new_file("a".to_string(), false);
    tabs.new_file("b".to_string(), false);
    tabs.new_file("c".to_string(), true);
    tabs.close_tab(0);
    assert_eq!(tabs.take_tab_switch_index(), Some(2));
}
