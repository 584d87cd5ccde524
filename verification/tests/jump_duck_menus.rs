use hltas_editor::editors::{ActionKeyClicks, ActionKeysEditor};
use hltas_editor::jump_duck::{
    auto_duck_changes, duck_menu_changes, lgagst_shown, validate_jump_states, validate_lgagst_state, AutoDuckClicks, BeforeState, ChangedState,
    JumpDefaults, LgagstStates,
};
use hltas_editor::labels::{action_keys_label, duck_menu_label, join_strs, jump_menu_label, lgagst_menu_label};
use hltas_editor::model::{
    ActionKeys, DuckBeforeCollision, DuckBeforeGround, DuckWhenJump, JumpBug, JumpDuckSettings, LeaveGroundAction,
    LeaveGroundActionSpeed, LeaveGroundActionType, Times,
};

fn no_keys() -> ActionKeys {
    ActionKeys { jump: false, duck: false, use_: false, attack_1: false, attack_2: false, reload: false }
}

fn plain_settings() -> JumpDuckSettings {
    JumpDuckSettings {
        leave_ground_action: None,
        jump_bug: None,
        duck_before_collision: None,
        duck_before_ground: None,
        duck_when_jump: None,
        action_keys: no_keys(),
    }
}

fn defaults() -> JumpDefaults {
    JumpDefaults {
        ducktap_speed: LeaveGroundActionSpeed::Optimal,
        jump_speed: LeaveGroundActionSpeed::Any,
        ducktap_zero_ms: false,
    }
}

fn nothing_shown() -> BeforeState {
    BeforeState { ducktap: false, zero_ms: false, autojump: false, jump: false, duck: false, jumpbug: false }
}

fn no_clicks() -> ChangedState {
    ChangedState { ducktap: false, zero_ms: false, autojump: false, jump: false, duck: false, jumpbug: false }
}

fn ducktap(zero_ms: bool, speed: LeaveGroundActionSpeed) -> LeaveGroundAction {
    LeaveGroundAction { speed, times: Times::UnlimitedWithinFrameBulk, type_: LeaveGroundActionType::DuckTap { zero_ms } }
}

#[test]
fn ducktap_click_adds_ducktap_and_drops_jump_key() {
    let mut s = plain_settings();
    s.action_keys.jump = true;
    let before = s;
    let snapshots = validate_jump_states(&mut s, defaults(), nothing_shown(), ChangedState { ducktap: true, ..no_clicks() });
    assert_eq!(snapshots, vec![before]);
    assert!(!s.action_keys.jump);
    assert_eq!(s.leave_ground_action, Some(ducktap(false, LeaveGroundActionSpeed::Optimal)));
}

#[test]
fn ducktap_click_on_shown_ducktap_removes_it() {
    let mut s = plain_settings();
    s.leave_ground_action = Some(ducktap(false, LeaveGroundActionSpeed::Any));
    let shown = BeforeState { ducktap: true, ..nothing_shown() };
    let snapshots = validate_jump_states(&mut s, defaults(), shown, ChangedState { ducktap: true, ..no_clicks() });
    assert_eq!(snapshots.len(), 1);
    assert_eq!(s.leave_ground_action, None);
}

#[test]
fn zero_ms_click_turns_jump_into_zero_ms_ducktap() {
    let mut s = plain_settings();
    s.leave_ground_action = Some(LeaveGroundAction {
        speed: LeaveGroundActionSpeed::OptimalWithFullMaxspeed,
        times: Times::Limited(2),
        type_: LeaveGroundActionType::Jump,
    });
    validate_jump_states(&mut s, defaults(), nothing_shown(), ChangedState { zero_ms: true, ..no_clicks() });
    assert_eq!(
        s.leave_ground_action,
        Some(LeaveGroundAction {
            speed: LeaveGroundActionSpeed::OptimalWithFullMaxspeed,
            times: Times::Limited(2),
            type_: LeaveGroundActionType::DuckTap { zero_ms: true },
        })
    );
}

#[test]
fn autojump_keeps_existing_speed() {
    let mut s = plain_settings();
    s.leave_ground_action = Some(ducktap(false, LeaveGroundActionSpeed::OptimalWithFullMaxspeed));
    validate_jump_states(&mut s, defaults(), nothing_shown(), ChangedState { autojump: true, ..no_clicks() });
    assert_eq!(
        s.leave_ground_action,
        Some(LeaveGroundAction {
            speed: LeaveGroundActionSpeed::OptimalWithFullMaxspeed,
            times: Times::UnlimitedWithinFrameBulk,
            type_: LeaveGroundActionType::Jump,
        })
    );
}

#[test]
fn jump_and_duck_keys_clear_automatic_actions() {
    let mut s = plain_settings();
    s.leave_ground_action = Some(ducktap(true, LeaveGroundActionSpeed::Optimal));
    s.jump_bug = Some(JumpBug { times: Times::UnlimitedWithinFrameBulk });
    s.duck_before_ground = Some(DuckBeforeGround { times: Times::UnlimitedWithinFrameBulk });
    let snapshots =
        validate_jump_states(&mut s, defaults(), nothing_shown(), ChangedState { jump: true, duck: true, ..no_clicks() });
    assert_eq!(snapshots.len(), 2);
    assert!(s.action_keys.jump);
    assert!(s.action_keys.duck);
    assert_eq!(s.leave_ground_action, None);
    assert_eq!(s.jump_bug, None);
    assert_eq!(s.duck_before_ground, None);
}

#[test]
fn jumpbug_click_clears_keys_and_leave_ground_action() {
    let mut s = plain_settings();
    s.action_keys.jump = true;
    s.action_keys.duck = true;
    validate_jump_states(&mut s, defaults(), nothing_shown(), ChangedState { jumpbug: true, ..no_clicks() });
    assert_eq!(s.jump_bug, Some(JumpBug { times: Times::UnlimitedWithinFrameBulk }));
    assert!(!s.action_keys.jump && !s.action_keys.duck);
}

#[test]
fn no_click_changes_nothing() {
    let mut s = plain_settings();
    s.action_keys.jump = true;
    let before = s;
    let snapshots = validate_jump_states(&mut s, defaults(), nothing_shown(), no_clicks());
    assert!(snapshots.is_empty());
    assert_eq!(s, before);
}

#[test]
fn lgagst_toggles() {
    let mut s = plain_settings();
    s.leave_ground_action = Some(ducktap(false, LeaveGroundActionSpeed::Any));
    s.jump_bug = Some(JumpBug { times: Times::UnlimitedWithinFrameBulk });
    let before = s;
    let snapshot = validate_lgagst_state(
        &mut s,
        LgagstStates { lgagst_changed: true, lgagst_before: false, lgagst_max_spd_changed: false, lgagst_max_spd_before: false },
    );
    assert_eq!(snapshot, Some(before));
    assert_eq!(s.leave_ground_action.unwrap().speed, LeaveGroundActionSpeed::Optimal);
    assert_eq!(s.jump_bug, None);
    validate_lgagst_state(
        &mut s,
        LgagstStates { lgagst_changed: false, lgagst_before: true, lgagst_max_spd_changed: true, lgagst_max_spd_before: false },
    );
    assert_eq!(s.leave_ground_action.unwrap().speed, LeaveGroundActionSpeed::OptimalWithFullMaxspeed);
    let unchanged = validate_lgagst_state(
        &mut s,
        LgagstStates { lgagst_changed: false, lgagst_before: false, lgagst_max_spd_changed: false, lgagst_max_spd_before: true },
    );
    assert_eq!(unchanged, None);
}

#[test]
fn lgagst_without_leave_ground_action_changes_nothing() {
    let mut s = plain_settings();
    let snapshot = validate_lgagst_state(
        &mut s,
        LgagstStates { lgagst_changed: true, lgagst_before: false, lgagst_max_spd_changed: false, lgagst_max_spd_before: false },
    );
    assert_eq!(snapshot, Some(plain_settings()));
    assert_eq!(s, plain_settings());
}

#[test]
fn auto_duck_checkboxes() {
    let mut s = plain_settings();
    s.action_keys.duck = true;
    let clicks = AutoDuckClicks {
        duck_before_collision: true,
        duck_before_collision_inc_ceiling: true,
        duck_before_ground: false,
        duck_when_jump: true,
        before_collision_changed: true,
        inc_ceiling_changed: false,
        before_ground_changed: false,
        when_jump_changed: true,
    };
    let (snapshots, edited) = auto_duck_changes(&mut s, clicks);
    assert_eq!(snapshots.len(), 2);
    assert!(edited);
    assert!(!s.action_keys.duck);
    assert_eq!(s.duck_before_collision, Some(DuckBeforeCollision { times: Times::UnlimitedWithinFrameBulk, including_ceilings: true }));
    assert_eq!(s.duck_when_jump, Some(DuckWhenJump { times: Times::UnlimitedWithinFrameBulk }));
}

#[test]
fn auto_duck_when_jump_alone_is_not_reported() {
    let mut s = plain_settings();
    let clicks = AutoDuckClicks {
        duck_before_collision: false,
        duck_before_collision_inc_ceiling: false,
        duck_before_ground: false,
        duck_when_jump: true,
        before_collision_changed: false,
        inc_ceiling_changed: false,
        before_ground_changed: false,
        when_jump_changed: true,
    };
    let (snapshots, edited) = auto_duck_changes(&mut s, clicks);
    assert_eq!(snapshots, vec![plain_settings()]);
    assert!(!edited);
}

#[test]
fn jump_labels() {
    let mut s = plain_settings();
    assert_eq!(jump_menu_label(&s), "None");
    s.action_keys.duck = true;
    assert_eq!(jump_menu_label(&s), "Duck");
    s.action_keys.jump = true;
    assert_eq!(jump_menu_label(&s), "Jump+Duck");
    s.action_keys.jump = false;
    s.leave_ground_action = Some(ducktap(true, LeaveGroundActionSpeed::Optimal));
    assert_eq!(jump_menu_label(&s), "0ms Ducktap+Duck");
    s.action_keys.duck = false;
    s.leave_ground_action = Some(ducktap(false, LeaveGroundActionSpeed::Optimal));
    assert_eq!(jump_menu_label(&s), "Ducktap");
    s.leave_ground_action = None;
    s.jump_bug = Some(JumpBug { times: Times::UnlimitedWithinFrameBulk });
    assert_eq!(jump_menu_label(&s), "Jump Bug");
}

#[test]
fn lgagst_labels() {
    let mut s = plain_settings();
    assert_eq!(lgagst_menu_label(&s), "No Lgagst");
    s.leave_ground_action = Some(ducktap(false, LeaveGroundActionSpeed::Optimal));
    assert_eq!(lgagst_menu_label(&s), "Lgagst");
    s.leave_ground_action = Some(ducktap(false, LeaveGroundActionSpeed::OptimalWithFullMaxspeed));
    assert_eq!(lgagst_menu_label(&s), "Lgagst With Max Spd");
}

#[test]
fn duck_labels() {
    let mut s = plain_settings();
    assert_eq!(duck_menu_label(&s), "no auto duck");
    s.duck_before_collision = Some(DuckBeforeCollision { times: Times::UnlimitedWithinFrameBulk, including_ceilings: true });
    s.duck_when_jump = Some(DuckWhenJump { times: Times::UnlimitedWithinFrameBulk });
    assert_eq!(duck_menu_label(&s), "dbc ceil/dwj");
    s.duck_before_collision = Some(DuckBeforeCollision { times: Times::UnlimitedWithinFrameBulk, including_ceilings: false });
    s.duck_before_ground = Some(DuckBeforeGround { times: Times::UnlimitedWithinFrameBulk });
    assert_eq!(duck_menu_label(&s), "dbc/dbg/dwj");
}

#[test]
fn action_key_labels() {
    let mut keys = no_keys();
    assert_eq!(action_keys_label(&keys), "no action key set");
    keys.use_ = true;
    keys.reload = true;
    assert_eq!(action_keys_label(&keys), "use/rld");
    keys.attack_1 = true;
    keys.attack_2 = true;
    assert_eq!(action_keys_label(&keys), "use/att1/att2/rld");
}

#[test]
fn joining_texts() {
    assert_eq!(join_strs(&vec!["a", "b"], ", "), "a, b");
    assert_eq!(join_strs(&vec!["only"], "+"), "only");
    assert_eq!(join_strs(&Vec::new(), "+"), "");
}

#[test]
fn action_key_undo_snapshots() {
    let keys = ActionKeys { use_: true, attack_2: true, ..no_keys() };
    let (snapshots, edited) =
        ActionKeysEditor::undo_snapshots(keys, ActionKeyClicks { use_: true, attack_1: false, attack_2: true, reload: false });
    assert!(edited);
    assert_eq!(snapshots, vec![ActionKeys { use_: false, ..keys }, ActionKeys { attack_2: false, ..keys }]);
    let (none, not_edited) =
        ActionKeysEditor::undo_snapshots(keys, ActionKeyClicks { use_: false, attack_1: false, attack_2: false, reload: false });
    assert!(none.is_empty());
    assert!(!not_edited);
}

#[test]
fn line_list_duck_checkboxes_keep_duck_key() {
    let mut s = plain_settings();
    s.action_keys.duck = true;
    s.duck_when_jump = Some(DuckWhenJump { times: Times::Limited(3) });
    let clicks = AutoDuckClicks {
        duck_before_collision: true,
        duck_before_collision_inc_ceiling: false,
        duck_before_ground: true,
        duck_when_jump: false,
        before_collision_changed: true,
        inc_ceiling_changed: false,
        before_ground_changed: true,
        when_jump_changed: true,
    };
    let edited = duck_menu_changes(&mut s, clicks);
    assert!(edited);
    assert!(s.action_keys.duck);
    assert_eq!(s.duck_before_collision, Some(DuckBeforeCollision { times: Times::UnlimitedWithinFrameBulk, including_ceilings: false }));
    assert_eq!(s.duck_before_ground, Some(DuckBeforeGround { times: Times::UnlimitedWithinFrameBulk }));
    assert_eq!(s.duck_when_jump, None);
}

#[test]
fn shown_jump_and_lgagst_state() {
    let mut s = plain_settings();
    s.leave_ground_action = Some(ducktap(true, LeaveGroundActionSpeed::OptimalWithFullMaxspeed));
    s.action_keys.duck = true;
    let shown = BeforeState::of(&s);
    assert_eq!(shown, BeforeState { ducktap: true, zero_ms: true, autojump: false, jump: false, duck: true, jumpbug: false });
    assert_eq!(lgagst_shown(&s), (false, true));
    s.leave_ground_action = Some(LeaveGroundAction {
        speed: LeaveGroundActionSpeed::Optimal,
        times: Times::UnlimitedWithinFrameBulk,
        type_: LeaveGroundActionType::Jump,
    });
    let shown = BeforeState::of(&s);
    assert!(shown.autojump && !shown.ducktap && !shown.zero_ms);
    assert_eq!(lgagst_shown(&s), (true, false));
    assert_eq!(lgagst_shown(&plain_settings()), (false, false));
}
