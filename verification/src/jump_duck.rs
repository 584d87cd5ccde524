//! The decisions of the jump, lgagst and duck menus of a frame bulk: how toggling one
//! setting changes the others, and which states are kept for undo.
use vstd::prelude::*;
use crate::model::{
    DuckBeforeCollision, DuckBeforeGround, DuckWhenJump, JumpBug, JumpDuckSettings,
    LeaveGroundAction, LeaveGroundActionSpeed, LeaveGroundActionType, Times,
};

verus! {

/// The jump menu's selectables as they were shown.
#[derive(Clone, Copy, Debug, PartialEq, Eq, Structural)]
pub struct BeforeState {
    pub ducktap: bool,
    pub zero_ms: bool,
    pub autojump: bool,
    pub jump: bool,
    pub duck: bool,
    pub jumpbug: bool,
}

/// Which of the jump menu's selectables were clicked.
#[derive(Clone, Copy, Debug, PartialEq, Eq, Structural)]
pub struct ChangedState {
    pub ducktap: bool,
    pub zero_ms: bool,
    pub autojump: bool,
    pub jump: bool,
    pub duck: bool,
    pub jumpbug: bool,
}

/// The jump menu's selectables as a frame bulk's settings show them: the kind of its
/// leave-ground action, its jump and duck keys, and whether it jump-bugs.
pub open spec fn shown_state(s: JumpDuckSettings) -> BeforeState {
    let (autojump, ducktap, zero_ms) = match s.leave_ground_action {
        Some(a) => match a.type_ {
            LeaveGroundActionType::Jump => (true, false, false),
            LeaveGroundActionType::DuckTap { zero_ms } => (false, true, zero_ms),
        },
        None => (false, false, false),
    };
    BeforeState {
        ducktap,
        zero_ms,
        autojump,
        jump: s.action_keys.jump,
        duck: s.action_keys.duck,
        jumpbug: s.jump_bug is Some,
    }
}

impl BeforeState {
    /// The selectables as the settings show them.
    pub fn of(framebulk: &JumpDuckSettings) -> (r: Self)
        ensures
            r == shown_state(*framebulk),
    {
        let (autojump, ducktap, zero_ms) = match framebulk.leave_ground_action {
            Some(leave_ground_action) => match leave_ground_action.type_ {
                LeaveGroundActionType::Jump => (true, false, false),
                LeaveGroundActionType::DuckTap { zero_ms } => (false, true, zero_ms),
            },
            None => (false, false, false),
        };
        BeforeState {
            ducktap,
            zero_ms,
            autojump,
            jump: framebulk.action_keys.jump,
            duck: framebulk.action_keys.duck,
            jumpbug: framebulk.jump_bug.is_some(),
        }
    }
}

/// The lgagst selectables as a frame bulk's settings show them: whether the leave-ground
/// action asks for the optimal speed, and whether for the optimal speed with full maxspeed.
pub open spec fn shown_lgagst(s: JumpDuckSettings) -> (bool, bool) {
    match s.leave_ground_action {
        Some(a) => match a.speed {
            LeaveGroundActionSpeed::Any => (false, false),
            LeaveGroundActionSpeed::Optimal => (true, false),
            LeaveGroundActionSpeed::OptimalWithFullMaxspeed => (false, true),
        },
        None => (false, false),
    }
}

/// The lgagst selectables as the settings show them.
pub fn lgagst_shown(framebulk: &JumpDuckSettings) -> (r: (bool, bool))
    ensures
        r == shown_lgagst(*framebulk),
{
    match framebulk.leave_ground_action {
        Some(leave_ground_action) => match leave_ground_action.speed {
            LeaveGroundActionSpeed::Any => (false, false),
            LeaveGroundActionSpeed::Optimal => (true, false),
            LeaveGroundActionSpeed::OptimalWithFullMaxspeed => (false, true),
        },
        None => (false, false),
    }
}

/// Defaults the jump menu uses for a new leave-ground action.
#[derive(Clone, Copy, Debug, PartialEq, Eq, Structural)]
pub struct JumpDefaults {
    /// Speed of a new duck-tap.
    pub ducktap_speed: LeaveGroundActionSpeed,
    /// Speed of a new automatic jump.
    pub jump_speed: LeaveGroundActionSpeed,
    /// Whether a new duck-tap is a 0 ms duck-tap.
    pub ducktap_zero_ms: bool,
}

/// The speed an existing leave-ground action has, else `default`.
pub open spec fn kept_speed(s: JumpDuckSettings, default: LeaveGroundActionSpeed) -> LeaveGroundActionSpeed {
    match s.leave_ground_action {
        Some(a) => a.speed,
        None => default,
    }
}

pub open spec fn ducktap_step(s: JumpDuckSettings, d: JumpDefaults, b: BeforeState, c: ChangedState) -> JumpDuckSettings {
    if !c.ducktap {
        s
    } else if b.ducktap {
        JumpDuckSettings { leave_ground_action: None, ..s }
    } else {
        JumpDuckSettings {
            action_keys: crate::model::ActionKeys { jump: false, ..s.action_keys },
            leave_ground_action: Some(LeaveGroundAction {
                speed: kept_speed(s, d.ducktap_speed),
                times: Times::UnlimitedWithinFrameBulk,
                type_: LeaveGroundActionType::DuckTap { zero_ms: d.ducktap_zero_ms },
            }),
            ..s
        }
    }
}

pub open spec fn zero_ms_step(s: JumpDuckSettings, d: JumpDefaults, b: BeforeState, c: ChangedState) -> JumpDuckSettings {
    if !c.zero_ms {
        s
    } else {
        match s.leave_ground_action {
            Some(a) => match a.type_ {
                LeaveGroundActionType::DuckTap { .. } => JumpDuckSettings {
                    leave_ground_action: Some(LeaveGroundAction { type_: LeaveGroundActionType::DuckTap { zero_ms: !b.zero_ms }, ..a }),
                    ..s
                },
                LeaveGroundActionType::Jump => JumpDuckSettings {
                    leave_ground_action: Some(LeaveGroundAction { type_: LeaveGroundActionType::DuckTap { zero_ms: true }, ..a }),
                    ..s
                },
            },
            None => JumpDuckSettings {
                action_keys: crate::model::ActionKeys { jump: false, ..s.action_keys },
                leave_ground_action: Some(LeaveGroundAction {
                    speed: d.ducktap_speed,
                    times: Times::UnlimitedWithinFrameBulk,
                    type_: LeaveGroundActionType::DuckTap { zero_ms: true },
                }),
                ..s
            },
        }
    }
}

pub open spec fn autojump_step(s: JumpDuckSettings, d: JumpDefaults, b: BeforeState, c: ChangedState) -> JumpDuckSettings {
    if !c.autojump {
        s
    } else if b.autojump {
        JumpDuckSettings { leave_ground_action: None, ..s }
    } else {
        JumpDuckSettings {
            action_keys: crate::model::ActionKeys { jump: false, ..s.action_keys },
            leave_ground_action: Some(LeaveGroundAction {
                speed: kept_speed(s, d.jump_speed),
                times: Times::UnlimitedWithinFrameBulk,
                type_: LeaveGroundActionType::Jump,
            }),
            ..s
        }
    }
}

pub open spec fn jump_step(s: JumpDuckSettings, b: BeforeState, c: ChangedState) -> JumpDuckSettings {
    if !c.jump {
        s
    } else if !b.jump {
        JumpDuckSettings {
            leave_ground_action: None,
            jump_bug: None,
            action_keys: crate::model::ActionKeys { jump: true, ..s.action_keys },
            ..s
        }
    } else {
        JumpDuckSettings { action_keys: crate::model::ActionKeys { jump: false, ..s.action_keys }, ..s }
    }
}

pub open spec fn duck_step(s: JumpDuckSettings, b: BeforeState, c: ChangedState) -> JumpDuckSettings {
    if !c.duck {
        s
    } else if !b.duck {
        JumpDuckSettings {
            jump_bug: None,
            duck_before_collision: None,
            duck_before_ground: None,
            duck_when_jump: None,
            action_keys: crate::model::ActionKeys { duck: true, ..s.action_keys },
            ..s
        }
    } else {
        JumpDuckSettings { action_keys: crate::model::ActionKeys { duck: false, ..s.action_keys }, ..s }
    }
}

pub open spec fn jumpbug_step(s: JumpDuckSettings, b: BeforeState, c: ChangedState) -> JumpDuckSettings {
    if !c.jumpbug {
        s
    } else if b.jumpbug {
        JumpDuckSettings { jump_bug: None, ..s }
    } else {
        JumpDuckSettings {
            action_keys: crate::model::ActionKeys { jump: false, duck: false, ..s.action_keys },
            leave_ground_action: None,
            jump_bug: Some(JumpBug { times: Times::UnlimitedWithinFrameBulk }),
            ..s
        }
    }
}

/// `s` as a one-element sequence when `keep`, else nothing.
pub open spec fn kept_if(keep: bool, s: JumpDuckSettings) -> Seq<JumpDuckSettings> {
    if keep { seq![s] } else { Seq::empty() }
}

/// The settings after all six toggles, in the order the menu applies them.
pub open spec fn jump_states_result(s0: JumpDuckSettings, d: JumpDefaults, b: BeforeState, c: ChangedState) -> JumpDuckSettings {
    jumpbug_step(duck_step(jump_step(autojump_step(zero_ms_step(ducktap_step(s0, d, b, c), d, b, c), d, b, c), b, c), b, c), b, c)
}

/// The states kept for undo: the state before each toggle that was clicked, in order.
pub open spec fn jump_states_snapshots(s0: JumpDuckSettings, d: JumpDefaults, b: BeforeState, c: ChangedState) -> Seq<JumpDuckSettings> {
    let s1 = ducktap_step(s0, d, b, c);
    let s2 = zero_ms_step(s1, d, b, c);
    let s3 = autojump_step(s2, d, b, c);
    let s4 = jump_step(s3, b, c);
    let s5 = duck_step(s4, b, c);
    kept_if(c.ducktap, s0) + kept_if(c.zero_ms, s1) + kept_if(c.autojump, s2) + kept_if(c.jump, s3)
        + kept_if(c.duck, s4) + kept_if(c.jumpbug, s5)
}

fn keep(snapshots: &mut Vec<JumpDuckSettings>, keep: bool, s: &JumpDuckSettings)
    ensures
        final(snapshots)@ == old(snapshots)@ + kept_if(keep, *s),
{
    if keep {
        snapshots.push(*s);
    }
    proof {
        if keep {
            assert(final(snapshots)@ =~= old(snapshots)@ + seq![*s]);
        } else {
            assert(final(snapshots)@ =~= old(snapshots)@ + Seq::<JumpDuckSettings>::empty());
        }
    }
}

fn apply_ducktap(framebulk: &mut JumpDuckSettings, defaults: JumpDefaults, before_state: BeforeState, changed_state: ChangedState)
    ensures
        *final(framebulk) == ducktap_step(*old(framebulk), defaults, before_state, changed_state),
{
    // this toggles the ducktap state
    if changed_state.ducktap {
        if before_state.ducktap {
            framebulk.leave_ground_action = None;
        } else {
            let speed = match framebulk.leave_ground_action {
                Some(leave_ground_action) => leave_ground_action.speed,
                None => defaults.ducktap_speed,
            };
            framebulk.action_keys.jump = false;
            framebulk.leave_ground_action = Some(LeaveGroundAction {
                speed,
                times: Times::UnlimitedWithinFrameBulk,
                type_: LeaveGroundActionType::DuckTap { zero_ms: defaults.ducktap_zero_ms },
            });
        }
    }
}

fn apply_zero_ms(framebulk: &mut JumpDuckSettings, defaults: JumpDefaults, before_state: BeforeState, changed_state: ChangedState)
    ensures
        *final(framebulk) == zero_ms_step(*old(framebulk), defaults, before_state, changed_state),
{
    if changed_state.zero_ms {
        match framebulk.leave_ground_action {
            Some(leave_ground_action) => match leave_ground_action.type_ {
                LeaveGroundActionType::DuckTap { .. } => {
                    framebulk.leave_ground_action = Some(LeaveGroundAction {
                        type_: LeaveGroundActionType::DuckTap { zero_ms: !before_state.zero_ms },
                        ..leave_ground_action
                    });
                },
                LeaveGroundActionType::Jump => {
                    framebulk.leave_ground_action = Some(LeaveGroundAction {
                        type_: LeaveGroundActionType::DuckTap { zero_ms: true },
                        ..leave_ground_action
                    });
                },
            },
            None => {
                framebulk.action_keys.jump = false;
                framebulk.leave_ground_action = Some(LeaveGroundAction {
                    speed: defaults.ducktap_speed,
                    times: Times::UnlimitedWithinFrameBulk,
                    type_: LeaveGroundActionType::DuckTap { zero_ms: true },
                });
            },
        }
    }
}

fn apply_autojump(framebulk: &mut JumpDuckSettings, defaults: JumpDefaults, before_state: BeforeState, changed_state: ChangedState)
    ensures
        *final(framebulk) == autojump_step(*old(framebulk), defaults, before_state, changed_state),
{
    // this toggles the jump state
    if changed_state.autojump {
        if before_state.autojump {
            framebulk.leave_ground_action = None;
        } else {
            let speed = match framebulk.leave_ground_action {
                Some(leave_ground_action) => leave_ground_action.speed,
                None => defaults.jump_speed,
            };
            framebulk.action_keys.jump = false;
            framebulk.leave_ground_action = Some(LeaveGroundAction {
                speed,
                times: Times::UnlimitedWithinFrameBulk,
                type_: LeaveGroundActionType::Jump,
            });
        }
    }
}

fn apply_jump(framebulk: &mut JumpDuckSettings, before_state: BeforeState, changed_state: ChangedState)
    ensures
        *final(framebulk) == jump_step(*old(framebulk), before_state, changed_state),
{
    // for that single "jump" selectable
    if changed_state.jump {
        if !before_state.jump {
            // disable all other jump / ducktap stuff
            framebulk.leave_ground_action = None;
            framebulk.jump_bug = None;
        }
        framebulk.action_keys.jump = !before_state.jump;
    }
}

fn apply_duck(framebulk: &mut JumpDuckSettings, before_state: BeforeState, changed_state: ChangedState)
    ensures
        *final(framebulk) == duck_step(*old(framebulk), before_state, changed_state),
{
    // for that single "duck" selectable
    if changed_state.duck {
        if !before_state.duck {
            // disable all other unused stuff
            framebulk.jump_bug = None;
            framebulk.duck_before_collision = None;
            framebulk.duck_before_ground = None;
            framebulk.duck_when_jump = None;
        }
        framebulk.action_keys.duck = !before_state.duck;
    }
}

fn apply_jumpbug(framebulk: &mut JumpDuckSettings, before_state: BeforeState, changed_state: ChangedState)
    ensures
        *final(framebulk) == jumpbug_step(*old(framebulk), before_state, changed_state),
{
    // toggle jumpbug stuff
    if changed_state.jumpbug {
        if before_state.jumpbug {
            framebulk.jump_bug = None;
        } else {
            // we need both of those keys so
            framebulk.action_keys.jump = false;
            framebulk.action_keys.duck = false;

            framebulk.leave_ground_action = None;
            framebulk.jump_bug = Some(JumpBug { times: Times::UnlimitedWithinFrameBulk });
        }
    }
}

/// Applies the clicks on the jump menu's selectables to a frame bulk's settings, one after
/// the other: duck-tap, 0 ms, automatic jump, jump key, duck key, jump bug. Returns the
/// state before each applied click, for undo.
pub fn validate_jump_states(
    framebulk: &mut JumpDuckSettings,
    defaults: JumpDefaults,
    before_state: BeforeState,
    changed_state: ChangedState,
) -> (snapshots: Vec<JumpDuckSettings>)
    ensures
        *final(framebulk) == jump_states_result(*old(framebulk), defaults, before_state, changed_state),
        snapshots@ == jump_states_snapshots(*old(framebulk), defaults, before_state, changed_state),
{
    let mut snapshots: Vec<JumpDuckSettings> = Vec::new();
    keep(&mut snapshots, changed_state.ducktap, framebulk);
    apply_ducktap(framebulk, defaults, before_state, changed_state);
    keep(&mut snapshots, changed_state.zero_ms, framebulk);
    apply_zero_ms(framebulk, defaults, before_state, changed_state);
    keep(&mut snapshots, changed_state.autojump, framebulk);
    apply_autojump(framebulk, defaults, before_state, changed_state);
    keep(&mut snapshots, changed_state.jump, framebulk);
    apply_jump(framebulk, before_state, changed_state);
    keep(&mut snapshots, changed_state.duck, framebulk);
    apply_duck(framebulk, before_state, changed_state);
    keep(&mut snapshots, changed_state.jumpbug, framebulk);
    apply_jumpbug(framebulk, before_state, changed_state);
    proof {
        assert(snapshots@ =~= jump_states_snapshots(*old(framebulk), defaults, before_state, changed_state));
    }
    snapshots
}

/// The lgagst selectables as they were shown and which of them were clicked.
#[derive(Clone, Copy, Debug, PartialEq, Eq, Structural)]
pub struct LgagstStates {
    pub lgagst_changed: bool,
    pub lgagst_before: bool,
    pub lgagst_max_spd_changed: bool,
    pub lgagst_max_spd_before: bool,
}

/// The settings after the lgagst clicks: with a leave-ground action, the jump bug goes
/// away and each clicked selectable toggles the speed between its own and `Any`.
pub open spec fn lgagst_result(s: JumpDuckSettings, l: LgagstStates) -> JumpDuckSettings {
    match s.leave_ground_action {
        Some(a) => {
            let speed1 = if l.lgagst_changed {
                if l.lgagst_before { LeaveGroundActionSpeed::Any } else { LeaveGroundActionSpeed::Optimal }
            } else {
                a.speed
            };
            let speed2 = if l.lgagst_max_spd_changed {
                if l.lgagst_max_spd_before { LeaveGroundActionSpeed::Any } else { LeaveGroundActionSpeed::OptimalWithFullMaxspeed }
            } else {
                speed1
            };
            JumpDuckSettings {
                jump_bug: None,
                leave_ground_action: Some(LeaveGroundAction { speed: speed2, ..a }),
                ..s
            }
        },
        None => s,
    }
}

/// Applies the clicks on the lgagst selectables. Returns the state before them, for undo,
/// when either was clicked.
pub fn validate_lgagst_state(framebulk: &mut JumpDuckSettings, lgagst_states: LgagstStates) -> (snapshot: Option<JumpDuckSettings>)
    ensures
        *final(framebulk) == lgagst_result(*old(framebulk), lgagst_states),
        snapshot == if lgagst_states.lgagst_changed || lgagst_states.lgagst_max_spd_changed {
            Some(*old(framebulk))
        } else {
            None
        },
{
    let snapshot = if lgagst_states.lgagst_changed || lgagst_states.lgagst_max_spd_changed {
        Some(*framebulk)
    } else {
        None
    };

    if let Some(leave_ground_action) = framebulk.leave_ground_action {
        let mut lgagst_state = leave_ground_action.speed;

        framebulk.jump_bug = None;

        // toggle lgagst
        if lgagst_states.lgagst_changed {
            if lgagst_states.lgagst_before {
                lgagst_state = LeaveGroundActionSpeed::Any;
            } else {
                lgagst_state = LeaveGroundActionSpeed::Optimal;
            }
        }

        // toggle lgagst max spd
        if lgagst_states.lgagst_max_spd_changed {
            if lgagst_states.lgagst_max_spd_before {
                lgagst_state = LeaveGroundActionSpeed::Any;
            } else {
                lgagst_state = LeaveGroundActionSpeed::OptimalWithFullMaxspeed;
            }
        }
        framebulk.leave_ground_action = Some(LeaveGroundAction { speed: lgagst_state, ..leave_ground_action });
    }
    snapshot
}

/// The auto-duck checkboxes after the clicks, and which of them were clicked.
#[derive(Clone, Copy, Debug, PartialEq, Eq, Structural)]
pub struct AutoDuckClicks {
    pub duck_before_collision: bool,
    pub duck_before_collision_inc_ceiling: bool,
    pub duck_before_ground: bool,
    pub duck_when_jump: bool,
    pub before_collision_changed: bool,
    pub inc_ceiling_changed: bool,
    pub before_ground_changed: bool,
    pub when_jump_changed: bool,
}

pub open spec fn before_collision_step(s: JumpDuckSettings, k: AutoDuckClicks) -> JumpDuckSettings {
    if !k.before_collision_changed {
        s
    } else if k.duck_before_collision {
        JumpDuckSettings {
            action_keys: crate::model::ActionKeys { duck: false, ..s.action_keys },
            duck_before_collision: Some(DuckBeforeCollision {
                times: Times::UnlimitedWithinFrameBulk,
                including_ceilings: k.duck_before_collision_inc_ceiling,
            }),
            ..s
        }
    } else {
        JumpDuckSettings { duck_before_collision: None, ..s }
    }
}

pub open spec fn ceiling_step(s: JumpDuckSettings, k: AutoDuckClicks) -> JumpDuckSettings {
    if k.duck_before_collision && k.inc_ceiling_changed {
        match s.duck_before_collision {
            Some(d) => JumpDuckSettings {
                duck_before_collision: Some(DuckBeforeCollision { including_ceilings: k.duck_before_collision_inc_ceiling, ..d }),
                ..s
            },
            None => s,
        }
    } else {
        s
    }
}

pub open spec fn before_ground_step(s: JumpDuckSettings, k: AutoDuckClicks) -> JumpDuckSettings {
    if !k.before_ground_changed {
        s
    } else if k.duck_before_ground {
        JumpDuckSettings {
            action_keys: crate::model::ActionKeys { duck: false, ..s.action_keys },
            duck_before_ground: Some(DuckBeforeGround { times: Times::UnlimitedWithinFrameBulk }),
            ..s
        }
    } else {
        JumpDuckSettings { duck_before_ground: None, ..s }
    }
}

pub open spec fn when_jump_step(s: JumpDuckSettings, k: AutoDuckClicks) -> JumpDuckSettings {
    if !k.when_jump_changed {
        s
    } else if k.duck_when_jump {
        JumpDuckSettings {
            action_keys: crate::model::ActionKeys { duck: false, ..s.action_keys },
            duck_when_jump: Some(DuckWhenJump { times: Times::UnlimitedWithinFrameBulk }),
            ..s
        }
    } else {
        JumpDuckSettings { duck_when_jump: None, ..s }
    }
}

/// Applies the clicks on the auto-duck checkboxes, in the menu's order. Returns the states
/// kept for undo (the state before each applied change) and whether the menu reports an
/// edit, which it does for the collision, ceiling and ground checkboxes.
#[verifier::rlimit(40)]
pub fn auto_duck_changes(framebulk: &mut JumpDuckSettings, clicks: AutoDuckClicks) -> (r: (Vec<JumpDuckSettings>, bool))
    ensures
        *final(framebulk) == auto_duck_result(*old(framebulk), clicks),
        r.0@ == auto_duck_snapshots(*old(framebulk), clicks),
        r.1 == (clicks.before_collision_changed || clicks.inc_ceiling_changed || clicks.before_ground_changed),
{
    let ghost s0 = *framebulk;
    let mut snapshots: Vec<JumpDuckSettings> = Vec::new();

    keep(&mut snapshots, clicks.before_collision_changed, framebulk);
    if clicks.before_collision_changed {
        if clicks.duck_before_collision {
            framebulk.action_keys.duck = false;
            framebulk.duck_before_collision = Some(DuckBeforeCollision {
                times: Times::UnlimitedWithinFrameBulk,
                including_ceilings: clicks.duck_before_collision_inc_ceiling,
            });
        } else {
            framebulk.duck_before_collision = None;
        }
    }
    let ghost s1 = *framebulk;

    let ceiling_edit = clicks.duck_before_collision && clicks.inc_ceiling_changed;
    keep(&mut snapshots, ceiling_edit && framebulk.duck_before_collision.is_some(), framebulk);
    if ceiling_edit {
        if let Some(dbc) = framebulk.duck_before_collision {
            framebulk.duck_before_collision = Some(DuckBeforeCollision {
                including_ceilings: clicks.duck_before_collision_inc_ceiling,
                ..dbc
            });
        }
    }
    let ghost s2 = *framebulk;

    keep(&mut snapshots, clicks.before_ground_changed, framebulk);
    if clicks.before_ground_changed {
        if clicks.duck_before_ground {
            framebulk.action_keys.duck = false;
            framebulk.duck_before_ground = Some(DuckBeforeGround { times: Times::UnlimitedWithinFrameBulk });
        } else {
            framebulk.duck_before_ground = None;
        }
    }
    let ghost s3 = *framebulk;

    keep(&mut snapshots, clicks.when_jump_changed, framebulk);
    if clicks.when_jump_changed {
        if clicks.duck_when_jump {
            framebulk.action_keys.duck = false;
            framebulk.duck_when_jump = Some(DuckWhenJump { times: Times::UnlimitedWithinFrameBulk });
        } else {
            framebulk.duck_when_jump = None;
        }
    }
    proof {
        assert(s1 == before_collision_step(s0, clicks));
        assert(s2 == ceiling_step(s1, clicks));
        assert(s3 == before_ground_step(s2, clicks));
    }
    (snapshots, clicks.before_collision_changed || clicks.inc_ceiling_changed || clicks.before_ground_changed)
}

/// The automatic ducks after the clicks on the line list's duck checkboxes: like the
/// auto-duck menu, but the duck key is left alone.
pub open spec fn duck_menu_result(s: JumpDuckSettings, k: AutoDuckClicks) -> JumpDuckSettings {
    let dbc1 = if !k.before_collision_changed {
        s.duck_before_collision
    } else if k.duck_before_collision {
        Some(DuckBeforeCollision { times: Times::UnlimitedWithinFrameBulk, including_ceilings: k.duck_before_collision_inc_ceiling })
    } else {
        None
    };
    let dbc2 = if k.duck_before_collision && k.inc_ceiling_changed {
        match dbc1 {
            Some(d) => Some(DuckBeforeCollision { including_ceilings: k.duck_before_collision_inc_ceiling, ..d }),
            None => None,
        }
    } else {
        dbc1
    };
    let dbg = if !k.before_ground_changed {
        s.duck_before_ground
    } else if k.duck_before_ground {
        Some(DuckBeforeGround { times: Times::UnlimitedWithinFrameBulk })
    } else {
        None
    };
    let dwj = if !k.when_jump_changed {
        s.duck_when_jump
    } else if k.duck_when_jump {
        Some(DuckWhenJump { times: Times::UnlimitedWithinFrameBulk })
    } else {
        None
    };
    JumpDuckSettings { duck_before_collision: dbc2, duck_before_ground: dbg, duck_when_jump: dwj, ..s }
}

/// Applies the clicks on the line list's duck checkboxes, which record no undo step and
/// leave the duck key alone. Returns whether the menu reports an edit, which it does for the
/// collision, ceiling and ground checkboxes.
pub fn duck_menu_changes(framebulk: &mut JumpDuckSettings, clicks: AutoDuckClicks) -> (edited: bool)
    ensures
        *final(framebulk) == duck_menu_result(*old(framebulk), clicks),
        edited == (clicks.before_collision_changed || clicks.inc_ceiling_changed || clicks.before_ground_changed),
{
    if clicks.before_collision_changed {
        if clicks.duck_before_collision {
            framebulk.duck_before_collision = Some(DuckBeforeCollision {
                times: Times::UnlimitedWithinFrameBulk,
                including_ceilings: clicks.duck_before_collision_inc_ceiling,
            });
        } else {
            framebulk.duck_before_collision = None;
        }
    }
    if clicks.duck_before_collision && clicks.inc_ceiling_changed {
        if let Some(dbc) = framebulk.duck_before_collision {
            framebulk.duck_before_collision = Some(DuckBeforeCollision {
                including_ceilings: clicks.duck_before_collision_inc_ceiling,
                ..dbc
            });
        }
    }
    if clicks.before_ground_changed {
        if clicks.duck_before_ground {
            framebulk.duck_before_ground = Some(DuckBeforeGround { times: Times::UnlimitedWithinFrameBulk });
        } else {
            framebulk.duck_before_ground = None;
        }
    }
    if clicks.when_jump_changed {
        if clicks.duck_when_jump {
            framebulk.duck_when_jump = Some(DuckWhenJump { times: Times::UnlimitedWithinFrameBulk });
        } else {
            framebulk.duck_when_jump = None;
        }
    }
    clicks.before_collision_changed || clicks.inc_ceiling_changed || clicks.before_ground_changed
}

/// Clicking the duck-tap selectable when it is not shown turns on a duck-tap at the speed of
/// the leave-ground action the settings had (the default duck-tap speed only when they had
/// none); whatever else is clicked, any leave-ground action left in the end has that speed.
pub proof fn lemma_ducktap_keeps_speed(s: JumpDuckSettings, d: JumpDefaults, b: BeforeState, c: ChangedState)
    requires
        c.ducktap,
        !b.ducktap,
    ensures
        jump_states_result(s, d, b, c).leave_ground_action matches Some(r)
            ==> r.speed == (match s.leave_ground_action { Some(a) => a.speed, None => d.ducktap_speed }),
        ducktap_step(s, d, b, c).leave_ground_action matches Some(r)
            && r.speed == (match s.leave_ground_action { Some(a) => a.speed, None => d.ducktap_speed }),
{
}

/// A click on the duck-tap selectable alone: a shown duck-tap (or 0 ms duck-tap) goes away;
/// otherwise the jump key is released and a duck-tap with the default 0 ms choice is set,
/// at the speed of the leave-ground action there was, else at the default duck-tap speed.
/// Nothing else changes, and the settings before the click are kept for undo.
pub proof fn lemma_ducktap_click(s: JumpDuckSettings, d: JumpDefaults, b: BeforeState, c: ChangedState)
    requires
        c == (ChangedState { ducktap: true, zero_ms: false, autojump: false, jump: false, duck: false, jumpbug: false }),
    ensures
        b.ducktap ==> jump_states_result(s, d, b, c) == (JumpDuckSettings { leave_ground_action: None, ..s }),
        !b.ducktap ==> jump_states_result(s, d, b, c) == (JumpDuckSettings {
            action_keys: crate::model::ActionKeys { jump: false, ..s.action_keys },
            leave_ground_action: Some(LeaveGroundAction {
                speed: (match s.leave_ground_action { Some(a) => a.speed, None => d.ducktap_speed }),
                times: Times::UnlimitedWithinFrameBulk,
                type_: LeaveGroundActionType::DuckTap { zero_ms: d.ducktap_zero_ms },
            }),
            ..s
        }),
        b == shown_state(s) ==> shown_state(jump_states_result(s, d, b, c)).ducktap == !b.ducktap,
        jump_states_snapshots(s, d, b, c) == seq![s],
{
    assert(jump_states_snapshots(s, d, b, c) =~= seq![s]);
}

/// A click on the 0 ms selectable alone: a duck-tap flips its 0 ms choice from the shown
/// one, an automatic jump becomes a 0 ms duck-tap, both keeping speed and count; with no
/// leave-ground action, the jump key is released and a 0 ms duck-tap at the default duck-tap
/// speed is set.
pub proof fn lemma_zero_ms_click(s: JumpDuckSettings, d: JumpDefaults, b: BeforeState, c: ChangedState)
    requires
        c == (ChangedState { ducktap: false, zero_ms: true, autojump: false, jump: false, duck: false, jumpbug: false }),
    ensures
        s.leave_ground_action matches Some(a) ==> jump_states_result(s, d, b, c) == (JumpDuckSettings {
            leave_ground_action: Some(LeaveGroundAction {
                type_: LeaveGroundActionType::DuckTap {
                    zero_ms: if a.type_ == LeaveGroundActionType::Jump { true } else { !b.zero_ms },
                },
                ..a
            }),
            ..s
        }),
        s.leave_ground_action is None ==> jump_states_result(s, d, b, c) == (JumpDuckSettings {
            action_keys: crate::model::ActionKeys { jump: false, ..s.action_keys },
            leave_ground_action: Some(LeaveGroundAction {
                speed: d.ducktap_speed,
                times: Times::UnlimitedWithinFrameBulk,
                type_: LeaveGroundActionType::DuckTap { zero_ms: true },
            }),
            ..s
        }),
        b == shown_state(s) ==> shown_state(jump_states_result(s, d, b, c)).zero_ms == !b.zero_ms,
        jump_states_snapshots(s, d, b, c) == seq![s],
{
    assert(jump_states_snapshots(s, d, b, c) =~= seq![s]);
}

/// A click on the automatic-jump selectable alone: a shown automatic jump goes away;
/// otherwise the jump key is released and an automatic jump is set, at the speed of the
/// leave-ground action there was, else at the default jump speed.
pub proof fn lemma_autojump_click(s: JumpDuckSettings, d: JumpDefaults, b: BeforeState, c: ChangedState)
    requires
        c == (ChangedState { ducktap: false, zero_ms: false, autojump: true, jump: false, duck: false, jumpbug: false }),
    ensures
        b.autojump ==> jump_states_result(s, d, b, c) == (JumpDuckSettings { leave_ground_action: None, ..s }),
        !b.autojump ==> jump_states_result(s, d, b, c) == (JumpDuckSettings {
            action_keys: crate::model::ActionKeys { jump: false, ..s.action_keys },
            leave_ground_action: Some(LeaveGroundAction {
                speed: (match s.leave_ground_action { Some(a) => a.speed, None => d.jump_speed }),
                times: Times::UnlimitedWithinFrameBulk,
                type_: LeaveGroundActionType::Jump,
            }),
            ..s
        }),
        b == shown_state(s) ==> shown_state(jump_states_result(s, d, b, c)).autojump == !b.autojump,
        jump_states_snapshots(s, d, b, c) == seq![s],
{
    assert(jump_states_snapshots(s, d, b, c) =~= seq![s]);
}

/// A click on the jump key alone: pressing it drops the leave-ground action and the jump
/// bug; releasing it changes nothing else.
pub proof fn lemma_jump_key_click(s: JumpDuckSettings, d: JumpDefaults, b: BeforeState, c: ChangedState)
    requires
        c == (ChangedState { ducktap: false, zero_ms: false, autojump: false, jump: true, duck: false, jumpbug: false }),
    ensures
        !b.jump ==> jump_states_result(s, d, b, c) == (JumpDuckSettings {
            leave_ground_action: None,
            jump_bug: None,
            action_keys: crate::model::ActionKeys { jump: true, ..s.action_keys },
            ..s
        }),
        b.jump ==> jump_states_result(s, d, b, c) == (JumpDuckSettings {
            action_keys: crate::model::ActionKeys { jump: false, ..s.action_keys },
            ..s
        }),
        jump_states_snapshots(s, d, b, c) == seq![s],
{
    assert(jump_states_snapshots(s, d, b, c) =~= seq![s]);
}

/// A click on the duck key alone: pressing it drops the jump bug and every automatic duck;
/// releasing it changes nothing else.
pub proof fn lemma_duck_key_click(s: JumpDuckSettings, d: JumpDefaults, b: BeforeState, c: ChangedState)
    requires
        c == (ChangedState { ducktap: false, zero_ms: false, autojump: false, jump: false, duck: true, jumpbug: false }),
    ensures
        !b.duck ==> jump_states_result(s, d, b, c) == (JumpDuckSettings {
            jump_bug: None,
            duck_before_collision: None,
            duck_before_ground: None,
            duck_when_jump: None,
            action_keys: crate::model::ActionKeys { duck: true, ..s.action_keys },
            ..s
        }),
        b.duck ==> jump_states_result(s, d, b, c) == (JumpDuckSettings {
            action_keys: crate::model::ActionKeys { duck: false, ..s.action_keys },
            ..s
        }),
        jump_states_snapshots(s, d, b, c) == seq![s],
{
    assert(jump_states_snapshots(s, d, b, c) =~= seq![s]);
}

/// A click on the jump bug selectable alone: a shown jump bug goes away; otherwise the jump
/// and duck keys are released, the leave-ground action dropped and a jump bug set.
pub proof fn lemma_jumpbug_click(s: JumpDuckSettings, d: JumpDefaults, b: BeforeState, c: ChangedState)
    requires
        c == (ChangedState { ducktap: false, zero_ms: false, autojump: false, jump: false, duck: false, jumpbug: true }),
    ensures
        b.jumpbug ==> jump_states_result(s, d, b, c) == (JumpDuckSettings { jump_bug: None, ..s }),
        !b.jumpbug ==> jump_states_result(s, d, b, c) == (JumpDuckSettings {
            action_keys: crate::model::ActionKeys { jump: false, duck: false, ..s.action_keys },
            leave_ground_action: None,
            jump_bug: Some(JumpBug { times: Times::UnlimitedWithinFrameBulk }),
            ..s
        }),
        b == shown_state(s) ==> shown_state(jump_states_result(s, d, b, c)).jumpbug == !b.jumpbug,
        jump_states_snapshots(s, d, b, c) == seq![s],
{
    assert(jump_states_snapshots(s, d, b, c) =~= seq![s]);
}

/// The jump menu keeps one state for undo per clicked selectable, the first being the
/// settings before any click; with no click it changes nothing.
pub proof fn lemma_jump_menu_snapshot_count(s: JumpDuckSettings, d: JumpDefaults, b: BeforeState, c: ChangedState)
    ensures
        jump_states_snapshots(s, d, b, c).len() == (if c.ducktap { 1int } else { 0int }) + (if c.zero_ms { 1int } else { 0int })
            + (if c.autojump { 1int } else { 0int }) + (if c.jump { 1int } else { 0int })
            + (if c.duck { 1int } else { 0int }) + (if c.jumpbug { 1int } else { 0int }),
        jump_states_snapshots(s, d, b, c).len() > 0 ==> jump_states_snapshots(s, d, b, c)[0] == s,
        !c.ducktap && !c.zero_ms && !c.autojump && !c.jump && !c.duck && !c.jumpbug ==> jump_states_result(s, d, b, c) == s,
{
}

/// The lgagst clicks. Without a leave-ground action nothing changes. With one, only its
/// speed changes and the jump bug goes away; the speed ends as the last clicked selectable
/// makes it: a click on a shown selectable turns the speed off to `Any`, a click on a
/// selectable not shown sets its own speed (lgagst: optimal; with max speed: optimal with
/// full maxspeed), and with no click the speed stays.
pub proof fn lemma_lgagst_clicks(s: JumpDuckSettings, l: LgagstStates)
    ensures
        s.leave_ground_action is None ==> lgagst_result(s, l) == s,
        s.leave_ground_action matches Some(a) ==> {
            &&& lgagst_result(s, l).leave_ground_action matches Some(r)
            &&& lgagst_result(s, l) == (JumpDuckSettings {
                jump_bug: None,
                leave_ground_action: Some(LeaveGroundAction { speed: r.speed, ..a }),
                ..s
            })
            &&& l.lgagst_max_spd_changed && l.lgagst_max_spd_before ==> r.speed == LeaveGroundActionSpeed::Any
            &&& l.lgagst_max_spd_changed && !l.lgagst_max_spd_before
                ==> r.speed == LeaveGroundActionSpeed::OptimalWithFullMaxspeed
            &&& !l.lgagst_max_spd_changed && l.lgagst_changed && l.lgagst_before ==> r.speed == LeaveGroundActionSpeed::Any
            &&& !l.lgagst_max_spd_changed && l.lgagst_changed && !l.lgagst_before
                ==> r.speed == LeaveGroundActionSpeed::Optimal
            &&& !l.lgagst_max_spd_changed && !l.lgagst_changed ==> r.speed == a.speed
        },
{
}

/// With the selectables shown as the settings have them, one click toggles the clicked
/// selectable and leaves the other unselected.
pub proof fn lemma_lgagst_click_toggles(s: JumpDuckSettings, l: LgagstStates)
    requires
        s.leave_ground_action is Some,
        (l.lgagst_before, l.lgagst_max_spd_before) == shown_lgagst(s),
        l.lgagst_changed != l.lgagst_max_spd_changed,
    ensures
        l.lgagst_changed ==> shown_lgagst(lgagst_result(s, l)) == (!l.lgagst_before, false),
        l.lgagst_max_spd_changed ==> shown_lgagst(lgagst_result(s, l)) == (false, !l.lgagst_max_spd_before),
{
}

/// The settings after the auto-duck menu's clicks.
pub open spec fn auto_duck_result(s: JumpDuckSettings, k: AutoDuckClicks) -> JumpDuckSettings {
    when_jump_step(before_ground_step(ceiling_step(before_collision_step(s, k), k), k), k)
}

/// The states the auto-duck menu keeps for undo: the state before each applied change.
pub open spec fn auto_duck_snapshots(s0: JumpDuckSettings, k: AutoDuckClicks) -> Seq<JumpDuckSettings> {
    let s1 = before_collision_step(s0, k);
    let s2 = ceiling_step(s1, k);
    let s3 = before_ground_step(s2, k);
    kept_if(k.before_collision_changed, s0)
        + kept_if(k.duck_before_collision && k.inc_ceiling_changed && s1.duck_before_collision is Some, s1)
        + kept_if(k.before_ground_changed, s2) + kept_if(k.when_jump_changed, s3)
}

/// The auto-duck menu keeps one state for undo per clicked box (a ceiling click counts only
/// when the collision box is ticked and a duck-before-collision is there to change), the
/// first being the settings before the clicks; a ceiling click alone on a ticked collision
/// box keeps exactly the settings before it. Without a click nothing changes.
pub proof fn lemma_auto_duck_snapshots(s: JumpDuckSettings, k: AutoDuckClicks)
    ensures
        auto_duck_snapshots(s, k).len() == (if k.before_collision_changed { 1int } else { 0int })
            + (if k.duck_before_collision && k.inc_ceiling_changed
                && (if k.before_collision_changed { k.duck_before_collision } else { s.duck_before_collision is Some }) { 1int } else { 0int })
            + (if k.before_ground_changed { 1int } else { 0int }) + (if k.when_jump_changed { 1int } else { 0int }),
        auto_duck_snapshots(s, k).len() > 0 ==> auto_duck_snapshots(s, k)[0] == s,
        !k.before_collision_changed && k.inc_ceiling_changed && !k.before_ground_changed && !k.when_jump_changed
            && k.duck_before_collision && s.duck_before_collision is Some ==> auto_duck_snapshots(s, k) == seq![s],
        !k.before_collision_changed && !k.inc_ceiling_changed && !k.before_ground_changed && !k.when_jump_changed
            ==> auto_duck_result(s, k) == s && duck_menu_result(s, k) == s,
{
    let s1 = before_collision_step(s, k);
    let s2 = ceiling_step(s1, k);
    if !k.before_collision_changed && k.inc_ceiling_changed && !k.before_ground_changed && !k.when_jump_changed
        && k.duck_before_collision && s.duck_before_collision is Some {
        assert(auto_duck_snapshots(s, k) =~= seq![s]);
    }
}

/// After the auto-duck clicks, with the collision box ticked, a duck-before-collision says of
/// ceilings what the ceiling box shows whenever that box or the collision box was clicked; a
/// clicked collision box sets or drops the duck-before-collision; and when the boxes
/// agree with the settings where they were not clicked, the result has each automatic duck
/// exactly when its box is ticked, and a duck-before-collision that includes ceilings
/// exactly when the ceiling box is ticked. A ticked automatic duck releases the duck key
/// when its box was clicked; the leave-ground action and jump bug stay.
pub proof fn lemma_auto_duck_follows_boxes(s: JumpDuckSettings, k: AutoDuckClicks)
    ensures
        (k.inc_ceiling_changed || k.before_collision_changed) && k.duck_before_collision
            ==> (auto_duck_result(s, k).duck_before_collision matches Some(d)
                ==> d.including_ceilings == k.duck_before_collision_inc_ceiling),
        k.before_collision_changed ==> (auto_duck_result(s, k).duck_before_collision is Some) == k.duck_before_collision,
        duck_menu_result(s, k).duck_before_collision == auto_duck_result(s, k).duck_before_collision,
        duck_menu_result(s, k).duck_before_ground == auto_duck_result(s, k).duck_before_ground,
        duck_menu_result(s, k).duck_when_jump == auto_duck_result(s, k).duck_when_jump,
        ({
            &&& !k.before_collision_changed ==> k.duck_before_collision == (s.duck_before_collision is Some)
            &&& !k.inc_ceiling_changed && !k.before_collision_changed ==> (s.duck_before_collision matches Some(d)
                ==> k.duck_before_collision_inc_ceiling == d.including_ceilings)
            &&& !k.before_ground_changed ==> k.duck_before_ground == (s.duck_before_ground is Some)
            &&& !k.when_jump_changed ==> k.duck_when_jump == (s.duck_when_jump is Some)
        }) ==> {
            &&& (auto_duck_result(s, k).duck_before_collision is Some) == k.duck_before_collision
            &&& auto_duck_result(s, k).duck_before_collision matches Some(d)
                ==> d.including_ceilings == k.duck_before_collision_inc_ceiling
            &&& (auto_duck_result(s, k).duck_before_ground is Some) == k.duck_before_ground
            &&& (auto_duck_result(s, k).duck_when_jump is Some) == k.duck_when_jump
        },
        (k.before_collision_changed && k.duck_before_collision) || (k.before_ground_changed && k.duck_before_ground)
            || (k.when_jump_changed && k.duck_when_jump) ==> !auto_duck_result(s, k).action_keys.duck,
        auto_duck_result(s, k).leave_ground_action == s.leave_ground_action,
        auto_duck_result(s, k).jump_bug == s.jump_bug,
        duck_menu_result(s, k).action_keys == s.action_keys,
        duck_menu_result(s, k).leave_ground_action == s.leave_ground_action,
        duck_menu_result(s, k).jump_bug == s.jump_bug,
{
}

/// The jump key is not set together with an automatic jump or duck-tap, an automatic jump
/// bug is not set together with the jump or duck key, and the duck key is not set together
/// with an automatic duck.
pub open spec fn keys_exclusive(s: JumpDuckSettings) -> bool {
    &&& s.action_keys.jump ==> s.leave_ground_action is None
    &&& s.jump_bug is Some ==> !s.action_keys.jump && !s.action_keys.duck
    &&& s.action_keys.duck ==> s.duck_before_collision is None && s.duck_before_ground is None
        && s.duck_when_jump is None
}

/// Whatever is clicked in the jump menu, settings whose keys exclude each other keep
/// doing so.
pub proof fn lemma_jump_menu_keeps_keys_exclusive(s: JumpDuckSettings, d: JumpDefaults, b: BeforeState, c: ChangedState)
    requires
        keys_exclusive(s),
    ensures
        keys_exclusive(jump_states_result(s, d, b, c)),
{
}

/// Whatever is clicked in the lgagst menu, settings whose keys exclude each other keep
/// doing so.
pub proof fn lemma_lgagst_keeps_keys_exclusive(s: JumpDuckSettings, l: LgagstStates)
    requires
        keys_exclusive(s),
    ensures
        keys_exclusive(lgagst_result(s, l)),
{
}

/// Whatever is clicked in the auto-duck menu, settings whose keys exclude each other keep
/// doing so.
pub proof fn lemma_auto_duck_keeps_keys_exclusive(s: JumpDuckSettings, k: AutoDuckClicks)
    requires
        keys_exclusive(s),
    ensures
        keys_exclusive(when_jump_step(before_ground_step(ceiling_step(before_collision_step(s, k), k), k), k)),
{
}

} // verus!
