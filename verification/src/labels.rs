//! Short texts that summarise a frame bulk's settings on the compact menu buttons.
use vstd::prelude::*;
use crate::model::{ActionKeys, JumpDuckSettings, LeaveGroundActionSpeed, LeaveGroundActionType};

verus! {

/// The parts joined by `sep`.
pub open spec fn joined(parts: Seq<Seq<char>>, sep: Seq<char>) -> Seq<char>
    decreases parts.len(),
{
    if parts.len() == 0 {
        Seq::empty()
    } else if parts.len() == 1 {
        parts[0]
    } else {
        joined(parts.drop_last(), sep) + sep + parts.last()
    }
}

/// Joins texts with a separator.
pub fn join_strs(parts: &Vec<&str>, sep: &str) -> (r: String)
    ensures
        r@ == joined(parts@.map_values(|p: &str| p@), sep@),
{
    let ghost views = parts@.map_values(|p: &str| p@);
    let mut r = String::new();
    let n = parts.len();
    for i in 0..n
        invariant
            n == parts@.len(),
            views == parts@.map_values(|p: &str| p@),
            r@ == joined(views.take(i as int), sep@),
    {
        assert(views.take(i + 1).drop_last() =~= views.take(i as int));
        if i != 0 {
            r.append(sep);
        }
        r.append(parts[i]);
        proof {
            if i == 0 {
                assert(views.take(1) =~= seq![parts@[0]@]);
            }
        }
    }
    assert(views.take(n as int) =~= views);
    r
}

/// `s` alone when `keep`, else nothing.
pub open spec fn part_if(keep: bool, s: Seq<char>) -> Seq<Seq<char>> {
    if keep { seq![s] } else { Seq::empty() }
}

/// The parts of the jump menu button's text.
pub open spec fn jump_label_parts(s: JumpDuckSettings) -> Seq<Seq<char>> {
    let first = match s.leave_ground_action {
        Some(a) => match a.type_ {
            LeaveGroundActionType::Jump => seq!["Auto Jump"@],
            LeaveGroundActionType::DuckTap { zero_ms } => if zero_ms { seq!["0ms Ducktap"@] } else { seq!["Ducktap"@] },
        },
        None => if s.action_keys.jump {
            seq!["Jump"@]
        } else if s.jump_bug is Some {
            seq!["Jump Bug"@]
        } else {
            Seq::empty()
        },
    };
    first + part_if(s.action_keys.duck, "Duck"@)
}

/// The jump menu button's text: the leave-ground action (or the jump key or jump bug) and
/// the duck key, joined by `+`; `None` when there is neither.
pub open spec fn jump_label(s: JumpDuckSettings) -> Seq<char> {
    if jump_label_parts(s).len() == 0 { "None"@ } else { joined(jump_label_parts(s), "+"@) }
}

fn push_if<'a>(parts: &mut Vec<&'a str>, keep: bool, s: &'a str)
    ensures
        final(parts)@.map_values(|p: &str| p@) == old(parts)@.map_values(|p: &str| p@) + part_if(keep, s@),
{
    if keep {
        parts.push(s);
    }
    proof {
        assert(final(parts)@.map_values(|p: &str| p@) =~= old(parts)@.map_values(|p: &str| p@) + part_if(keep, s@));
    }
}

/// The text of the compact jump menu button.
pub fn jump_menu_label(framebulk: &JumpDuckSettings) -> (r: String)
    ensures
        r@ == jump_label(*framebulk),
{
    let mut text: Vec<&str> = Vec::new();
    match framebulk.leave_ground_action {
        Some(leave_ground_action) => match leave_ground_action.type_ {
            LeaveGroundActionType::Jump => push_if(&mut text, true, "Auto Jump"),
            LeaveGroundActionType::DuckTap { zero_ms } => {
                if zero_ms {
                    push_if(&mut text, true, "0ms Ducktap");
                } else {
                    push_if(&mut text, true, "Ducktap");
                }
            },
        },
        None => {
            if framebulk.action_keys.jump {
                push_if(&mut text, true, "Jump");
            } else if framebulk.jump_bug.is_some() {
                push_if(&mut text, true, "Jump Bug");
            }
        },
    }
    push_if(&mut text, framebulk.action_keys.duck, "Duck");
    proof {
        assert(text@.map_values(|p: &str| p@) =~= jump_label_parts(*framebulk));
    }
    if text.len() == 0 {
        String::from_str("None")
    } else {
        join_strs(&text, "+")
    }
}

/// The text of the compact lgagst menu button.
pub fn lgagst_menu_label(framebulk: &JumpDuckSettings) -> (r: &'static str)
    ensures
        r@ == match framebulk.leave_ground_action {
            Some(a) => match a.speed {
                LeaveGroundActionSpeed::Any => "No Lgagst"@,
                LeaveGroundActionSpeed::Optimal => "Lgagst"@,
                LeaveGroundActionSpeed::OptimalWithFullMaxspeed => "Lgagst With Max Spd"@,
            },
            None => "No Lgagst"@,
        },
{
    match framebulk.leave_ground_action {
        Some(leave_ground_action) => match leave_ground_action.speed {
            LeaveGroundActionSpeed::Any => "No Lgagst",
            LeaveGroundActionSpeed::Optimal => "Lgagst",
            LeaveGroundActionSpeed::OptimalWithFullMaxspeed => "Lgagst With Max Spd",
        },
        None => "No Lgagst",
    }
}

/// The parts of the auto-duck menu button's text.
pub open spec fn duck_label_parts(s: JumpDuckSettings) -> Seq<Seq<char>> {
    let dbc = match s.duck_before_collision {
        Some(d) => if d.including_ceilings { seq!["dbc ceil"@] } else { seq!["dbc"@] },
        None => Seq::empty(),
    };
    dbc + part_if(s.duck_before_ground is Some, "dbg"@) + part_if(s.duck_when_jump is Some, "dwj"@)
}

/// The text of the compact auto-duck menu button: the automatic ducks joined by `/`, or
/// `no auto duck`.
pub fn duck_menu_label(framebulk: &JumpDuckSettings) -> (r: String)
    ensures
        r@ == if duck_label_parts(*framebulk).len() == 0 {
            "no auto duck"@
        } else {
            joined(duck_label_parts(*framebulk), "/"@)
        },
{
    let mut duck_state: Vec<&str> = Vec::new();
    if let Some(duck_before_collision) = framebulk.duck_before_collision {
        if duck_before_collision.including_ceilings {
            push_if(&mut duck_state, true, "dbc ceil");
        } else {
            push_if(&mut duck_state, true, "dbc");
        }
    }
    push_if(&mut duck_state, framebulk.duck_before_ground.is_some(), "dbg");
    push_if(&mut duck_state, framebulk.duck_when_jump.is_some(), "dwj");
    proof {
        assert(duck_state@.map_values(|p: &str| p@) =~= duck_label_parts(*framebulk));
    }
    if duck_state.len() == 0 {
        String::from_str("no auto duck")
    } else {
        join_strs(&duck_state, "/")
    }
}

/// The parts of the action keys button's text.
pub open spec fn action_keys_label_parts(k: ActionKeys) -> Seq<Seq<char>> {
    part_if(k.use_, "use"@) + part_if(k.attack_1, "att1"@) + part_if(k.attack_2, "att2"@) + part_if(k.reload, "rld"@)
}

/// The text of the compact action keys button: the held keys joined by `/`, or
/// `no action key set`.
pub fn action_keys_label(action_keys: &ActionKeys) -> (r: String)
    ensures
        r@ == if action_keys_label_parts(*action_keys).len() == 0 {
            "no action key set"@
        } else {
            joined(action_keys_label_parts(*action_keys), "/"@)
        },
{
    let mut button_text: Vec<&str> = Vec::new();
    push_if(&mut button_text, action_keys.use_, "use");
    push_if(&mut button_text, action_keys.attack_1, "att1");
    push_if(&mut button_text, action_keys.attack_2, "att2");
    push_if(&mut button_text, action_keys.reload, "rld");
    proof {
        assert(button_text@.map_values(|p: &str| p@) =~= action_keys_label_parts(*action_keys));
    }
    if button_text.len() == 0 {
        String::from_str("no action key set")
    } else {
        join_strs(&button_text, "/")
    }
}

} // verus!
