//! The frame bulk editors of the graphics editor, and the undo snapshots that the action
//! key editor records.
use vstd::prelude::*;
use crate::model::ActionKeys;

verus! {

/// Editor of a frame bulk's action keys.
pub struct ActionKeysEditor;

/// Editor of a frame bulk's console commands.
pub struct CommandEditor;

/// Editor of a frame bulk's automatic ducks.
pub struct DuckEditor;

/// Editor of a frame bulk's frame time and frame count.
pub struct FramesEditor;

/// Editor of a frame bulk's jump settings.
pub struct JumpEditor;

/// Editor of a frame bulk's strafe settings and movement keys.
pub struct StrafeEditor;

/// Editor of a frame bulk's yaw and pitch.
pub struct YawPitchEditor;

/// Which action key check boxes were clicked.
#[derive(Clone, Copy, Debug, PartialEq, Eq, Structural)]
pub struct ActionKeyClicks {
    pub use_: bool,
    pub attack_1: bool,
    pub attack_2: bool,
    pub reload: bool,
}

/// The snapshot recorded for one clicked key: the keys as edited, with that key flipped
/// back.
pub open spec fn flip_back(keys: ActionKeys, use_: bool, attack_1: bool, attack_2: bool, reload: bool) -> ActionKeys {
    ActionKeys {
        use_: if use_ { !keys.use_ } else { keys.use_ },
        attack_1: if attack_1 { !keys.attack_1 } else { keys.attack_1 },
        attack_2: if attack_2 { !keys.attack_2 } else { keys.attack_2 },
        reload: if reload { !keys.reload } else { keys.reload },
        ..keys
    }
}

/// `s` alone when `keep`, else nothing.
pub open spec fn snapshot_if(keep: bool, s: ActionKeys) -> Seq<ActionKeys> {
    if keep { seq![s] } else { Seq::empty() }
}

/// The undo snapshots for the clicked keys, in the order use, attack 1, attack 2, reload.
pub open spec fn action_key_snapshots(keys: ActionKeys, clicks: ActionKeyClicks) -> Seq<ActionKeys> {
    snapshot_if(clicks.use_, flip_back(keys, true, false, false, false))
        + snapshot_if(clicks.attack_1, flip_back(keys, false, true, false, false))
        + snapshot_if(clicks.attack_2, flip_back(keys, false, false, true, false))
        + snapshot_if(clicks.reload, flip_back(keys, false, false, false, true))
}

/// Each snapshot of the action key editor is the edited keys with exactly the clicked key
/// flipped back, in the order use, attack 1, attack 2, reload, one per clicked key; so
/// taking a recorded snapshot gives the keys as they were before that click.
pub proof fn lemma_action_key_snapshots(keys: ActionKeys, clicks: ActionKeyClicks)
    ensures
        ({
            let snaps = action_key_snapshots(keys, clicks);
            let u: int = if clicks.use_ { 1 } else { 0 };
            let a1: int = if clicks.attack_1 { 1 } else { 0 };
            let a2: int = if clicks.attack_2 { 1 } else { 0 };
            let rl: int = if clicks.reload { 1 } else { 0 };
            &&& snaps.len() == u + a1 + a2 + rl
            &&& clicks.use_ ==> snaps[0] == (ActionKeys { use_: !keys.use_, ..keys })
            &&& clicks.attack_1 ==> snaps[u] == (ActionKeys { attack_1: !keys.attack_1, ..keys })
            &&& clicks.attack_2 ==> snaps[u + a1] == (ActionKeys { attack_2: !keys.attack_2, ..keys })
            &&& clicks.reload ==> snaps[u + a1 + a2] == (ActionKeys { reload: !keys.reload, ..keys })
        }),
{
}

impl ActionKeysEditor {
    /// After the check boxes edited the keys to `keys`, the states to record for undo: for
    /// each clicked key, the keys with that one key as it was before the click. Also whether
    /// anything was clicked.
    pub fn undo_snapshots(keys: ActionKeys, clicks: ActionKeyClicks) -> (r: (Vec<ActionKeys>, bool))
        ensures
            r.0@ == action_key_snapshots(keys, clicks),
            r.1 == (clicks.use_ || clicks.attack_1 || clicks.attack_2 || clicks.reload),
    {
        let mut snapshots: Vec<ActionKeys> = Vec::new();
        if clicks.use_ {
            snapshots.push(ActionKeys { use_: !keys.use_, ..keys });
        }
        if clicks.attack_1 {
            snapshots.push(ActionKeys { attack_1: !keys.attack_1, ..keys });
        }
        if clicks.attack_2 {
            snapshots.push(ActionKeys { attack_2: !keys.attack_2, ..keys });
        }
        if clicks.reload {
            snapshots.push(ActionKeys { reload: !keys.reload, ..keys });
        }
        assert(snapshots@ =~= action_key_snapshots(keys, clicks));
        (snapshots, clicks.use_ || clicks.attack_1 || clicks.attack_2 || clicks.reload)
    }
}

} // verus!
