//! Plain-value models of the parts of an `hltas` script that the editor's logic reads:
//! the script properties and the float-free settings of a frame bulk.
use vstd::prelude::*;

verus! {

/// Movement keys of a frame bulk.
#[derive(Clone, Copy, Debug, PartialEq, Eq, Structural)]
pub struct MovementKeys {
    pub forward: bool,
    pub left: bool,
    pub right: bool,
    pub back: bool,
    pub up: bool,
    pub down: bool,
}

/// Action keys of a frame bulk.
#[derive(Clone, Copy, Debug, PartialEq, Eq, Structural)]
pub struct ActionKeys {
    pub jump: bool,
    pub duck: bool,
    pub use_: bool,
    pub attack_1: bool,
    pub attack_2: bool,
    pub reload: bool,
}

/// What the strafe menu reads of a frame bulk.
#[derive(Clone, Copy, Debug, PartialEq, Eq, Structural)]
pub struct FrameBulkMovement {
    /// The frame bulk's automatic movement is a strafe.
    pub strafing: bool,
    pub movement_keys: MovementKeys,
}

/// How many times an automatic action runs. `Limited` holds a non-zero count.
#[derive(Clone, Copy, Debug, PartialEq, Eq, Structural)]
pub enum Times {
    UnlimitedWithinFrameBulk,
    Limited(u32),
}

/// Speed condition of a leave-ground action.
#[derive(Clone, Copy, Debug, PartialEq, Eq, Structural)]
pub enum LeaveGroundActionSpeed {
    Any,
    Optimal,
    OptimalWithFullMaxspeed,
}

/// Kind of a leave-ground action.
#[derive(Clone, Copy, Debug, PartialEq, Eq, Structural)]
pub enum LeaveGroundActionType {
    Jump,
    DuckTap { zero_ms: bool },
}

/// Automatic jump or duck-tap.
#[derive(Clone, Copy, Debug, PartialEq, Eq, Structural)]
pub struct LeaveGroundAction {
    pub speed: LeaveGroundActionSpeed,
    pub times: Times,
    pub type_: LeaveGroundActionType,
}

/// Automatic jump bug.
#[derive(Clone, Copy, Debug, PartialEq, Eq, Structural)]
pub struct JumpBug {
    pub times: Times,
}

/// Automatic duck before a collision.
#[derive(Clone, Copy, Debug, PartialEq, Eq, Structural)]
pub struct DuckBeforeCollision {
    pub times: Times,
    pub including_ceilings: bool,
}

/// Automatic duck before landing.
#[derive(Clone, Copy, Debug, PartialEq, Eq, Structural)]
pub struct DuckBeforeGround {
    pub times: Times,
}

/// Automatic duck when jumping.
#[derive(Clone, Copy, Debug, PartialEq, Eq, Structural)]
pub struct DuckWhenJump {
    pub times: Times,
}

/// The jump and duck settings of a frame bulk: its automatic actions other than the
/// movement, and its action keys.
#[derive(Clone, Copy, Debug, PartialEq, Eq, Structural)]
pub struct JumpDuckSettings {
    pub leave_ground_action: Option<LeaveGroundAction>,
    pub jump_bug: Option<JumpBug>,
    pub duck_before_collision: Option<DuckBeforeCollision>,
    pub duck_before_ground: Option<DuckBeforeGround>,
    pub duck_when_jump: Option<DuckWhenJump>,
    pub action_keys: ActionKeys,
}

/// The eight strafe buttons.
#[derive(Clone, Copy, Debug, PartialEq, Eq, Structural)]
pub enum Button {
    Forward,
    ForwardLeft,
    Left,
    BackLeft,
    Back,
    BackRight,
    Right,
    ForwardRight,
}

/// Shared and non-shared random seeds.
#[derive(Clone, Copy, Debug, PartialEq, Eq, Structural)]
pub struct Seeds {
    pub shared: u32,
    pub non_shared: i64,
}

/// Script properties. `hlstrafe_version`, when present, is non-zero.
#[derive(Debug)]
pub struct Properties {
    pub demo: Option<String>,
    pub save: Option<String>,
    pub frametime_0ms: Option<String>,
    pub seeds: Option<Seeds>,
    pub hlstrafe_version: Option<u32>,
    pub load_command: Option<String>,
}

/// Spec-level view of the properties: strings by their characters.
pub struct PropertiesView {
    pub demo: Option<Seq<char>>,
    pub save: Option<Seq<char>>,
    pub frametime_0ms: Option<Seq<char>>,
    pub seeds: Option<Seeds>,
    pub hlstrafe_version: Option<u32>,
    pub load_command: Option<Seq<char>>,
}

pub open spec fn opt_string_view(s: Option<String>) -> Option<Seq<char>> {
    match s {
        Some(x) => Some(x@),
        None => None,
    }
}

impl View for Properties {
    type V = PropertiesView;

    open spec fn view(&self) -> PropertiesView {
        PropertiesView {
            demo: opt_string_view(self.demo),
            save: opt_string_view(self.save),
            frametime_0ms: opt_string_view(self.frametime_0ms),
            seeds: self.seeds,
            hlstrafe_version: self.hlstrafe_version,
            load_command: opt_string_view(self.load_command),
        }
    }
}

impl PropertiesView {
    /// A stored version is never zero.
    pub open spec fn valid(self) -> bool {
        self.hlstrafe_version != Some(0u32)
    }

    /// No property is set.
    pub open spec fn is_empty(self) -> bool {
        &&& self.demo is None
        &&& self.save is None
        &&& self.frametime_0ms is None
        &&& self.seeds is None
        &&& self.hlstrafe_version is None
        &&& self.load_command is None
    }
}

/// Copies an optional string.
pub fn clone_opt_string(s: &Option<String>) -> (r: Option<String>)
    ensures
        opt_string_view(r) == opt_string_view(*s),
{
    match s {
        Some(x) => Some(x.clone()),
        None => None,
    }
}

impl Properties {
    /// Properties with nothing set (the default of a new script).
    pub fn empty() -> (r: Self)
        ensures
            r@.is_empty(),
    {
        Properties {
            demo: None,
            save: None,
            frametime_0ms: None,
            seeds: None,
            hlstrafe_version: None,
            load_command: None,
        }
    }

    /// A field-by-field copy.
    pub fn copy(&self) -> (r: Self)
        ensures
            r@ == self@,
    {
        Properties {
            demo: clone_opt_string(&self.demo),
            save: clone_opt_string(&self.save),
            frametime_0ms: clone_opt_string(&self.frametime_0ms),
            seeds: self.seeds,
            hlstrafe_version: self.hlstrafe_version,
            load_command: clone_opt_string(&self.load_command),
        }
    }
}

} // verus!
