//! What choosing a strafe type does to a frame bulk's automatic movement. Yaw angles
//! are never computed here, only kept or set to zero, so the movement is described by its
//! shape and the yaw by where it comes from.
use vstd::prelude::*;

verus! {

/// The strafe types; the parameters of the last two are not kept.
#[derive(Clone, Copy, Debug, PartialEq, Eq, Structural)]
pub enum StrafeType {
    MaxAccel,
    MaxAngle,
    MaxDeccel,
    ConstSpeed,
    ConstYawspeed,
    MaxAccelYawOffset,
}

/// The kinds of strafe direction; `Yaw` and `Line` carry a yaw angle.
#[derive(Clone, Copy, Debug, PartialEq, Eq, Structural)]
pub enum StrafeDirKind {
    Left,
    Right,
    Best,
    Yaw,
    Point,
    Line,
    LeftRight,
    RightLeft,
}

/// The shape of a frame bulk's automatic movement: none, a set yaw, or a strafe.
#[derive(Clone, Copy, Debug, PartialEq, Eq, Structural)]
pub enum MovementShape {
    Nothing,
    SetYaw,
    Strafe { type_: StrafeType, dir: StrafeDirKind },
}

/// Where the yaw of a new movement comes from.
#[derive(Clone, Copy, Debug, PartialEq, Eq, Structural)]
pub enum YawSource {
    /// The yaw of the movement before.
    Previous,
    /// Zero.
    Zero,
}

/// The movement a frame bulk gets.
#[derive(Clone, Copy, Debug, PartialEq, Eq, Structural)]
pub enum MovementPlan {
    /// No automatic movement.
    Nothing,
    /// Setting the yaw, to the yaw of the movement before.
    SetPreviousYaw,
    /// Strafing in the best direction.
    StrafeBest { type_: StrafeType },
    /// Strafing towards a yaw.
    StrafeYaw { type_: StrafeType, yaw: YawSource },
}

/// The strafe type of a movement, `None` when it does not strafe.
pub open spec fn strafe_type_of(m: MovementShape) -> Option<StrafeType> {
    match m {
        MovementShape::Strafe { type_, .. } => Some(type_),
        _ => None,
    }
}

/// Whether a movement carries a yaw: a set yaw, or a strafe towards a yaw or along a line.
pub open spec fn carries_yaw(m: MovementShape) -> bool {
    match m {
        MovementShape::SetYaw => true,
        MovementShape::Strafe { dir, .. } => dir == StrafeDirKind::Yaw || dir == StrafeDirKind::Line,
        MovementShape::Nothing => false,
    }
}

/// The strafe type that the strafe menu shows as selected.
pub fn strafe_type_selection(m: MovementShape) -> (r: Option<StrafeType>)
    ensures
        r == strafe_type_of(m),
{
    match m {
        MovementShape::Strafe { type_, .. } => Some(type_),
        _ => None,
    }
}

/// Whether a movement carries a yaw.
pub fn has_previous_yaw(m: MovementShape) -> (r: bool)
    ensures
        r == carries_yaw(m),
{
    match m {
        MovementShape::SetYaw => true,
        MovementShape::Strafe { dir, .. } => match dir {
            StrafeDirKind::Yaw => true,
            StrafeDirKind::Line => true,
            _ => false,
        },
        MovementShape::Nothing => false,
    }
}

/// The movement after a strafe type was chosen in the strafe menu: maximum deceleration
/// strafes in the best direction, another type strafes towards the yaw the movement had
/// (zero when it had none), and no type keeps only that yaw, if there was one.
pub open spec fn movement_after_selection(selection: Option<StrafeType>, m: MovementShape) -> MovementPlan {
    match selection {
        Some(t) => if t == StrafeType::MaxDeccel {
            MovementPlan::StrafeBest { type_: t }
        } else {
            MovementPlan::StrafeYaw { type_: t, yaw: if carries_yaw(m) { YawSource::Previous } else { YawSource::Zero } }
        },
        None => if carries_yaw(m) { MovementPlan::SetPreviousYaw } else { MovementPlan::Nothing },
    }
}

/// The movement after a strafe type was chosen in the strafe menu.
pub fn strafe_selection_changed(selection: Option<StrafeType>, m: MovementShape) -> (r: MovementPlan)
    ensures
        r == movement_after_selection(selection, m),
{
    let prev_yaw = has_previous_yaw(m);
    match selection {
        Some(strafe_type) => match strafe_type {
            StrafeType::MaxDeccel => MovementPlan::StrafeBest { type_: strafe_type },
            _ => MovementPlan::StrafeYaw {
                type_: strafe_type,
                yaw: if prev_yaw { YawSource::Previous } else { YawSource::Zero },
            },
        },
        None => if prev_yaw {
            MovementPlan::SetPreviousYaw
        } else {
            MovementPlan::Nothing
        },
    }
}

/// The movement after a strafe type was chosen in the strafe type box of the text-field
/// editor: any type strafes towards the yaw the movement had (zero when it had none), and
/// no type removes the movement.
pub open spec fn movement_after_selector(selection: Option<StrafeType>, m: MovementShape) -> MovementPlan {
    match selection {
        Some(t) => MovementPlan::StrafeYaw { type_: t, yaw: if carries_yaw(m) { YawSource::Previous } else { YawSource::Zero } },
        None => MovementPlan::Nothing,
    }
}

/// The movement after a strafe type was chosen in the text-field editor's strafe box.
pub fn strafe_selector(selection: Option<StrafeType>, m: MovementShape) -> (r: MovementPlan)
    ensures
        r == movement_after_selector(selection, m),
{
    match selection {
        Some(strafe_type) => MovementPlan::StrafeYaw {
            type_: strafe_type,
            yaw: if has_previous_yaw(m) { YawSource::Previous } else { YawSource::Zero },
        },
        None => MovementPlan::Nothing,
    }
}

/// Choosing a strafe type in the strafe menu: maximum deceleration strafes in the best
/// direction; any other type strafes towards the yaw the movement before had, which a set
/// yaw, a strafe towards a yaw and a strafe along a line have, and towards zero otherwise;
/// choosing no type keeps a set yaw exactly when there was such a yaw, else no movement.
pub proof fn lemma_strafe_menu_choice(t: StrafeType, m: MovementShape)
    ensures
        movement_after_selection(Some(StrafeType::MaxDeccel), m)
            == (MovementPlan::StrafeBest { type_: StrafeType::MaxDeccel }),
        t != StrafeType::MaxDeccel ==> movement_after_selection(Some(t), m)
            == (MovementPlan::StrafeYaw {
                type_: t,
                yaw: if m == MovementShape::SetYaw || m == (MovementShape::Strafe { type_: m->type_, dir: StrafeDirKind::Yaw })
                    || m == (MovementShape::Strafe { type_: m->type_, dir: StrafeDirKind::Line }) {
                    YawSource::Previous
                } else {
                    YawSource::Zero
                },
            }),
        movement_after_selection(None, m) == if m == MovementShape::SetYaw
            || m == (MovementShape::Strafe { type_: m->type_, dir: StrafeDirKind::Yaw })
            || m == (MovementShape::Strafe { type_: m->type_, dir: StrafeDirKind::Line }) {
            MovementPlan::SetPreviousYaw
        } else {
            MovementPlan::Nothing
        },
{
}

/// Choosing a strafe type in the text-field editor's strafe box: any type strafes towards
/// the yaw the movement before had (a set yaw, a strafe towards a yaw or along a line), and
/// towards zero otherwise; no type removes the movement.
pub proof fn lemma_strafe_box_choice(t: StrafeType, m: MovementShape)
    ensures
        movement_after_selector(Some(t), m) == (MovementPlan::StrafeYaw {
            type_: t,
            yaw: if m == MovementShape::SetYaw || m == (MovementShape::Strafe { type_: m->type_, dir: StrafeDirKind::Yaw })
                || m == (MovementShape::Strafe { type_: m->type_, dir: StrafeDirKind::Line }) {
                YawSource::Previous
            } else {
                YawSource::Zero
            },
        }),
        movement_after_selector(None, m) == MovementPlan::Nothing,
{
}

/// The shape of a planned movement, given whether the yaw it takes exists.
pub open spec fn shape_of_plan(p: MovementPlan) -> MovementShape {
    match p {
        MovementPlan::Nothing => MovementShape::Nothing,
        MovementPlan::SetPreviousYaw => MovementShape::SetYaw,
        MovementPlan::StrafeBest { type_ } => MovementShape::Strafe { type_, dir: StrafeDirKind::Best },
        MovementPlan::StrafeYaw { type_, .. } => MovementShape::Strafe { type_, dir: StrafeDirKind::Yaw },
    }
}

/// After choosing a strafe type in the strafe menu, the menu shows that type as selected,
/// and choosing the same type again gives a movement of the same shape.
pub proof fn lemma_selection_shown(selection: Option<StrafeType>, m: MovementShape)
    ensures
        strafe_type_of(shape_of_plan(movement_after_selection(selection, m))) == selection,
        shape_of_plan(movement_after_selection(selection, shape_of_plan(movement_after_selection(selection, m))))
            == shape_of_plan(movement_after_selection(selection, m)),
{
}

} // verus!
