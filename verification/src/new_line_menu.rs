//! The new-line menu: which earlier line a new line is based on, and the new frame bulk
//! line itself.
use vstd::prelude::*;
use crate::script::{clone_line, empty_frame_bulk, empty_framebulk};
use hltas::types::Line::{
    Buttons, Change, Comment, FrameBulk, LGAGSTMinSpeed, PitchOverride, RenderPitchOverride, RenderYawOverride, Reset, Save,
    SharedSeed, TargetYawOverride, VectorialStrafing, VectorialStrafingConstraints,
};

verus! {

/// The kinds of script lines.
#[derive(Clone, Copy, Debug, PartialEq, Eq, Structural)]
pub enum LineKind {
    FrameBulk,
    Save,
    SharedSeed,
    Buttons,
    LGAGSTMinSpeed,
    Reset,
    Comment,
    VectorialStrafing,
    VectorialStrafingConstraints,
    Change,
    TargetYawOverride,
    RenderYawOverride,
    PitchOverride,
    RenderPitchOverride,
}

/// The variant of an `hltas` line.
pub uninterp spec fn kind_of_line(line: hltas::types::Line) -> LineKind;

/// The frame time text of a frame bulk line.
pub uninterp spec fn frame_time_of_line(line: hltas::types::Line) -> Seq<char>;

/// Whether a vectorial strafing line enables it.
pub uninterp spec fn vectorial_strafing_of_line(line: hltas::types::Line) -> bool;

/// The frame bulk line holding a frame bulk.
pub uninterp spec fn frame_bulk_line_of(framebulk: hltas::types::FrameBulk) -> hltas::types::Line;

/// Tells the variants of an `hltas` line apart.
#[verifier::external_body]
fn line_kind(line: &hltas::types::Line) -> (r: LineKind)
    ensures
        r == kind_of_line(*line),
{
    match line {
        FrameBulk(_) => LineKind::FrameBulk,
        Save(_) => LineKind::Save, SharedSeed(_) => LineKind::SharedSeed,
        Buttons(_) => LineKind::Buttons,
        LGAGSTMinSpeed(_) => LineKind::LGAGSTMinSpeed,
        Reset { .. } => LineKind::Reset,
        Comment(_) => LineKind::Comment,
        VectorialStrafing(_) => LineKind::VectorialStrafing,
        VectorialStrafingConstraints(_) => LineKind::VectorialStrafingConstraints,
        Change(_) => LineKind::Change,
        TargetYawOverride(_) => LineKind::TargetYawOverride,
        RenderYawOverride(_) => LineKind::RenderYawOverride,
        PitchOverride(_) => LineKind::PitchOverride,
        RenderPitchOverride(_) => LineKind::RenderPitchOverride,
    }
}

/// The `frame_time` field of a frame bulk line.
#[verifier::external_body]
fn frame_time_of(line: &hltas::types::Line) -> (r: String)
    requires
        kind_of_line(*line) == LineKind::FrameBulk,
    ensures
        r@ == frame_time_of_line(*line),
{
    match line {
        hltas::types::Line::FrameBulk(framebulk) => framebulk.frame_time.clone(),
        _ => String::new(),
    }
}

/// The flag of a vectorial strafing line.
#[verifier::external_body]
fn vectorial_strafing_of(line: &hltas::types::Line) -> (r: bool)
    requires
        kind_of_line(*line) == LineKind::VectorialStrafing,
    ensures
        r == vectorial_strafing_of_line(*line),
{
    match line {
        hltas::types::Line::VectorialStrafing(enabled) => *enabled,
        _ => false,
    }
}

/// `Line::FrameBulk`: a frame bulk line, whose frame time is that of the frame bulk.
#[verifier::external_body]
fn frame_bulk_line(framebulk: hltas::types::FrameBulk) -> (r: hltas::types::Line)
    ensures
        r == frame_bulk_line_of(framebulk),
        kind_of_line(r) == LineKind::FrameBulk,
{
    hltas::types::Line::FrameBulk(framebulk)
}

/// `Line::VectorialStrafing`: a vectorial strafing line with the given flag.
#[verifier::external_body]
fn vectorial_strafing_line(enabled: bool) -> (r: hltas::types::Line)
    ensures
        kind_of_line(r) == LineKind::VectorialStrafing,
        vectorial_strafing_of_line(r) == enabled,
{
    hltas::types::Line::VectorialStrafing(enabled)
}

/// `i` is the last line of kind `kind` before `end`.
pub open spec fn is_last_of_kind(lines: Seq<hltas::types::Line>, end: int, kind: LineKind, i: int) -> bool {
    &&& 0 <= i < end
    &&& kind_of_line(lines[i]) == kind
    &&& forall|j: int| i < j < end ==> kind_of_line(#[trigger] lines[j]) != kind
}

/// No line of kind `kind` comes before `end`.
pub open spec fn none_of_kind(lines: Seq<hltas::types::Line>, end: int, kind: LineKind) -> bool {
    forall|j: int| 0 <= j < end ==> kind_of_line(#[trigger] lines[j]) != kind
}

/// The last line of kind `kind` among the first `end` lines.
pub fn last_line_of_kind(lines: &Vec<hltas::types::Line>, end: usize, kind: LineKind) -> (r: Option<usize>)
    requires
        end <= lines@.len(),
    ensures
        r matches Some(i) ==> is_last_of_kind(lines@, end as int, kind, i as int),
        r is None ==> none_of_kind(lines@, end as int, kind),
{
    let mut k: usize = end;
    while k > 0
        invariant
            k <= end <= lines@.len(),
            forall|j: int| k <= j < end ==> kind_of_line(#[trigger] lines@[j]) != kind,
        decreases k,
    {
        let i = k - 1;
        if line_kind(&lines[i]) == kind {
            return Some(i);
        }
        k = i;
    }
    None
}

/// How many of the lines a new line is based on: those before the right-clicked position,
/// or all of them; none when there is no line and no right-clicked position.
pub open spec fn previous_lines_end(right_click: Option<usize>, len: nat) -> Option<usize> {
    match right_click {
        Some(i) => Some(i),
        None => if len == 0 { None } else { Some(len as usize) },
    }
}

/// The number of earlier lines a new line is based on (see `previous_lines_end`).
pub fn previous_lines(right_click: Option<usize>, lines: &Vec<hltas::types::Line>) -> (r: Option<usize>)
    requires
        right_click matches Some(i) ==> i <= lines@.len(),
    ensures
        r == previous_lines_end(right_click, lines@.len()),
        r matches Some(e) ==> e <= lines@.len(),
{
    match right_click {
        Some(index) => Some(index),
        None => if lines.len() == 0 {
            None
        } else {
            Some(lines.len())
        },
    }
}

/// The last frame bulk among the earlier lines, if any.
pub open spec fn previous_of_kind(lines: Seq<hltas::types::Line>, end: Option<usize>, kind: LineKind) -> Option<int> {
    match end {
        Some(e) => if exists|i: int| is_last_of_kind(lines, e as int, kind, i) {
            Some(choose|i: int| is_last_of_kind(lines, e as int, kind, i))
        } else {
            None
        },
        None => None,
    }
}

/// The last line of a kind among the earlier lines.
fn previous_line_of_kind(lines: &Vec<hltas::types::Line>, end: Option<usize>, kind: LineKind) -> (r: Option<usize>)
    requires
        end matches Some(e) ==> e <= lines@.len(),
    ensures
        r matches Some(i) ==> previous_of_kind(lines@, end, kind) == Some(i as int) && i < lines@.len(),
        r is None ==> previous_of_kind(lines@, end, kind) is None,
{
    match end {
        Some(e) => {
            let r = last_line_of_kind(lines, e, kind);
            proof {
                match r {
                    Some(i) => {
                        lemma_last_of_kind_unique(lines@, e as int, kind, i as int);
                    },
                    None => {
                        assert forall|i: int| !is_last_of_kind(lines@, e as int, kind, i) by {
                            if 0 <= i < e {
                                assert(kind_of_line(lines@[i]) != kind);
                            }
                        }
                    },
                }
            }
            r
        },
        None => None,
    }
}

/// There is one last line of a kind: the `choose` in `previous_of_kind` picks it.
pub proof fn lemma_last_of_kind_unique(lines: Seq<hltas::types::Line>, end: int, kind: LineKind, i: int)
    requires
        is_last_of_kind(lines, end, kind, i),
    ensures
        (choose|j: int| is_last_of_kind(lines, end, kind, j)) == i,
{
    let j = choose|j: int| is_last_of_kind(lines, end, kind, j);
    assert(is_last_of_kind(lines, end, kind, j));
    if j < i {
        assert(kind_of_line(lines[i]) != kind);
    } else if i < j {
        assert(kind_of_line(lines[j]) != kind);
    }
}

/// The frame time of a new frame bulk: that of the last earlier frame bulk, else the
/// default.
pub open spec fn new_frame_time(lines: Seq<hltas::types::Line>, end: Option<usize>, default_frametime: Seq<char>) -> Seq<char> {
    match previous_of_kind(lines, end, LineKind::FrameBulk) {
        Some(i) => frame_time_of_line(lines[i]),
        None => default_frametime,
    }
}

/// An empty frame bulk line of one frame, with the frame time of the last earlier frame
/// bulk, or the default frame time when there is none.
pub fn new_empty_framebulk_line(lines: &Vec<hltas::types::Line>, end: Option<usize>, default_frametime: &str)
    -> (r: hltas::types::Line)
    requires
        end matches Some(e) ==> e <= lines@.len(),
    ensures
        r == frame_bulk_line_of(empty_frame_bulk(new_frame_time(lines@, end, default_frametime@), 1)),
        kind_of_line(r) == LineKind::FrameBulk,
        frame_time_of_line(r) == new_frame_time(lines@, end, default_frametime@),
{
    let frametime = match previous_line_of_kind(lines, end, LineKind::FrameBulk) {
        Some(i) => frame_time_of(&lines[i]),
        None => default_frametime.to_owned(),
    };
    frame_bulk_line(empty_framebulk(frametime.as_str(), 1))
}

/// The frame bulk line that the menu's "framebulk" entry adds: a copy of the last earlier
/// frame bulk when copying is on and there is one, else a new empty frame bulk.
pub fn new_framebulk_line(
    lines: &Vec<hltas::types::Line>,
    end: Option<usize>,
    default_frametime: &str,
    copy_previous_framebulk: bool,
) -> (r: hltas::types::Line)
    requires
        end matches Some(e) ==> e <= lines@.len(),
    ensures
        kind_of_line(r) == LineKind::FrameBulk,
        copy_previous_framebulk ==> (previous_of_kind(lines@, end, LineKind::FrameBulk) matches Some(i)
            ==> r == lines@[i]),
        !(copy_previous_framebulk && previous_of_kind(lines@, end, LineKind::FrameBulk) is Some)
            ==> r == frame_bulk_line_of(empty_frame_bulk(new_frame_time(lines@, end, default_frametime@), 1)),
        !(copy_previous_framebulk && previous_of_kind(lines@, end, LineKind::FrameBulk) is Some)
            ==> frame_time_of_line(r) == new_frame_time(lines@, end, default_frametime@),
{
    if copy_previous_framebulk {
        if let Some(i) = previous_line_of_kind(lines, end, LineKind::FrameBulk) {
            return clone_line(&lines[i]);
        }
    }
    new_empty_framebulk_line(lines, end, default_frametime)
}

/// The vectorial strafing flag of a new vectorial strafing line: the opposite of the last
/// earlier one, else on.
pub open spec fn new_vectorial_strafing(lines: Seq<hltas::types::Line>, end: Option<usize>) -> bool {
    match previous_of_kind(lines, end, LineKind::VectorialStrafing) {
        Some(i) => !vectorial_strafing_of_line(lines[i]),
        None => true,
    }
}

/// The vectorial strafing line that the menu adds: it turns the last earlier setting
/// around, or turns vectorial strafing on when there is none.
pub fn new_vectorial_strafing_line(lines: &Vec<hltas::types::Line>, end: Option<usize>) -> (r: hltas::types::Line)
    requires
        end matches Some(e) ==> e <= lines@.len(),
    ensures
        kind_of_line(r) == LineKind::VectorialStrafing,
        vectorial_strafing_of_line(r) == new_vectorial_strafing(lines@, end),
{
    let enabled = match previous_line_of_kind(lines, end, LineKind::VectorialStrafing) {
        Some(i) => !vectorial_strafing_of(&lines[i]),
        None => true,
    };
    vectorial_strafing_line(enabled)
}

/// The leave-ground minimum speed line that the menu adds: a copy of the last earlier one
/// when taking it is on and there is one, else the given line from the options.
pub fn new_lgagst_min_speed_line(
    lines: &Vec<hltas::types::Line>,
    end: Option<usize>,
    options_line: hltas::types::Line,
    grab_previous: bool,
) -> (r: hltas::types::Line)
    requires
        end matches Some(e) ==> e <= lines@.len(),
    ensures
        grab_previous ==> (previous_of_kind(lines@, end, LineKind::LGAGSTMinSpeed) matches Some(i) ==> r == lines@[i]),
        !(grab_previous && previous_of_kind(lines@, end, LineKind::LGAGSTMinSpeed) is Some) ==> r == options_line,
{
    if grab_previous {
        if let Some(i) = previous_line_of_kind(lines, end, LineKind::LGAGSTMinSpeed) {
            return clone_line(&lines[i]);
        }
    }
    options_line
}

} // verus!
