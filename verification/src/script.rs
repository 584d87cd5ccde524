//! An HLTAS script as the editor holds it: plain-value properties and the script's
//! lines, which stay values of the `hltas` crate. Reading and writing the `.hltas`
//! text is done by the `hltas` crate.
use vstd::prelude::*;
use crate::new_line_menu::{frame_bulk_line_of, frame_time_of_line, kind_of_line, LineKind};
use crate::model::{FrameBulkMovement, MovementKeys, Properties, PropertiesView, Seeds};

verus! {

/// A script line of the `hltas` crate, carried through as an opaque value.
#[verifier::external_type_specification]
#[verifier::external_body]
pub struct ExLine(hltas::types::Line);

/// A frame bulk of the `hltas` crate, carried through as an opaque value.
#[verifier::external_type_specification]
#[verifier::external_body]
pub struct ExFrameBulk(hltas::types::FrameBulk);

/// An HLTAS script: its properties and its lines.
pub struct Script {
    pub properties: Properties,
    pub lines: Vec<hltas::types::Line>,
}

/// The movement part of a line: `Some` exactly for frame bulk lines.
pub uninterp spec fn line_movement(line: hltas::types::Line) -> Option<FrameBulkMovement>;

/// The text that `hltas::HLTAS::to_writer` writes for a script.
pub uninterp spec fn script_text(properties: PropertiesView, lines: Seq<hltas::types::Line>) -> Seq<char>;

/// Whether `hltas::HLTAS::from_str` accepts a text.
pub uninterp spec fn script_parses(text: Seq<char>) -> bool;

/// The properties that `hltas::HLTAS::from_str` reads from an accepted text.
pub uninterp spec fn parsed_properties(text: Seq<char>) -> PropertiesView;

/// The lines that `hltas::HLTAS::from_str` reads from an accepted text.
pub uninterp spec fn parsed_lines(text: Seq<char>) -> Seq<hltas::types::Line>;

/// The frame bulk that `empty_framebulk` builds.
pub uninterp spec fn empty_frame_bulk(frame_time: Seq<char>, frame_count: u32) -> hltas::types::FrameBulk;

/// The first line of every script text.
pub open spec fn version_header() -> Seq<char> {
    seq!['v', 'e', 'r', 's', 'i', 'o', 'n', ' ', '1', '\n']
}

/// The marker line that starts the lines section.
pub open spec fn frames_header() -> Seq<char> {
    seq!['f', 'r', 'a', 'm', 'e', 's', '\n']
}

/// Reads the variant of an `hltas` line and, for a frame bulk, copies out whether its
/// automatic movement is a strafe and its movement keys. The contract names the result,
/// which is there exactly for frame bulk lines.
#[verifier::external_body]
pub(crate) fn movement_of_line(line: &hltas::types::Line) -> (r: Option<FrameBulkMovement>)
    ensures
        r == line_movement(*line),
        (r is Some) == (kind_of_line(*line) == LineKind::FrameBulk),
{
    match line {
        hltas::types::Line::FrameBulk(fb) => {
            let k = fb.movement_keys;
            let strafing = match fb.auto_actions.movement {
                Some(hltas::types::AutoMovement::Strafe(_)) => true,
                Some(hltas::types::AutoMovement::SetYaw(_)) => false,
                None => false,
            };
            let movement_keys = MovementKeys { forward: k.forward, left: k.left, right: k.right, back: k.back, up: k.up, down: k.down };
            Some(FrameBulkMovement { strafing, movement_keys })
        },
        _ => None,
    }
}

/// `Clone` of `hltas::types::Line`, which is derived: the copy is the same value.
#[verifier::external_body]
pub(crate) fn clone_line(line: &hltas::types::Line) -> (r: hltas::types::Line)
    ensures
        r == *line,
{
    line.clone()
}

/// `hltas::types::FrameBulk::with_frame_time` with the frame count then set: a frame bulk
/// with no automatic action, no key, no pitch and no command. The result is named; its
/// `frame_time` field is the given text, so a frame bulk line holding it has that frame time.
#[verifier::external_body]
pub fn empty_framebulk(frametime: &str, frame_count: u32) -> (r: hltas::types::FrameBulk)
    requires
        frame_count != 0,
    ensures
        r == empty_frame_bulk(frametime@, frame_count),
        frame_time_of_line(frame_bulk_line_of(r)) == frametime@,
{
    let mut framebulk = hltas::types::FrameBulk::with_frame_time(frametime.to_owned());
    framebulk.frame_count = std::num::NonZeroU32::new(frame_count).unwrap();
    framebulk
}

/// `hltas::HLTAS::to_writer` into a byte buffer, read back as a string. The buffer never
/// refuses a write and the written bytes are UTF-8. The result is named; as the writer's
/// source shows, with no property set it starts with the version line and the `frames`
/// line, ends there when there is no line, and otherwise ends with the line break that
/// follows the last line.
#[verifier::external_body]
pub(crate) fn script_to_text(properties: &Properties, lines: &Vec<hltas::types::Line>) -> (r: String)
    requires
        properties@.valid(),
    ensures
        r@ == script_text(properties@, lines@),
        properties@.is_empty() ==> r@.len() >= 17
            && r@.subrange(0, 17) == version_header() + frames_header(),
        properties@.is_empty() && lines@.len() == 0 ==> r@ == version_header() + frames_header(),
        properties@.is_empty() && lines@.len() > 0 ==> r@.len() > 17 && r@.last() == '\n',
{
    let p = properties;
    let properties = hltas::types::Properties { demo: p.demo.clone(), save: p.save.clone(), frametime_0ms: p.frametime_0ms.clone(),
        seeds: p.seeds.map(|s| hltas::types::Seeds { shared: s.shared, non_shared: s.non_shared }),
        hlstrafe_version: p.hlstrafe_version.and_then(std::num::NonZeroU32::new), load_command: p.load_command.clone() };
    let mut buffer: Vec<u8> = Vec::new();
    hltas::HLTAS { properties, lines: lines.clone() }.to_writer(&mut buffer).unwrap();
    String::from_utf8(buffer).unwrap()
}

/// `hltas::HLTAS::from_str`, with the parsed properties copied into plain values and the
/// parse error turned into its message. Whether it accepts and what it reads are named.
#[verifier::external_body]
pub(crate) fn parse_script(text: &str) -> (r: Result<Script, String>)
    ensures
        r is Ok <==> script_parses(text@),
        r matches Ok(s) ==> s.properties@ == parsed_properties(text@) && s.lines@ == parsed_lines(text@)
            && s.properties@.valid(),
{
    match hltas::HLTAS::from_str(text) {
        Ok(h) => {
            let p = h.properties;
            let properties = Properties { demo: p.demo, save: p.save, frametime_0ms: p.frametime_0ms,
                seeds: p.seeds.map(|s| Seeds { shared: s.shared, non_shared: s.non_shared }),
                hlstrafe_version: p.hlstrafe_version.map(|v| v.get()), load_command: p.load_command };
            Ok(Script { properties, lines: h.lines })
        },
        Err(e) => Err(e.to_string()),
    }
}

} // verus!
