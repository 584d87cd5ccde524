//! Conversions between scripts, lines and `.hltas` text, and button names.
use vstd::prelude::*;
use crate::model::{Button, Properties, PropertiesView};
use crate::script::{frames_header, parse_script, parsed_lines, script_parses, script_text, script_to_text, version_header, Script};

verus! {

/// The `.hltas` text of a script.
pub fn hltas_to_str(hltas: &Script) -> (r: String)
    requires
        hltas.properties@.valid(),
    ensures
        r@ == script_text(hltas.properties@, hltas.lines@),
{
    script_to_text(&hltas.properties, &hltas.lines)
}

/// The text of lines alone: the text of a script with just these lines and no property,
/// without its version and `frames` lines and without its last line break. Empty for no
/// lines.
pub open spec fn lines_text_of(lines: Seq<hltas::types::Line>) -> Seq<char> {
    if lines.len() == 0 {
        Seq::empty()
    } else {
        let text = script_text(Properties::empty_view(), lines);
        text.subrange(17, text.len() - 1)
    }
}

impl Properties {
    /// The view of properties with nothing set.
    pub open spec fn empty_view() -> PropertiesView {
        PropertiesView {
            demo: None,
            save: None,
            frametime_0ms: None,
            seeds: None,
            hlstrafe_version: None,
            load_command: None,
        }
    }
}

/// The text of lines, as they would appear in a script's `frames` section, without a
/// trailing line break.
pub fn lines_to_str(lines: Vec<hltas::types::Line>) -> (r: String)
    ensures
        r@ == lines_text_of(lines@),
        lines@.len() > 0 && !(r@.len() >= 9 && r@.subrange(0, 9) == "version 1"@) ==> lines_source(r@)
            + seq!['\n'] == script_text(Properties::empty_view(), lines@),
{
    if lines.len() == 0 {
        return String::new();
    }

    // make a dummy hltas
    let properties = Properties::empty();
    assert(properties@ == Properties::empty_view());
    let hltas = script_to_text(&properties, &lines);
    let n = hltas.as_str().unicode_len();
    // the writer starts with the version and `frames` lines and ends with a line break
    let r = hltas.as_str().substring_char(17, n - 1).to_owned();
    proof {
        let text = hltas@;
        assert(version_header() + frames_header() + r@ + seq!['\n'] =~= text);
    }
    r
}

/// The text that a line list is parsed from: the whole text when it starts with the
/// version line's words, else the text after a version line and a `frames` line.
pub open spec fn lines_source(text: Seq<char>) -> Seq<char> {
    if text.len() >= 9 && text.subrange(0, 9) == "version 1"@ {
        text
    } else {
        version_header() + frames_header() + text
    }
}

/// Whether a text starts with `version 1`.
fn starts_with_version_words(text: &str) -> (r: bool)
    ensures
        r == (text@.len() >= 9 && text@.subrange(0, 9) == "version 1"@),
{
    let version1_text = "version 1";
    proof {
        reveal_strlit("version 1");
    }
    if text.unicode_len() < 9 {
        return false;
    }
    for i in 0..9
        invariant
            text@.len() >= 9,
            version1_text@ == "version 1"@,
            version1_text@.len() == 9,
            forall|j: int| 0 <= j < i ==> text@[j] == version1_text@[j],
    {
        if text.get_char(i) != version1_text.get_char(i) {
            assert(text@.subrange(0, 9)[i as int] != "version 1"@[i as int]);
            return false;
        }
    }
    assert(text@.subrange(0, 9) =~= "version 1"@);
    true
}

/// Lines read from a text: either a whole script (starting with `version 1`) or just its
/// lines. `None` when the text is shorter than `version 1` or does not parse.
pub fn str_to_lines(lines: &str) -> (r: Option<Vec<hltas::types::Line>>)
    ensures
        lines.len() < 9 ==> r is None,
        lines.len() >= 9 ==> (r is Some <==> script_parses(lines_source(lines@))),
        r matches Some(ls) ==> ls@ == parsed_lines(lines_source(lines@)),
{
    // shorter than "version 1" in bytes
    if lines.len() < 9 {
        return None;
    }

    let starts_with_version = starts_with_version_words(lines);
    let source = if starts_with_version {
        // parse as whole hltas file
        lines.to_owned()
    } else {
        // parse as hltas lines
        let mut text = String::from_str("version 1\nframes\n");
        proof {
            reveal_strlit("version 1\nframes\n");
            assert("version 1\nframes\n"@ =~= version_header() + frames_header());
        }
        text.append(lines);
        text
    };
    proof {
        assert(source@ == lines_source(lines@));
    }

    match parse_script(source.as_str()) {
        Ok(hltas) => Some(hltas.lines),
        Err(_) => None,
    }
}

/// The name of a strafe button in the script format.
pub open spec fn button_name(button: Button) -> Seq<char> {
    match button {
        Button::Forward => "forward"@,
        Button::ForwardLeft => "forward left"@,
        Button::Left => "left"@,
        Button::BackLeft => "back left"@,
        Button::Back => "back"@,
        Button::BackRight => "back right"@,
        Button::Right => "right"@,
        Button::ForwardRight => "forward right"@,
    }
}

pub fn button_to_str(button: &Button) -> (r: &'static str)
    ensures
        r@ == button_name(*button),
{
    match button {
        Button::Forward => "forward",
        Button::ForwardLeft => "forward left",
        Button::Left => "left",
        Button::BackLeft => "back left",
        Button::Back => "back",
        Button::BackRight => "back right",
        Button::Right => "right",
        Button::ForwardRight => "forward right",
    }
}

} // verus!
