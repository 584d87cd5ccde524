//! A script with every editable field held as text, for the text-field editors.
use vstd::prelude::*;
use crate::labels::joined;
use crate::model::{opt_string_view, Properties, PropertiesView, Seeds};
use crate::script::{frames_header, parse_script, parsed_lines, script_parses, script_text, script_to_text, version_header, Script};
use crate::text::{chars_of, find_chars, first_occurrence, lines_from, decimal_text, lemma_decimal_text, lemma_nonzero_u32_round_trip, nonzero_u32_of_text, occurs_at, parse_nonzero_u32, text_lines, u32_to_string};

verus! {

/// A script whose editable properties and lines are plain text. An unset text property is
/// the empty text.
#[derive(Debug)]
pub struct RawHLTAS {
    pub demo: String,
    pub save: String,
    pub frametime_0ms: String,
    pub shared_rng: Option<u32>,
    pub non_shared_rng: Option<i64>,
    pub hlstrafe_version: String,
    pub load_command: String,
    pub lines: Vec<String>,
}

/// The text of an optional text property; empty when unset.
pub open spec fn text_or_empty(s: Option<Seq<char>>) -> Seq<char> {
    match s {
        Some(t) => t,
        None => Seq::empty(),
    }
}

/// An optional text property read back from its text: unset when empty.
pub open spec fn none_if_empty(s: Seq<char>) -> Option<Seq<char>> {
    if s.len() == 0 { None } else { Some(s) }
}

/// The word that opens the lines section of a script text.
pub open spec fn frames_word() -> Seq<char> {
    seq!['f', 'r', 'a', 'm', 'e', 's']
}

/// The lines that follow the first `frames` in a script text, as `str::lines` splits them;
/// none when the text has no `frames`.
pub open spec fn raw_lines_of(text: Seq<char>) -> Seq<Seq<char>> {
    if exists|k: int| first_occurrence(text, frames_word(), k) {
        let k = choose|k: int| first_occurrence(text, frames_word(), k);
        text_lines(text.skip(k + 6))
    } else {
        Seq::empty()
    }
}

/// The text of the lines of a raw script, each one on a line of its own after the version
/// and `frames` lines.
pub open spec fn raw_script_text(lines: Seq<Seq<char>>) -> Seq<char> {
    version_header() + frames_header() + joined(lines, seq!['\n'])
}

/// The view of a raw script's lines.
pub open spec fn lines_view(lines: Seq<String>) -> Seq<Seq<char>> {
    lines.map_values(|l: String| l@)
}

/// The properties that text fields describe: empty texts are unset, the seeds are set when
/// both halves are, and the version is read as a non-zero number.
pub open spec fn properties_of_fields(
    demo: Seq<char>,
    save: Seq<char>,
    frametime_0ms: Seq<char>,
    shared_rng: Option<u32>,
    non_shared_rng: Option<i64>,
    hlstrafe_version: Seq<char>,
    load_command: Seq<char>,
) -> PropertiesView {
    PropertiesView {
        demo: none_if_empty(demo),
        save: none_if_empty(save),
        frametime_0ms: none_if_empty(frametime_0ms),
        seeds: match (shared_rng, non_shared_rng) {
            (Some(shared), Some(non_shared)) => Some(Seeds { shared, non_shared }),
            _ => None,
        },
        hlstrafe_version: if hlstrafe_version.len() == 0 {
            None
        } else {
            nonzero_u32_of_text(hlstrafe_version)
        },
        load_command: none_if_empty(load_command),
    }
}

/// The text of an optional version; empty when unset.
pub open spec fn version_text(v: Option<u32>) -> Seq<char> {
    match v {
        Some(n) => decimal_text(n as nat),
        None => Seq::empty(),
    }
}

/// The shared half of optional seeds.
pub open spec fn shared_of(s: Option<Seeds>) -> Option<u32> {
    match s {
        Some(seeds) => Some(seeds.shared),
        None => None,
    }
}

/// The non-shared half of optional seeds.
pub open spec fn non_shared_of(s: Option<Seeds>) -> Option<i64> {
    match s {
        Some(seeds) => Some(seeds.non_shared),
        None => None,
    }
}

/// No text property is set to the empty text.
pub open spec fn no_empty_text(p: PropertiesView) -> bool {
    &&& p.demo != Some(Seq::<char>::empty())
    &&& p.save != Some(Seq::<char>::empty())
    &&& p.frametime_0ms != Some(Seq::<char>::empty())
    &&& p.load_command != Some(Seq::<char>::empty())
}

/// Properties turned into text fields and read back are the same properties, as long as
/// no text property is set to the empty text (which reads back as unset).
pub proof fn lemma_properties_round_trip(p: PropertiesView)
    requires
        p.valid(),
        no_empty_text(p),
    ensures
        ({
            let q = properties_of_fields(
                text_or_empty(p.demo),
                text_or_empty(p.save),
                text_or_empty(p.frametime_0ms),
                shared_of(p.seeds),
                non_shared_of(p.seeds),
                version_text(p.hlstrafe_version),
                text_or_empty(p.load_command),
            );
            q == p
        }),
{
    let q = properties_of_fields(
        text_or_empty(p.demo),
        text_or_empty(p.save),
        text_or_empty(p.frametime_0ms),
        shared_of(p.seeds),
        non_shared_of(p.seeds),
        version_text(p.hlstrafe_version),
        text_or_empty(p.load_command),
    );
    lemma_text_round_trip(p.demo);
    lemma_text_round_trip(p.save);
    lemma_text_round_trip(p.frametime_0ms);
    lemma_text_round_trip(p.load_command);
    match p.hlstrafe_version {
        Some(v) => {
            lemma_decimal_text(v as nat);
            lemma_nonzero_u32_round_trip(v);
        },
        None => {},
    }
    assert(q.hlstrafe_version == p.hlstrafe_version);
}

/// An optional text that is not the empty text comes back from its text.
proof fn lemma_text_round_trip(s: Option<Seq<char>>)
    requires
        s != Some(Seq::<char>::empty()),
    ensures
        none_if_empty(text_or_empty(s)) == s,
{
    match s {
        Some(t) => {
            if t.len() == 0 {
                assert(t =~= Seq::<char>::empty());
            }
        },
        None => {},
    }
}

/// `raw` holds the text fields of the script with properties `p` and lines `lines`: each
/// text property's text (empty when unset), the seeds split in two, the version's decimal
/// text, and the lines after the first `frames` of the script's text.
pub open spec fn fields_of_script(raw: RawHLTAS, p: PropertiesView, lines: Seq<hltas::types::Line>) -> bool {
    &&& raw.demo@ == text_or_empty(p.demo)
    &&& raw.save@ == text_or_empty(p.save)
    &&& raw.frametime_0ms@ == text_or_empty(p.frametime_0ms)
    &&& raw.shared_rng == shared_of(p.seeds)
    &&& raw.non_shared_rng == non_shared_of(p.seeds)
    &&& raw.hlstrafe_version@ == version_text(p.hlstrafe_version)
    &&& raw.load_command@ == text_or_empty(p.load_command)
    &&& lines_view(raw.lines@) == raw_lines_of(script_text(p, lines))
}

impl RawHLTAS {
    /// The properties that `to_hltas` makes of the text fields.
    pub open spec fn properties_view(&self) -> PropertiesView {
        properties_of_fields(
            self.demo@,
            self.save@,
            self.frametime_0ms@,
            self.shared_rng,
            self.non_shared_rng,
            self.hlstrafe_version@,
            self.load_command@,
        )
    }

    /// The text fields of a script: the properties as text, the seeds split in two, and the
    /// script's lines as the writer writes them.
    pub fn from_hltas(hltas: &Script) -> (r: Self)
        requires
            hltas.properties@.valid(),
        ensures
            fields_of_script(r, hltas.properties@, hltas.lines@),
    {
        let p = &hltas.properties;
        let hlstrafe_version = match p.hlstrafe_version {
            Some(v) => u32_to_string(v),
            None => String::new(),
        };
        let hltas_raw = script_to_text(p, &hltas.lines);
        let chars = chars_of(hltas_raw.as_str());
        let frames: Vec<char> = vec!['f', 'r', 'a', 'm', 'e', 's'];
        assert(frames@ =~= frames_word());
        let total = chars.len();
        let lines = match find_chars(&chars, &frames) {
            Some(frames_index) => {
                proof {
                    lemma_first_occurrence_unique(chars@, frames_word(), frames_index as int);
                    assert(frames_word().len() == 6);
                    assert(frames_index + 6 <= total);
                }
                lines_from(&chars, frames_index + 6)
            },
            None => Vec::new(),
        };
        let r = RawHLTAS {
            demo: text_or_new(&p.demo),
            save: text_or_new(&p.save),
            frametime_0ms: text_or_new(&p.frametime_0ms),
            shared_rng: match p.seeds {
                Some(seeds) => Some(seeds.shared),
                None => None,
            },
            non_shared_rng: match p.seeds {
                Some(seeds) => Some(seeds.non_shared),
                None => None,
            },
            hlstrafe_version,
            load_command: text_or_new(&p.load_command),
            lines,
        };
        assert(lines_view(r.lines@) =~= raw_lines_of(script_text(hltas.properties@, hltas.lines@)));
        r
    }

    /// The script that the text fields describe. The lines are read as the lines of a script
    /// text; when that text does not parse, the script has no lines.
    pub fn to_hltas(&self) -> (r: Script)
        ensures
            r.properties@ == self.properties_view(),
            r.properties@.valid(),
            script_parses(raw_script_text(lines_view(self.lines@))) ==> r.lines@ == parsed_lines(
                raw_script_text(lines_view(self.lines@)),
            ),
            !script_parses(raw_script_text(lines_view(self.lines@))) ==> r.lines@.len() == 0,
    {
        let seeds = match (self.shared_rng, self.non_shared_rng) {
            (Some(shared), Some(non_shared)) => Some(Seeds { shared, non_shared }),
            _ => None,
        };
        let hlstrafe_version = if self.hlstrafe_version.as_str().is_empty() {
            None
        } else {
            parse_nonzero_u32(self.hlstrafe_version.as_str())
        };
        let properties = Properties {
            demo: none_if_new_empty(&self.demo),
            save: none_if_new_empty(&self.save),
            frametime_0ms: none_if_new_empty(&self.frametime_0ms),
            seeds,
            hlstrafe_version,
            load_command: none_if_new_empty(&self.load_command),
        };

        let mut text = String::from_str("version 1\nframes\n");
        proof {
            reveal_strlit("version 1\nframes\n");
            assert("version 1\nframes\n"@ =~= version_header() + frames_header());
        }
        let joined_lines = join_lines(&self.lines);
        text.append(joined_lines.as_str());
        assert(text@ =~= raw_script_text(lines_view(self.lines@)));
        let lines = match parse_script(text.as_str()) {
            Ok(hltas) => hltas.lines,
            Err(_) => Vec::new(),
        };
        Script { properties, lines }
    }
}

/// The text of an optional text property, empty when unset.
fn text_or_new(s: &Option<String>) -> (r: String)
    ensures
        r@ == text_or_empty(opt_string_view(*s)),
{
    match s {
        Some(t) => t.clone(),
        None => String::new(),
    }
}

/// A text property read from its text: unset when empty.
fn none_if_new_empty(s: &String) -> (r: Option<String>)
    ensures
        opt_string_view(r) == none_if_empty(s@),
{
    if s.as_str().is_empty() {
        None
    } else {
        Some(s.clone())
    }
}

/// The lines joined by line breaks.
pub fn join_lines(lines: &Vec<String>) -> (r: String)
    ensures
        r@ == joined(lines_view(lines@), seq!['\n']),
{
    let ghost views = lines_view(lines@);
    let mut r = String::new();
    let n = lines.len();
    let newline = "\n";
    proof {
        reveal_strlit("\n");
    }
    for i in 0..n
        invariant
            n == lines@.len(),
            views == lines_view(lines@),
            newline@ == seq!['\n'],
            r@ == joined(views.take(i as int), seq!['\n']),
    {
        assert(views.take(i + 1).drop_last() =~= views.take(i as int));
        if i != 0 {
            r.append(newline);
        }
        r.append(lines[i].as_str());
        proof {
            if i == 0 {
                assert(views.take(1) =~= seq![lines@[0]@]);
            }
        }
    }
    assert(views.take(n as int) =~= views);
    r
}

/// A first occurrence is the only one: the `choose` in `raw_lines_of` picks it.
pub proof fn lemma_first_occurrence_unique(hay: Seq<char>, needle: Seq<char>, k: int)
    requires
        first_occurrence(hay, needle, k),
    ensures
        (choose|j: int| first_occurrence(hay, needle, j)) == k,
{
    let j = choose|j: int| first_occurrence(hay, needle, j);
    assert(first_occurrence(hay, needle, j));
    if j < k {
        assert(!occurs_at(hay, needle, j));
    } else if k < j {
        assert(!occurs_at(hay, needle, k));
    }
}

} // verus!
