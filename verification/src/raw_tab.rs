//! A tab of the text-field editor: a script, the text it was read from, and its text
//! fields.
use vstd::prelude::*;
use crate::model::{Properties, PropertiesView};
use crate::raw_hltas::{fields_of_script, lines_view, raw_script_text, RawHLTAS};
use crate::script::{parse_script, parsed_lines, parsed_properties, script_parses, script_text, script_to_text, Script};
use crate::text::{file_name_of, path_file_name};
use crate::file_tab::title_for;

verus! {

/// A tab of the text-field editor.
pub struct HLTASFileTab {
    pub title: String,
    pub path: Option<String>,
    raw_content: String,
    raw_hltas: RawHLTAS,
    hltas: Script,
    pub got_modified: bool,
}

impl HLTASFileTab {
    /// The tab's title.
    pub closed spec fn title_view(&self) -> Seq<char> {
        self.title@
    }

    /// The tab's file, if any.
    pub closed spec fn path_view(&self) -> Option<Seq<char>> {
        crate::model::opt_string_view(self.path)
    }

    /// Whether the tab was modified.
    pub closed spec fn modified_value(&self) -> bool {
        self.got_modified
    }

    /// The text the tab was made from.
    pub closed spec fn raw_content_view(&self) -> Seq<char> {
        self.raw_content@
    }

    /// The tab's text fields.
    pub closed spec fn raw_hltas_value(&self) -> RawHLTAS {
        self.raw_hltas
    }

    /// The properties of the tab's script.
    pub closed spec fn properties_view(&self) -> PropertiesView {
        self.hltas.properties@
    }

    /// The lines of the tab's script.
    pub closed spec fn lines_view(&self) -> Seq<hltas::types::Line> {
        self.hltas.lines@
    }

    /// Opens a script read from `path`: the title is the file's name, and the text fields
    /// are made from the script. Fails, with the parser's message, exactly when the `hltas`
    /// parser rejects the text.
    pub fn open_path(path: &str, file_content: &str) -> (r: Result<Self, String>)
        requires
            path_file_name(path@) is Some,
        ensures
            r is Ok <==> script_parses(file_content@),
            r matches Ok(tab) ==> {
                &&& tab.title_view() == path_file_name(path@).unwrap()
                &&& tab.path_view() == Some(path@)
                &&& tab.raw_content_view() == file_content@
                &&& tab.properties_view() == parsed_properties(file_content@)
                &&& tab.lines_view() == parsed_lines(file_content@)
                &&& fields_of_script(tab.raw_hltas_value(), tab.properties_view(), tab.lines_view())
                &&& !tab.modified_value()
            },
    {
        let hltas = match parse_script(file_content) {
            Ok(hltas) => hltas,
            Err(err) => return Err(err),
        };
        let title = match file_name_of(path) {
            Some(name) => name,
            None => String::new(),
        };
        let raw_hltas = RawHLTAS::from_hltas(&hltas);
        Ok(Self {
            title,
            path: Some(path.to_owned()),
            raw_content: file_content.to_owned(),
            got_modified: false,
            hltas,
            raw_hltas,
        })
    }

    /// `open_path` where the path has a file name; `None` where it has none.
    pub fn try_open_path(path: &str, file_content: &str) -> (r: Option<Result<Self, String>>)
        ensures
            r is None <==> path_file_name(path@) is None,
            r matches Some(res) ==> (res is Ok <==> script_parses(file_content@)),
            r matches Some(Ok(tab)) ==> {
                &&& tab.title_view() == path_file_name(path@).unwrap()
                &&& tab.path_view() == Some(path@)
                &&& tab.raw_content_view() == file_content@
                &&& tab.properties_view() == parsed_properties(file_content@)
                &&& tab.lines_view() == parsed_lines(file_content@)
                &&& fields_of_script(tab.raw_hltas_value(), tab.properties_view(), tab.lines_view())
                &&& !tab.modified_value()
            },
    {
        match file_name_of(path) {
            Some(_) => Some(Self::open_path(path, file_content)),
            None => None,
        }
    }

    /// The title for a file at `path`: its file name, else `default_title`.
    pub fn title_from_path(path: &str, default_title: String) -> (r: String)
        ensures
            r@ == title_for(path@, default_title@),
    {
        match file_name_of(path) {
            Some(name) => name,
            None => default_title,
        }
    }

    /// A tab for a new, empty script with no file: its text is the text of the empty
    /// script.
    pub fn new_file(default_title: String) -> (r: Self)
        ensures
            r.title_view() == default_title@,
            r.path_view() is None,
            !r.modified_value(),
            r.properties_view().is_empty(),
            r.lines_view().len() == 0,
            r.raw_content_view() == script_text(r.properties_view(), r.lines_view()),
            fields_of_script(r.raw_hltas_value(), r.properties_view(), r.lines_view()),
    {
        let hltas = Script { properties: Properties::empty(), lines: Vec::new() };
        let raw_content = script_to_text(&hltas.properties, &hltas.lines);
        let raw_hltas = RawHLTAS::from_hltas(&hltas);
        Self { title: default_title, path: None, raw_content, got_modified: false, hltas, raw_hltas }
    }

    /// The text the tab was made from.
    pub fn get_raw_content(&self) -> (r: &str)
        ensures
            r@ == self.raw_content_view(),
    {
        self.raw_content.as_str()
    }

    /// The tab's text fields.
    pub fn get_raw_hltas(&self) -> (r: &RawHLTAS)
        ensures
            *r == self.raw_hltas_value(),
    {
        &self.raw_hltas
    }

    /// Replaces the tab's script.
    pub fn set_hltas(&mut self, hltas: Script)
        ensures
            final(self).properties_view() == hltas.properties@,
            final(self).lines_view() == hltas.lines@,
            final(self).raw_content_view() == old(self).raw_content_view(),
            final(self).raw_hltas_value() == old(self).raw_hltas_value(),
            final(self).title_view() == old(self).title_view(),
            final(self).path_view() == old(self).path_view(),
            final(self).modified_value() == old(self).modified_value(),
    {
        self.hltas = hltas;
    }

    /// Replaces the tab's script by the one that text fields describe.
    pub fn set_hltas_from_raw_hltas(&mut self, raw_hltas: &RawHLTAS)
        ensures
            final(self).properties_view() == raw_hltas.properties_view(),
            script_parses(raw_script_text(lines_view(raw_hltas.lines@))) ==> final(self).lines_view()
                == parsed_lines(raw_script_text(lines_view(raw_hltas.lines@))),
            !script_parses(raw_script_text(lines_view(raw_hltas.lines@))) ==> final(self).lines_view().len() == 0,
            final(self).raw_content_view() == old(self).raw_content_view(),
            final(self).raw_hltas_value() == old(self).raw_hltas_value(),
            final(self).title_view() == old(self).title_view(),
            final(self).path_view() == old(self).path_view(),
            final(self).modified_value() == old(self).modified_value(),
    {
        self.hltas = raw_hltas.to_hltas();
    }

    /// The tab's script.
    pub fn hltas(&self) -> (r: &Script)
        ensures
            r.properties@ == self.properties_view(),
            r.lines@ == self.lines_view(),
    {
        &self.hltas
    }

    /// The tab's text fields, to edit.
    pub fn raw_hltas_mut(&mut self) -> (r: &mut RawHLTAS)
        ensures
            *r == old(self).raw_hltas_value(),
            final(self).raw_hltas_value() == *final(r),
            final(self).properties_view() == old(self).properties_view(),
            final(self).lines_view() == old(self).lines_view(),
            final(self).raw_content_view() == old(self).raw_content_view(),
            final(self).title_view() == old(self).title_view(),
            final(self).path_view() == old(self).path_view(),
            final(self).modified_value() == old(self).modified_value(),
    {
        &mut self.raw_hltas
    }
}

} // verus!
