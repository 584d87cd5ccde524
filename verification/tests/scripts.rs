use hltas_editor::hltas_text::{button_to_str, hltas_to_str, lines_to_str, str_to_lines};
use hltas_editor::model::{Button, Properties, Seeds};
use hltas_editor::raw_hltas::{join_lines, RawHLTAS};
use hltas_editor::raw_tab;
use hltas_editor::script::{empty_framebulk, Script};

const SCRIPT_TEXT: &str = "version 1\ndemo bhop\nframetime0ms 0.0000001\nhlstrafe_version 1\nframes\n----------|------|------|0.001|-|-|1|sensitivity 0\n----------|------|------|0.001|-|-|5\n";

fn parsed_script_lines(text: &str) -> Vec<hltas::types::Line> {
    hltas::HLTAS::from_str(text).unwrap().lines
}

fn empty_properties() -> Properties {
    Properties { demo: None, save: None, frametime_0ms: None, seeds: None, hlstrafe_version: None, load_command: None }
}

#[test]
fn empty_script_text_is_version_and_frames() {
    let script = Script { properties: empty_properties(), lines: Vec::new() };
    assert_eq!(hltas_to_str(&script), "version 1\nframes\n");
}

#[test]
fn script_text_holds_properties_and_lines() {
    let mut properties = empty_properties();
    properties.demo = Some("bhop".to_string());
    properties.seeds = Some(Seeds { shared: 1, non_shared: 2 });
    let script = Script { properties, lines: parsed_script_lines(SCRIPT_TEXT) };
    let text = hltas_to_str(&script);
    assert!(text.starts_with("version 1\n"));
    assert!(text.contains("demo bhop\n"));
    assert!(text.contains("seed 1 2\n"));
    assert!(text.contains("----------|------|------|0.001|-|-|5\n"));
}

#[test]
fn lines_to_str_of_no_lines_is_empty() {
    assert_eq!(lines_to_str(Vec::new()), "");
}

#[test]
fn lines_to_str_drops_header_and_last_break() {
    let lines = parsed_script_lines(SCRIPT_TEXT);
    assert_eq!(
        lines_to_str(lines),
        "----------|------|------|0.001|-|-|1|sensitivity 0\n----------|------|------|0.001|-|-|5"
    );
}

#[test]
fn str_to_lines_reads_bare_lines() {
    let lines = str_to_lines("----------|------|------|0.001|-|-|5").unwrap();
    assert_eq!(lines.len(), 1);
    assert_eq!(lines, parsed_script_lines("version 1\nframes\n----------|------|------|0.001|-|-|5"));
}

#[test]
fn str_to_lines_reads_whole_script() {
    let lines = str_to_lines(SCRIPT_TEXT).unwrap();
    assert_eq!(lines, parsed_script_lines(SCRIPT_TEXT));
}

#[test]
fn str_to_lines_refuses_short_or_bad_text() {
    assert!(str_to_lines("").is_none());
    assert!(str_to_lines("abc").is_none());
    assert!(str_to_lines("this is not a line at all").is_none());
}

#[test]
fn lines_round_trip_through_text() {
    let lines = parsed_script_lines(SCRIPT_TEXT);
    let text = lines_to_str(lines.clone());
    assert_eq!(str_to_lines(&text).unwrap(), lines);
}

#[test]
fn button_names() {
    assert_eq!(button_to_str(&Button::Forward), "forward");
    assert_eq!(button_to_str(&Button::ForwardLeft), "forward left");
    assert_eq!(button_to_str(&Button::BackRight), "back right");
    assert_eq!(button_to_str(&Button::Right), "right");
}

#[test]
fn empty_framebulk_has_frame_time_and_count() {
    let framebulk = empty_framebulk("0.004", 3);
    assert_eq!(framebulk.frame_time, "0.004");
    assert_eq!(framebulk.frame_count.get(), 3);
    assert!(framebulk.auto_actions.movement.is_none());
    assert!(framebulk.console_command.is_none());
    assert!(framebulk.pitch.is_none());
}

#[test]
fn raw_hltas_from_script() {
    let mut properties = empty_properties();
    properties.demo = Some("bhop".to_string());
    properties.frametime_0ms = Some("0.0000001".to_string());
    properties.seeds = Some(Seeds { shared: 7, non_shared: -3 });
    properties.hlstrafe_version = Some(3);
    let script = Script { properties, lines: parsed_script_lines(SCRIPT_TEXT) };
    let raw = RawHLTAS::from_hltas(&script);
    assert_eq!(raw.demo, "bhop");
    assert_eq!(raw.save, "");
    assert_eq!(raw.frametime_0ms, "0.0000001");
    assert_eq!(raw.shared_rng, Some(7));
    assert_eq!(raw.non_shared_rng, Some(-3));
    assert_eq!(raw.hlstrafe_version, "3");
    assert_eq!(raw.load_command, "");
    assert_eq!(
        raw.lines,
        vec!["", "----------|------|------|0.001|-|-|1|sensitivity 0", "----------|------|------|0.001|-|-|5"]
    );
}

#[test]
fn raw_hltas_to_script() {
    let raw = RawHLTAS {
        demo: "d".to_string(),
        save: String::new(),
        frametime_0ms: String::new(),
        shared_rng: Some(1),
        non_shared_rng: None,
        hlstrafe_version: "2".to_string(),
        load_command: "echo hi".to_string(),
        lines: vec!["----------|------|------|0.001|-|-|5".to_string()],
    };
    let script = raw.to_hltas();
    assert_eq!(script.properties.demo, Some("d".to_string()));
    assert_eq!(script.properties.save, None);
    assert_eq!(script.properties.frametime_0ms, None);
    assert_eq!(script.properties.seeds, None);
    assert_eq!(script.properties.hlstrafe_version, Some(2));
    assert_eq!(script.properties.load_command, Some("echo hi".to_string()));
    assert_eq!(script.lines, parsed_script_lines("version 1\nframes\n----------|------|------|0.001|-|-|5"));
}

#[test]
fn raw_hltas_bad_lines_and_version() {
    let raw = RawHLTAS {
        demo: String::new(),
        save: String::new(),
        frametime_0ms: String::new(),
        shared_rng: Some(1),
        non_shared_rng: Some(2),
        hlstrafe_version: "zero".to_string(),
        load_command: String::new(),
        lines: vec!["not a line".to_string()],
    };
    let script = raw.to_hltas();
    assert_eq!(script.properties.seeds, Some(Seeds { shared: 1, non_shared: 2 }));
    assert_eq!(script.properties.hlstrafe_version, None);
    assert!(script.lines.is_empty());
}

#[test]
fn raw_hltas_properties_round_trip() {
    let mut properties = empty_properties();
    properties.save = Some("s1".to_string());
    properties.seeds = Some(Seeds { shared: 4, non_shared: 5 });
    properties.hlstrafe_version = Some(12);
    let script = Script { properties, lines: Vec::new() };
    let back = RawHLTAS::from_hltas(&script).to_hltas();
    assert_eq!(back.properties.save, Some("s1".to_string()));
    assert_eq!(back.properties.demo, None);
    assert_eq!(back.properties.seeds, Some(Seeds { shared: 4, non_shared: 5 }));
    assert_eq!(back.properties.hlstrafe_version, Some(12));
    assert!(back.lines.is_empty());
}

#[test]
fn join_lines_puts_breaks_between() {
    assert_eq!(join_lines(&vec!["a".to_string(), "b".to_string(), "c".to_string()]), "a\nb\nc");
    assert_eq!(join_lines(&Vec::new()), "");
}

#[test]
fn raw_tab_opens_and_edits() {
    let tab = raw_tab::HLTASFileTab::open_path("dir/run.hltas", SCRIPT_TEXT).unwrap();
    assert_eq!(tab.title, "run.hltas");
    assert_eq!(tab.path, Some("dir/run.hltas".to_string()));
    assert_eq!(tab.get_raw_content(), SCRIPT_TEXT);
    assert_eq!(tab.get_raw_hltas().demo, "bhop");
    assert_eq!(tab.hltas().lines.len(), 2);
    assert!(!tab.got_modified);
    assert!(raw_tab::HLTASFileTab::open_path("dir/run.hltas", "nonsense").is_err());
}

#[test]
fn raw_tab_new_file_and_raw_edit() {
    let mut tab = raw_tab::HLTASFileTab::new_file("New File".to_string());
    assert_eq!(tab.title, "New File");
    assert_eq!(tab.get_raw_content(), "version 1\nframes\n");
    tab.raw_hltas_mut().demo = "x".to_string();
    let raw = RawHLTAS {
        demo: tab.get_raw_hltas().demo.clone(),
        save: String::new(),
        frametime_0ms: String::new(),
        shared_rng: None,
        non_shared_rng: None,
        hlstrafe_version: String::new(),
        load_command: String::new(),
        lines: Vec::new(),
    };
    tab.set_hltas_from_raw_hltas(&raw);
    assert_eq!(tab.hltas().properties.demo, Some("x".to_string()));
    assert_eq!(raw_tab::HLTASFileTab::title_from_path("a/b.hltas", "t".to_string()), "b.hltas");
    assert_eq!(raw_tab::HLTASFileTab::title_from_path("/", "t".to_string()), "t");
}

#[test]
fn raw_tab_open_needs_a_file_name() {
    assert!(raw_tab::HLTASFileTab::try_open_path("/", SCRIPT_TEXT).is_none());
    let tab = raw_tab::HLTASFileTab::try_open_path("x.hltas", SCRIPT_TEXT).unwrap().unwrap();
    assert_eq!(tab.title, "x.hltas");
    assert!(raw_tab::HLTASFileTab::try_open_path("x.hltas", "bad").unwrap().is_err());
}

#[test]
fn raw_tab_open_fills_every_text_field() {
    let tab = raw_tab::HLTASFileTab::try_open_path("x.hltas", SCRIPT_TEXT).unwrap().unwrap();
    let raw = tab.get_raw_hltas();
    assert_eq!(raw.demo, "bhop");
    assert_eq!(raw.save, "");
    assert_eq!(raw.frametime_0ms, "0.0000001");
    assert_eq!(raw.shared_rng, None);
    assert_eq!(raw.non_shared_rng, None);
    assert_eq!(raw.hlstrafe_version, "1");
    assert_eq!(raw.load_command, "");
    assert_eq!(
        raw.lines,
        vec!["", "----------|------|------|0.001|-|-|1|sensitivity 0", "----------|------|------|0.001|-|-|5"]
    );
}
