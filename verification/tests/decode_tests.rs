use tmux_project::command_list::CommandList;
use tmux_project::errors::DecodeError;
use tmux_project::errors::ValidationError;
use tmux_project::project::decode;
use tmux_project::project::Config;
use tmux_project::project::Project;
use tmux_project::project::RawProject;
use tmux_project::project::RawWindows;
use tmux_project::startup_window::ProjectTemplate;
use tmux_project::startup_window::StartupWindow;
use tmux_project::window::Window;

fn raw_empty() -> RawProject {
    RawProject {
        session_name: None,
        tmux_command: None,
        tmux_options: None,
        tmux_socket: None,
        working_dir: None,
        window_base_index: None,
        pane_base_index: None,
        startup_window: StartupWindow::Unset,
        startup_pane: None,
        on_start: CommandList::Absent,
        on_first_start: CommandList::Absent,
        on_restart: CommandList::Absent,
        on_exit: CommandList::Absent,
        on_stop: CommandList::Absent,
        on_create: CommandList::Absent,
        post_create: CommandList::Absent,
        on_pane_create: CommandList::Absent,
        post_pane_create: CommandList::Absent,
        pane_commands: CommandList::Absent,
        attach: None,
        detached: None,
        template: ProjectTemplate::Default,
        windows: RawWindows::Absent,
    }
}

fn named_window(name: &str) -> Window {
    Window {
        name: Some(name.to_string()),
    }
}

#[test]
fn decode_absent_document_yields_defaults() {
    let p = decode(None).unwrap();
    assert_eq!(p.session_name, None);
    assert_eq!(p.tmux_command, None);
    assert_eq!(p.window_base_index, 1);
    assert_eq!(p.pane_base_index, 1);
    assert!(p.attach);
    assert!(matches!(p.startup_window, StartupWindow::Unset));
    assert_eq!(p.windows.len(), 1);
    assert_eq!(p.windows[0].name, None);
    assert!(p.on_start.is_empty());
}

#[test]
fn decode_omitted_windows_yields_one_window() {
    let p = decode(Some(raw_empty())).unwrap();
    assert_eq!(p.windows.len(), 1);
    assert_eq!(p.windows[0].name, None);
}

#[test]
fn decode_empty_window_list_yields_one_window() {
    let mut d = raw_empty();
    d.windows = RawWindows::Many(vec![]);
    let p = decode(Some(d)).unwrap();
    assert_eq!(p.windows.len(), 1);
    assert_eq!(p.windows[0].name, None);
}

#[test]
fn decode_null_windows_yields_one_window() {
    let mut d = raw_empty();
    d.windows = RawWindows::Empty;
    let p = decode(Some(d)).unwrap();
    assert_eq!(p.windows.len(), 1);
}

#[test]
fn decode_single_window_becomes_singleton_list() {
    let mut d = raw_empty();
    d.windows = RawWindows::Single(named_window("editor"));
    let p = decode(Some(d)).unwrap();
    assert_eq!(p.windows.len(), 1);
    assert_eq!(p.windows[0].name.as_deref(), Some("editor"));
}

#[test]
fn decode_window_list_kept_in_order() {
    let mut d = raw_empty();
    d.windows = RawWindows::Many(vec![named_window("one"), named_window("two")]);
    let p = decode(Some(d)).unwrap();
    assert_eq!(p.windows.len(), 2);
    assert_eq!(p.windows[0].name.as_deref(), Some("one"));
    assert_eq!(p.windows[1].name.as_deref(), Some("two"));
}

#[test]
fn decode_attach_and_detached_conflict() {
    for (a, det) in [(true, false), (false, true), (true, true), (false, false)] {
        let mut d = raw_empty();
        d.attach = Some(a);
        d.detached = Some(det);
        let r = decode(Some(d));
        assert!(matches!(r, Err(DecodeError::AttachAndDetached)));
    }
}

#[test]
fn decode_detached_negates_into_attach() {
    let mut d = raw_empty();
    d.detached = Some(true);
    assert!(!decode(Some(d)).unwrap().attach);

    let mut d2 = raw_empty();
    d2.detached = Some(false);
    assert!(decode(Some(d2)).unwrap().attach);
}

#[test]
fn decode_attach_alone_is_used_directly() {
    let mut d = raw_empty();
    d.attach = Some(false);
    assert!(!decode(Some(d)).unwrap().attach);
}

#[test]
fn decode_hook_string_equals_singleton_list() {
    let mut d = raw_empty();
    d.on_start = CommandList::Single("echo hi".to_string());
    let p = decode(Some(d)).unwrap();

    let mut d2 = raw_empty();
    d2.on_start = CommandList::Many(vec!["echo hi".to_string()]);
    let p2 = decode(Some(d2)).unwrap();

    assert_eq!(p.on_start, vec!["echo hi".to_string()]);
    assert_eq!(p.on_start, p2.on_start);
}

#[test]
fn decode_base_index_overrides() {
    let mut d = raw_empty();
    d.window_base_index = Some(0);
    d.pane_base_index = Some(7);
    let p = decode(Some(d)).unwrap();
    assert_eq!(p.window_base_index, 0);
    assert_eq!(p.pane_base_index, 7);
}

#[test]
fn check_startup_index_against_base_and_count() {
    // base 1 with two windows: exactly indexes 1 and 2 resolve.
    for (index, ok) in [(0usize, false), (1, true), (2, true), (3, false)] {
        let mut d = raw_empty();
        d.windows = RawWindows::Many(vec![named_window("one"), named_window("two")]);
        d.startup_window = StartupWindow::Index(index);
        let p = decode(Some(d)).unwrap();
        let r = p.check();
        if ok {
            assert!(r.is_ok());
        } else {
            assert!(matches!(
                r,
                Err(ValidationError::StartupWindowIndexNotFound(i)) if i == index
            ));
        }
    }
}

#[test]
fn check_startup_window_by_name() {
    let mut d = raw_empty();
    d.windows = RawWindows::Many(vec![named_window("one"), named_window("two")]);
    d.startup_window = StartupWindow::Name("two".to_string());
    let p = decode(Some(d)).unwrap();
    assert!(p.check().is_ok());

    let mut d2 = raw_empty();
    d2.windows = RawWindows::Many(vec![named_window("one")]);
    d2.startup_window = StartupWindow::Name("missing".to_string());
    let p2 = decode(Some(d2)).unwrap();
    assert!(matches!(
        p2.check(),
        Err(ValidationError::StartupWindowNameNotFound(n)) if n == "missing"
    ));
}

#[test]
fn check_rejects_bad_session_names() {
    for bad in ["", "a.b", "a:b", "has\ttab"] {
        let mut d = raw_empty();
        d.session_name = Some(bad.to_string());
        let p = decode(Some(d)).unwrap();
        assert!(matches!(
            p.check(),
            Err(ValidationError::InvalidSessionName(_))
        ));
    }
    let mut d = raw_empty();
    d.session_name = Some("my-project 1".to_string());
    let p = decode(Some(d)).unwrap();
    assert!(p.check().is_ok());
}

#[test]
fn check_missing_working_dir_is_validation_not_decode() {
    let mut d = raw_empty();
    d.working_dir = Some("/this/path/does/not/exist".to_string());
    // Decoding never touches the filesystem, so it succeeds...
    let p = decode(Some(d)).unwrap();
    assert_eq!(p.working_dir.as_deref(), Some("/this/path/does/not/exist"));
    // ...and only validation reports the missing directory.
    assert!(matches!(
        p.check(),
        Err(ValidationError::WorkingDirNotFound(n)) if n == "/this/path/does/not/exist"
    ));
}

#[test]
fn check_existing_working_dir_passes() {
    let mut d = raw_empty();
    d.working_dir = Some("/".to_string());
    let p = decode(Some(d)).unwrap();
    assert!(p.check().is_ok());
}

#[test]
fn check_rejects_invalid_window_name() {
    let mut d = raw_empty();
    d.windows = RawWindows::Many(vec![named_window("fine"), named_window("not:fine")]);
    let p = decode(Some(d)).unwrap();
    assert!(matches!(
        p.check(),
        Err(ValidationError::InvalidWindowName(n)) if n == "not:fine"
    ));
}

#[test]
fn prepare_fills_name_and_command() {
    let p = decode(None).unwrap();
    let config = Config { tmux_command: None };
    let prepared = p.prepare(&config, "myproj", None);
    assert_eq!(prepared.session_name.as_deref(), Some("myproj"));
    assert_eq!(prepared.tmux_command.as_deref(), Some("tmux"));
    assert!(prepared.attach);
}

#[test]
fn prepare_keeps_existing_name_and_applies_overrides() {
    let mut d = raw_empty();
    d.session_name = Some("kept".to_string());
    d.tmux_command = Some("oldtmux".to_string());
    let p = decode(Some(d)).unwrap();
    let config = Config {
        tmux_command: Some("/usr/bin/tmux".to_string()),
    };
    let prepared = p.prepare(&config, "ignored", Some(false));
    assert_eq!(prepared.session_name.as_deref(), Some("kept"));
    assert_eq!(prepared.tmux_command.as_deref(), Some("/usr/bin/tmux"));
    assert!(!prepared.attach);
}

#[test]
fn prepare_keeps_project_command_without_override() {
    let mut d = raw_empty();
    d.tmux_command = Some("mytmux".to_string());
    let p = decode(Some(d)).unwrap();
    let config = Config { tmux_command: None };
    let prepared = p.prepare(&config, "x", None);
    assert_eq!(prepared.tmux_command.as_deref(), Some("mytmux"));
}

#[test]
fn default_project_matches_absent_decode() {
    let p = Project::default();
    assert_eq!(p.window_base_index, 1);
    assert_eq!(p.pane_base_index, 1);
    assert!(p.attach);
    assert_eq!(p.windows.len(), 1);
    assert!(matches!(p.template, ProjectTemplate::Default));
}
