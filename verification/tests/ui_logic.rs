use lazyjj::env::{Color, Config, DiffFormat, JJLayout, JjConfig, JjConfigGit, JjConfigUi, JjConfigUiDiff};
use lazyjj::app::{app_key_action, popup_closed_by, tab_for_digit, AppKeyAction, Tab};
use lazyjj::commander::bookmarks::{Bookmark, BookmarkLine};
use lazyjj::commander::files::File;
use lazyjj::commander::ids::{ChangeId, CommitId};
use lazyjj::commander::log::{Head, LogOutput};
use lazyjj::commander::CommandError;
use lazyjj::event::{switch_enabled, Arrival, WaitState};
use lazyjj::keybinds::rebase_popup::{CutOption, PasteOption};
use lazyjj::keybinds::{KeyCode, KeyEvent, KeyEventKind, KeyModifiers, LogTabEvent};
use lazyjj::ui::bookmarks_tab::{
    bookmark_sel, confirmed_by, entered_text, find_bookmark_named, get_current_bookmark_index,
    name_entry_action, ref_tab_key_action, scroll_bookmarks, update_hint_needed, Confirmed, RefSel,
    RefTabAction,
    TextEntryKey,
};
use lazyjj::ui::branches::branches_key_action;
use lazyjj::ui::command_log_tab::{
    command_log_key_action, history_entry, output_parts, scroll_commands, CommandLogAction,
    OutputPart,
};
use lazyjj::ui::command_popup::{command_arguments, command_message, prepare_command, CommandRequest};
use lazyjj::ui::details_panel::{DetailsPanel, DetailsPanelEvent};
use lazyjj::ui::files_tab::{files_key_action, get_current_file_index, scroll_files, FilesAction};
use lazyjj::ui::help_popup::HelpPopup;
use lazyjj::ui::log::{older_log_key, OlderLogRoute};
use lazyjj::ui::log_tab::{
    command_outcome, handle_event, log_confirmed_by, route_key, squash_step, CommandOutcome,
    LogConfirmed, LogKeyRoute, LogTabStep, Refusal,
};
use lazyjj::ui::panel::details_panel::DetailsPanel as FramedPanel;
use lazyjj::ui::panel::log_panel::{
    get_head_index, head_at_log_line, highlighted_lines, list_item_from_mouse_event, mouse_action,
    panel_scroll_amount, scroll_relative, selected_log_line, visible_heads, MouseKind, MouseStep,
};
use lazyjj::ui::rebase_popup::{center_rect, RebaseInput, RebasePopup, POPUP_HEIGHT, POPUP_WIDTH};
use lazyjj::ui::scrollbar::{Orientation, Scrollbar};
use lazyjj::ui::utils::{centered_rect, Rect};

fn press(code: KeyCode) -> KeyEvent {
    KeyEvent::new(code, KeyModifiers::empty())
}

fn ctrl(c: char) -> KeyEvent {
    KeyEvent::new(KeyCode::Char(c), KeyModifiers::control())
}

fn head(change: &str, commit: &str, immutable: bool) -> Head {
    Head {
        change_id: ChangeId(change.to_owned()),
        commit_id: CommitId(commit.to_owned()),
        divergent: false,
        immutable,
    }
}

fn parsed(name: &str, remote: Option<&str>, present: bool) -> BookmarkLine {
    BookmarkLine::Parsed {
        text: name.to_owned(),
        bookmark: Bookmark {
            name: name.to_owned(),
            remote: remote.map(|r| r.to_owned()),
            present,
        },
    }
}

#[test]
fn details_panel_scrolls_within_text() {
    let mut p = DetailsPanel::new();
    assert_eq!(p.fit(10, 30), 0);
    p.handle_event(DetailsPanelEvent::ScrollDown);
    assert_eq!(p.scroll, 1);
    p.handle_event(DetailsPanelEvent::ScrollDownPage);
    assert_eq!(p.scroll, 11);
    p.handle_event(DetailsPanelEvent::ScrollDownHalfPage);
    assert_eq!(p.scroll, 16);
    p.handle_event(DetailsPanelEvent::ScrollDownRows(100));
    assert_eq!(p.scroll, 29);
    p.handle_event(DetailsPanelEvent::ScrollUpRows(5));
    assert_eq!(p.scroll, 24);
    p.handle_event(DetailsPanelEvent::ScrollUpPage);
    assert_eq!(p.scroll, 14);
    p.scroll(-100);
    assert_eq!(p.scroll, 0);
    // a row count is cut to 16 bits, as the panel does
    p.scroll(65536 + 3);
    assert_eq!(p.scroll, 3);
    assert!(p.is_wrapping());
    p.handle_event(DetailsPanelEvent::ToggleWrap);
    assert!(!p.is_wrapping());
    assert_eq!(p.fit(10, 2), 1);
}

#[test]
fn details_panel_keys() {
    let mut p = DetailsPanel::new();
    p.fit(6, 20);
    assert!(p.input(ctrl('e')));
    assert_eq!(p.scroll, 1);
    assert!(p.input(ctrl('d')));
    assert_eq!(p.scroll, 4);
    assert!(p.input(ctrl('y')));
    assert_eq!(p.scroll, 3);
    assert!(!p.input(press(KeyCode::Char('e'))));
    assert!(p.input(press(KeyCode::Char('W'))));
    assert!(!p.is_wrapping());
}

#[test]
fn framed_panel_clamps_even_without_text() {
    let mut p = FramedPanel::new();
    p.scroll(5);
    assert_eq!(p.scroll_position(), 0);
    p.fit(4, 10);
    p.scroll_to(20);
    assert_eq!(p.scroll_position(), 9);
    p.handle_event(lazyjj::ui::panel::details_panel::DetailsPanelEvent::ScrollUpHalfPage);
    assert_eq!(p.scroll_position(), 7);
    assert!(p.input(ctrl('b')));
    assert_eq!(p.scroll_position(), 3);
    assert_eq!(p.lines(), 10);
}

#[test]
fn help_popup_scrolls_with_longer_list() {
    let row = |a: &str| (a.to_owned(), "x".to_owned());
    let mut h = HelpPopup::new(vec![row("a"), row("b"), row("c"), row("d")], vec![row("e")]);
    h.set_height(2);
    assert!(h.input(press(KeyCode::Char('j'))));
    assert!(h.input(press(KeyCode::Char('j'))));
    assert!(h.input(press(KeyCode::Char('j'))));
    assert_eq!(h.scroll_position(), 2);
    assert!(h.input(press(KeyCode::Char('k'))));
    assert_eq!(h.scroll_position(), 1);
    assert!(!h.input(press(KeyCode::Char('x'))));
    let release = KeyEvent { code: KeyCode::Char('j'), modifiers: KeyModifiers::empty(), kind: KeyEventKind::Release };
    assert!(!h.input(release));
    assert_eq!(h.scroll_position(), 1);
}

#[test]
fn scrollbar_keeps_fitting_numbers() {
    let s = Scrollbar::new(100, 7, Orientation::Vertical);
    assert_eq!((s.max, s.pos), (100, 7));
    let big = Scrollbar::new(70000, 5, Orientation::Horizontal);
    assert_eq!((big.max, big.pos), (0, 5));
}

#[test]
fn tabs_cycle_and_digits() {
    assert_eq!(Tab::Log.next(), Tab::Files);
    assert_eq!(Tab::CommandLog.next(), Tab::Log);
    assert_eq!(Tab::Log.prev(), Tab::CommandLog);
    for t in Tab::values() {
        assert_eq!(t.next().prev(), t);
        assert_eq!(t.next().next().next().next(), t);
    }
    assert_eq!(tab_for_digit('3'), Some(Tab::Bookmarks));
    assert_eq!(tab_for_digit('5'), None);
    assert_eq!(Tab::CommandLog.to_string(), "Command Log");
    assert_eq!(Tab::Bookmarks.index(), 2);
}

#[test]
fn app_keys() {
    assert_eq!(app_key_action(press(KeyCode::Char('q'))), AppKeyAction::Quit);
    assert_eq!(app_key_action(ctrl('c')), AppKeyAction::Quit);
    assert_eq!(app_key_action(press(KeyCode::Esc)), AppKeyAction::Quit);
    assert_eq!(app_key_action(press(KeyCode::Char('l'))), AppKeyAction::NextTab);
    assert_eq!(app_key_action(press(KeyCode::Char('h'))), AppKeyAction::PrevTab);
    assert_eq!(app_key_action(press(KeyCode::Char('2'))), AppKeyAction::SetTab(Tab::Files));
    assert_eq!(app_key_action(press(KeyCode::Char(':'))), AppKeyAction::OpenCommandPopup);
    assert_eq!(app_key_action(press(KeyCode::Char('c'))), AppKeyAction::Ignore);
    assert!(popup_closed_by(press(KeyCode::Enter)));
    assert!(!popup_closed_by(press(KeyCode::Char('x'))));
}

#[test]
fn bookmark_selection_follows_name_and_remote() {
    let list = vec![
        parsed("a", None, true),
        parsed("b", Some("origin"), true),
        BookmarkLine::Unparsable("???".to_owned()),
        parsed("b", None, true),
    ];
    let output: Result<Vec<BookmarkLine>, CommandError> = Ok(list);
    let sel = parsed("b", None, false);
    assert_eq!(get_current_bookmark_index(Some(&sel), &output), Some(3));
    let odd = BookmarkLine::Unparsable("???".to_owned());
    assert_eq!(get_current_bookmark_index(Some(&odd), &output), Some(2));
    assert_eq!(get_current_bookmark_index(None, &output), None);
    assert_eq!(scroll_bookmarks(Some(&sel), &output, -2), Some(1));
    assert_eq!(scroll_bookmarks(None, &output, 5), Some(0));
    let missing = parsed("zzz", None, true);
    assert_eq!(scroll_bookmarks(Some(&missing), &output, 2), Some(0));
    let err: Result<Vec<BookmarkLine>, CommandError> = Err(CommandError::Output("x".to_owned()));
    assert_eq!(scroll_bookmarks(Some(&sel), &err, 1), None);
    if let Ok(l) = &output {
        assert_eq!(find_bookmark_named(l, &"b".to_owned()), Some(1));
        assert_eq!(find_bookmark_named(l, &"q".to_owned()), None);
    }
}

#[test]
fn bookmarks_tab_keys() {
    let sel = parsed("main", Some("origin"), true);
    let s = bookmark_sel(Some(&sel));
    assert_eq!(s, RefSel::Parsed { has_remote: true, present: true });
    assert_eq!(ref_tab_key_action(press(KeyCode::Char('j')), s, 10, false), RefTabAction::Scroll(1));
    assert_eq!(ref_tab_key_action(press(KeyCode::Char('K')), s, 10, false), RefTabAction::Scroll(-5));
    assert_eq!(ref_tab_key_action(press(KeyCode::Char('t')), s, 10, false), RefTabAction::Track);
    assert_eq!(
        ref_tab_key_action(press(KeyCode::Char('N')), s, 10, false),
        RefTabAction::ConfirmNew { describe: true }
    );
    assert_eq!(ref_tab_key_action(ctrl('e'), s, 10, false), RefTabAction::Panel);
    assert_eq!(ref_tab_key_action(press(KeyCode::Esc), s, 10, true), RefTabAction::ClosePopup);
    assert_eq!(ref_tab_key_action(press(KeyCode::Char('y')), s, 10, true), RefTabAction::PopupKey);
    assert_eq!(ref_tab_key_action(press(KeyCode::Char('z')), s, 10, false), RefTabAction::NotHandled);
    let local = bookmark_sel(Some(&parsed("x", None, true)));
    assert_eq!(ref_tab_key_action(press(KeyCode::Char('t')), local, 10, false), RefTabAction::Nothing);
    assert_eq!(ref_tab_key_action(press(KeyCode::Char('r')), RefSel::Nothing, 10, false), RefTabAction::Nothing);
    assert_eq!(
        branches_key_action(press(KeyCode::Char('p')), local, 10, false, false, false),
        RefTabAction::ToggleDiffFormat
    );
    assert_eq!(
        branches_key_action(press(KeyCode::Char('x')), local, 10, false, true, true),
        RefTabAction::CloseMessage
    );
}

#[test]
fn name_entry_and_confirmation() {
    assert_eq!(name_entry_action(press(KeyCode::Enter)), TextEntryKey::Submit);
    assert_eq!(name_entry_action(ctrl('s')), TextEntryKey::Submit);
    assert_eq!(name_entry_action(press(KeyCode::Esc)), TextEntryKey::Cancel);
    assert_eq!(name_entry_action(press(KeyCode::Char('s'))), TextEntryKey::Type);
    assert_eq!(entered_text(&vec!["  ".to_owned(), "\t".to_owned()], "\n"), None);
    assert_eq!(
        entered_text(&vec!["new".to_owned(), "name".to_owned()], "\n"),
        Some("new\nname".to_owned())
    );
    assert_eq!(confirmed_by(1, Some(true)), Confirmed::Delete);
    assert_eq!(confirmed_by(4, Some(true)), Confirmed::Edit);
    assert_eq!(confirmed_by(1, Some(false)), Confirmed::Nothing);
    assert_eq!(confirmed_by(3, None), Confirmed::Nothing);
}

#[test]
fn log_tab_steps() {
    let mutable = head("aaa", "111", false);
    let frozen = head("bbb", "222", true);
    assert_eq!(handle_event(LogTabEvent::Abandon, &mutable), LogTabStep::ConfirmAbandon);
    assert_eq!(
        handle_event(LogTabEvent::Abandon, &frozen),
        LogTabStep::Refuse(Refusal::AbandonImmutable)
    );
    assert_eq!(
        handle_event(LogTabEvent::EditChange { ignore_immutable: true }, &frozen),
        LogTabStep::ConfirmEdit { ignore_immutable: true }
    );
    assert_eq!(handle_event(LogTabEvent::Save, &mutable), LogTabStep::NotHandled);
    assert_eq!(
        squash_step(&mutable, &ChangeId("aaa".to_owned()), false),
        LogTabStep::Refuse(Refusal::SquashOntoCurrent)
    );
    assert_eq!(
        squash_step(&frozen, &ChangeId("aaa".to_owned()), false),
        LogTabStep::Refuse(Refusal::SquashImmutable)
    );
    assert_eq!(
        squash_step(&frozen, &ChangeId("aaa".to_owned()), true),
        LogTabStep::ConfirmSquash { ignore_immutable: true }
    );
    assert_eq!(command_outcome(&Ok("pushed".to_owned())), CommandOutcome::Message);
    assert_eq!(command_outcome(&Ok(String::new())), CommandOutcome::Done);
    assert_eq!(command_outcome(&Err(CommandError::Output("e".to_owned()))), CommandOutcome::Error);
    assert_eq!(log_confirmed_by(3, Some(true)), LogConfirmed::Abandon);
    assert_eq!(log_confirmed_by(9, Some(true)), LogConfirmed::Nothing);
    assert_eq!(
        route_key(press(KeyCode::Char('q')), true, LogTabEvent::ClosePopup),
        LogKeyRoute::ClosePopup
    );
    assert_eq!(route_key(ctrl('f'), false, LogTabEvent::Unbound), LogKeyRoute::Panel);
    assert_eq!(
        route_key(press(KeyCode::Char('a')), false, LogTabEvent::Abandon),
        LogKeyRoute::Event(LogTabEvent::Abandon)
    );
    assert_eq!(
        older_log_key(press(KeyCode::Char('@')), false, false, false),
        OlderLogRoute::Event(LogTabEvent::FocusCurrent)
    );
    assert_eq!(older_log_key(press(KeyCode::Char('x')), false, true, false), OlderLogRoute::Nothing);
}

fn sample_log() -> Result<LogOutput, CommandError> {
    Ok(LogOutput {
        graph: String::new(),
        graph_heads: vec![
            Some(head("aaa", "111", false)),
            None,
            Some(head("bbb", "222", false)),
            None,
            Some(head("ccc", "333", true)),
        ],
        heads: vec![head("aaa", "111", false), head("bbb", "222", false), head("ccc", "333", true)],
    })
}

#[test]
fn log_panel_selection() {
    let log = sample_log();
    let b = head("bbb", "222", false);
    assert_eq!(get_head_index(&b, &log), Some(1));
    // same change, other commit: found by change id
    assert_eq!(get_head_index(&head("ccc", "999", false), &log), Some(2));
    assert_eq!(get_head_index(&head("zzz", "999", false), &log), None);
    assert_eq!(selected_log_line(&b, &log), Some(2));
    assert!(head_at_log_line(&log, 4).unwrap().same_as(&head("ccc", "333", true)));
    assert!(head_at_log_line(&log, 1).is_none());
    assert!(head_at_log_line(&log, 9).is_none());
    assert!(scroll_relative(&b, &log, 1).unwrap().same_as(&head("ccc", "333", true)));
    assert!(scroll_relative(&b, &log, -7).unwrap().same_as(&head("aaa", "111", false)));
    assert!(scroll_relative(&head("zzz", "9", false), &log, 2).unwrap().same_as(&head("aaa", "111", false)));
    assert_eq!(visible_heads(21), 10);
    assert_eq!(panel_scroll_amount(LogTabEvent::ScrollDownHalf, 21), Some(5));
    assert_eq!(panel_scroll_amount(LogTabEvent::ScrollUpHalf, 21), Some(-5));
    assert_eq!(panel_scroll_amount(LogTabEvent::Refresh, 21), None);
}

#[test]
fn log_panel_highlights_selected_lines() {
    let log = sample_log();
    assert_eq!(highlighted_lines(&head("bbb", "222", false), &log), vec![false, false, true, false, false]);
    // another commit of the same change is not highlighted
    assert_eq!(highlighted_lines(&head("ccc", "999", true), &log), vec![false; 5]);
    let failed: Result<LogOutput, CommandError> = Err(CommandError::Output(String::from("no jj")));
    assert!(highlighted_lines(&head("aaa", "111", false), &failed).is_empty());
}

#[test]
fn log_panel_mouse() {
    let rect = Rect { x: 1, y: 1, width: 20, height: 5 };
    assert_eq!(list_item_from_mouse_event(10, rect, 3, 4, 2), Some(4));
    assert_eq!(list_item_from_mouse_event(5, rect, 3, 4, 4), None);
    assert_eq!(list_item_from_mouse_event(10, rect, 3, 30, 2), None);
    assert_eq!(mouse_action(rect, 2, 2, MouseKind::ScrollDown), MouseStep::Scroll(LogTabEvent::ScrollDown));
    assert_eq!(mouse_action(rect, 2, 2, MouseKind::ButtonUp), MouseStep::SelectClicked);
    assert_eq!(mouse_action(rect, 0, 0, MouseKind::ScrollDown), MouseStep::NotHandled);
}

#[test]
fn files_tab_selection_and_keys() {
    let files = vec![
        File { line: "A a".to_owned(), path: Some("a".to_owned()), diff_type: None },
        File { line: "??".to_owned(), path: None, diff_type: None },
        File { line: "M c".to_owned(), path: Some("c".to_owned()), diff_type: None },
    ];
    let out: Result<Vec<File>, CommandError> = Ok(files);
    let c = "c".to_owned();
    assert_eq!(get_current_file_index(Some(&c), &out), Some(2));
    assert_eq!(scroll_files(Some(&c), &out, -2), Some("a".to_owned()));
    assert_eq!(scroll_files(Some(&c), &out, -1), None);
    assert_eq!(files_key_action(press(KeyCode::Char('J')), 9), FilesAction::Scroll(4));
    assert_eq!(files_key_action(press(KeyCode::Char('@')), 9), FilesAction::FocusCurrent);
    assert_eq!(files_key_action(press(KeyCode::Char('x')), 9), FilesAction::NotHandled);
}

#[test]
fn command_popup_reads_typed_command() {
    assert_eq!(command_arguments("jj"), "");
    assert_eq!(command_arguments("jj jj log -r @"), "log -r @");
    assert_eq!(command_arguments("status"), "status");
    match prepare_command(&vec!["jj log".to_owned(), "-r 'a b'".to_owned()]) {
        CommandRequest::Run { input, words } => {
            assert_eq!(input, "log -r 'a b'");
            assert_eq!(words, vec!["log".to_owned(), "-r".to_owned(), "a b".to_owned()]);
        }
        _ => panic!("expected a command to run"),
    }
    assert!(matches!(prepare_command(&vec!["   ".to_owned()]), CommandRequest::Close));
    assert!(matches!(
        prepare_command(&vec!["log 'open".to_owned()]),
        CommandRequest::Unsplittable { .. }
    ));
    assert_eq!(command_message("log", Ok("out".to_owned())), "out");
    assert_eq!(
        command_message("log", Err("boom".to_owned())),
        "Failed to execute jj command: jj log\n\nboom"
    );
}

#[test]
fn command_log_tab() {
    assert_eq!(scroll_commands(Some(2), 1, 5), 3);
    assert_eq!(scroll_commands(Some(2), 10, 5), 4);
    assert_eq!(scroll_commands(Some(2), isize::MIN, 5), 0);
    assert_eq!(scroll_commands(None, 3, 5), 0);
    assert_eq!(history_entry(0, 3), Some(2));
    assert_eq!(history_entry(3, 3), None);
    assert_eq!(command_log_key_action(press(KeyCode::Char('@')), 8), CommandLogAction::Scroll(isize::MIN));
    assert_eq!(
        output_parts(true, true),
        vec![OutputPart::Summary, OutputPart::Output, OutputPart::Gap, OutputPart::ErrorOutput]
    );
    assert_eq!(output_parts(false, false), vec![OutputPart::Summary, OutputPart::NoOutput]);
}

#[test]
fn rebase_popup_configures_and_runs() {
    let mut p = RebasePopup::new(CommitId("src".to_owned()), CommitId("dst".to_owned()));
    assert_eq!(p.selected_rows(), (2, 0));
    assert_eq!(p.handle_input(press(KeyCode::Char('s'))), RebaseInput::Stay);
    assert_eq!(p.source_mode, CutOption::IncludeDescendants);
    let shift_a = KeyEvent::new(KeyCode::Char('A'), KeyModifiers::shift());
    assert_eq!(p.handle_input(shift_a), RebaseInput::Stay);
    assert_eq!(p.target_mode, PasteOption::InsertAfter);
    assert_eq!(
        p.rebase_args(),
        vec!["rebase".to_owned(), "-s".to_owned(), "src".to_owned(), "-A".to_owned(), "dst".to_owned()]
    );
    assert_eq!(p.handle_input(press(KeyCode::Enter)), RebaseInput::Run);
    assert_eq!(p.handle_input(press(KeyCode::Esc)), RebaseInput::Close);
}

#[test]
fn event_waits_and_debounce() {
    let mut w = WaitState::new();
    assert_eq!(w.timeout_ms(), 0);
    w.finish(false);
    assert_eq!(w.timeout_ms(), 1000);
    assert!(!w.keeps(Arrival::RepoChanged, 100_000_000));
    assert!(w.keeps(Arrival::RepoChanged, 300_000_000));
    assert!(w.keeps(Arrival::Input, 0));
    w.finish(true);
    assert!(!w.was_idle);
    assert!(switch_enabled(Some("1")));
    assert!(switch_enabled(Some("TrUe")));
    assert!(!switch_enabled(Some("yes")));
    assert!(!switch_enabled(None));
}

#[test]
fn centered_rect_uses_middle_part() {
    let area = Rect { x: 0, y: 0, width: 100, height: 50 };
    let r = centered_rect(area, 60, 60);
    assert_eq!(r, Rect { x: 20, y: 10, width: 60, height: 30 });
}

#[test]
fn rebase_popup_is_centered() {
    let outside = Rect { x: 2, y: 1, width: 80, height: 24 };
    let r = center_rect(outside, POPUP_WIDTH, POPUP_HEIGHT);
    assert_eq!(r, Rect { x: 26, y: 7, width: 32, height: 12 });
    let tight = center_rect(Rect { x: 0, y: 0, width: 33, height: 12 }, 32, 12);
    assert_eq!(tight, Rect { x: 0, y: 0, width: 32, height: 12 });
}

#[test]
fn config_defaults_and_fallbacks() {
    let c = Config::default();
    assert_eq!(c.highlight_color(), Color::Rgb(0x32, 0x32, 0x64));
    assert_eq!(c.diff_format(), DiffFormat::ColorWords);
    assert_eq!(c.bookmark_prefix(), "push-");
    assert_eq!(c.layout(), JJLayout::Horizontal);
    assert_eq!(c.layout_percent(), 50);
    let jj = JjConfig {
        lazyjj: None,
        ui: Some(JjConfigUi { diff: Some(JjConfigUiDiff { format: Some(DiffFormat::Git), tool: None }) }),
        git: Some(JjConfigGit { push_bookmark_prefix: Some("me/".to_owned()) }),
    };
    let c = Config::from_jj_config(jj);
    assert_eq!(c.diff_format(), DiffFormat::Git);
    assert_eq!(c.bookmark_prefix(), "me/");
    let with_tool = JjConfig {
        lazyjj: None,
        ui: Some(JjConfigUi { diff: Some(JjConfigUiDiff { format: None, tool: Some(()) }) }),
        git: None,
    };
    assert_eq!(Config::from_jj_config(with_tool).diff_format(), DiffFormat::DiffTool);
}

#[test]
fn old_jj_gets_update_hint() {
    let old = CommandError::Status(
        "error: unexpected argument '-T' found\n\nUsage: jj branch list".to_owned(),
        Some(2),
    );
    assert!(update_hint_needed(&old));
    assert!(!update_hint_needed(&CommandError::Status("error: no such revision".to_owned(), Some(1))));
    assert!(!update_hint_needed(&CommandError::Output("unexpected argument '-T' found".to_owned())));
}
