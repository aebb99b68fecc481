use editor::{
    decimal_string, default_load_file, open_dialog_done, position_label, read_done,
    save_dialog_done, write_done, Appearance, Buffer, Editor, EditorError, Effect, Message,
};
use iced::highlighter::Theme;
use iced::widget::text_editor::{Action, Edit, Motion};
use std::io::ErrorKind;

fn loaded(path: &str, text: &str) -> Editor {
    let (mut e, _) = Editor::new("/tmp/project");
    let effect = e.update(Message::FileOpened(Ok((path.to_string(), text.to_string()))));
    assert!(matches!(effect, Effect::Nothing));
    e
}

#[test]
fn startup_state_and_load() {
    let (e, effect) = Editor::new("/tmp/project");
    assert!(e.path.is_none());
    assert!(e.error.is_none());
    assert_eq!(e.theme, Theme::SolarizedDark);
    assert_eq!(e.buffer.text(), "\n");
    match effect {
        Effect::Read { path } => assert_eq!(path, "/tmp/project/src/main.rs"),
        other => panic!("unexpected effect {:?}", other),
    }
    assert_eq!(e.title(), "This is a text editor.");
    assert_eq!(e.status_text(), "New File");
    assert!(!e.shows_path());
}

#[test]
fn default_file_location() {
    assert_eq!(default_load_file("/home/u/ed"), "/home/u/ed/src/main.rs");
    assert_eq!(default_load_file(""), "/src/main.rs");
}

#[test]
fn edits_replay_like_a_standalone_buffer() {
    let mut e = loaded("/tmp/a.txt", "ab\n");
    let mut standalone = Buffer::with_text("ab\n");
    let actions = vec![
        Action::Edit(Edit::Insert('x')),
        Action::Edit(Edit::Insert('y')),
        Action::Edit(Edit::Enter),
        Action::Edit(Edit::Backspace),
        Action::Edit(Edit::Insert('z')),
    ];
    for a in actions {
        let effect = e.update(Message::Edit(a.clone()));
        assert!(matches!(effect, Effect::Nothing));
        standalone.perform(a);
    }
    assert_eq!(e.buffer.text(), standalone.text());
    assert_eq!(e.buffer.text(), "xyzab\n");
    assert_eq!(e.buffer.cursor_position(), standalone.cursor_position());
    assert_eq!(e.buffer.cursor_position(), (0, 3));
    assert_eq!(e.path.as_deref(), Some("/tmp/a.txt"));
}

#[test]
fn new_clears_buffer_and_path() {
    let mut e = loaded("/tmp/a.txt", "some text\n");
    e.error = Some(EditorError::DialogClosed);
    let effect = e.update(Message::New);
    assert!(matches!(effect, Effect::Nothing));
    assert_eq!(e.buffer.text(), "\n");
    assert!(e.path.is_none());
    assert_eq!(e.error, Some(EditorError::DialogClosed));
}

#[test]
fn save_with_path_writes_there() {
    let mut e = loaded("/tmp/a.txt", "hello\n");
    match e.update(Message::Save) {
        Effect::Write { path, text } => {
            assert_eq!(path, "/tmp/a.txt");
            assert_eq!(text, "hello\n");
            let done = write_done(path, Ok(()));
            assert!(matches!(e.update(done), Effect::Nothing));
        }
        other => panic!("unexpected effect {:?}", other),
    }
    assert_eq!(e.path.as_deref(), Some("/tmp/a.txt"));
    assert!(e.shows_path());
    assert_eq!(e.status_text(), "/tmp/a.txt");
}

#[test]
fn save_as_takes_the_chosen_path() {
    let (mut e, _) = Editor::new("/tmp/project");
    e.update(Message::Edit(Action::Edit(Edit::Insert('q'))));
    let text = match e.update(Message::Save) {
        Effect::PickThenWrite { text } => text,
        other => panic!("unexpected effect {:?}", other),
    };
    assert_eq!(text, "q\n");
    let (path, text) = match save_dialog_done(Some("/tmp/new.md".to_string()), text) {
        Ok(Effect::Write { path, text }) => (path, text),
        other => panic!("unexpected step {:?}", other),
    };
    assert_eq!(path, "/tmp/new.md");
    assert_eq!(text, "q\n");
    e.update(write_done(path, Ok(())));
    assert_eq!(e.path.as_deref(), Some("/tmp/new.md"));
    assert_eq!(e.highlight_extension(), "md");
}

#[test]
fn failed_load_keeps_document() {
    let mut e = loaded("/tmp/a.txt", "kept\n");
    let effect = e.update(read_done("/tmp/missing".to_string(), Err(ErrorKind::NotFound)));
    assert!(matches!(effect, Effect::Nothing));
    assert_eq!(e.buffer.text(), "kept\n");
    assert_eq!(e.path.as_deref(), Some("/tmp/a.txt"));
    assert_eq!(e.error, Some(EditorError::IOFailed(ErrorKind::NotFound)));
    assert_eq!(e.status_text(), ErrorKind::NotFound.to_string());
    assert_eq!(e.status_text(), "entity not found");
    assert!(!e.shows_path());
}

#[test]
fn save_then_load_gives_the_text_back() {
    let mut e = loaded("/tmp/r.txt", "one\ntwo\n");
    e.update(Message::Edit(Action::Edit(Edit::Insert('>'))));
    let (path, text) = match e.update(Message::Save) {
        Effect::Write { path, text } => (path, text),
        other => panic!("unexpected effect {:?}", other),
    };
    assert_eq!(text, ">one\ntwo\n");
    let mut other = loaded("/tmp/other.txt", "");
    other.update(read_done(path, Ok(text.clone())));
    assert_eq!(other.buffer.text(), text);
    assert_eq!(other.path.as_deref(), Some("/tmp/r.txt"));
}

#[test]
fn cursor_labels_count_from_one() {
    assert_eq!(position_label(0, 0), "1:1");
    assert_eq!(position_label(4, 9), "5:10");
    assert_eq!(position_label(99, 0), "100:1");
    assert_eq!(
        position_label(usize::MAX, 0),
        format!("{}:1", (usize::MAX as u128) + 1)
    );
    assert_eq!(decimal_string(0), "0");
    assert_eq!(decimal_string(1234567890), "1234567890");
    assert_eq!(decimal_string(u128::MAX), u128::MAX.to_string());
}

#[test]
fn dismissed_save_dialog_records_error() {
    let (mut e, _) = Editor::new("/tmp/project");
    let text = match e.update(Message::Save) {
        Effect::PickThenWrite { text } => text,
        other => panic!("unexpected effect {:?}", other),
    };
    let before = e.buffer.text();
    let msg = match save_dialog_done(None, text) {
        Err(msg) => msg,
        Ok(effect) => panic!("unexpected effect {:?}", effect),
    };
    assert!(matches!(msg, Message::FileSaved(Err(EditorError::DialogClosed))));
    e.update(msg);
    assert_eq!(e.error, Some(EditorError::DialogClosed));
    assert!(e.path.is_none());
    assert_eq!(e.buffer.text(), before);
    assert_eq!(e.status_text(), "New File");
}

#[test]
fn dismissed_open_dialog_records_error() {
    let mut e = loaded("/tmp/a.txt", "x\n");
    assert!(matches!(e.update(Message::Open), Effect::PickThenRead));
    let msg = match open_dialog_done(None) {
        Err(msg) => msg,
        Ok(effect) => panic!("unexpected effect {:?}", effect),
    };
    e.update(msg);
    assert_eq!(e.error, Some(EditorError::DialogClosed));
    assert_eq!(e.status_text(), "/tmp/a.txt");
    match open_dialog_done(Some("/tmp/b.rs".to_string())) {
        Ok(Effect::Read { path }) => assert_eq!(path, "/tmp/b.rs"),
        other => panic!("unexpected step {:?}", other),
    }
}

#[test]
fn theme_selection_picks_appearance() {
    let (mut e, _) = Editor::new("/tmp/project");
    assert_eq!(e.theme(), Appearance::Dark);
    e.update(Message::ThemeSelected(Theme::InspiredGitHub));
    assert_eq!(e.theme, Theme::InspiredGitHub);
    assert_eq!(e.theme(), Appearance::Light);
    e.update(Message::ThemeSelected(Theme::Base16Ocean));
    assert_eq!(e.theme(), Appearance::Dark);
    for t in [Theme::SolarizedDark, Theme::Base16Mocha, Theme::Base16Eighties] {
        e.update(Message::ThemeSelected(t));
        assert_eq!(e.theme(), Appearance::Dark);
    }
}

#[test]
fn write_failure_is_recorded() {
    let mut e = loaded("/tmp/a.txt", "x\n");
    e.update(write_done("/tmp/a.txt".to_string(), Err(ErrorKind::PermissionDenied)));
    assert_eq!(e.error, Some(EditorError::IOFailed(ErrorKind::PermissionDenied)));
    assert_eq!(e.path.as_deref(), Some("/tmp/a.txt"));
    assert_eq!(e.status_text(), "permission denied");
    e.update(write_done("/tmp/b.txt".to_string(), Ok(())));
    assert_eq!(e.path.as_deref(), Some("/tmp/b.txt"));
    assert_eq!(e.status_text(), "permission denied");
}

#[test]
fn highlight_extension_falls_back_to_rust() {
    let (e, _) = Editor::new("/tmp/project");
    assert_eq!(e.highlight_extension(), "rs");
    assert_eq!(loaded("/tmp/x.py", "").highlight_extension(), "py");
    assert_eq!(loaded("/tmp/Makefile", "").highlight_extension(), "rs");
    assert_eq!(loaded("/tmp/a.tar.gz", "").highlight_extension(), "gz");
}

#[test]
fn loaded_text_joins_lines() {
    assert_eq!(Buffer::with_text("").text(), "\n");
    assert_eq!(Buffer::with_text("a").text(), "a\n");
    assert_eq!(Buffer::with_text("a\n").text(), "a\n");
    assert_eq!(Buffer::with_text("a\n\n").text(), "a\n");
    assert_eq!(Buffer::with_text("\n\n").text(), "\n");
    assert_eq!(Buffer::with_text("a\n\nb").text(), "a\n\nb\n");
    assert_eq!(Buffer::new().text(), "\n");
}

#[test]
fn non_edit_actions_keep_text() {
    let mut b = Buffer::with_text("one\ntwo\n");
    b.perform(Action::Move(Motion::Right));
    b.perform(Action::SelectAll);
    b.perform(Action::Select(Motion::Left));
    assert_eq!(b.text(), "one\ntwo\n");
    b.perform(Action::Edit(Edit::Insert('!')));
    assert!(b.text().contains('!'));
}

#[test]
fn view_describes_state() {
    let (mut e, _) = Editor::new("/tmp/project");
    let v = e.view();
    assert_eq!(v.status, "New File");
    assert!(!v.status_is_path);
    assert_eq!(v.position, "1:1");
    assert_eq!(v.syntax, "rs");
    assert_eq!(v.highlight, Theme::SolarizedDark);
    assert_eq!(v.appearance, Appearance::Dark);
    e.update(Message::FileOpened(Ok(("/tmp/v.toml".to_string(), "ab\ncd\n".to_string()))));
    e.update(Message::Edit(Action::Move(Motion::Down)));
    e.update(Message::Edit(Action::Move(Motion::Right)));
    let v = e.view();
    assert_eq!(v.status, "/tmp/v.toml");
    assert!(v.status_is_path);
    assert_eq!(v.position, e.position_text());
    assert_eq!(v.syntax, "toml");
}
