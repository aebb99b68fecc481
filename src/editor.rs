use vstd::prelude::*;
use iced::highlighter::Theme;
use iced::widget::text_editor::{Action, Edit};
use std::io::ErrorKind;
use crate::buffer::{Buffer, is_control, loaded_text};
use crate::text::{extension_of, path_extension, position_label, position_label_spec};
use crate::theme::{Appearance, appearance_of, appearance_spec};

verus! {

/// The kind of a failed read or write, as the platform classifies it.
#[verifier::external_type_specification]
#[verifier::external_body]
pub struct ExErrorKind(std::io::ErrorKind);

/// The message that `ErrorKind`'s `Display` writes for a kind.
pub uninterp spec fn kind_message(kind: ErrorKind) -> Seq<char>;

/// Relies on `Display` for `std::io::ErrorKind`: a fixed description of
/// each kind.
#[verifier::external_body]
fn describe_kind(kind: ErrorKind) -> (r: String)
    ensures
        r@ == kind_message(kind),
{
    kind.to_string()
}

/// Why a load or a save did not happen.
#[derive(Clone, Copy, Debug, PartialEq, Eq)]
pub enum EditorError {
    /// Reading or writing the file failed.
    IOFailed(ErrorKind),
    /// The file dialog was closed without a choice.
    DialogClosed,
}

/// What the editor reacts to.
#[derive(Debug)]
pub enum Message {
    /// An edit on the text.
    Edit(Action),
    /// A load finished: the path and the text read from it, or why not.
    FileOpened(Result<(String, String), EditorError>),
    /// Open a file chosen in a dialog.
    Open,
    /// Start a new, unsaved document.
    New,
    /// Save the text: to the current path, or to one chosen in a dialog.
    Save,
    /// A save finished: the path written, or why not.
    FileSaved(Result<String, EditorError>),
    /// Use another highlighting theme.
    ThemeSelected(Theme),
}

/// An operation that the host runs after a message; its outcome comes back
/// as a message.
#[derive(Debug)]
pub enum Effect {
    /// Nothing to run.
    Nothing,
    /// Read the file at `path`.
    Read { path: String },
    /// Ask for a file to open, then read it.
    PickThenRead,
    /// Write `text` to the file at `path`.
    Write { path: String, text: String },
    /// Ask where to save, then write `text` there.
    PickThenWrite { text: String },
}

/// The label shown for a document that has no path yet.
pub open spec fn untitled_label() -> Seq<char> {
    "New File"@
}

/// The state of the editor.
pub struct Editor {
    /// The text being edited.
    pub buffer: Buffer,
    /// The last failure; a later success leaves it in place.
    pub error: Option<EditorError>,
    /// The file last loaded or saved; `None` for a new document.
    pub path: Option<String>,
    /// The highlighting theme.
    pub theme: Theme,
}

/// What the window shows of an editor's state.
pub struct EditorView {
    /// The main text of the status bar.
    pub status: String,
    /// Whether that text is the document's path.
    pub status_is_path: bool,
    /// Where the cursor stands: its line and its byte offset in the line,
    /// both counted from one.
    pub position: String,
    /// The file extension that picks the syntax to highlight.
    pub syntax: String,
    /// The highlighting theme.
    pub highlight: Theme,
    /// The appearance of the chrome.
    pub appearance: Appearance,
}

/// What `Editor::update` owes for `msg` on `pre`: the state it leaves in
/// `post`, and the effect it returns.
pub open spec fn update_spec(pre: Editor, msg: Message, post: Editor, effect: Effect) -> bool {
    match msg {
        Message::Edit(action) => {
            &&& post.buffer@ == (pre.buffer@.0, pre.buffer@.1.push(action))
            &&& !(action is Edit) ==> post.buffer.text_spec() == pre.buffer.text_spec()
            &&& action matches Action::Edit(Edit::Insert(ch))
                ==> (!is_control(ch) ==> post.buffer.text_spec().contains(ch))
            &&& post.path == pre.path
            &&& post.error == pre.error
            &&& post.theme == pre.theme
            &&& effect is Nothing
        },
        Message::FileOpened(Ok((path, text))) => {
            &&& post.buffer@ == (text@, Seq::<Action>::empty())
            &&& !text@.contains('\r') ==> post.buffer.text_spec() == loaded_text(text@)
            &&& post.path == Some(path)
            &&& post.error == pre.error
            &&& post.theme == pre.theme
            &&& effect is Nothing
        },
        Message::FileOpened(Err(e)) => {
            &&& post.buffer == pre.buffer
            &&& post.path == pre.path
            &&& post.error == Some(e)
            &&& post.theme == pre.theme
            &&& effect is Nothing
        },
        Message::Open => {
            &&& post == pre
            &&& effect is PickThenRead
        },
        Message::New => {
            &&& post.buffer@ == (Seq::<char>::empty(), Seq::<Action>::empty())
            &&& post.buffer.text_spec() == seq!['\n']
            &&& post.path is None
            &&& post.error == pre.error
            &&& post.theme == pre.theme
            &&& effect is Nothing
        },
        Message::Save => {
            &&& post == pre
            &&& match pre.path {
                Some(p) => effect matches Effect::Write { path, text }
                    && path@ == p@ && text@ == pre.buffer.text_spec(),
                None => effect matches Effect::PickThenWrite { text }
                    && text@ == pre.buffer.text_spec(),
            }
        },
        Message::FileSaved(Ok(path)) => {
            &&& post.buffer == pre.buffer
            &&& post.path == Some(path)
            &&& post.error == pre.error
            &&& post.theme == pre.theme
            &&& effect is Nothing
        },
        Message::FileSaved(Err(e)) => {
            &&& post.buffer == pre.buffer
            &&& post.path == pre.path
            &&& post.error == Some(e)
            &&& post.theme == pre.theme
            &&& effect is Nothing
        },
        Message::ThemeSelected(t) => {
            &&& post.buffer == pre.buffer
            &&& post.path == pre.path
            &&& post.error == pre.error
            &&& post.theme == t
            &&& effect is Nothing
        },
    }
}

impl Editor {
    /// A new document with the default theme, and the load of the file at
    /// start that goes with it.
    pub fn new(manifest_dir: &str) -> (r: (Editor, Effect))
        ensures
            r.0.buffer@ == (Seq::<char>::empty(), Seq::<Action>::empty()),
            r.0.buffer.text_spec() == seq!['\n'],
            r.0.error is None,
            r.0.path is None,
            r.0.theme is SolarizedDark,
            r.1 matches Effect::Read { path } && path@ == manifest_dir@ + "/src/main.rs"@,
    {
        let editor = Editor {
            buffer: Buffer::new(),
            error: None,
            path: None,
            theme: Theme::SolarizedDark,
        };
        (editor, Effect::Read { path: crate::text::default_load_file(manifest_dir) })
    }

    /// The title of the window.
    pub fn title(&self) -> (r: String)
        ensures
            r@ == "This is a text editor."@,
    {
        String::from_str("This is a text editor.")
    }

    /// Applies a message to the state, and returns what the host runs next.
    pub fn update(&mut self, message: Message) -> (effect: Effect)
        ensures
            update_spec(*old(self), message, *final(self), effect),
    {
        match message {
            Message::Edit(action) => {
                self.buffer.perform(action);
                Effect::Nothing
            },
            Message::FileOpened(Ok((path, text))) => {
                self.buffer = Buffer::with_text(text.as_str());
                self.path = Some(path);
                Effect::Nothing
            },
            Message::FileOpened(Err(e)) => {
                self.error = Some(e);
                Effect::Nothing
            },
            Message::Open => Effect::PickThenRead,
            Message::New => {
                self.buffer = Buffer::new();
                self.path = None;
                Effect::Nothing
            },
            Message::Save => {
                let text = self.buffer.text();
                match &self.path {
                    Some(p) => Effect::Write { path: p.clone(), text },
                    None => Effect::PickThenWrite { text },
                }
            },
            Message::FileSaved(Ok(path)) => {
                self.path = Some(path);
                Effect::Nothing
            },
            Message::FileSaved(Err(e)) => {
                self.error = Some(e);
                Effect::Nothing
            },
            Message::ThemeSelected(t) => {
                self.theme = t;
                Effect::Nothing
            },
        }
    }
    /// The main text of the status bar: the message of a failed read or
    /// write, else the path of the document, else the untitled label. A
    /// closed dialog does not show here.
    pub fn status_text(&self) -> (r: String)
        ensures
            r@ == self.status_spec(),
    {
        if let Some(EditorError::IOFailed(kind)) = &self.error {
            describe_kind(*kind)
        } else {
            match &self.path {
                Some(p) => p.clone(),
                None => String::from_str("New File"),
            }
        }
    }

    /// What `status_text` shows.
    pub open spec fn status_spec(&self) -> Seq<char> {
        match self.error {
            Some(EditorError::IOFailed(kind)) => kind_message(kind),
            _ => match self.path {
                Some(p) => p@,
                None => untitled_label(),
            },
        }
    }

    /// Whether the status bar shows the path of the document.
    pub fn shows_path(&self) -> (r: bool)
        ensures
            r == (!(self.error matches Some(EditorError::IOFailed(_))) && self.path is Some),
    {
        let failed = match &self.error {
            Some(EditorError::IOFailed(_)) => true,
            _ => false,
        };
        !failed && self.path.is_some()
    }

    /// What `highlight_extension` returns.
    pub open spec fn highlight_spec(&self) -> Seq<char> {
        match self.path {
            Some(p) => match extension_of(p@) {
                Some(e) => e,
                None => "rs"@,
            },
            None => "rs"@,
        }
    }

    /// The file extension that picks the syntax to highlight: that of the
    /// path, or `rs` where there is none.
    pub fn highlight_extension(&self) -> (r: String)
        ensures
            r@ == self.highlight_spec(),
    {
        let found = match &self.path {
            Some(p) => path_extension(p.as_str()),
            None => None,
        };
        match found {
            Some(e) => e,
            None => String::from_str("rs"),
        }
    }

    /// The text that shows where the cursor stands, counted from one.
    pub fn position_text(&self) -> (r: String)
        ensures
            r@ == position_label_spec(self.buffer.cursor_spec().0 as nat, self.buffer.cursor_spec().1 as nat),
    {
        let (line, offset) = self.buffer.cursor_position();
        position_label(line, offset)
    }

    /// What the window shows of the state, a function of the state alone.
    pub fn view(&self) -> (r: EditorView)
        ensures
            r.status@ == self.status_spec(),
            r.status_is_path == (!(self.error matches Some(EditorError::IOFailed(_))) && self.path is Some),
            r.position@ == position_label_spec(self.buffer.cursor_spec().0 as nat, self.buffer.cursor_spec().1 as nat),
            r.syntax@ == self.highlight_spec(),
            r.highlight == self.theme,
            r.appearance == appearance_spec(self.theme),
    {
        EditorView {
            status: self.status_text(),
            status_is_path: self.shows_path(),
            position: self.position_text(),
            syntax: self.highlight_extension(),
            highlight: self.theme,
            appearance: self.theme(),
        }
    }

    /// The appearance of the window's chrome, after the highlighting theme.
    pub fn theme(&self) -> (r: Appearance)
        ensures
            r == appearance_spec(self.theme),
    {
        appearance_of(self.theme)
    }
}

/// What follows an open's dialog: the chosen path is read; a closed dialog
/// ends the open with its error.
pub open spec fn open_dialog_step(picked: Option<String>) -> Result<Effect, Message> {
    match picked {
        Some(p) => Ok(Effect::Read { path: p }),
        None => Err(Message::FileOpened(Err(EditorError::DialogClosed))),
    }
}

/// What follows a save's dialog: the text is written to the chosen path; a
/// closed dialog ends the save with its error.
pub open spec fn save_dialog_step(picked: Option<String>, text: String) -> Result<Effect, Message> {
    match picked {
        Some(p) => Ok(Effect::Write { path: p, text }),
        None => Err(Message::FileSaved(Err(EditorError::DialogClosed))),
    }
}

/// The message that ends a read of `path`.
pub open spec fn read_message(path: String, outcome: Result<String, ErrorKind>) -> Message {
    match outcome {
        Ok(text) => Message::FileOpened(Ok((path, text))),
        Err(kind) => Message::FileOpened(Err(EditorError::IOFailed(kind))),
    }
}

/// The message that ends a write to `path`.
pub open spec fn write_message(path: String, outcome: Result<(), ErrorKind>) -> Message {
    match outcome {
        Ok(()) => Message::FileSaved(Ok(path)),
        Err(kind) => Message::FileSaved(Err(EditorError::IOFailed(kind))),
    }
}

/// Where an open goes after its dialog.
pub fn open_dialog_done(picked: Option<String>) -> (r: Result<Effect, Message>)
    ensures
        r == open_dialog_step(picked),
{
    match picked {
        Some(p) => Ok(Effect::Read { path: p }),
        None => Err(Message::FileOpened(Err(EditorError::DialogClosed))),
    }
}

/// Where a save goes after its dialog.
pub fn save_dialog_done(picked: Option<String>, text: String) -> (r: Result<Effect, Message>)
    ensures
        r == save_dialog_step(picked, text),
{
    match picked {
        Some(p) => Ok(Effect::Write { path: p, text }),
        None => Err(Message::FileSaved(Err(EditorError::DialogClosed))),
    }
}

/// The message that ends a read of the file at `path`.
pub fn read_done(path: String, outcome: Result<String, ErrorKind>) -> (r: Message)
    ensures
        r == read_message(path, outcome),
{
    match outcome {
        Ok(text) => Message::FileOpened(Ok((path, text))),
        Err(kind) => Message::FileOpened(Err(EditorError::IOFailed(kind))),
    }
}

/// The message that ends a write to the file at `path`.
pub fn write_done(path: String, outcome: Result<(), ErrorKind>) -> (r: Message)
    ensures
        r == write_message(path, outcome),
{
    match outcome {
        Ok(()) => Message::FileSaved(Ok(path)),
        Err(kind) => Message::FileSaved(Err(EditorError::IOFailed(kind))),
    }
}

} // verus!
