use vstd::prelude::*;
use iced::widget::text_editor::{Action, Content, Edit};

verus! {

/// An action of iced's text editor: a move, a selection, an edit, a click,
/// a drag or a scroll.
#[verifier::external_type_specification]
pub struct ExAction(iced::widget::text_editor::Action);

/// An edit of iced's text editor: insert, paste, enter, backspace, delete.
#[verifier::external_type_specification]
pub struct ExEdit(iced::widget::text_editor::Edit);

/// A cursor motion of iced's text editor.
#[verifier::external_type_specification]
pub struct ExMotion(iced::widget::text_editor::Motion);

/// A point on the screen, where a click or a drag lands; carried unread.
#[verifier::external_type_specification]
#[verifier::external_body]
#[verifier::reject_recursive_types(T)]
pub struct ExPoint<T>(iced::Point<T>);

/// iced's text storage, held unread: Verus cannot name the renderer trait
/// that bounds `Content`'s parameter.
#[verifier::external_body]
pub struct TextContent {
    /// The content itself, for the widget that draws and edits it.
    pub inner: Content,
}

/// The text that iced's `Content::text` returns for a content.
pub uninterp spec fn content_text(c: TextContent) -> Seq<char>;

/// The cursor that iced's `Content::cursor_position` reports for a content.
pub uninterp spec fn cursor_of(c: TextContent) -> (usize, usize);

/// The text of `t` with its last newline, where it ends in one, taken off:
/// the lines of `t` joined by newlines.
pub open spec fn joined_lines(t: Seq<char>) -> Seq<char> {
    if t.len() > 0 && t.last() == '\n' {
        t.drop_last()
    } else {
        t
    }
}

/// The text that a content built from `t` gives back, where `t` holds no
/// carriage return: its lines joined by newlines, ending in a newline.
pub open spec fn loaded_text(t: Seq<char>) -> Seq<char> {
    let j = joined_lines(t);
    if j.len() > 0 && j.last() == '\n' {
        j
    } else {
        j.push('\n')
    }
}

/// Whether a character is a control character (general category Cc).
pub open spec fn is_control(c: char) -> bool {
    (c as u32) < 0x20 || (0x7f <= (c as u32) && (c as u32) < 0xa0)
}

/// Relies on iced's `Content::with_text`, which hands the text to
/// cosmic-text's `Buffer::set_text`: the text is cut into lines at each
/// newline (and carriage return), a newline ending the last line opens no
/// further one, and an empty text is one empty line. `Content::text` joins
/// those lines by newlines and adds a final one where it is missing.
#[verifier::external_body]
fn content_with_text(text: &str) -> (r: TextContent)
    ensures
        !text@.contains('\r') ==> content_text(r) == loaded_text(text@),
{
    TextContent { inner: Content::with_text(text) }
}

/// Relies on iced's `Content::perform`, which hands the action to the
/// editor it holds. Only an `Edit` action changes the text; an inserted
/// character that is no control character ends up in the text (cosmic-text
/// inserts it in place of any selection).
#[verifier::external_body]
fn content_perform(c: &mut TextContent, action: Action)
    ensures
        !(action is Edit) ==> content_text(*final(c)) == content_text(*old(c)),
        action matches Action::Edit(Edit::Insert(ch))
            ==> (!is_control(ch) ==> content_text(*final(c)).contains(ch)),
{
    c.inner.perform(action)
}

/// Relies on iced's `Content::text`: the lines of the content joined by
/// newlines, ending in one; the text depends on the content alone.
#[verifier::external_body]
fn content_text_of(c: &TextContent) -> (r: String)
    ensures
        r@ == content_text(*c),
{
    c.inner.text()
}

/// Relies on iced's `Content::cursor_position`: the line of the cursor and
/// its byte offset in that line, both counted from zero; they depend on the
/// content alone.
#[verifier::external_body]
fn content_cursor(c: &TextContent) -> (r: (usize, usize))
    ensures
        r == cursor_of(*c),
{
    c.inner.cursor_position()
}

/// An editable text. Its view records the text it was built from and the
/// actions applied to it since, in order; `text_spec` is the text it holds.
pub struct Buffer {
    content: TextContent,
    origin: Ghost<Seq<char>>,
    edits: Ghost<Seq<Action>>,
}

impl View for Buffer {
    type V = (Seq<char>, Seq<Action>);

    closed spec fn view(&self) -> (Seq<char>, Seq<Action>) {
        (self.origin@, self.edits@)
    }
}

impl Buffer {
    /// The text that `text` returns.
    pub closed spec fn text_spec(&self) -> Seq<char> {
        content_text(self.content)
    }

    /// The cursor that `cursor_position` returns.
    pub closed spec fn cursor_spec(&self) -> (usize, usize) {
        cursor_of(self.content)
    }

    /// An empty buffer.
    pub fn new() -> (r: Buffer)
        ensures
            r@ == (Seq::<char>::empty(), Seq::<Action>::empty()),
            r.text_spec() == seq!['\n'],
    {
        proof {
            reveal_strlit("");
        }
        Buffer { content: content_with_text(""), origin: Ghost(Seq::empty()), edits: Ghost(Seq::empty()) }
    }

    /// A buffer that holds `text`.
    pub fn with_text(text: &str) -> (r: Buffer)
        ensures
            r@ == (text@, Seq::<Action>::empty()),
            !text@.contains('\r') ==> r.text_spec() == loaded_text(text@),
    {
        Buffer { content: content_with_text(text), origin: Ghost(text@), edits: Ghost(Seq::empty()) }
    }

    /// Applies an edit action.
    pub fn perform(&mut self, action: Action)
        ensures
            final(self)@ == (old(self)@.0, old(self)@.1.push(action)),
            !(action is Edit) ==> final(self).text_spec() == old(self).text_spec(),
            action matches Action::Edit(Edit::Insert(ch))
                ==> (!is_control(ch) ==> final(self).text_spec().contains(ch)),
    {
        content_perform(&mut self.content, action);
        self.edits = Ghost(self.edits@.push(action));
    }

    /// The whole text of the buffer.
    pub fn text(&self) -> (r: String)
        ensures
            r@ == self.text_spec(),
    {
        content_text_of(&self.content)
    }

    /// The storage of the text, for the widget that draws it.
    pub fn content(&self) -> &TextContent {
        &self.content
    }

    /// The line of the cursor and its byte offset in that line, both
    /// counted from zero.
    pub fn cursor_position(&self) -> (r: (usize, usize))
        ensures
            r == self.cursor_spec(),
    {
        content_cursor(&self.content)
    }
}

} // verus!
