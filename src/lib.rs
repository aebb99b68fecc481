//! The state machine of a small text editor: its state, the messages it
//! takes, the effects it asks its host to run, and what its view shows.

mod buffer;
mod editor;
mod laws;
mod text;
mod theme;

pub use buffer::{Buffer, TextContent, is_control, joined_lines, loaded_text};
pub use editor::{
    Editor, EditorError, EditorView, Effect, Message, kind_message, open_dialog_done, open_dialog_step,
    read_done, read_message, save_dialog_done, save_dialog_step, untitled_label, update_spec,
    write_done, write_message,
};
pub use laws::{
    ends_in_one_newline, lemma_dismissed_save_dialog, lemma_edits_delegate,
    lemma_failed_load_keeps_document, lemma_loaded_text_keeps, lemma_save_as_sets_path,
    lemma_save_then_load, lemma_save_to_current_path,
};
pub use text::{decimal, decimal_string, default_load_file, position_label, position_label_spec};
pub use theme::{Appearance, appearance_of, appearance_spec, is_dark_theme};
