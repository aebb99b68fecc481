use vstd::prelude::*;
use iced::widget::text_editor::Action;
use crate::buffer::{Buffer, loaded_text};
use crate::editor::{
    Editor, EditorError, Effect, Message, read_message, save_dialog_step, update_spec,
    write_message,
};

verus! {

/// Replaying edit messages on the editor hands its buffer exactly the same
/// actions, in the same order, as applying them to a standalone buffer that
/// started out with the same record: the two records end equal, and nothing
/// else in the state moves.
pub proof fn lemma_edits_delegate(
    states: Seq<Editor>,
    effects: Seq<Effect>,
    actions: Seq<Action>,
    standalone: Seq<Buffer>,
)
    requires
        states.len() == actions.len() + 1,
        effects.len() == actions.len(),
        standalone.len() == actions.len() + 1,
        standalone[0]@ == states[0].buffer@,
        forall|i: int| 0 <= i < actions.len() ==>
            update_spec(#[trigger] states[i], Message::Edit(actions[i]), states[i + 1], effects[i]),
        forall|i: int| 0 <= i < actions.len() ==>
            #[trigger] standalone[i + 1]@ == (standalone[i]@.0, standalone[i]@.1.push(actions[i])),
    ensures
        states.last().buffer@ == standalone.last()@,
        states.last().buffer@ == (states[0].buffer@.0, states[0].buffer@.1 + actions),
        states.last().path == states[0].path,
        states.last().error == states[0].error,
        states.last().theme == states[0].theme,
    decreases actions.len(),
{
    if actions.len() > 0 {
        let n = actions.len() - 1;
        lemma_edits_delegate(
            states.take(n + 1),
            effects.take(n),
            actions.take(n),
            standalone.take(n + 1),
        );
        assert(update_spec(states[n], Message::Edit(actions[n]), states[n + 1], effects[n]));
        assert(standalone[n + 1]@ == (standalone[n]@.0, standalone[n]@.1.push(actions[n])));
        assert(states[0].buffer@.1 + actions =~= (states[0].buffer@.1 + actions.take(n)).push(actions[n]));
    } else {
        assert(states[0].buffer@.1 + actions =~= states[0].buffer@.1);
    }
}

/// A save of a document that has a path asks no dialog: it writes the text
/// of the buffer to that path, and once the write succeeds the path stays.
pub proof fn lemma_save_to_current_path(
    pre: Editor,
    mid: Editor,
    effect: Effect,
    post: Editor,
    last: Effect,
)
    requires
        pre.path is Some,
        update_spec(pre, Message::Save, mid, effect),
        effect is Write ==> update_spec(mid, write_message(effect->Write_path, Ok(())), post, last),
    ensures
        effect is Write,
        effect->Write_path@ == pre.path->0@,
        effect->Write_text@ == pre.buffer.text_spec(),
        post.path matches Some(p) && p@ == pre.path->0@,
{
}

/// A save of a new document goes through the dialog; once the text has
/// been written to the path chosen there, that path is the document's.
pub proof fn lemma_save_as_sets_path(
    pre: Editor,
    mid: Editor,
    effect: Effect,
    chosen: String,
    post: Editor,
    last: Effect,
)
    requires
        pre.path is None,
        update_spec(pre, Message::Save, mid, effect),
        effect is PickThenWrite ==> ({
            let step = save_dialog_step(Some(chosen), effect->PickThenWrite_text);
            step is Ok && step->Ok_0 is Write
                && update_spec(mid, write_message(step->Ok_0->Write_path, Ok(())), post, last)
        }),
    ensures
        effect matches Effect::PickThenWrite { text } && text@ == pre.buffer.text_spec(),
        save_dialog_step(Some(chosen), effect->PickThenWrite_text)
            == Ok::<Effect, Message>(Effect::Write { path: chosen, text: effect->PickThenWrite_text }),
        post.path == Some(chosen),
{
}

/// A save of a new document whose dialog is closed records that, and leaves
/// the document without a path and its buffer as it was.
pub proof fn lemma_dismissed_save_dialog(
    pre: Editor,
    mid: Editor,
    effect: Effect,
    post: Editor,
    last: Effect,
)
    requires
        pre.path is None,
        update_spec(pre, Message::Save, mid, effect),
        effect is PickThenWrite ==> ({
            let step = save_dialog_step(None, effect->PickThenWrite_text);
            step is Err && update_spec(mid, step->Err_0, post, last)
        }),
    ensures
        effect is PickThenWrite,
        post.error == Some(EditorError::DialogClosed),
        post.path is None,
        post.buffer == pre.buffer,
{
}

/// A failed load leaves the buffer and the path as they were, and records
/// the failure.
pub proof fn lemma_failed_load_keeps_document(pre: Editor, e: EditorError, post: Editor, effect: Effect)
    requires
        update_spec(pre, Message::FileOpened(Err(e)), post, effect),
    ensures
        post.buffer == pre.buffer,
        post.path == pre.path,
        post.error == Some(e),
{
}

/// Whether a text ends in exactly one newline: no empty last line.
pub open spec fn ends_in_one_newline(t: Seq<char>) -> bool {
    &&& t.len() > 0
    &&& t.last() == '\n'
    &&& (t.len() == 1 || t[t.len() - 2] != '\n')
}

/// A text that ends in exactly one newline comes back unchanged from a
/// buffer built on it.
pub proof fn lemma_loaded_text_keeps(t: Seq<char>)
    requires
        ends_in_one_newline(t),
    ensures
        loaded_text(t) == t,
{
    assert(t.drop_last().push(t.last()) =~= t);
    if t.len() > 1 {
        assert(t.drop_last().last() == t[t.len() - 2]);
    }
}

/// Saving and loading back: a save hands the host the buffer's text and a
/// path; where a read of that path gives the text back, the loaded buffer
/// is one built from that text and holds its lines again, and the path is
/// the one written. A text without carriage returns that ends in exactly
/// one newline comes back unchanged.
pub proof fn lemma_save_then_load(
    pre: Editor,
    mid: Editor,
    effect: Effect,
    path: String,
    text: String,
    post: Editor,
    last: Effect,
)
    requires
        update_spec(pre, Message::Save, mid, effect),
        effect matches Effect::Write { path: written_to, text: written }
            && written_to@ == path@ && written@ == text@,
        update_spec(mid, read_message(path, Ok(text)), post, last),
    ensures
        post.buffer@ == (pre.buffer.text_spec(), Seq::<Action>::empty()),
        post.path == Some(path),
        !text@.contains('\r') ==> post.buffer.text_spec() == loaded_text(pre.buffer.text_spec()),
        !text@.contains('\r') && ends_in_one_newline(text@)
            ==> post.buffer.text_spec() == pre.buffer.text_spec(),
{
    if ends_in_one_newline(text@) {
        lemma_loaded_text_keeps(text@);
    }
}

} // verus!
