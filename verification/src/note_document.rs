//! The note being edited, kept as a `loro` document so that edits can be undone and redone.
//! Every edit made in the editor is applied to the document too, and the document's text
//! always ends with a line break after an edit.

use loro::{LoroDoc, UndoManager};
use vstd::prelude::*;
use vstd::utf8::{decode_utf8, encode_utf8, is_char_boundary, valid_utf8};

use crate::text::push_char;

verus! {

#[verifier::external_type_specification]
#[verifier::external_body]
pub struct ExLoroDoc(LoroDoc);

/// A `loro` document together with the undo manager made for it.
///
/// An undo manager acts on the document it was made for and sees every change committed to
/// it; the two are held in one value so that every call that touches either is made through
/// this value, and its contract can speak of both. Verus sees neither field: what they hold
/// is given by the names below.
#[verifier::external_body]
pub struct NoteCrdt {
    doc: LoroDoc,
    undo: UndoManager,
}

/// The id of the text container that holds a note's text.
pub const NOTE_TEXT_ID: &'static str = "LORO_NOTE_ID";

/// The origin given to the changes that load a note, which undo leaves alone.
pub const INITIAL_ORIGIN: &'static str = "initial";

/// How many steps can be undone.
pub const MAX_UNDO_STEPS: usize = 10000;

/// The text that the note text container of `doc` holds.
pub uninterp spec fn loro_text(doc: LoroDoc) -> Seq<char>;

/// Whether `doc` is detached from its latest version (`LoroDoc::is_detached`).
pub uninterp spec fn loro_detached(doc: LoroDoc) -> bool;

/// The number of operations in the history of `doc` (`LoroDoc::len_ops`).
pub uninterp spec fn loro_op_count(doc: LoroDoc) -> nat;

/// The number of local operations of `doc` not yet committed
/// (`LoroDoc::get_pending_txn_len`).
pub uninterp spec fn loro_pending_txn_len(doc: LoroDoc) -> nat;

/// The text that the note text container of the document of `c` holds.
pub uninterp spec fn note_text(c: NoteCrdt) -> Seq<char>;

/// Whether the document of `c` is detached from its latest version (`LoroDoc::is_detached`).
/// A detached document takes no local edits unless detached editing was switched on.
pub uninterp spec fn doc_detached(c: NoteCrdt) -> bool;

/// The number of local operations of the document of `c` not yet committed
/// (`LoroDoc::get_pending_txn_len`). An undo manager sees an edit once it is committed.
pub uninterp spec fn pending_txn_len(c: NoteCrdt) -> nat;

/// The note texts that undoing each step on the undo stack of the manager of `c` gives, the
/// last step last.
pub uninterp spec fn undo_texts(c: NoteCrdt) -> Seq<Seq<char>>;

/// The note texts that redoing each step on the redo stack of the manager of `c` gives, the
/// last step last.
pub uninterp spec fn redo_texts(c: NoteCrdt) -> Seq<Seq<char>>;

/// The note text that undoing the changes made to the document of `c` since its manager's
/// last checkpoint gives: the text at that checkpoint.
pub uninterp spec fn checkpoint_text(c: NoteCrdt) -> Seq<char>;

/// How many steps the undo stack of the manager of `c` keeps.
pub uninterp spec fn max_undo_steps(c: NoteCrdt) -> nat;

/// The note text that updates exported from a document carry: what a document with no
/// operations holds once it has imported `bytes` (`LoroDoc::import_with`).
pub uninterp spec fn imported_note_text(bytes: Seq<u8>) -> Option<Seq<char>>;

/// `a` and `b` hold the same undo manager state: the same stacks, the same checkpoint and the
/// same step limit.
pub open spec fn same_history(a: NoteCrdt, b: NoteCrdt) -> bool {
    &&& undo_texts(a) == undo_texts(b)
    &&& redo_texts(a) == redo_texts(b)
    &&& checkpoint_text(a) == checkpoint_text(b)
    &&& max_undo_steps(a) == max_undo_steps(b)
}

/// `LoroDoc::new`: a new document, attached to its latest version, with no operations, whose
/// note text is empty.
#[verifier::external_body]
fn new_doc() -> (d: LoroDoc)
    ensures
        loro_text(d) == Seq::<char>::empty(),
        !loro_detached(d),
        loro_op_count(d) == 0,
        loro_pending_txn_len(d) == 0,
{
    LoroDoc::new()
}

/// `LoroDoc::import_with`: applies exported updates to `doc`, tagged with `origin`. Into an
/// attached document with no operations, updates exported from a document import
/// successfully, and the document then holds their note text, has nothing pending and stays
/// attached. What it does to other documents is not stated.
#[verifier::external_body]
fn import_with(doc: &mut LoroDoc, bytes: &[u8], origin: &str) -> (ok: bool)
    ensures
        loro_op_count(*old(doc)) == 0 && !loro_detached(*old(doc)) && imported_note_text(bytes@)
            is Some ==> ok && Some(loro_text(*final(doc))) == imported_note_text(bytes@)
            && !loro_detached(*final(doc)) && loro_pending_txn_len(*final(doc)) == 0,
{
    doc.import_with(bytes, origin).is_ok()
}

/// `UndoManager::new`: an undo manager for `doc`, held with it. Its undo and redo stacks are
/// empty, it keeps 100 steps, and its first checkpoint is at the committed state of the
/// document, so at the present note text when no edit is pending. The document does not
/// change.
#[verifier::external_body]
fn start_undo_manager(doc: LoroDoc) -> (c: NoteCrdt)
    ensures
        note_text(c) == loro_text(doc),
        doc_detached(c) == loro_detached(doc),
        pending_txn_len(c) == loro_pending_txn_len(doc),
        undo_texts(c).len() == 0,
        redo_texts(c).len() == 0,
        max_undo_steps(c) == 100,
        loro_pending_txn_len(doc) == 0 ==> checkpoint_text(c) == loro_text(doc),
{
    let undo = UndoManager::new(&doc);
    NoteCrdt { doc, undo }
}

/// `LoroText::insert` on the note text: inserts `s` at character position `pos`. When it
/// succeeds the text is spliced, when it fails nothing changes, and a position past the end
/// fails. On an attached document a position inside the text succeeds: the edit then goes
/// through the document's auto-commit transaction, whose only other failure is a document
/// that cannot be edited. The transaction is not committed, so the undo manager does not
/// change, and the document stays attached or detached as it was.
#[verifier::external_body]
fn text_insert(c: &mut NoteCrdt, pos: usize, s: &str) -> (ok: bool)
    ensures
        ok ==> note_text(*final(c)) == note_text(*old(c)).take(pos as int) + s@ + note_text(
            *old(c),
        ).skip(pos as int),
        !ok ==> note_text(*final(c)) == note_text(*old(c)),
        pos > note_text(*old(c)).len() ==> !ok,
        !doc_detached(*old(c)) && pos <= note_text(*old(c)).len() ==> ok,
        doc_detached(*final(c)) == doc_detached(*old(c)),
        pending_txn_len(*final(c)) > 0 <==> (pending_txn_len(*old(c)) > 0 || (ok && s@.len()
            > 0)),
        same_history(*final(c), *old(c)),
{
    c.doc.get_text(NOTE_TEXT_ID).insert(pos, s).is_ok()
}

/// `LoroText::delete` on the note text: removes `len` characters from position `pos`. Deleting
/// nothing succeeds and changes nothing; otherwise, when it succeeds, the range lay in the
/// text and is gone. When it fails nothing changes. On an attached document a range inside
/// the text succeeds. Nothing is committed, and the document stays attached or detached.
#[verifier::external_body]
fn text_delete(c: &mut NoteCrdt, pos: usize, len: usize) -> (ok: bool)
    ensures
        ok && len == 0 ==> note_text(*final(c)) == note_text(*old(c)),
        ok && len > 0 ==> pos + len <= note_text(*old(c)).len() && note_text(*final(c))
            == note_text(*old(c)).take(pos as int) + note_text(*old(c)).skip(pos + len),
        !ok ==> note_text(*final(c)) == note_text(*old(c)),
        !doc_detached(*old(c)) && pos + len <= note_text(*old(c)).len() ==> ok,
        doc_detached(*final(c)) == doc_detached(*old(c)),
        pending_txn_len(*final(c)) > 0 <==> (pending_txn_len(*old(c)) > 0 || (ok && len > 0)),
        same_history(*final(c), *old(c)),
{
    c.doc.get_text(NOTE_TEXT_ID).delete(pos, len).is_ok()
}

/// `LoroText::delete_utf8` on the note text: removes `len` bytes of its UTF-8 encoding from
/// byte `pos`. When it succeeds the range lay on character boundaries and is gone; when it
/// fails nothing changes. On an attached document such a range succeeds. Nothing is
/// committed, and the document stays attached or detached as it was.
#[verifier::external_body]
fn text_delete_utf8(c: &mut NoteCrdt, pos: usize, len: usize) -> (ok: bool)
    ensures
        ok ==> byte_range_on_boundaries(note_text(*old(c)), pos as int, len as int) && note_text(
            *final(c),
        ) == bytes_cut(note_text(*old(c)), pos as int, len as int),
        !ok ==> note_text(*final(c)) == note_text(*old(c)),
        !doc_detached(*old(c)) && byte_range_on_boundaries(
            note_text(*old(c)),
            pos as int,
            len as int,
        ) ==> ok,
        doc_detached(*final(c)) == doc_detached(*old(c)),
        pending_txn_len(*final(c)) > 0 <==> (pending_txn_len(*old(c)) > 0 || (ok && len > 0)),
        same_history(*final(c), *old(c)),
{
    c.doc.get_text(NOTE_TEXT_ID).delete_utf8(pos, len).is_ok()
}

/// `LoroText::len_unicode`: the number of characters of the note text.
#[verifier::external_body]
fn text_len(c: &NoteCrdt) -> (n: usize)
    ensures
        n == note_text(*c).len(),
{
    c.doc.get_text(NOTE_TEXT_ID).len_unicode()
}

/// `LoroText::to_string`: the note text.
#[verifier::external_body]
fn text_to_string(c: &NoteCrdt) -> (s: String)
    ensures
        s@ == note_text(*c),
{
    c.doc.get_text(NOTE_TEXT_ID).to_string()
}

/// `LoroDoc::export` of all updates (from the empty version). It first commits the pending
/// transaction, which leaves the note text and the attached state as they were (what the
/// undo manager records of it is not stated). From an attached document it succeeds, and
/// the bytes carry the note text. Which other bytes they hold is not stated: they carry
/// the document's peer id, which is random.
#[verifier::external_body]
fn export_all_updates(c: &mut NoteCrdt) -> (bytes: Option<Vec<u8>>)
    ensures
        pending_txn_len(*final(c)) == 0,
        note_text(*final(c)) == note_text(*old(c)),
        doc_detached(*final(c)) == doc_detached(*old(c)),
        !doc_detached(*old(c)) ==> bytes is Some,
        !doc_detached(*old(c)) ==> imported_note_text(bytes.unwrap()@) == Some(note_text(*old(c))),
{
    c.doc.export(loro::ExportMode::updates(&loro::VersionVector::new())).ok()
}

/// `UndoManager::set_max_undo_steps`: how many steps the undo stack keeps from now on; the
/// stacks themselves and the document do not change.
#[verifier::external_body]
fn set_max_undo_steps(c: &mut NoteCrdt, n: usize)
    ensures
        max_undo_steps(*final(c)) == n,
        undo_texts(*final(c)) == undo_texts(*old(c)),
        redo_texts(*final(c)) == redo_texts(*old(c)),
        checkpoint_text(*final(c)) == checkpoint_text(*old(c)),
        note_text(*final(c)) == note_text(*old(c)),
        doc_detached(*final(c)) == doc_detached(*old(c)),
        pending_txn_len(*final(c)) == pending_txn_len(*old(c)),
{
    c.undo.set_max_undo_steps(n)
}

/// `UndoManager::add_exclude_origin_prefix`: changes with an origin starting with `prefix` are
/// not undone; the stacks and the document do not change.
#[verifier::external_body]
fn add_exclude_origin_prefix(c: &mut NoteCrdt, prefix: &str)
    ensures
        same_history(*final(c), *old(c)),
        note_text(*final(c)) == note_text(*old(c)),
        doc_detached(*final(c)) == doc_detached(*old(c)),
        pending_txn_len(*final(c)) == pending_txn_len(*old(c)),
{
    c.undo.add_exclude_origin_prefix(prefix)
}

/// `steps` with the step `t` pushed, the oldest steps dropped beyond `max`.
pub open spec fn pushed_step(steps: Seq<Seq<char>>, t: Seq<char>, max: nat) -> Seq<Seq<char>> {
    let s = steps.push(t);
    if s.len() > max {
        s.skip(s.len() - max)
    } else {
        s
    }
}

/// `UndoManager::record_new_checkpoint`: commits the pending edits of the document, which its
/// note text keeps, and always succeeds. When edits were pending they become a step: the
/// text of the last checkpoint is pushed on the undo stack (or, when the system clock has gone
/// back since the last step, the edits join that step), the redo stack is cleared, and the
/// present text is the new checkpoint. Otherwise the manager does not change.
#[verifier::external_body]
fn record_new_checkpoint(c: &mut NoteCrdt) -> (ok: bool)
    ensures
        ok,
        note_text(*final(c)) == note_text(*old(c)),
        doc_detached(*final(c)) == doc_detached(*old(c)),
        pending_txn_len(*final(c)) == 0,
        max_undo_steps(*final(c)) == max_undo_steps(*old(c)),
        pending_txn_len(*old(c)) == 0 ==> same_history(*final(c), *old(c)),
        pending_txn_len(*old(c)) > 0 ==> checkpoint_text(*final(c)) == note_text(*old(c))
            && redo_texts(*final(c)).len() == 0 && (undo_texts(*final(c)) == pushed_step(
            undo_texts(*old(c)),
            checkpoint_text(*old(c)),
            max_undo_steps(*old(c)),
        ) || (undo_texts(*old(c)).len() > 0 && undo_texts(*final(c)) == undo_texts(*old(c)))),
{
    c.undo.record_new_checkpoint().is_ok()
}

/// The stacks `from` (the one a step is taken off) and `to` and the text `t` before, and
/// `from1`, `to1`, `t1` after undoing (or redoing) a step: with no step to take, nothing
/// changes; otherwise the text becomes the last step's text, that step leaves `from`, and the
/// text before goes on `to` (unless the step no longer changed anything).
pub open spec fn step_taken(
    from: Seq<Seq<char>>,
    to: Seq<Seq<char>>,
    t: Seq<char>,
    from1: Seq<Seq<char>>,
    to1: Seq<Seq<char>>,
    t1: Seq<char>,
) -> bool {
    if from.len() == 0 {
        from1 == from && to1 == to && t1 == t
    } else {
        &&& t1 == from.last()
        &&& from1 == from.drop_last()
        &&& (to1 == to.push(t) || (to1 == to && t1 == t))
    }
}

/// `UndoManager::undo` on the document of `c`. A failed undo leaves the note text as it was.
/// When no edit is pending and the text is that of the last checkpoint, a failed undo leaves
/// the redo stack and either keeps the undo stack or drops its last step (a step that would
/// recreate a container of a type this version does not know is dropped), and a successful
/// one takes the last step off the undo stack (see `step_taken`) and makes the new text the
/// checkpoint. On an attached document holding only the note's text container (as every
/// `NoteCrdt` does: its calls touch no other container), with nothing pending, it succeeds (an
/// empty stack is a success that changes nothing), and a successful undo leaves an attached
/// document attached.
#[verifier::external_body]
fn undo_step(c: &mut NoteCrdt) -> (ok: bool)
    ensures
        !ok ==> note_text(*final(c)) == note_text(*old(c)),
        pending_txn_len(*old(c)) == 0 && checkpoint_text(*old(c)) == note_text(*old(c))
            && !doc_detached(*old(c)) ==> ok,
        ok && !doc_detached(*old(c)) ==> !doc_detached(*final(c)),
        pending_txn_len(*old(c)) == 0 && checkpoint_text(*old(c)) == note_text(*old(c)) ==> {
            &&& max_undo_steps(*final(c)) == max_undo_steps(*old(c))
            &&& pending_txn_len(*final(c)) == 0
            &&& checkpoint_text(*final(c)) == note_text(*final(c))
            &&& !ok ==> redo_texts(*final(c)) == redo_texts(*old(c)) && (undo_texts(*final(c))
                == undo_texts(*old(c)) || undo_texts(*final(c)) == undo_texts(*old(c)).drop_last())
            &&& ok ==> step_taken(
                undo_texts(*old(c)),
                redo_texts(*old(c)),
                note_text(*old(c)),
                undo_texts(*final(c)),
                redo_texts(*final(c)),
                note_text(*final(c)),
            )
        },
{
    c.undo.undo().is_ok()
}

/// `UndoManager::redo` on the document of `c`. A failed redo leaves the note text as it was.
/// When no edit is pending and the text is that of the last checkpoint, a failed redo leaves
/// the undo stack and either keeps the redo stack or drops its last step (as a failed undo
/// does), and a successful one takes the last step off the redo stack (see `step_taken`) and
/// makes the new text the checkpoint. As an undo, on an attached document with nothing
/// pending it succeeds, and it leaves an attached document attached.
#[verifier::external_body]
fn redo_step(c: &mut NoteCrdt) -> (ok: bool)
    ensures
        !ok ==> note_text(*final(c)) == note_text(*old(c)),
        pending_txn_len(*old(c)) == 0 && checkpoint_text(*old(c)) == note_text(*old(c))
            && !doc_detached(*old(c)) ==> ok,
        ok && !doc_detached(*old(c)) ==> !doc_detached(*final(c)),
        pending_txn_len(*old(c)) == 0 && checkpoint_text(*old(c)) == note_text(*old(c)) ==> {
            &&& max_undo_steps(*final(c)) == max_undo_steps(*old(c))
            &&& pending_txn_len(*final(c)) == 0
            &&& checkpoint_text(*final(c)) == note_text(*final(c))
            &&& !ok ==> undo_texts(*final(c)) == undo_texts(*old(c)) && (redo_texts(*final(c))
                == redo_texts(*old(c)) || redo_texts(*final(c)) == redo_texts(*old(c)).drop_last())
            &&& ok ==> step_taken(
                redo_texts(*old(c)),
                undo_texts(*old(c)),
                note_text(*old(c)),
                redo_texts(*final(c)),
                undo_texts(*final(c)),
                note_text(*final(c)),
            )
        },
{
    c.undo.redo().is_ok()
}

/// The byte range `start..start + len` of the UTF-8 encoding of `t` can be cut out: it is
/// empty, or it lies in the text and begins and ends on character boundaries.
pub open spec fn byte_range_on_boundaries(t: Seq<char>, start: int, len: int) -> bool {
    len == 0 || (0 <= start && start + len <= encode_utf8(t).len() && is_char_boundary(
        encode_utf8(t),
        start,
    ) && is_char_boundary(encode_utf8(t), start + len))
}

/// `t` with the bytes `start..start + len` of its UTF-8 encoding cut out.
pub open spec fn bytes_cut(t: Seq<char>, start: int, len: int) -> Seq<char> {
    if len == 0 {
        t
    } else {
        decode_utf8(encode_utf8(t).take(start) + encode_utf8(t).skip(start + len))
    }
}

/// `s` inserted into `t` at character position `pos`.
pub open spec fn spliced(t: Seq<char>, pos: int, s: Seq<char>) -> Seq<char> {
    t.take(pos) + s + t.skip(pos)
}

/// The byte at `pos` of the UTF-8 encoding of `t` is a line break.
pub open spec fn line_break_byte_at(t: Seq<char>, pos: int) -> bool {
    0 <= pos < encode_utf8(t).len() && encode_utf8(t)[pos] == 10
}

/// `t`, followed by a line break unless it already ends with one.
pub open spec fn with_final_line_break(t: Seq<char>) -> Seq<char> {
    if t.len() > 0 && t.last() == '\n' {
        t
    } else {
        t.push('\n')
    }
}

/// One edit of the note's text, as the editor performs it.
pub enum NoteEdit {
    Insert(char),
    Paste(String),
    Enter,
    Backspace,
    Delete,
}

/// What an edit does to the text `t` with the cursor at character `pos`; `had_selection`
/// tells whether a selection was just cut, in which case deleting keys do nothing more.
/// Enter on the last character adds no line break when the byte there already is one.
pub open spec fn edit_applied(t: Seq<char>, edit: NoteEdit, pos: int, had_selection: bool) -> Seq<
    char,
> {
    match edit {
        NoteEdit::Insert(c) => spliced(t, pos, seq![c]),
        NoteEdit::Paste(s) => spliced(t, pos, s@),
        NoteEdit::Enter => if t.len() == pos + 1 && line_break_byte_at(t, pos) {
            t
        } else {
            spliced(t, pos, seq!['\n'])
        },
        NoteEdit::Backspace => if !had_selection && 0 < pos <= t.len() {
            t.take(pos - 1) + t.skip(pos)
        } else {
            t
        },
        NoteEdit::Delete => if !had_selection && 0 <= pos && pos + 1 <= t.len() {
            t.take(pos) + t.skip(pos + 1)
        } else {
            t
        },
    }
}

/// The character position at which byte `b` of the UTF-8 encoding of `t` stands: the number
/// of characters encoded before it.
pub open spec fn char_position(t: Seq<char>, b: int) -> int {
    decode_utf8(encode_utf8(t).take(b)).len() as int
}

/// The byte range `start..start + len` lies in the UTF-8 encoding of `t` and begins and ends
/// on character boundaries.
pub open spec fn selection_valid(t: Seq<char>, start: int, len: int) -> bool {
    &&& 0 <= start
    &&& 0 <= len
    &&& start + len <= encode_utf8(t).len()
    &&& is_char_boundary(encode_utf8(t), start)
    &&& is_char_boundary(encode_utf8(t), start + len)
}

/// The text and cursor position once the selection, given as a byte range of the text's
/// UTF-8 encoding, is cut out; the cursor moves to the character where the selection began.
pub open spec fn after_selection(t: Seq<char>, cursor: int, selection: Option<(usize, usize)>) -> (
    Seq<char>,
    int,
) {
    match selection {
        Some((start, len)) => (bytes_cut(t, start as int, len as int), char_position(t, start as int)),
        None => (t, cursor),
    }
}

/// The note text after an edit at character `cursor` with the selection `selection`: the
/// selection is cut, the edit applied, and a final line break added if missing.
pub open spec fn edited_note_text(
    t: Seq<char>,
    edit: NoteEdit,
    cursor: int,
    selection: Option<(usize, usize)>,
) -> Seq<char> {
    let (t1, pos) = after_selection(t, cursor, selection);
    with_final_line_break(edit_applied(t1, edit, pos, selection is Some))
}

/// Where the editor's cursor stands after the edit: after what was typed or pasted, one
/// character back after a backspace that deleted one, and in place otherwise.
pub open spec fn cursor_after(
    t: Seq<char>,
    edit: NoteEdit,
    cursor: int,
    selection: Option<(usize, usize)>,
) -> int {
    let (t1, pos) = after_selection(t, cursor, selection);
    cursor_moved(edit, pos, selection is Some)
}

/// Where the cursor at `pos` stands after the edit, once any selection was cut.
pub open spec fn cursor_moved(edit: NoteEdit, pos: int, had_selection: bool) -> int {
    match edit {
        NoteEdit::Insert(_) => pos + 1,
        NoteEdit::Paste(s) => pos + s@.len(),
        NoteEdit::Enter => pos + 1,
        NoteEdit::Backspace => if !had_selection && pos > 0 {
            pos - 1
        } else {
            pos
        },
        NoteEdit::Delete => pos,
    }
}

/// An edit can be made at this place of `t`: the selection is a valid byte range of the
/// text, or, with nothing selected, the cursor stands inside the text.
pub open spec fn edit_applicable(t: Seq<char>, cursor: int, selection: Option<(usize, usize)>) -> bool {
    match selection {
        Some((start, len)) => selection_valid(t, start as int, len as int),
        None => 0 <= cursor <= t.len(),
    }
}

/// The text and cursor after the edits, made one after the other: the first with the
/// selection, each later one where the cursor then stands, with nothing selected.
pub open spec fn edits_applied(
    t: Seq<char>,
    edits: Seq<NoteEdit>,
    cursor: int,
    selection: Option<(usize, usize)>,
) -> (Seq<char>, int)
    decreases edits.len(),
{
    if edits.len() == 0 {
        (t, cursor)
    } else if edits.len() == 1 {
        (edited_note_text(t, edits[0], cursor, selection), cursor_after(t, edits[0], cursor, selection))
    } else {
        let (t1, c1) = edits_applied(t, edits.drop_last(), cursor, selection);
        (edited_note_text(t1, edits.last(), c1, None), cursor_after(t1, edits.last(), c1, None))
    }
}

/// Cutting a valid selection leaves the characters before it and those after it.
pub proof fn lemma_selection_cut(t: Seq<char>, start: int, len: int)
    requires
        selection_valid(t, start, len),
    ensures
        bytes_cut(t, start, len) == decode_utf8(encode_utf8(t).take(start)) + decode_utf8(
            encode_utf8(t).skip(start + len),
        ),
        encode_utf8(decode_utf8(encode_utf8(t).take(start))) == encode_utf8(t).take(start),
{
    broadcast use vstd::utf8::group_utf8_lib;

    let e = encode_utf8(t);
    let a = e.take(start);
    let b = e.skip(start + len);
    assert(a =~= e.subrange(0, start));
    assert(valid_utf8(a));
    assert(e.skip(start) =~= e.subrange(start, e.len() as int));
    assert(b =~= e.subrange(start + len, e.len() as int));
    assert(valid_utf8(b));
    let da = decode_utf8(a);
    let db = decode_utf8(b);
    assert(encode_utf8(da) == a);
    assert(encode_utf8(db) == b);
    lemma_encode_concat(da, db);
    if len == 0 {
        assert(e =~= a + b);
        assert(t == decode_utf8(e));
        assert(decode_utf8(encode_utf8(da + db)) == da + db);
    } else {
        assert(decode_utf8(encode_utf8(da + db)) == da + db);
        assert(a + b == encode_utf8(da + db));
    }
}

/// The encoding of two texts one after the other is their encodings one after the other.
pub proof fn lemma_encode_concat(x: Seq<char>, y: Seq<char>)
    ensures
        encode_utf8(x + y) == encode_utf8(x) + encode_utf8(y),
    decreases x.len(),
{
    if x.len() == 0 {
        assert(x + y =~= y);
    } else {
        lemma_encode_concat(x.drop_first(), y);
        assert((x + y).drop_first() =~= x.drop_first() + y);
        assert(encode_utf8(x + y) =~= encode_utf8(x) + encode_utf8(y));
    }
}

/// After an edit made at a valid place, the cursor stands inside the edited text, where the
/// next edit can be made.
pub proof fn lemma_cursor_after_in_text(
    t: Seq<char>,
    edit: NoteEdit,
    cursor: int,
    selection: Option<(usize, usize)>,
)
    requires
        edit_applicable(t, cursor, selection),
    ensures
        edit_applicable(
            edited_note_text(t, edit, cursor, selection),
            cursor_after(t, edit, cursor, selection),
            None,
        ),
{
    if let Some((start, len)) = selection {
        lemma_selection_cut(t, start as int, len as int);
    }
}

/// An edited note's text always ends with a line break.
pub proof fn lemma_edited_text_ends_with_line_break(
    t: Seq<char>,
    edit: NoteEdit,
    cursor: int,
    selection: Option<(usize, usize)>,
)
    ensures
        edited_note_text(t, edit, cursor, selection).len() > 0,
        edited_note_text(t, edit, cursor, selection).last() == '\n',
{
}

/// The undo and redo histories `u`, `r` and the text `t` before, and `u1`, `r1`, `t1` after
/// an edit: it is a new step on the undo history (the oldest steps dropped beyond
/// `MAX_UNDO_STEPS`) and the redo history is cleared; or, when the system clock has gone back
/// since the last step, it joins that step; or, when it changed nothing, nothing was
/// recorded.
pub open spec fn step_recorded(
    u: Seq<Seq<char>>,
    r: Seq<Seq<char>>,
    t: Seq<char>,
    u1: Seq<Seq<char>>,
    r1: Seq<Seq<char>>,
    t1: Seq<char>,
) -> bool {
    ||| u1 == pushed_step(u, t, MAX_UNDO_STEPS as nat) && r1.len() == 0
    ||| u.len() > 0 && u1 == u && r1.len() == 0
    ||| t1 == t && u1 == u && r1 == r
}

/// Undoing right after an edit recorded as a new step gives back the text from before the
/// edit, and the step can be redone.
pub proof fn lemma_undo_after_edit(
    u: Seq<Seq<char>>,
    t: Seq<char>,
    u1: Seq<Seq<char>>,
    r1: Seq<Seq<char>>,
    t1: Seq<char>,
    u2: Seq<Seq<char>>,
    r2: Seq<Seq<char>>,
    t2: Seq<char>,
)
    requires
        u1 == pushed_step(u, t, MAX_UNDO_STEPS as nat),
        step_taken(u1, r1, t1, u2, r2, t2),
    ensures
        t2 == t,
        t2 != t1 ==> r2 == r1.push(t1),
{
}

/// The note being edited, with its undo history.
pub struct NoteDocument {
    doc: NoteCrdt,
}

impl NoteDocument {
    /// The note's text.
    pub closed spec fn text(&self) -> Seq<char> {
        note_text(self.doc)
    }

    /// The document is attached to its latest version, so that edits apply to it.
    pub closed spec fn attached(&self) -> bool {
        !doc_detached(self.doc)
    }

    /// The texts that undoing each step gives, the last step last.
    pub closed spec fn undo_history(&self) -> Seq<Seq<char>> {
        undo_texts(self.doc)
    }

    /// The texts that redoing each undone step gives, the last undone step last.
    pub closed spec fn redo_history(&self) -> Seq<Seq<char>> {
        redo_texts(self.doc)
    }

    /// The note has its undo manager, every edit so far is a step of the undo history, the
    /// present text is its last checkpoint, and the history keeps `MAX_UNDO_STEPS` steps.
    pub closed spec fn settled(&self) -> bool {
        &&& pending_txn_len(self.doc) == 0
        &&& checkpoint_text(self.doc) == note_text(self.doc)
        &&& max_undo_steps(self.doc) == MAX_UNDO_STEPS
    }

    fn with_undo_manager(doc: LoroDoc) -> (r: NoteDocument)
        requires
            loro_pending_txn_len(doc) == 0,
        ensures
            r.text() == loro_text(doc),
            r.attached() == !loro_detached(doc),
            r.settled(),
            r.undo_history().len() == 0,
            r.redo_history().len() == 0,
    {
        let mut doc = start_undo_manager(doc);
        set_max_undo_steps(&mut doc, MAX_UNDO_STEPS);
        add_exclude_origin_prefix(&mut doc, INITIAL_ORIGIN);
        NoteDocument { doc }
    }

    /// An empty note with an empty undo history.
    pub fn new_empty() -> (r: NoteDocument)
        ensures
            r.text() == Seq::<char>::empty(),
            r.attached(),
            r.settled(),
            r.undo_history().len() == 0,
            r.redo_history().len() == 0,
    {
        NoteDocument::with_undo_manager(new_doc())
    }

    /// A note holding `content`, loaded so that undo cannot remove it; the loaded document is
    /// attached, so that edits apply to it.
    pub fn from_text(content: &str) -> (r: NoteDocument)
        ensures
            r.text() == content@,
            r.attached(),
            r.settled(),
            r.undo_history().len() == 0,
            r.redo_history().len() == 0,
    {
        let mut doc = new_doc();
        let mut loaded = start_undo_manager(new_doc());
        let _ = text_insert(&mut loaded, 0, content);
        assert(note_text(loaded) =~= content@);
        let bytes = export_all_updates(&mut loaded).unwrap();
        let _ = import_with(&mut doc, bytes.as_slice(), INITIAL_ORIGIN);
        NoteDocument::with_undo_manager(doc)
    }

    /// The note's text.
    pub fn text_string(&self) -> (s: String)
        ensures
            s@ == self.text(),
    {
        text_to_string(&self.doc)
    }

    /// Cuts out the selected bytes `start..start + len` of the text; returns the character
    /// where the selection began when the cut succeeded.
    fn cut_selection(&mut self, start: usize, len: usize) -> (r: Option<usize>)
        requires
            selection_valid(old(self).text(), start as int, len as int),
        ensures
            r matches Some(p) ==> final(self).text() == bytes_cut(
                old(self).text(),
                start as int,
                len as int,
            ) && p == char_position(old(self).text(), start as int) && p <= final(self).text().len(),
            r is None ==> final(self).text() == old(self).text(),
            old(self).attached() ==> r is Some,
            final(self).attached() == old(self).attached(),
            same_history(final(self).doc, old(self).doc),
            pending_txn_len(final(self).doc) > 0 <==> (pending_txn_len(old(self).doc) > 0 || (
            r is Some && len > 0)),
    {
        broadcast use vstd::utf8::group_utf8_lib;

        let ghost t0 = self.text();
        let current = text_to_string(&self.doc);
        let (head, _) = current.as_str().split_at(start);
        let p = head.unicode_len();
        proof {
            assert(encode_utf8(head@) =~= encode_utf8(t0).take(start as int));
            lemma_selection_cut(t0, start as int, len as int);
        }
        if !text_delete_utf8(&mut self.doc, start, len) {
            return None;
        }
        Some(p)
    }

    /// Applies an edit made in the editor with the cursor at character `cursor` and the
    /// selection `selection` (a byte range of the text), then ends the undo step. Returns the
    /// cursor after the edit when every step of the document succeeded, and then the text is
    /// the edited text. On an attached document every step succeeds, and the document stays
    /// attached.
    pub fn apply_edit(
        &mut self,
        edit: &NoteEdit,
        cursor: usize,
        selection: Option<(usize, usize)>,
    ) -> (r: Option<usize>)
        requires
            edit_applicable(old(self).text(), cursor as int, selection),
        ensures
            r matches Some(c) ==> final(self).text() == edited_note_text(
                old(self).text(),
                *edit,
                cursor as int,
                selection,
            ) && c == cursor_after(old(self).text(), *edit, cursor as int, selection),
            old(self).attached() ==> r is Some,
            final(self).attached() == old(self).attached(),
            old(self).settled() && r is Some ==> final(self).settled() && step_recorded(
                old(self).undo_history(),
                old(self).redo_history(),
                old(self).text(),
                final(self).undo_history(),
                final(self).redo_history(),
                final(self).text(),
            ),
    {
        let ghost t0 = self.text();
        let mut pos = cursor;
        if let Some((start, len)) = selection {
            match self.cut_selection(start, len) {
                Some(p) => {
                    pos = p;
                },
                None => {
                    return None;
                },
            }
        }
        let ghost t1 = self.text();
        assert(after_selection(t0, cursor as int, selection) == (t1, pos as int));
        let new_cursor = match self.edit_at(edit, pos, selection.is_some()) {
            Some(c) => c,
            None => {
                return None;
            },
        };
        if !self.end_with_line_break() {
            return None;
        }
        assert(self.text() != t0 ==> pending_txn_len(self.doc) > 0);
        if record_new_checkpoint(&mut self.doc) {
            Some(new_cursor)
        } else {
            None
        }
    }

    /// Makes the edit at character `pos`, once any selection was cut; returns where the cursor
    /// then stands.
    #[verifier::rlimit(50)]
    fn edit_at(&mut self, edit: &NoteEdit, pos: usize, had_selection: bool) -> (r: Option<usize>)
        requires
            pos <= old(self).text().len(),
        ensures
            r matches Some(c) ==> final(self).text() == edit_applied(
                old(self).text(),
                *edit,
                pos as int,
                had_selection,
            ) && c == cursor_moved(*edit, pos as int, had_selection) && c <= final(
            self).text().len(),
            old(self).attached() ==> r is Some,
            final(self).attached() == old(self).attached(),
            same_history(final(self).doc, old(self).doc),
            pending_txn_len(old(self).doc) > 0 ==> pending_txn_len(final(self).doc) > 0,
            final(self).text() != old(self).text() ==> pending_txn_len(final(self).doc) > 0,
    {
        let ghost t1 = self.text();
        let mut moved: usize = 0;
        let mut back = false;
        match edit {
            NoteEdit::Insert(c) => {
                let mut s = String::new();
                push_char(&mut s, *c);
                if !text_insert(&mut self.doc, pos, s.as_str()) {
                    return None;
                }
                assert(s@ =~= seq![*c]);
                moved = 1;
            },
            NoteEdit::Paste(p) => {
                if !text_insert(&mut self.doc, pos, p.as_str()) {
                    return None;
                }
                moved = p.as_str().unicode_len();
                assert(p@.len() == 0 ==> self.text() =~= t1);
            },
            NoteEdit::Enter => {
                let n = text_len(&self.doc);
                let at_last = n > 0 && n - 1 == pos;
                let mut keep = false;
                if at_last {
                    let current = text_to_string(&self.doc);
                    let bytes = current.as_str().as_bytes();
                    keep = pos < bytes.len() && bytes[pos] == 10;
                }
                if !keep {
                    proof {
                        reveal_strlit("\n");
                    }
                    if !text_insert(&mut self.doc, pos, "\n") {
                        return None;
                    }
                    assert("\n"@ =~= seq!['\n']);
                }
                moved = 1;
            },
            NoteEdit::Backspace => {
                if !had_selection && pos > 0 {
                    let n = text_len(&self.doc);
                    let ok = text_delete(&mut self.doc, pos - 1, 1);
                    if !ok && pos <= n {
                        return None;
                    }
                    back = true;
                }
            },
            NoteEdit::Delete => {
                if !had_selection {
                    let n = text_len(&self.doc);
                    let ok = text_delete(&mut self.doc, pos, 1);
                    if !ok && pos < n {
                        return None;
                    }
                }
            },
        }
        assert(self.text() == edit_applied(t1, *edit, pos as int, had_selection));
        let n2 = text_len(&self.doc);
        if back {
            Some(pos - 1)
        } else {
            assert(pos + moved <= n2);
            Some(pos + moved)
        }
    }

    /// Adds a line break at the end of the text unless it already ends with one; returns
    /// whether that succeeded.
    fn end_with_line_break(&mut self) -> (ok: bool)
        ensures
            ok ==> final(self).text() == with_final_line_break(old(self).text()),
            old(self).attached() ==> ok,
            final(self).attached() == old(self).attached(),
            same_history(final(self).doc, old(self).doc),
            pending_txn_len(old(self).doc) > 0 ==> pending_txn_len(final(self).doc) > 0,
            final(self).text() != old(self).text() ==> pending_txn_len(final(self).doc) > 0,
    {
        let ghost t2 = self.text();
        let current = text_to_string(&self.doc);
        let cs = crate::text::chars_of(current.as_str());
        let ends_with_break = cs.len() > 0 && cs[cs.len() - 1] == '\n';
        if !ends_with_break {
            let n = text_len(&self.doc);
            proof {
                reveal_strlit("\n");
            }
            if !text_insert(&mut self.doc, n, "\n") {
                return false;
            }
            assert("\n"@ =~= seq!['\n']);
            assert(self.text() =~= t2.push('\n'));
        }
        true
    }

    /// Whether an edit can be made with the cursor at character `cursor` and the selection
    /// `selection`: the selection is a valid byte range of the text, or, with nothing
    /// selected, the cursor stands inside the text.
    pub fn can_edit_at(&self, cursor: usize, selection: Option<(usize, usize)>) -> (r: bool)
        ensures
            r == edit_applicable(self.text(), cursor as int, selection),
    {
        match selection {
            Some((start, len)) => {
                let current = text_to_string(&self.doc);
                let s = current.as_str();
                assert(s@ == self.text());
                let n = s.as_bytes().len();
                start <= n && len <= n - start && s.is_char_boundary(start) && s.is_char_boundary(
                    start + len,
                )
            },
            None => cursor <= text_len(&self.doc),
        }
    }

    /// Applies the edits one after the other, the first with the cursor at character `cursor`
    /// and the selection `selection`, each later one where the cursor then stands. Returns
    /// whether every one succeeded; when they did, the text is the edited text. On an attached
    /// document they all succeed, and the document stays attached.
    pub fn apply_edits(
        &mut self,
        edits: &Vec<NoteEdit>,
        cursor: usize,
        selection: Option<(usize, usize)>,
    ) -> (applied: bool)
        requires
            edit_applicable(old(self).text(), cursor as int, selection),
        ensures
            applied ==> final(self).text() == edits_applied(
                old(self).text(),
                edits@,
                cursor as int,
                selection,
            ).0,
            old(self).attached() ==> applied,
            final(self).attached() == old(self).attached(),
            old(self).settled() && applied ==> final(self).settled(),
    {
        let ghost t0 = self.text();
        let mut c = cursor;
        let mut s = selection;
        let mut i: usize = 0;
        while i < edits.len()
            invariant
                0 <= i <= edits.len(),
                (self.text(), c as int) == edits_applied(t0, edits@.take(i as int), cursor as int, selection),
                s == (if i == 0 { selection } else { None }),
                edit_applicable(self.text(), c as int, s),
                self.attached() == old(self).attached(),
                old(self).settled() ==> self.settled(),
            decreases edits.len() - i,
        {
            let ghost before = self.text();
            let ghost bc = c;
            let ghost bs = s;
            match self.apply_edit(&edits[i], c, s) {
                Some(nc) => {
                    proof {
                        lemma_cursor_after_in_text(before, edits@[i as int], bc as int, bs);
                        let pre = edits@.take(i + 1);
                        if i > 0 {
                            assert(pre.drop_last() =~= edits@.take(i as int));
                        }
                        assert(pre.last() == edits@[i as int]);
                    }
                    c = nc;
                    s = None;
                },
                None => {
                    return false;
                },
            }
            i = i + 1;
        }
        assert(edits@.take(edits.len() as int) =~= edits@);
        true
    }

    /// Undoes the last edit. Returns the note's text afterwards when the undo succeeded; a
    /// failed undo leaves the text as it was. On an attached note whose edits are all
    /// recorded it succeeds (with nothing to undo, the text stays) and the note stays attached.
    pub fn undo(&mut self) -> (r: Option<String>)
        ensures
            r matches Some(s) ==> s@ == final(self).text(),
            r is None ==> final(self).text() == old(self).text(),
            old(self).settled() && old(self).attached() ==> r is Some && final(self).attached(),
            old(self).settled() ==> final(self).settled(),
            old(self).settled() && r is None ==> final(self).redo_history() == old(self).redo_history() && (final(self).undo_history() == old(self).undo_history() || final(self).undo_history() == old(self).undo_history().drop_last()),
            old(self).settled() && r is Some ==> step_taken(
                old(self).undo_history(),
                old(self).redo_history(),
                old(self).text(),
                final(self).undo_history(),
                final(self).redo_history(),
                final(self).text(),
            ),
    {
        if undo_step(&mut self.doc) {
            Some(text_to_string(&self.doc))
        } else {
            None
        }
    }

    /// Redoes the last undone edit. Returns the note's text afterwards when the redo succeeded;
    /// a failed redo leaves the text as it was. On an attached note whose edits are all
    /// recorded it succeeds (with nothing to redo, the text stays) and the note stays attached.
    pub fn redo(&mut self) -> (r: Option<String>)
        ensures
            r matches Some(s) ==> s@ == final(self).text(),
            r is None ==> final(self).text() == old(self).text(),
            old(self).settled() && old(self).attached() ==> r is Some && final(self).attached(),
            old(self).settled() ==> final(self).settled(),
            old(self).settled() && r is None ==> final(self).undo_history() == old(self).undo_history() && (final(self).redo_history() == old(self).redo_history() || final(self).redo_history() == old(self).redo_history().drop_last()),
            old(self).settled() && r is Some ==> step_taken(
                old(self).redo_history(),
                old(self).undo_history(),
                old(self).text(),
                final(self).redo_history(),
                final(self).undo_history(),
                final(self).text(),
            ),
    {
        if redo_step(&mut self.doc) {
            Some(text_to_string(&self.doc))
        } else {
            None
        }
    }
}

} // verus!
