use idirfein::config::NotesPageConfig;
use idirfein::note_document::NoteEdit;
use idirfein::notes_page::{NotesAction, NotesPage, NotesPageMessage};

#[derive(Clone, Copy)]
enum Motion {
    Left,
    Right,
    Up,
    Down,
    WordLeft,
    PageUp,
    PageDown,
    DocumentStart,
    DocumentEnd,
}

enum Act {
    Insert(char),
    Paste(&'static str),
    Enter,
    Backspace,
    Delete,
    Move(Motion),
    Select(Motion),
}

/// A plain text editor: its text, the cursor, and where a selection started.
struct Editor {
    text: Vec<char>,
    cursor: usize,
    anchor: Option<usize>,
}

impl Editor {
    fn line_start(&self, at: usize) -> usize {
        self.text[..at].iter().rposition(|c| *c == '\n').map_or(0, |i| i + 1)
    }

    fn line_end(&self, at: usize) -> usize {
        self.text[at..].iter().position(|c| *c == '\n').map_or(self.text.len(), |i| at + i)
    }

    fn selection(&self) -> Option<(usize, usize)> {
        match self.anchor {
            Some(a) if a != self.cursor => Some((a.min(self.cursor), a.max(self.cursor))),
            _ => None,
        }
    }

    fn moved(&self, motion: Motion) -> usize {
        let c = self.cursor;
        match motion {
            Motion::Left => c.saturating_sub(1),
            Motion::Right => (c + 1).min(self.text.len()),
            Motion::Up | Motion::Down => {
                let start = self.line_start(c);
                let column = c - start;
                if matches!(motion, Motion::Up) {
                    if start == 0 {
                        return 0;
                    }
                    let above = self.line_start(start - 1);
                    (above + column).min(start - 1)
                } else {
                    let end = self.line_end(c);
                    if end == self.text.len() {
                        return self.text.len();
                    }
                    let below_end = self.line_end(end + 1);
                    (end + 1 + column).min(below_end)
                }
            }
            Motion::WordLeft => {
                let mut i = c;
                while i > 0 && self.text[i - 1].is_whitespace() {
                    i -= 1;
                }
                while i > 0 && !self.text[i - 1].is_whitespace() {
                    i -= 1;
                }
                i
            }
            Motion::PageUp | Motion::DocumentStart => 0,
            Motion::PageDown | Motion::DocumentEnd => self.text.len(),
        }
    }

    fn apply(&mut self, edit: &NoteEdit) {
        let had_selection = self.selection();
        if let Some((start, end)) = had_selection {
            self.text.drain(start..end);
            self.cursor = start;
        }
        self.anchor = None;
        match edit {
            NoteEdit::Insert(c) => {
                self.text.insert(self.cursor, *c);
                self.cursor += 1;
            }
            NoteEdit::Paste(s) => {
                for c in s.chars() {
                    self.text.insert(self.cursor, c);
                    self.cursor += 1;
                }
            }
            NoteEdit::Enter => {
                self.text.insert(self.cursor, '\n');
                self.cursor += 1;
            }
            NoteEdit::Backspace => {
                if had_selection.is_none() && self.cursor > 0 {
                    self.cursor -= 1;
                    self.text.remove(self.cursor);
                }
            }
            NoteEdit::Delete => {
                if had_selection.is_none() && self.cursor < self.text.len() {
                    self.text.remove(self.cursor);
                }
            }
        }
    }

    fn string(&self) -> String {
        self.text.iter().collect()
    }
}

/// What the note holds when the editor holds `text`: the text, ending with a line break.
fn with_final_line_break(text: &str) -> String {
    if text.ends_with('\n') {
        text.to_string()
    } else {
        format!("{text}\n")
    }
}

#[test]
fn loro_state_matches_editor_state() {
    let mut page = NotesPage::new(&NotesPageConfig::default(), None);
    let mut editor = Editor { text: vec![], cursor: 0, anchor: None };
    let actions = vec![
        Act::Insert('e'),
        Act::Insert('e'),
        Act::Delete,
        Act::Paste("appleja"),
        Act::Insert('x'),
        Act::Insert('p'),
        Act::Insert(' '),
        Act::Insert('u'),
        Act::Insert('l'),
        Act::Enter,
        Act::Move(Motion::Left),
        Act::Insert('C'),
        Act::Insert('T'),
        Act::Insert('Q'),
        Act::Select(Motion::Left),
        Act::Backspace,
        Act::Insert('p'),
        Act::Delete,
        Act::Insert('9'),
        Act::Paste("sancjncq"),
        Act::Paste("i\ncpiqnwoicnsancsa"),
        Act::Insert('k'),
        Act::Insert('a'),
        Act::Enter,
        Act::Backspace,
        Act::Insert('e'),
        Act::Insert('g'),
        Act::Insert('K'),
        Act::Move(Motion::Right),
        Act::Move(Motion::WordLeft),
        Act::Select(Motion::WordLeft),
        Act::Insert('3'),
        Act::Enter,
        Act::Paste("pajspiajoifuewbewnvckd"),
        Act::Backspace,
        Act::Delete,
        Act::Insert('e'),
        Act::Insert('e'),
        Act::Delete,
        Act::Paste("appleja"),
        Act::Select(Motion::PageUp),
        Act::Insert('x'),
        Act::Insert('p'),
        Act::Insert('u'),
        Act::Move(Motion::DocumentStart),
        Act::Insert('l'),
        Act::Enter,
        Act::Move(Motion::Left),
        Act::Insert('C'),
        Act::Insert('T'),
        Act::Insert('Q'),
        Act::Enter,
        Act::Backspace,
        Act::Move(Motion::Up),
        Act::Insert('p'),
        Act::Delete,
        Act::Insert('9'),
        Act::Paste("sancjncq"),
        Act::Move(Motion::Down),
        Act::Paste("i\ncpiqnwoicnsancsa"),
        Act::Insert('k'),
        Act::Insert('a'),
        Act::Move(Motion::PageDown),
        Act::Enter,
        Act::Backspace,
        Act::Insert('e'),
        Act::Insert('g'),
        Act::Move(Motion::DocumentEnd),
        Act::Insert('K'),
        Act::Insert('3'),
        Act::Enter,
        Act::Paste("pajspiajoifuewbewnvckd"),
        Act::Backspace,
        Act::Delete,
        Act::Insert('e'),
        Act::Insert('e'),
        Act::Delete,
        Act::Paste("appleja"),
        Act::Insert('x'),
        Act::Insert('p'),
        Act::Insert(' '),
        Act::Insert('u'),
        Act::Insert('l'),
        Act::Enter,
        Act::Move(Motion::Left),
        Act::Insert('C'),
        Act::Insert('T'),
        Act::Insert('Q'),
        Act::Select(Motion::Left),
        Act::Backspace,
        Act::Insert('p'),
        Act::Delete,
        Act::Insert('9'),
        Act::Paste("sancjncq"),
        Act::Paste("i\ncpiqnwoicnsancsa"),
        Act::Insert('k'),
        Act::Insert('a'),
        Act::Enter,
        Act::Backspace,
        Act::Insert('e'),
        Act::Insert('g'),
        Act::Insert('K'),
        Act::Move(Motion::Right),
        Act::Move(Motion::WordLeft),
        Act::Select(Motion::WordLeft),
        Act::Insert('3'),
        Act::Enter,
        Act::Paste("pajspiajoifuewbewnvckd"),
        Act::Backspace,
        Act::Delete,
        Act::Insert('e'),
        Act::Insert('e'),
        Act::Delete,
        Act::Paste("appleja"),
        Act::Select(Motion::PageUp),
        Act::Insert('x'),
        Act::Insert('p'),
        Act::Insert('u'),
        Act::Move(Motion::DocumentStart),
        Act::Insert('l'),
        Act::Enter,
        Act::Move(Motion::Left),
        Act::Insert('C'),
        Act::Insert('T'),
        Act::Insert('Q'),
        Act::Enter,
        Act::Backspace,
        Act::Move(Motion::Up),
        Act::Insert('p'),
        Act::Delete,
        Act::Insert('9'),
        Act::Paste("sancjncq"),
        Act::Move(Motion::Down),
        Act::Paste("i\ncpiqnwoicnsancsa"),
        Act::Insert('k'),
        Act::Insert('a'),
        Act::Move(Motion::PageDown),
        Act::Enter,
        Act::Backspace,
        Act::Insert('e'),
        Act::Insert('g'),
        Act::Move(Motion::DocumentEnd),
        Act::Insert('K'),
        Act::Insert('3'),
        Act::Enter,
        Act::Paste("pajspiajoifuewbewnvckd"),
        Act::Backspace,
        Act::Delete
    ];
    for (i, action) in actions.into_iter().enumerate() {
        let edit = match action {
            Act::Move(motion) => {
                editor.cursor = match editor.selection() {
                    Some((start, end)) if matches!(motion, Motion::Left) => start,
                    Some((start, end)) if matches!(motion, Motion::Right) => end.max(start),
                    _ => editor.moved(motion),
                };
                editor.anchor = None;
                None
            }
            Act::Select(motion) => {
                if editor.anchor.is_none() {
                    editor.anchor = Some(editor.cursor);
                }
                editor.cursor = editor.moved(motion);
                None
            }
            Act::Insert(c) => Some(NoteEdit::Insert(c)),
            Act::Paste(s) => Some(NoteEdit::Paste(s.to_string())),
            Act::Enter => Some(NoteEdit::Enter),
            Act::Backspace => Some(NoteEdit::Backspace),
            Act::Delete => Some(NoteEdit::Delete),
        };
        let Some(edit) = edit else { continue };
        let start = editor.line_start(editor.cursor);
        let line: String = editor.text[start..editor.line_end(editor.cursor)].iter().collect();
        let column = editor.cursor - start;
        let selection = editor.selection().map(|(s, e)| (s, e - s));
        match page.update(NotesPageMessage::Edit(Some(edit), Some(line), column, editor.cursor, selection)) {
            NotesAction::ApplyEdits { edits, then_move_left } => {
                for e in &edits {
                    editor.apply(e);
                }
                if then_move_left {
                    editor.cursor -= 1;
                }
            }
            _ => panic!("action {i}: expected the edits"),
        }
        assert_eq!(page.document.text_string(), with_final_line_break(&editor.string()), "action {i}");
    }
    for k in 0..21 {
        let message = if k < 9 { NotesPageMessage::Undo } else { NotesPageMessage::Redo };
        match page.update(message) {
            NotesAction::ShowText(t) => {
                editor.text = t.chars().collect();
                editor.cursor = editor.cursor.min(editor.text.len());
                editor.anchor = None;
            }
            NotesAction::Nothing => {}
            _ => panic!("expected the text after the undo or redo"),
        }
    }
    assert_eq!(editor.string(), page.document.text_string());
}
