//! Decides when the Tab key opens the file picker, and what a picked file
//! does to the input line.
//!
//! The picker opens on Tab when the text between the last `@` of the line
//! and the cursor is still one word. Running the picker is the caller's
//! part: it asks `on_tab`, shows the picker where that says so, and hands
//! the outcome to `on_selection`.

use crate::text::{
    chars_of, contains_pattern, find_last, last_occurrence, lemma_last_occurrence, trim,
    trim_bounds,
};
use vstd::prelude::*;

verus! {

/// The text between the last `@` of the line and the cursor.
pub open spec fn text_after_at(line: Seq<char>, cursor: int) -> Seq<char> {
    line.subrange(last_occurrence(line, seq!['@']) + 1, cursor)
}

/// Whether Tab opens the picker: the line has an `@`, and what follows the
/// last one up to the cursor is blank or has no space.
pub open spec fn opens_picker(line: Seq<char>, cursor: int) -> bool {
    &&& last_occurrence(line, seq!['@']) >= 0
    &&& (trim(text_after_at(line, cursor)).len() == 0 || !contains_pattern(
        text_after_at(line, cursor),
        seq![' '],
    ))
}

/// The number of characters from the last `@` to the cursor.
pub open spec fn distance_to_at(line: Seq<char>, cursor: int) -> int {
    cursor - last_occurrence(line, seq!['@'])
}

/// The cursor is inside the line, and no `@` stands at or after it.
pub open spec fn cursor_follows_at(line: Seq<char>, cursor: int) -> bool {
    &&& 0 <= cursor <= line.len()
    &&& last_occurrence(line, seq!['@']) < cursor
}

/// What the Tab key does.
#[derive(Clone, Copy, Debug, PartialEq, Eq, Structural)]
pub enum TabAction {
    /// The key is left to its usual handling.
    Pass,
    /// The picker is shown; a picked file replaces this many characters
    /// before the cursor.
    OpenPicker { backward_chars: usize },
}

/// What the outcome of the picker does to the line.
#[derive(Debug, PartialEq, Eq)]
pub enum PickerCommand {
    /// Nothing changes.
    Noop,
    /// The characters before the cursor are replaced by the text.
    Replace { backward_chars: usize, text: String },
}

/// What a `PickerCommand` stands for.
pub enum PickerCommandView {
    Noop,
    Replace { backward_chars: nat, text: Seq<char> },
}

impl View for PickerCommand {
    type V = PickerCommandView;

    open spec fn view(&self) -> PickerCommandView {
        match self {
            PickerCommand::Noop => PickerCommandView::Noop,
            PickerCommand::Replace { backward_chars, text } => PickerCommandView::Replace {
                backward_chars: *backward_chars as nat,
                text: text@,
            },
        }
    }
}

/// The handler of the Tab key for `@` file references.
#[derive(Clone, Copy, Debug)]
pub struct FilePickerHandler;

impl FilePickerHandler {
    /// A handler. It keeps no state between keys.
    pub fn new() -> (handler: Self) {
        Self
    }

    /// Whether the cursor, after `cursor` characters of `line`, is inside
    /// the line and past every `@` of it.
    pub fn cursor_is_past_at(&self, line: &str, cursor: usize) -> (b: bool)
        ensures
            b == cursor_follows_at(line@, cursor as int),
    {
        let v = chars_of(line);
        let at_sign: Vec<char> = vec!['@'];
        assert(at_sign@ =~= seq!['@']);
        if cursor > v.len() {
            return false;
        }
        match find_last(&v, &at_sign) {
            Some(at) => at < cursor,
            None => true,
        }
    }

    /// Decides what Tab does on `line` with the cursor after `cursor`
    /// characters.
    pub fn on_tab(&self, line: &str, cursor: usize) -> (action: TabAction)
        requires
            cursor_follows_at(line@, cursor as int),
        ensures
            action == if opens_picker(line@, cursor as int) {
                TabAction::OpenPicker { backward_chars: distance_to_at(line@, cursor as int) as usize }
            } else {
                TabAction::Pass
            },
            opens_picker(line@, cursor as int) ==> 1 <= distance_to_at(line@, cursor as int)
                <= cursor,
    {
        let v = chars_of(line);
        let at_sign: Vec<char> = vec!['@'];
        let space: Vec<char> = vec![' '];
        assert(at_sign@ =~= seq!['@']);
        assert(space@ =~= seq![' ']);
        proof {
            lemma_last_occurrence(line@, seq!['@']);
        }
        match find_last(&v, &at_sign) {
            Some(at) => {
                let after = crate::text::string_of_range(&v, at + 1, cursor);
                let w = chars_of(after.as_str());
                let (start, end) = trim_bounds(&w);
                let blank = start == end;
                let spaced = find_last(&w, &space).is_some();
                proof {
                    lemma_last_occurrence(after@, seq![' ']);
                }
                if blank || !spaced {
                    TabAction::OpenPicker { backward_chars: cursor - at }
                } else {
                    TabAction::Pass
                }
            },
            None => TabAction::Pass,
        }
    }

    /// Turns the outcome of the picker into a command: a picked file
    /// replaces the text from the `@` to the cursor by `@` and its path;
    /// without a file nothing changes.
    pub fn on_selection(&self, backward_chars: usize, selected_file: Option<&str>) -> (command:
        PickerCommand)
        ensures
            command@ == match selected_file {
                Some(path) => PickerCommandView::Replace {
                    backward_chars: backward_chars as nat,
                    text: seq!['@'] + path@,
                },
                None => PickerCommandView::Noop,
            },
    {
        match selected_file {
            Some(path) => {
                let mut text = String::new();
                text.push('@');
                text.append(path);
                PickerCommand::Replace { backward_chars, text }
            },
            None => PickerCommand::Noop,
        }
    }
}

} // verus!
