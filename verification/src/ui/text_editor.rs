//! A small modal line editor for form inputs: a character buffer, a cursor
//! position counted in characters, and an insert/normal mode flag.
use vstd::prelude::*;

use crate::strutil::alnum_char;
use crate::strutil::char_is_alphanumeric;
use crate::strutil::chars_of;
use crate::strutil::string_of;

verus! {

#[derive(Debug, Clone)]
pub struct TextEditor {
    content: Vec<char>,
    cursor_pos: usize,
    insert_mode: bool,
}

/// Whether the editor inserts `c` at all: alphanumeric characters only in
/// insert mode, while space, `-`, `:` and `/` are taken in either mode.
pub open spec fn spec_takes_char(insert_mode: bool, c: char) -> bool {
    (insert_mode && alnum_char(c)) || c == ' ' || c == '-' || c == ':' || c == '/'
}

impl TextEditor {
    pub closed spec fn spec_content(self) -> Seq<char> {
        self.content@
    }

    pub closed spec fn spec_cursor(self) -> int {
        self.cursor_pos as int
    }

    pub closed spec fn spec_insert_mode(self) -> bool {
        self.insert_mode
    }

    /// The cursor always sits within the content, at a character boundary.
    pub closed spec fn wf(self) -> bool {
        self.cursor_pos <= self.content@.len()
    }

    /// A fresh editor over `content`, cursor at the start, in insert mode.
    pub fn new(content: String) -> (r: TextEditor)
        ensures
            r.wf(),
            r.spec_content() == content@,
            r.spec_cursor() == 0,
            r.spec_insert_mode(),
    {
        TextEditor { content: chars_of(content.as_str()), cursor_pos: 0, insert_mode: true }
    }

    pub fn content(&self) -> (r: String)
        ensures
            r@ == self.spec_content(),
    {
        string_of(&self.content)
    }

    pub fn is_insert_mode(&self) -> (r: bool)
        ensures
            r == self.spec_insert_mode(),
    {
        self.insert_mode
    }

    pub fn toggle_mode(&mut self)
        ensures
            final(self).spec_insert_mode() == !old(self).spec_insert_mode(),
            final(self).spec_content() == old(self).spec_content(),
            final(self).spec_cursor() == old(self).spec_cursor(),
            old(self).wf() ==> final(self).wf(),
    {
        self.insert_mode = !self.insert_mode;
    }

    /// Insert `c` at the cursor when the mode and character allow it.
    pub fn insert_char(&mut self, c: char)
        requires
            old(self).wf(),
        ensures
            final(self).wf(),
            final(self).spec_insert_mode() == old(self).spec_insert_mode(),
            if spec_takes_char(old(self).spec_insert_mode(), c) {
                final(self).spec_content() == old(self).spec_content().insert(
                    old(self).spec_cursor(),
                    c,
                ) && final(self).spec_cursor() == old(self).spec_cursor() + 1
            } else {
                *final(self) == *old(self)
            },
    {
        let take = (self.insert_mode && char_is_alphanumeric(c)) || c == ' ' || c == '-' || c
            == ':' || c == '/';
        if take {
            self.content.insert(self.cursor_pos, c);
            let n = self.content.len();
            assert(self.cursor_pos < n);
            self.cursor_pos = self.cursor_pos + 1;
        }
    }

    /// In insert mode, remove the character before the cursor.
    pub fn backspace(&mut self)
        requires
            old(self).wf(),
        ensures
            final(self).wf(),
            final(self).spec_insert_mode() == old(self).spec_insert_mode(),
            if old(self).spec_insert_mode() && old(self).spec_cursor() > 0 {
                final(self).spec_content() == old(self).spec_content().remove(
                    old(self).spec_cursor() - 1,
                ) && final(self).spec_cursor() == old(self).spec_cursor() - 1
            } else {
                *final(self) == *old(self)
            },
    {
        if self.insert_mode && self.cursor_pos > 0 {
            self.cursor_pos = self.cursor_pos - 1;
            self.content.remove(self.cursor_pos);
        }
    }

    /// Move the cursor one character left, stopping at the start.
    pub fn move_left(&mut self)
        ensures
            final(self).spec_content() == old(self).spec_content(),
            final(self).spec_insert_mode() == old(self).spec_insert_mode(),
            final(self).spec_cursor() == (if old(self).spec_cursor() > 0 {
                old(self).spec_cursor() - 1
            } else {
                0int
            }),
            old(self).wf() ==> final(self).wf(),
    {
        if self.cursor_pos > 0 {
            self.cursor_pos = self.cursor_pos - 1;
        }
    }

    /// Move the cursor one character right, stopping at the end.
    pub fn move_right(&mut self)
        requires
            old(self).wf(),
        ensures
            final(self).wf(),
            final(self).spec_content() == old(self).spec_content(),
            final(self).spec_insert_mode() == old(self).spec_insert_mode(),
            final(self).spec_cursor() == (if old(self).spec_cursor() < old(
                self,
            ).spec_content().len() {
                old(self).spec_cursor() + 1
            } else {
                old(self).spec_cursor()
            }),
    {
        if self.cursor_pos < self.content.len() {
            self.cursor_pos = self.cursor_pos + 1;
        }
    }

    pub fn move_to_start(&mut self)
        ensures
            final(self).spec_content() == old(self).spec_content(),
            final(self).spec_insert_mode() == old(self).spec_insert_mode(),
            final(self).spec_cursor() == 0,
            final(self).wf(),
    {
        self.cursor_pos = 0;
    }

    pub fn move_to_end(&mut self)
        ensures
            final(self).spec_content() == old(self).spec_content(),
            final(self).spec_insert_mode() == old(self).spec_insert_mode(),
            final(self).spec_cursor() == old(self).spec_content().len(),
            final(self).wf(),
    {
        self.cursor_pos = self.content.len();
    }

    /// Delete the character under the cursor, when there is one.
    pub fn delete_char(&mut self)
        requires
            old(self).wf(),
        ensures
            final(self).wf(),
            final(self).spec_insert_mode() == old(self).spec_insert_mode(),
            final(self).spec_cursor() == old(self).spec_cursor(),
            if old(self).spec_cursor() < old(self).spec_content().len() {
                final(self).spec_content() == old(self).spec_content().remove(
                    old(self).spec_cursor(),
                )
            } else {
                final(self).spec_content() == old(self).spec_content()
            },
    {
        if self.cursor_pos < self.content.len() {
            self.content.remove(self.cursor_pos);
        }
    }

    /// Delete everything from the cursor to the end of the line.
    pub fn delete_to_end(&mut self)
        requires
            old(self).wf(),
        ensures
            final(self).wf(),
            final(self).spec_insert_mode() == old(self).spec_insert_mode(),
            final(self).spec_cursor() == old(self).spec_cursor(),
            final(self).spec_content() == old(self).spec_content().take(old(self).spec_cursor()),
    {
        self.content.truncate(self.cursor_pos);
    }

    /// Delete the whole content and move the cursor to the start.
    pub fn delete_all(&mut self)
        ensures
            final(self).wf(),
            final(self).spec_insert_mode() == old(self).spec_insert_mode(),
            final(self).spec_cursor() == 0,
            final(self).spec_content() == Seq::<char>::empty(),
    {
        self.content.clear();
        self.cursor_pos = 0;
    }

    pub fn cursor_pos(&self) -> (r: usize)
        ensures
            r == self.spec_cursor(),
    {
        self.cursor_pos
    }

    /// Replace the content and put the cursor at its end.
    pub fn set_content(&mut self, content: String)
        ensures
            final(self).wf(),
            final(self).spec_insert_mode() == old(self).spec_insert_mode(),
            final(self).spec_content() == content@,
            final(self).spec_cursor() == content@.len(),
    {
        self.content = chars_of(content.as_str());
        self.cursor_pos = self.content.len();
    }

    /// Empty the content and move the cursor to the start.
    pub fn clear(&mut self)
        ensures
            final(self).wf(),
            final(self).spec_insert_mode() == old(self).spec_insert_mode(),
            final(self).spec_cursor() == 0,
            final(self).spec_content() == Seq::<char>::empty(),
    {
        self.content.clear();
        self.cursor_pos = 0;
    }
}

} // verus!
