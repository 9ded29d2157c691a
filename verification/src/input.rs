use crate::utils::chars_to_string;
use vstd::prelude::*;

verus! {

/// Whether the interface is taking commands or task-name text.
#[derive(Debug, Clone, Copy, PartialEq, Eq, Structural)]
pub enum AppMode {
    Normal,
    Input,
}

impl Default for AppMode {
    fn default() -> (r: Self)
        ensures
            r == AppMode::Normal,
    {
        AppMode::Normal
    }
}

impl AppMode {
    pub open spec fn spec_toggle(self) -> AppMode {
        match self {
            AppMode::Normal => AppMode::Input,
            AppMode::Input => AppMode::Normal,
        }
    }

    /// The two modes alternate.
    pub fn toggle(self) -> (r: Self)
        ensures
            r == self.spec_toggle(),
    {
        match self {
            AppMode::Normal => AppMode::Input,
            AppMode::Input => AppMode::Normal,
        }
    }
}

/// How many bytes `c` takes in UTF-8.
pub open spec fn char_utf8_len(c: char) -> int {
    if (c as u32) < 0x80 {
        1
    } else if (c as u32) < 0x800 {
        2
    } else if (c as u32) < 0x10000 {
        3
    } else {
        4
    }
}

/// How many bytes the characters of `s` take in UTF-8.
pub open spec fn utf8_len(s: Seq<char>) -> int
    decreases s.len(),
{
    if s.len() == 0 {
        0
    } else {
        utf8_len(s.drop_last()) + char_utf8_len(s.last())
    }
}

/// Each prefix of `s` takes at most as many UTF-8 bytes as `s`, and extending
/// a prefix by one character adds that character's bytes.
pub proof fn lemma_utf8_len_prefix(s: Seq<char>, i: int)
    requires
        0 <= i <= s.len(),
    ensures
        0 <= utf8_len(s.take(i)),
        utf8_len(s.take(i)) <= utf8_len(s),
        i < s.len() ==> utf8_len(s.take(i + 1)) == utf8_len(s.take(i)) + char_utf8_len(s[i]),
    decreases s.len() - i,
{
    if i == s.len() {
        assert(s.take(i) =~= s);
        lemma_utf8_len_nonneg(s);
    } else {
        assert(s.take(i + 1).drop_last() =~= s.take(i));
        assert(s.take(i + 1).last() == s[i]);
        lemma_utf8_len_prefix(s, i + 1);
        lemma_utf8_len_nonneg(s.take(i));
    }
}

pub proof fn lemma_utf8_len_nonneg(s: Seq<char>)
    ensures
        0 <= utf8_len(s),
    decreases s.len(),
{
    if s.len() > 0 {
        lemma_utf8_len_nonneg(s.drop_last());
    }
}

fn char_len_utf8(c: char) -> (n: usize)
    ensures
        n == char_utf8_len(c),
{
    let u = c as u32;
    if u < 0x80 {
        1
    } else if u < 0x800 {
        2
    } else if u < 0x10000 {
        3
    } else {
        4
    }
}

/// A one-line editor for the task name: the entered characters and a cursor
/// position counted in characters.
#[derive(Debug)]
pub struct TaskInput {
    /// Current value of the input box.
    input: Vec<char>,
    /// Position of the cursor in the editor area.
    character_index: usize,
}

impl TaskInput {
    /// The entered text.
    pub closed spec fn text(self) -> Seq<char> {
        self.input@
    }

    /// The cursor position, in characters.
    pub closed spec fn cursor(self) -> int {
        self.character_index as int
    }

    /// The cursor never passes the end of the entered text.
    pub open spec fn wf(self) -> bool {
        0 <= self.cursor() <= self.text().len()
    }

    pub fn new() -> (t: Self)
        ensures
            t.wf(),
            t.text() == Seq::<char>::empty(),
            t.cursor() == 0,
    {
        Self { input: Vec::new(), character_index: 0 }
    }

    fn clamp_cursor(&self, new_cursor_pos: usize) -> (r: usize)
        ensures
            r == if new_cursor_pos <= self.text().len() {
                new_cursor_pos as int
            } else {
                self.text().len() as int
            },
    {
        if new_cursor_pos <= self.input.len() {
            new_cursor_pos
        } else {
            self.input.len()
        }
    }

    /// Step the cursor one character left, stopping at the left edge.
    pub fn move_cursor_left(&mut self)
        ensures
            final(self).text() == old(self).text(),
            final(self).cursor() == if old(self).cursor() <= old(self).text().len() {
                if old(self).cursor() == 0 {
                    0int
                } else {
                    old(self).cursor() - 1
                }
            } else {
                old(self).text().len() as int
            },
            old(self).wf() ==> final(self).wf(),
    {
        let cursor_moved_left = self.character_index.saturating_sub(1);
        self.character_index = self.clamp_cursor(cursor_moved_left);
    }

    /// Step the cursor one character right, stopping at the end of the text.
    pub fn move_cursor_right(&mut self)
        ensures
            final(self).text() == old(self).text(),
            final(self).cursor() == if old(self).cursor() + 1 <= old(self).text().len() {
                old(self).cursor() + 1
            } else {
                old(self).text().len() as int
            },
            final(self).wf(),
    {
        proof {
            // The entered text is held in a vector, so its length fits a usize.
            vstd::std_specs::vec::axiom_spec_len(&self.input);
        }
        let cursor_moved_right = self.character_index.saturating_add(1);
        self.character_index = self.clamp_cursor(cursor_moved_right);
    }

    /// Insert a character at the cursor and advance the cursor past it.
    pub fn enter_char(&mut self, new_char: char)
        requires
            old(self).wf(),
        ensures
            final(self).wf(),
            final(self).text() == old(self).text().insert(old(self).cursor(), new_char),
            final(self).cursor() == old(self).cursor() + 1,
    {
        self.input.insert(self.character_index, new_char);
        self.move_cursor_right();
    }

    /// The byte offset of the cursor in the UTF-8 encoding of the text.
    pub fn byte_index(&self) -> (i: usize)
        requires
            self.wf(),
            utf8_len(self.text()) <= usize::MAX,
        ensures
            i == utf8_len(self.text().take(self.cursor())),
    {
        let mut i: usize = 0;
        let mut total: usize = 0;
        proof {
            assert(self.text().take(0) =~= Seq::<char>::empty());
        }
        while i < self.character_index
            invariant
                0 <= i <= self.character_index,
                self.wf(),
                utf8_len(self.text()) <= usize::MAX,
                total == utf8_len(self.text().take(i as int)),
            decreases self.character_index - i,
        {
            proof {
                lemma_utf8_len_prefix(self.text(), i as int);
                lemma_utf8_len_prefix(self.text(), i + 1);
            }
            let c = self.input[i];
            total = total + char_len_utf8(c);
            i = i + 1;
        }
        total
    }

    /// The entered text so far, for display.
    pub fn current_text(&self) -> (s: String)
        ensures
            s@ == self.text(),
    {
        chars_to_string(&self.input)
    }

    /// Remove the character before the cursor and step the cursor back; at
    /// the left edge nothing changes.
    pub fn delete_char(&mut self)
        requires
            old(self).wf(),
        ensures
            final(self).wf(),
            final(self).text() == if old(self).cursor() == 0 {
                old(self).text()
            } else {
                old(self).text().remove(old(self).cursor() - 1)
            },
            final(self).cursor() == if old(self).cursor() == 0 {
                0int
            } else {
                old(self).cursor() - 1
            },
    {
        let is_not_cursor_leftmost = self.character_index != 0;
        if is_not_cursor_leftmost {
            let current_index = self.character_index;
            self.input.remove(current_index - 1);
            self.move_cursor_left();
        }
    }

    /// Put the cursor back at the start.
    pub fn reset_cursor(&mut self)
        ensures
            final(self).text() == old(self).text(),
            final(self).cursor() == 0,
            final(self).wf(),
    {
        self.character_index = 0;
    }

    /// Hand out the entered text and clear the editor.
    pub fn confirm_task(&mut self) -> (task: String)
        ensures
            task@ == old(self).text(),
            final(self).text() == Seq::<char>::empty(),
            final(self).cursor() == 0,
            final(self).wf(),
    {
        let task = chars_to_string(&self.input);
        self.input.clear();
        self.reset_cursor();
        task
    }

    /// Discard the entered text and clear the editor.
    pub fn break_input(&mut self)
        ensures
            final(self).text() == Seq::<char>::empty(),
            final(self).cursor() == 0,
            final(self).wf(),
    {
        self.input.clear();
        self.reset_cursor();
    }
}

} // verus!
