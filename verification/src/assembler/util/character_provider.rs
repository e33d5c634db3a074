//! A cursor over source characters that skips whitespace and `//` comments
//! and tracks line/column positions.

use vstd::prelude::*;
use vstd::string::StrSliceExecFns;

use crate::assembler::token::Position;

verus! {

/// Whether the scanner treats a character as whitespace.
pub open spec fn spec_is_space(c: char) -> bool {
    c == ' ' || c == '\t' || c == '\r' || c == '\n'
}

/// The index of the next significant character at or after `i`: whitespace
/// is skipped, and a `//` starts a comment that runs through the end of its
/// line. `in_comment` carries the scan state across a comment's characters.
pub open spec fn next_significant(s: Seq<char>, i: int, in_comment: bool) -> int
    recommends
        0 <= i <= s.len(),
    decreases s.len() - i,
{
    if i < 0 || i >= s.len() {
        s.len() as int
    } else if in_comment {
        if s[i] == '\n' {
            next_significant(s, i + 1, false)
        } else {
            next_significant(s, i + 1, true)
        }
    } else if spec_is_space(s[i]) {
        next_significant(s, i + 1, false)
    } else if s[i] == '/' && i + 1 < s.len() && s[i + 1] == '/' {
        next_significant(s, i + 2, true)
    } else {
        i
    }
}

/// Like `next_significant`, but spaces other than line breaks are
/// significant: only line breaks and comments are skipped. This is the rule
/// inside string literals.
pub open spec fn next_with_spaces_at(s: Seq<char>, i: int, in_comment: bool) -> int
    recommends
        0 <= i <= s.len(),
    decreases s.len() - i,
{
    if i < 0 || i >= s.len() {
        s.len() as int
    } else if in_comment {
        if s[i] == '\n' {
            next_with_spaces_at(s, i + 1, false)
        } else {
            next_with_spaces_at(s, i + 1, true)
        }
    } else if s[i] == '\n' {
        next_with_spaces_at(s, i + 1, false)
    } else if s[i] == '/' && i + 1 < s.len() && s[i + 1] == '/' {
        next_with_spaces_at(s, i + 2, true)
    } else {
        i
    }
}

/// The 1-based line the character at index `i` lies on: one more than the
/// number of line breaks before it.
pub open spec fn line_at(s: Seq<char>, i: int) -> int
    recommends
        0 <= i <= s.len(),
    decreases i,
{
    if i <= 0 {
        1
    } else {
        line_at(s, i - 1) + (if s[i - 1] == '\n' {
            1int
        } else {
            0int
        })
    }
}

/// The column of the cursor after consuming `i` characters: characters
/// consumed since the last line break.
pub open spec fn column_at(s: Seq<char>, i: int) -> int
    recommends
        0 <= i <= s.len(),
    decreases i,
{
    if i <= 0 {
        0
    } else if s[i - 1] == '\n' {
        0
    } else {
        column_at(s, i - 1) + 1
    }
}

/// The line is at most one more than the characters consumed, and the
/// column at most the characters consumed.
pub proof fn lemma_position_bounds(s: Seq<char>, i: int)
    requires
        0 <= i <= s.len(),
    ensures
        1 <= line_at(s, i) <= i + 1,
        0 <= column_at(s, i) <= i,
    decreases i,
{
    if i > 0 {
        lemma_position_bounds(s, i - 1);
    }
}

/// A cursor over the characters of one source text.
pub struct CharacterProvider {
    chars: Vec<char>,
    idx: usize,
    line: u32,
    column: u32,
}

impl CharacterProvider {
    /// The source characters.
    pub closed spec fn spec_chars(&self) -> Seq<char> {
        self.chars@
    }

    /// How many characters have been consumed.
    pub closed spec fn spec_idx(&self) -> int {
        self.idx as int
    }

    /// The cursor is within the text, the text is short enough for 32-bit
    /// positions, and the tracked line and column agree with the consumed
    /// prefix.
    pub closed spec fn wf(&self) -> bool {
        &&& self.idx <= self.chars@.len()
        &&& self.chars@.len() < 0xFFFF_FFFF
        &&& self.line == line_at(self.chars@, self.idx as int)
        &&& self.column == column_at(self.chars@, self.idx as int)
    }

    /// A well-formed cursor sits within its text.
    pub proof fn wf_facts(&self)
        requires
            self.wf(),
        ensures
            0 <= self.spec_idx() <= self.spec_chars().len(),
    {
    }

    /// Open a cursor at the start of `source`, on line 1, column 0.
    pub fn new(source: &str) -> (r: CharacterProvider)
        requires
            source@.len() < 0xFFFF_FFFF,
        ensures
            r.wf(),
            r.spec_chars() == source@,
            r.spec_idx() == 0,
    {
        let n = source.unicode_len();
        let mut chars: Vec<char> = Vec::new();
        let mut i: usize = 0;
        while i < n
            invariant
                i <= n,
                n == source@.len(),
                chars@ =~= source@.subrange(0, i as int),
            decreases n - i,
        {
            chars.push(source.get_char(i));
            proof {
                assert(chars@ =~= source@.subrange(0, i + 1));
            }
            i = i + 1;
        }
        proof {
            assert(chars@ =~= source@);
        }
        CharacterProvider { chars, idx: 0, line: 1, column: 0 }
    }

    /// The position of the cursor.
    pub fn current_position(&self) -> (r: Position)
        requires
            self.wf(),
        ensures
            r == (Position {
                line: line_at(self.spec_chars(), self.spec_idx()) as u32,
                column: column_at(self.spec_chars(), self.spec_idx()) as u32,
            }),
    {
        Position { line: self.line, column: self.column }
    }

    /// The 1-based line the cursor is on.
    pub fn current_line(&self) -> (r: u32)
        requires
            self.wf(),
        ensures
            r == line_at(self.spec_chars(), self.spec_idx()),
    {
        self.line
    }

    /// The column the cursor is on.
    pub fn current_column(&self) -> (r: u32)
        requires
            self.wf(),
        ensures
            r == column_at(self.spec_chars(), self.spec_idx()),
    {
        self.column
    }

    /// The next raw character, without consuming it.
    pub fn peek(&self) -> (r: Option<&char>)
        ensures
            match r {
                Some(c) => self.spec_idx() < self.spec_chars().len() && *c == self.spec_chars()[self.spec_idx()],
                None => self.spec_idx() >= self.spec_chars().len(),
            },
    {
        if self.idx < self.chars.len() {
            Some(&self.chars[self.idx])
        } else {
            None
        }
    }

    /// Consume one raw character, keeping the line and column in step.
    pub(crate) fn consume(&mut self) -> (r: char)
        requires
            old(self).wf(),
            old(self).spec_idx() < old(self).spec_chars().len(),
        ensures
            final(self).wf(),
            final(self).spec_chars() == old(self).spec_chars(),
            final(self).spec_idx() == old(self).spec_idx() + 1,
            r == old(self).spec_chars()[old(self).spec_idx()],
    {
        let c = self.chars[self.idx];
        proof {
            lemma_position_bounds(self.chars@, self.idx as int);
        }
        self.idx = self.idx + 1;
        if c == '\n' {
            self.line = self.line + 1;
            self.column = 0;
        } else {
            self.column = self.column + 1;
        }
        c
    }

    /// Consume a `//` comment through the end of its line. The cursor must
    /// stand right after the two slashes.
    fn filtered_comment(&mut self)
        requires
            old(self).wf(),
        ensures
            final(self).wf(),
            final(self).spec_chars() == old(self).spec_chars(),
            final(self).spec_idx() == after_comment(old(self).spec_chars(), old(self).spec_idx()),
            final(self).spec_idx() >= old(self).spec_idx(),
    {
        proof {
            lemma_after_comment_bounds(self.chars@, self.idx as int);
        }
        loop
            invariant
                self.wf(),
                self.spec_chars() == old(self).spec_chars(),
                self.spec_idx() >= old(self).spec_idx(),
                after_comment(self.spec_chars(), self.spec_idx()) == after_comment(
                    old(self).spec_chars(),
                    old(self).spec_idx(),
                ),
            decreases self.spec_chars().len() - self.spec_idx(),
        {
            if self.idx >= self.chars.len() {
                return ;
            }
            let c = self.consume();
            if c == '\n' {
                return ;
            }
        }
    }

    /// Consume and return the next significant character: whitespace and
    /// `//` comments are skipped; `None` when only skippable text remains.
    pub fn next(&mut self) -> (r: Option<char>)
        requires
            old(self).wf(),
        ensures
            final(self).wf(),
            final(self).spec_chars() == old(self).spec_chars(),
            ({
                let s = old(self).spec_chars();
                let j = next_significant(s, old(self).spec_idx(), false);
                if j < s.len() {
                    r == Some(s[j]) && final(self).spec_idx() == j + 1
                } else {
                    r == None::<char> && final(self).spec_idx() == s.len()
                }
            }),
    {
        loop
            invariant
                self.wf(),
                self.spec_chars() == old(self).spec_chars(),
                next_significant(self.spec_chars(), self.spec_idx(), false) == next_significant(
                    old(self).spec_chars(),
                    old(self).spec_idx(),
                    false,
                ),
            decreases self.spec_chars().len() - self.spec_idx(),
        {
            if self.idx >= self.chars.len() {
                return None;
            }
            let c = self.consume();
            if c == ' ' || c == '\t' || c == '\r' || c == '\n' {
                continue ;
            }
            if c == '/' && self.idx < self.chars.len() && self.chars[self.idx] == '/' {
                proof {
                    lemma_comment_skip(self.chars@, self.idx as int + 1);
                }
                let _ = self.consume();
                self.filtered_comment();
                continue ;
            }
            return Some(c);
        }
    }

    /// Consume and return the next character, keeping spaces: only line
    /// breaks and `//` comments are skipped. String literals read through
    /// this so that their spaces survive.
    pub fn next_with_spaces(&mut self) -> (r: Option<char>)
        requires
            old(self).wf(),
        ensures
            final(self).wf(),
            final(self).spec_chars() == old(self).spec_chars(),
            ({
                let s = old(self).spec_chars();
                let j = next_with_spaces_at(s, old(self).spec_idx(), false);
                if j < s.len() {
                    r == Some(s[j]) && final(self).spec_idx() == j + 1
                } else {
                    r == None::<char> && final(self).spec_idx() == s.len()
                }
            }),
    {
        loop
            invariant
                self.wf(),
                self.spec_chars() == old(self).spec_chars(),
                next_with_spaces_at(self.spec_chars(), self.spec_idx(), false)
                    == next_with_spaces_at(old(self).spec_chars(), old(self).spec_idx(), false),
            decreases self.spec_chars().len() - self.spec_idx(),
        {
            if self.idx >= self.chars.len() {
                return None;
            }
            let c = self.consume();
            if c == '\n' {
                continue ;
            }
            if c == '/' && self.idx < self.chars.len() && self.chars[self.idx] == '/' {
                proof {
                    lemma_comment_skip_spaces(self.chars@, self.idx as int + 1);
                }
                let _ = self.consume();
                self.filtered_comment();
                continue ;
            }
            return Some(c);
        }
    }
}

/// The index right after the line break that ends a comment starting at
/// `i`, or the end of the text.
pub open spec fn after_comment(s: Seq<char>, i: int) -> int
    recommends
        0 <= i <= s.len(),
    decreases s.len() - i,
{
    if i < 0 || i >= s.len() {
        s.len() as int
    } else if s[i] == '\n' {
        i + 1
    } else {
        after_comment(s, i + 1)
    }
}

/// Scanning for the next significant character never moves backwards and
/// ends within the text.
pub proof fn lemma_next_significant_bounds(s: Seq<char>, i: int, in_comment: bool)
    requires
        0 <= i <= s.len(),
    ensures
        i <= next_significant(s, i, in_comment) <= s.len(),
        i <= next_with_spaces_at(s, i, in_comment) <= s.len(),
    decreases s.len() - i,
{
    if i < s.len() {
        lemma_next_significant_bounds(s, i + 1, true);
        lemma_next_significant_bounds(s, i + 1, false);
        if i + 2 <= s.len() {
            lemma_next_significant_bounds(s, i + 2, true);
        }
    }
}

/// A comment never moves the cursor backwards, and ends within the text.
proof fn lemma_after_comment_bounds(s: Seq<char>, i: int)
    requires
        0 <= i <= s.len(),
    ensures
        i <= after_comment(s, i) <= s.len(),
    decreases s.len() - i,
{
    if i < s.len() && s[i] != '\n' {
        lemma_after_comment_bounds(s, i + 1);
    }
}

/// Scanning onward from inside a comment lands wherever scanning resumes
/// after the comment's line break.
proof fn lemma_comment_skip(s: Seq<char>, i: int)
    requires
        0 <= i <= s.len(),
    ensures
        next_significant(s, i, true) == next_significant(s, after_comment(s, i), false),
    decreases s.len() - i,
{
    if i < s.len() && s[i] != '\n' {
        lemma_comment_skip(s, i + 1);
    }
}

/// The space-keeping variant of `lemma_comment_skip`.
proof fn lemma_comment_skip_spaces(s: Seq<char>, i: int)
    requires
        0 <= i <= s.len(),
    ensures
        next_with_spaces_at(s, i, true) == next_with_spaces_at(s, after_comment(s, i), false),
    decreases s.len() - i,
{
    if i < s.len() && s[i] != '\n' {
        lemma_comment_skip_spaces(s, i + 1);
    }
}

} // verus!
