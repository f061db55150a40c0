//! The reader itself: a forward-only cursor over an in-memory text that
//! tracks its position as a line, a column, and a linear offset counted in
//! characters.

use vstd::prelude::*;
use crate::position::column_after;
use crate::position::lemma_column_after_le;
use crate::position::lemma_line_after_le;
use crate::position::lemma_position_step;
use crate::position::lemma_take_step;
use crate::position::line_after;

verus! {

/// A forward-only cursor over a text. The text itself is never mutated; the
/// cursor only moves forward, one character at a time, and every operation
/// either consumes a well-defined run of characters or consumes nothing.
pub struct Reader<'s> {
    /// The full input; positions and captured substrings address into it.
    pub text: &'s str,
    /// The number of characters of `text`, fixed at construction.
    pub length: usize,
    /// 1-based: one more than the number of newlines consumed.
    pub line: usize,
    /// 1-based: one more than the number of characters consumed since the
    /// last newline, or since the start.
    pub column: usize,
    /// How many characters have been consumed; also the index, in
    /// characters, of the next character to consume.
    pub offset: usize,
}

impl<'s> Reader<'s> {
    /// A reader is well formed when its cached length is the character count
    /// of its text, its offset stays within the text, and its line and
    /// column are exactly the coordinates after the consumed prefix.
    pub open spec fn wf(self) -> bool {
        &&& self.text@.len() < usize::MAX
        &&& self.length == self.text@.len()
        &&& self.offset <= self.length
        &&& self.line == line_after(self.text@.take(self.offset as int))
        &&& self.column == column_after(self.text@.take(self.offset as int))
    }

    /// Whether any characters remain to consume.
    pub open spec fn has_more(self) -> bool {
        self.offset < self.text@.len()
    }

    /// The next character to consume; meaningful only while `has_more()`.
    pub open spec fn head(self) -> char {
        self.text@[self.offset as int]
    }

    /// What lookahead sees: the next character, or nothing at end of input.
    pub open spec fn peeked(self) -> Option<char> {
        if self.has_more() {
            Some(self.head())
        } else {
            None
        }
    }

    /// Builds a reader standing at the start of `text`, at line 1, column 1,
    /// offset 0. The length bound keeps the position counters within
    /// machine integers however the text is consumed.
    pub fn new(text: &'s str) -> (r: Reader<'s>)
        requires
            text@.len() < usize::MAX,
        ensures
            r.wf(),
            r.text == text,
            r.offset == 0,
            r.line == 1,
            r.column == 1,
    {
        let length = text.unicode_len();
        proof {
            assert(text@.take(0) =~= Seq::<char>::empty());
        }
        Reader { text, length, line: 1, column: 1, offset: 0 }
    }

    /// Consumes and returns the next character, or returns nothing at end of
    /// input. A newline moves to the next line at column 1; any other
    /// character advances the column; every consumed character advances the
    /// offset by exactly one.
    pub fn next(&mut self) -> (r: Option<char>)
        requires
            old(self).wf(),
        ensures
            final(self).wf(),
            final(self).text == old(self).text,
            final(self).offset >= old(self).offset,
            r == old(self).peeked(),
            r is Some ==> final(self).offset == old(self).offset + 1,
            r == Some('\n') ==> final(self).line == old(self).line + 1 && final(self).column == 1,
            (r is Some && r != Some('\n')) ==> final(self).line == old(self).line
                && final(self).column == old(self).column + 1,
            r is None ==> *final(self) == *old(self),
    {
        if self.offset < self.length {
            let c = self.text.get_char(self.offset);
            proof {
                lemma_line_after_le(self.text@.take(self.offset as int));
                lemma_column_after_le(self.text@.take(self.offset as int));
                lemma_take_step(self.text@, self.offset as int);
                lemma_position_step(self.text@.take(self.offset as int), c);
            }
            if c == '\n' {
                self.line = self.line + 1;
                self.column = 1;
            } else {
                self.column = self.column + 1;
            }
            self.offset = self.offset + 1;
            Some(c)
        } else {
            None
        }
    }

    /// Returns the next character without consuming it, or nothing at end of
    /// input; the reader is not changed.
    pub fn peek(&self) -> (r: Option<char>)
        requires
            self.wf(),
        ensures
            r == self.peeked(),
    {
        if self.offset < self.length {
            Some(self.text.get_char(self.offset))
        } else {
            None
        }
    }

    /// The current `(line, column)` pair; read-only.
    pub fn position(&self) -> (r: (usize, usize))
        ensures
            r.0 == self.line,
            r.1 == self.column,
    {
        (self.line, self.column)
    }

    /// What a finished `consume_while(check)` call did to the reader: the
    /// text stands, the offset only grew, every consumed character was one
    /// the check function could accept, and the scan stopped either at end
    /// of input or at a character the check function could reject.
    pub open spec fn consumed_while<F: Fn(char) -> bool>(
        pre: Reader<'s>,
        post: Reader<'s>,
        check: F,
    ) -> bool {
        &&& post.wf()
        &&& post.text == pre.text
        &&& pre.offset <= post.offset <= pre.text@.len()
        &&& forall|i: int|
            pre.offset <= i < post.offset ==> call_ensures(check, (pre.text@[i],), true)
        &&& post.offset < pre.text@.len() ==> call_ensures(
            check,
            (pre.text@[post.offset as int],),
            false,
        )
    }

    /// Repeatedly peeks and, while the peeked character satisfies `check`,
    /// consumes it; stops at the first character that fails the check or at
    /// end of input. The check receives only the character value, never the
    /// reader itself.
    pub fn consume_while<F: Fn(char) -> bool>(&mut self, check: F)
        requires
            old(self).wf(),
            forall|c: char| #[trigger] call_requires(check, (c,)),
        ensures
            Self::consumed_while(*old(self), *final(self), check),
    {
        loop
            invariant
                self.wf(),
                self.text == old(self).text,
                old(self).offset <= self.offset <= self.text@.len(),
                forall|c: char| #[trigger] call_requires(check, (c,)),
                forall|i: int|
                    old(self).offset <= i < self.offset ==> call_ensures(
                        check,
                        (self.text@[i],),
                        true,
                    ),
            decreases self.text@.len() - self.offset,
        {
            match self.peek() {
                Some(c) => {
                    if check(c) {
                        self.next();
                    } else {
                        return;
                    }
                },
                None => {
                    return;
                },
            }
        }
    }

    /// Consumes characters as long as each is a member of `chars`; stops at
    /// the first character not in `chars` or at end of input.
    pub fn consume_any(&mut self, chars: &str)
        requires
            old(self).wf(),
        ensures
            final(self).wf(),
            final(self).text == old(self).text,
            old(self).offset <= final(self).offset <= old(self).text@.len(),
            forall|i: int|
                old(self).offset <= i < final(self).offset ==> chars@.contains(
                    old(self).text@[i],
                ),
            final(self).offset < old(self).text@.len() ==> !chars@.contains(
                old(self).text@[final(self).offset as int],
            ),
    {
        let check = |c: char| -> (r: bool)
            ensures
                r == chars@.contains(c),
            { str_has_char(chars, c) };
        self.consume_while(check);
    }

    /// Consumes characters as long as each differs from `target`; stops
    /// right before `target` (which is not consumed) or at end of input.
    pub fn consume_until_char(&mut self, target: char)
        requires
            old(self).wf(),
        ensures
            final(self).wf(),
            final(self).text == old(self).text,
            old(self).offset <= final(self).offset <= old(self).text@.len(),
            forall|i: int|
                old(self).offset <= i < final(self).offset ==> old(self).text@[i] != target,
            final(self).offset < old(self).text@.len() ==> old(self).text@[final(self).offset as int]
                == target,
    {
        let check = |c: char| -> (r: bool)
            ensures
                r == (c != target),
            { c != target };
        self.consume_while(check);
    }

    /// Consumes characters as long as each is an ASCII digit.
    pub fn consume_digits(&mut self)
        requires
            old(self).wf(),
        ensures
            final(self).wf(),
            final(self).text == old(self).text,
            old(self).offset <= final(self).offset <= old(self).text@.len(),
            forall|i: int|
                old(self).offset <= i < final(self).offset ==> crate::classes::is_digit_char(
                    old(self).text@[i],
                ),
            final(self).offset < old(self).text@.len() ==> !crate::classes::is_digit_char(
                old(self).text@[final(self).offset as int],
            ),
    {
        let check = |c: char| -> (r: bool)
            ensures
                r == crate::classes::is_digit_char(c),
            {
                let u = c as u32;
                0x30 <= u && u <= 0x39
            };
        self.consume_while(check);
    }

    /// Consumes characters as long as each is a space, a tab, or a newline.
    pub fn consume_whitespace(&mut self)
        requires
            old(self).wf(),
        ensures
            final(self).wf(),
            final(self).text == old(self).text,
            old(self).offset <= final(self).offset <= old(self).text@.len(),
            forall|i: int|
                old(self).offset <= i < final(self).offset ==> crate::classes::is_space_char(
                    old(self).text@[i],
                ),
            final(self).offset < old(self).text@.len() ==> !crate::classes::is_space_char(
                old(self).text@[final(self).offset as int],
            ),
    {
        let check = |c: char| -> (r: bool)
            ensures
                r == crate::classes::is_space_char(c),
            { c == ' ' || c == '\t' || c == '\n' };
        self.consume_while(check);
    }

    /// If the next character equals `target`, consumes and returns it;
    /// otherwise returns nothing and consumes nothing.
    pub fn read_char(&mut self, target: char) -> (r: Option<char>)
        requires
            old(self).wf(),
        ensures
            final(self).wf(),
            final(self).text == old(self).text,
            final(self).offset >= old(self).offset,
            old(self).peeked() == Some(target) ==> r == Some(target)
                && final(self).offset == old(self).offset + 1,
            old(self).peeked() != Some(target) ==> r is None && *final(self) == *old(self),
    {
        match self.peek() {
            Some(c) => {
                if c == target {
                    self.next();
                    Some(c)
                } else {
                    None
                }
            },
            None => None,
        }
    }

    /// Records the current offset, runs `block` on the reader, records the
    /// new offset, and returns the substring between the two offsets if the
    /// offset advanced, or nothing if it did not. The captured region is a
    /// slice of the original text, never a copy. The block may call any
    /// combination of the reader's operations; it is only asked to keep the
    /// reader well formed, on the same text, and moving forward.
    pub fn capture<F: Fn(&mut Reader<'s>)>(&mut self, block: F) -> (r: Option<&'s str>)
        requires
            old(self).wf(),
            forall|m: &mut Reader<'s>|
                mut_ref_current(m) == *old(self) ==> call_requires(block, (m,)),
            forall|m: &mut Reader<'s>| #[trigger]
                call_ensures(block, (m,), ()) ==> mut_ref_future(m).wf() && mut_ref_future(m).text
                    == mut_ref_current(m).text && mut_ref_current(m).offset <= mut_ref_future(
                    m,
                ).offset,
        ensures
            final(self).wf(),
            final(self).text == old(self).text,
            old(self).offset <= final(self).offset <= old(self).text@.len(),
            exists|m: &mut Reader<'s>|
                #[trigger] call_ensures(block, (m,), ()) && mut_ref_current(m) == *old(self)
                    && mut_ref_future(m) == *final(self),
            final(self).offset > old(self).offset ==> (r matches Some(s) && s@ == old(
                self,
            ).text@.subrange(old(self).offset as int, final(self).offset as int)),
            final(self).offset == old(self).offset ==> r is None,
    {
        let start = self.offset;
        block(self);
        let end = self.offset;
        if end > start {
            Some(self.text.substring_char(start, end))
        } else {
            None
        }
    }

    /// Tests the next character against the start class of the Name
    /// grammar; on a match, consumes and returns it, otherwise returns
    /// nothing and consumes nothing.
    pub fn read_name_start_char(&mut self) -> (r: Option<char>)
        requires
            old(self).wf(),
        ensures
            final(self).wf(),
            final(self).text == old(self).text,
            final(self).offset >= old(self).offset,
            (old(self).has_more() && crate::classes::is_name_start_char(old(self).head())) ==> r
                == Some(old(self).head()) && final(self).offset == old(self).offset + 1,
            !(old(self).has_more() && crate::classes::is_name_start_char(old(self).head())) ==> r
                is None && *final(self) == *old(self),
    {
        match self.peek() {
            Some(c) => {
                if crate::classes::check_name_start_char(c) {
                    self.next();
                    Some(c)
                } else {
                    None
                }
            },
            None => None,
        }
    }

    /// Tests the next character against the continuation class of the Name
    /// grammar — the start class or the continuation-only class; on a
    /// match, consumes and returns it, otherwise returns nothing and
    /// consumes nothing.
    pub fn read_name_char(&mut self) -> (r: Option<char>)
        requires
            old(self).wf(),
        ensures
            final(self).wf(),
            final(self).text == old(self).text,
            final(self).offset >= old(self).offset,
            (old(self).has_more() && crate::classes::is_name_char(old(self).head())) ==> r == Some(
                old(self).head(),
            ) && final(self).offset == old(self).offset + 1,
            !(old(self).has_more() && crate::classes::is_name_char(old(self).head())) ==> r is None
                && *final(self) == *old(self),
    {
        match self.read_name_start_char() {
            Some(c) => Some(c),
            None => match self.peek() {
                Some(c) => {
                    if crate::classes::check_name_extra_char(c) {
                        self.next();
                        Some(c)
                    } else {
                        None
                    }
                },
                None => None,
            },
        }
    }

    /// Whether the characters of `s` from `from` (exclusive) up to `to`
    /// (exclusive) all belong to the continuation class, and the scan had to
    /// stop at `to`: either the text ends there or the character there is
    /// not a continuation character.
    pub open spec fn name_run(s: Seq<char>, from: int, to: int) -> bool {
        &&& from < to <= s.len()
        &&& forall|i: int| from < i < to ==> crate::classes::is_name_char(#[trigger] s[i])
        &&& to < s.len() ==> !crate::classes::is_name_char(s[to])
    }

    /// Recognizes one Name token via `capture`: one mandatory start
    /// character, then zero or more continuation characters. Returns the
    /// captured substring, or nothing — with nothing consumed — when the
    /// next character is not a start character or the input is exhausted.
    pub fn read_name(&mut self) -> (r: Option<&'s str>)
        requires
            old(self).wf(),
        ensures
            final(self).wf(),
            final(self).text == old(self).text,
            old(self).offset <= final(self).offset <= old(self).text@.len(),
            (old(self).has_more() && crate::classes::is_name_start_char(old(self).head())) ==> (
            Self::name_run(old(self).text@, old(self).offset as int, final(self).offset as int)
                && (r matches Some(s) && s@ == old(self).text@.subrange(
                old(self).offset as int,
                final(self).offset as int,
            ))),
            !(old(self).has_more() && crate::classes::is_name_start_char(old(self).head())) ==> (r
                is None && *final(self) == *old(self)),
    {
        let block = |reader: &mut Reader<'s>|
            requires
                old(reader).wf(),
            ensures
                final(reader).wf(),
                final(reader).text == old(reader).text,
                old(reader).offset <= final(reader).offset,
                (old(reader).has_more() && crate::classes::is_name_start_char(
                    old(reader).head(),
                )) ==> Self::name_run(
                    old(reader).text@,
                    old(reader).offset as int,
                    final(reader).offset as int,
                ),
                !(old(reader).has_more() && crate::classes::is_name_start_char(
                    old(reader).head(),
                )) ==> *final(reader) == *old(reader),
            {
                match reader.read_name_start_char() {
                    Some(_) => {
                        loop
                            invariant
                                reader.wf(),
                                reader.text == old(reader).text,
                                old(reader).offset < reader.offset <= reader.text@.len(),
                                forall|i: int|
                                    old(reader).offset < i < reader.offset
                                        ==> crate::classes::is_name_char(
                                        #[trigger] reader.text@[i],
                                    ),
                            ensures
                                reader.wf(),
                                reader.text == old(reader).text,
                                old(reader).offset < reader.offset <= reader.text@.len(),
                                forall|i: int|
                                    old(reader).offset < i < reader.offset
                                        ==> crate::classes::is_name_char(
                                        #[trigger] reader.text@[i],
                                    ),
                                !(reader.has_more() && crate::classes::is_name_char(
                                    reader.head(),
                                )),
                            decreases reader.text@.len() - reader.offset,
                        {
                            match reader.read_name_char() {
                                Some(_) => {},
                                None => {
                                    break;
                                },
                            }
                        }
                    },
                    None => {},
                }
            };
        self.capture(block)
    }

    /// The current offset: how many characters have been consumed.
    pub fn offset(&self) -> (r: usize)
        ensures
            r == self.offset,
    {
        self.offset
    }
}

/// Law: a `consume_while` call whose check function can only answer "no"
/// leaves the reader exactly where it stood — it never advances the
/// position.
pub proof fn lemma_consume_while_always_false<'s, F: Fn(char) -> bool>(
    pre: Reader<'s>,
    post: Reader<'s>,
    check: F,
)
    requires
        pre.wf(),
        forall|c: char, b: bool| #[trigger] call_ensures(check, (c,), b) ==> !b,
        Reader::consumed_while(pre, post, check),
    ensures
        post == pre,
{
    if post.offset > pre.offset {
        assert(call_ensures(check, (pre.text@[pre.offset as int],), true));
    }
}

/// Whether the character `c` occurs in `s`.
pub fn str_has_char(s: &str, c: char) -> (r: bool)
    ensures
        r == s@.contains(c),
{
    let len = s.unicode_len();
    let mut i: usize = 0;
    while i < len
        invariant
            len == s@.len(),
            0 <= i <= len,
            forall|j: int| 0 <= j < i ==> s@[j] != c,
        decreases len - i,
    {
        if s.get_char(i) == c {
            assert(s@.contains(c));
            return true;
        }
        i = i + 1;
    }
    false
}

} // verus!
