//! The line and column coordinates that a reader reports, defined as pure
//! functions of the sequence of characters consumed so far.

use vstd::prelude::*;

verus! {

/// The line number after consuming the characters of `s`: one more than the
/// number of newline characters among them.
pub open spec fn line_after(s: Seq<char>) -> nat
    decreases s.len(),
{
    if s.len() == 0 {
        1
    } else if s.last() == '\n' {
        line_after(s.drop_last()) + 1
    } else {
        line_after(s.drop_last())
    }
}

/// The column number after consuming the characters of `s`: one more than the
/// number of characters consumed since the last newline, or since the start
/// when no newline has been consumed; it resets to 1 right after a newline.
pub open spec fn column_after(s: Seq<char>) -> nat
    decreases s.len(),
{
    if s.len() == 0 {
        1
    } else if s.last() == '\n' {
        1
    } else {
        column_after(s.drop_last()) + 1
    }
}

/// The line number can exceed the number of consumed characters by at most one.
pub proof fn lemma_line_after_le(s: Seq<char>)
    ensures
        line_after(s) <= s.len() + 1,
    decreases s.len(),
{
    if s.len() > 0 {
        lemma_line_after_le(s.drop_last());
    }
}

/// The column number can exceed the number of consumed characters by at most one.
pub proof fn lemma_column_after_le(s: Seq<char>)
    ensures
        column_after(s) <= s.len() + 1,
    decreases s.len(),
{
    if s.len() > 0 {
        lemma_column_after_le(s.drop_last());
    }
}

/// How one more consumed character moves the coordinates: a newline opens a
/// new line at column 1; any other character stays on the line, one column on.
pub proof fn lemma_position_step(s: Seq<char>, c: char)
    ensures
        c == '\n' ==> line_after(s.push(c)) == line_after(s) + 1,
        c == '\n' ==> column_after(s.push(c)) == 1,
        c != '\n' ==> line_after(s.push(c)) == line_after(s),
        c != '\n' ==> column_after(s.push(c)) == column_after(s) + 1,
{
    assert(s.push(c).drop_last() =~= s);
    assert(s.push(c).last() == c);
}

/// Taking one more element of a sequence appends exactly that element.
pub proof fn lemma_take_step(s: Seq<char>, i: int)
    requires
        0 <= i < s.len(),
    ensures
        s.take(i + 1) == s.take(i).push(s[i]),
{
    assert(s.take(i + 1) =~= s.take(i).push(s[i]));
}

} // verus!
