//! Input-line editing helpers: word-boundary scanning and deletion,
//! stated over the character sequence of the line.

use vstd::prelude::*;

use crate::strutil::{char_is_space, is_space};

verus! {

/// From position `p`, the nearest position at or before it whose character
/// is not ASCII whitespace, stopping at 0.
pub open spec fn back_skip_space(s: Seq<char>, p: int) -> int
    decreases p when 0 <= p < s.len()
{
    if p > 0 && is_space(s[p]) {
        back_skip_space(s, p - 1)
    } else {
        p
    }
}

/// From position `p`, the start of the word ending there: the nearest
/// position at or before it whose left neighbour is ASCII whitespace,
/// stopping at 0.
pub open spec fn back_skip_word(s: Seq<char>, p: int) -> int
    decreases p when 0 <= p < s.len()
{
    if p > 0 && !is_space(s[p - 1]) {
        back_skip_word(s, p - 1)
    } else {
        p
    }
}

/// The position of the previous word boundary before `cursor`: trailing
/// whitespace is skipped first, then the word before it.
pub open spec fn spec_word_boundary_backward(s: Seq<char>, cursor: int) -> int {
    if cursor <= 0 || s.len() == 0 {
        0
    } else {
        let p = if cursor < s.len() {
            cursor - 1
        } else {
            s.len() - 1
        };
        back_skip_word(s, back_skip_space(s, p))
    }
}

/// Find the position of the previous word boundary in input.
pub fn find_word_boundary_backward(input: &str, cursor_position: usize) -> (r: usize)
    ensures
        r == spec_word_boundary_backward(input@, cursor_position as int),
        r <= cursor_position,
        r <= input@.len(),
{
    if cursor_position == 0 {
        return 0;
    }
    let len = input.unicode_len();
    if len == 0 {
        return 0;
    }
    let mut pos: usize = if cursor_position < len {
        cursor_position - 1
    } else {
        len - 1
    };
    let ghost p0 = pos as int;
    while pos > 0 && char_is_space(input.get_char(pos))
        invariant
            len == input@.len(),
            0 <= pos < len,
            pos <= p0,
            back_skip_space(input@, p0) == back_skip_space(input@, pos as int),
        decreases pos,
    {
        pos -= 1;
    }
    proof {
        assert(back_skip_space(input@, p0) == pos as int);
    }
    let ghost p1 = pos as int;
    while pos > 0 && !char_is_space(input.get_char(pos - 1))
        invariant
            len == input@.len(),
            0 <= pos < len,
            pos <= p1,
            p1 <= p0,
            back_skip_word(input@, p1) == back_skip_word(input@, pos as int),
        decreases pos,
    {
        pos -= 1;
    }
    proof {
        assert(back_skip_word(input@, p1) == pos as int);
    }
    pos
}

/// From position `p`, the end of the word starting there: the nearest
/// position at or after it whose character is ASCII whitespace, stopping at
/// the end of `s`.
pub open spec fn fwd_skip_word(s: Seq<char>, p: int) -> int
    decreases s.len() - p when 0 <= p <= s.len()
{
    if p < s.len() && !is_space(s[p]) {
        fwd_skip_word(s, p + 1)
    } else {
        p
    }
}

/// From position `p`, the nearest position at or after it whose character
/// is not ASCII whitespace, stopping at the end of `s`.
pub open spec fn fwd_skip_space(s: Seq<char>, p: int) -> int
    decreases s.len() - p when 0 <= p <= s.len()
{
    if p < s.len() && is_space(s[p]) {
        fwd_skip_space(s, p + 1)
    } else {
        p
    }
}

/// The position of the next word boundary after `cursor`: the rest of the
/// current word is skipped first, then the whitespace after it.
pub open spec fn spec_word_boundary_forward(s: Seq<char>, cursor: int) -> int {
    if cursor >= s.len() {
        s.len() as int
    } else {
        fwd_skip_space(s, fwd_skip_word(s, cursor))
    }
}

/// Find the position of the next word boundary in input.
pub fn find_word_boundary_forward(input: &str, cursor_position: usize) -> (r: usize)
    ensures
        r == spec_word_boundary_forward(input@, cursor_position as int),
        cursor_position <= input@.len() ==> cursor_position <= r,
        r <= input@.len(),
{
    let len = input.unicode_len();
    if cursor_position >= len {
        return len;
    }
    let mut pos: usize = cursor_position;
    let ghost p0 = pos as int;
    while pos < len && !char_is_space(input.get_char(pos))
        invariant
            len == input@.len(),
            0 <= pos <= len,
            p0 <= pos,
            fwd_skip_word(input@, p0) == fwd_skip_word(input@, pos as int),
        decreases len - pos,
    {
        pos += 1;
    }
    proof {
        assert(fwd_skip_word(input@, p0) == pos as int);
    }
    let ghost p1 = pos as int;
    while pos < len && char_is_space(input.get_char(pos))
        invariant
            len == input@.len(),
            0 <= pos <= len,
            p1 <= pos,
            p0 <= p1,
            fwd_skip_space(input@, p1) == fwd_skip_space(input@, pos as int),
        decreases len - pos,
    {
        pos += 1;
    }
    proof {
        assert(fwd_skip_space(input@, p1) == pos as int);
    }
    pos
}

/// Delete the word before the cursor, returning the new line and the new
/// cursor position.
pub fn delete_word_backward(input: &str, cursor_position: usize) -> (r: (String, usize))
    requires
        cursor_position <= input@.len(),
    ensures
        r.1 == spec_word_boundary_backward(input@, cursor_position as int),
        r.0@ == input@.take(r.1 as int) + input@.skip(cursor_position as int),
{
    let new_pos = find_word_boundary_backward(input, cursor_position);
    let len = input.unicode_len();
    let head = input.substring_char(0, new_pos);
    let tail = input.substring_char(cursor_position, len);
    let mut out = String::from_str(head);
    out.append(tail);
    proof {
        assert(out@ =~= input@.take(new_pos as int) + input@.skip(cursor_position as int));
    }
    (out, new_pos)
}

/// Delete from the cursor to the end of the line.
pub fn delete_to_end(input: &str, cursor_position: usize) -> (r: String)
    requires
        cursor_position <= input@.len(),
    ensures
        r@ == input@.take(cursor_position as int),
{
    let head = input.substring_char(0, cursor_position);
    proof {
        assert(head@ =~= input@.take(cursor_position as int));
    }
    String::from_str(head)
}

/// Delete from the beginning of the line to the cursor.
pub fn delete_to_start(input: &str, cursor_position: usize) -> (r: String)
    requires
        cursor_position <= input@.len(),
    ensures
        r@ == input@.skip(cursor_position as int),
{
    let len = input.unicode_len();
    let tail = input.substring_char(cursor_position, len);
    proof {
        assert(tail@ =~= input@.skip(cursor_position as int));
    }
    String::from_str(tail)
}

} // verus!
