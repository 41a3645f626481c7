//! Character-position string helpers for the input fields: splitting
//! at a cursor, truncating with an ellipsis, and editing a line buffer.

use vstd::prelude::*;

use crate::strutil::push_char;

verus! {

/// The smaller of two mathematical integers.
pub open spec fn min_i(a: int, b: int) -> int {
    if a < b {
        a
    } else {
        b
    }
}

/// Split a string at a character position, clamped to its length.
pub fn split_at_char_pos(s: &str, pos: usize) -> (r: (&str, &str))
    ensures
        r.0@ == s@.take(min_i(pos as int, s@.len() as int)),
        r.1@ == s@.skip(min_i(pos as int, s@.len() as int)),
{
    let n = s.unicode_len();
    let p = if pos < n {
        pos
    } else {
        n
    };
    let head = s.substring_char(0, p);
    let tail = s.substring_char(p, n);
    proof {
        assert(s@.subrange(0, p as int) =~= s@.take(p as int));
        assert(s@.subrange(p as int, s@.len() as int) =~= s@.skip(p as int));
    }
    (head, tail)
}

/// Shorten a string to at most `max` characters; when it is longer,
/// the last kept character becomes an ellipsis (unless `max` is too
/// small even for that).
pub fn truncate(s: &str, max: usize) -> (r: String)
    ensures
        s@.len() <= max ==> r@ == s@,
        s@.len() > max && max <= 3 ==> r@ == s@.take(max as int),
        s@.len() > max && max > 3 ==> r@ == s@.take(max as int - 1) + seq!['\u{2026}'],
{
    let count = s.unicode_len();
    if count <= max {
        String::from_str(s)
    } else if max <= 3 {
        proof {
            assert(s@.subrange(0, max as int) =~= s@.take(max as int));
        }
        String::from_str(s.substring_char(0, max))
    } else {
        proof {
            assert(s@.subrange(0, max as int - 1) =~= s@.take(max as int - 1));
        }
        let mut t = String::from_str(s.substring_char(0, max - 1));
        push_char(&mut t, '\u{2026}');
        t
    }
}

/// The window of an input line shown in a fixed-width field, with a
/// `|` marking the cursor and ellipses marking text scrolled out of
/// view on either side.
pub open spec fn spec_visible_input(input: Seq<char>, cursor: int, max_chars: int) -> Seq<char> {
    let n = input.len() as int;
    if n < max_chars {
        let bp = min_i(cursor, n);
        input.take(bp) + seq!['|'] + input.skip(bp)
    } else {
        let budget = max_chars - 1;
        let half = budget / 2;
        let start0 = if cursor >= half {
            cursor - half
        } else {
            0
        };
        let end0 = start0 + budget;
        let start1 = if end0 > n {
            n - budget
        } else {
            start0
        };
        let end1 = if end0 > n {
            n
        } else {
            end0
        };
        let left_ell = start1 > 0;
        let right_ell = end1 < n;
        let start2 = if left_ell {
            start1 + 1
        } else {
            start1
        };
        let end2 = if right_ell && end1 > start2 {
            end1 - 1
        } else {
            end1
        };
        let visible = input.subrange(start2, end2);
        let cv = if cursor >= start2 {
            cursor - start2
        } else {
            0
        };
        let split = min_i(cv, visible.len() as int);
        (if left_ell {
            seq!['\u{2026}']
        } else {
            Seq::<char>::empty()
        }) + visible.take(split) + seq!['|'] + visible.skip(split) + (if right_ell {
            seq!['\u{2026}']
        } else {
            Seq::<char>::empty()
        })
    }
}

/// Render an input line into a field of `max_chars` characters: the
/// whole line with a cursor bar when it fits, else a window around the
/// cursor with ellipses at the clipped ends.
pub fn visible_input(input: &str, cursor_pos: usize, max_chars: usize) -> (r: String)
    requires
        max_chars >= 2,
        cursor_pos <= input@.len(),
        input@.len() < usize::MAX / 2,
    ensures
        r@ == spec_visible_input(input@, cursor_pos as int, max_chars as int),
{
    let n = input.unicode_len();
    if n < max_chars {
        let (before, after) = split_at_char_pos(input, cursor_pos);
        let mut out = String::from_str(before);
        push_char(&mut out, '|');
        out.append(after);
        return out;
    }
    let budget = max_chars - 1;
    let half = budget / 2;
    let start0 = if cursor_pos >= half {
        cursor_pos - half
    } else {
        0
    };
    let end0 = start0 + budget;
    let mut start = if end0 > n {
        n - budget
    } else {
        start0
    };
    let mut end = if end0 > n {
        n
    } else {
        end0
    };
    let left_ell = start > 0;
    let right_ell = end < n;
    if left_ell {
        start = start + 1;
    }
    if right_ell && end > start {
        end = end - 1;
    }
    let visible = input.substring_char(start, end);
    let cv = if cursor_pos >= start {
        cursor_pos - start
    } else {
        0
    };
    let (before, after) = split_at_char_pos(visible, cv);
    let mut out = String::new();
    if left_ell {
        push_char(&mut out, '\u{2026}');
    }
    out.append(before);
    push_char(&mut out, '|');
    out.append(after);
    if right_ell {
        push_char(&mut out, '\u{2026}');
    }
    out
}

/// Insert a character at the cursor's character position (clamped to
/// the end) and advance the cursor.
pub fn input_insert(s: &mut String, cursor: &mut usize, c: char)
    requires
        *old(cursor) < usize::MAX,
    ensures
        final(s)@ == old(s)@.take(min_i(*old(cursor) as int, old(s)@.len() as int)) + seq![c]
            + old(s)@.skip(min_i(*old(cursor) as int, old(s)@.len() as int)),
        *final(cursor) == *old(cursor) + 1,
{
    let n = s.as_str().unicode_len();
    let p = if *cursor < n {
        *cursor
    } else {
        n
    };
    let mut t = {
        let ss = s.as_str();
        let mut t = String::from_str(ss.substring_char(0, p));
        push_char(&mut t, c);
        t.append(ss.substring_char(p, n));
        t
    };
    proof {
        assert(old(s)@.subrange(0, p as int) =~= old(s)@.take(p as int));
        assert(old(s)@.subrange(p as int, old(s)@.len() as int) =~= old(s)@.skip(p as int));
    }
    *s = t;
    *cursor = *cursor + 1;
}

/// Delete the character before the cursor, if any, and move the
/// cursor back.  The cursor never points past the end of the buffer.
pub fn input_backspace(s: &mut String, cursor: &mut usize)
    requires
        *old(cursor) <= old(s)@.len(),
    ensures
        *old(cursor) == 0 ==> *final(s) == *old(s) && *final(cursor) == 0,
        *old(cursor) > 0 ==> final(s)@ == old(s)@.take(*old(cursor) - 1) + old(s)@.skip(
            *old(cursor) as int,
        ) && *final(cursor) == *old(cursor) - 1,
{
    if *cursor == 0 {
        return ;
    }
    let n = s.as_str().unicode_len();
    let p = *cursor - 1;
    let mut t = {
        let ss = s.as_str();
        let mut t = String::from_str(ss.substring_char(0, p));
        t.append(ss.substring_char(p + 1, n));
        t
    };
    proof {
        assert(old(s)@.subrange(0, p as int) =~= old(s)@.take(p as int));
        assert(old(s)@.subrange(p + 1, old(s)@.len() as int) =~= old(s)@.skip(p + 1));
    }
    *s = t;
    *cursor = p;
}

} // verus!
