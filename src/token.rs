//! Splitting an input line: only its first whitespace-separated word matters.

use vstd::prelude::*;

verus! {

/// The Unicode `White_Space` characters.
pub open spec fn is_space(c: char) -> bool {
    let u = c as u32;
    (0x9 <= u && u <= 0xd) || u == 0x20 || u == 0x85 || u == 0xa0 || u == 0x1680
        || (0x2000 <= u && u <= 0x200a) || u == 0x2028 || u == 0x2029 || u == 0x202f
        || u == 0x205f || u == 0x3000
}

/// Whether `c` is a Unicode `White_Space` character.
pub fn is_space_char(c: char) -> (r: bool)
    ensures
        r == is_space(c),
{
    let u = c as u32;
    (0x9 <= u && u <= 0xd) || u == 0x20 || u == 0x85 || u == 0xa0 || u == 0x1680
        || (0x2000 <= u && u <= 0x200a) || u == 0x2028 || u == 0x2029 || u == 0x202f
        || u == 0x205f || u == 0x3000
}

/// The first index at or after `i` that holds no space, or the length.
pub open spec fn skip_space(s: Seq<char>, i: int) -> int
    decreases s.len() - i,
{
    if i < 0 || i >= s.len() {
        s.len() as int
    } else if is_space(s[i]) {
        skip_space(s, i + 1)
    } else {
        i
    }
}

/// The first index at or after `i` that holds a space, or the length.
pub open spec fn skip_word(s: Seq<char>, i: int) -> int
    decreases s.len() - i,
{
    if i < 0 || i >= s.len() {
        s.len() as int
    } else if is_space(s[i]) {
        i
    } else {
        skip_word(s, i + 1)
    }
}

/// The first word of `s`, or `None` when `s` holds only spaces.
pub open spec fn first_word(s: Seq<char>) -> Option<Seq<char>> {
    let start = skip_space(s, 0);
    if start >= s.len() {
        None
    } else {
        Some(s.subrange(start, skip_word(s, start)))
    }
}

/// The first whitespace-separated word of `line`.
pub fn first_token(line: &str) -> (r: Option<String>)
    ensures
        match first_word(line@) {
            None => r is None,
            Some(w) => r matches Some(t) && t@ == w,
        },
{
    let n = line.unicode_len();
    let mut i: usize = 0;
    while i < n && is_space_char(line.get_char(i))
        invariant
            n == line@.len(),
            i <= n,
            skip_space(line@, 0) == skip_space(line@, i as int),
        decreases n - i,
    {
        i = i + 1;
    }
    if i >= n {
        return None;
    }
    let start = i;
    while i < n && !is_space_char(line.get_char(i))
        invariant
            n == line@.len(),
            start <= i <= n,
            skip_word(line@, start as int) == skip_word(line@, i as int),
        decreases n - i,
    {
        i = i + 1;
    }
    let word = line.substring_char(start, i);
    Some(String::from_str(word))
}

} // verus!
