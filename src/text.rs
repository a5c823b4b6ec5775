//! Fixed-length text layout on character counts.

use vstd::prelude::*;
use vstd::string::{StrSliceExecFns, StringExecFns};

verus! {

/// Relies on `String::push`: the character is appended at the end.
pub assume_specification[ String::push ](s: &mut String, ch: char)
    ensures
        final(s)@ == old(s)@.push(ch),
;

/// `n` space characters.
pub open spec fn spaces(n: nat) -> Seq<char> {
    Seq::new(n, |i: int| ' ')
}

/// `s` cut to its first `n` characters, or filled up with spaces to `n`.
pub open spec fn right_padded(s: Seq<char>, n: nat) -> Seq<char> {
    if s.len() >= n {
        s.subrange(0, n as int)
    } else {
        s + spaces((n - s.len()) as nat)
    }
}

/// `n` spaces when `k >= n`, else `k` spaces followed by `s`.
pub open spec fn left_padded(k: nat, s: Seq<char>, n: nat) -> Seq<char> {
    if k >= n {
        spaces(n)
    } else {
        spaces(k) + s
    }
}

/// Right padding yields exactly `n` characters, and padding the result to
/// the same length again leaves it unchanged.
pub proof fn right_pad_is_idempotent(s: Seq<char>, n: nat)
    ensures
        right_padded(s, n).len() == n,
        right_padded(right_padded(s, n), n) == right_padded(s, n),
{
    let p = right_padded(s, n);
    assert(p.len() == n);
    assert(p.subrange(0, n as int) =~= p);
}

/// Left padding at or past the length yields `n` spaces; before it, the
/// result is `k` spaces followed by the text itself.
pub proof fn left_pad_shape(k: nat, s: Seq<char>, n: nat)
    ensures
        k >= n ==> left_padded(k, s, n).len() == n && forall|i: int|
            0 <= i < n ==> left_padded(k, s, n)[i] == ' ',
        k < n ==> left_padded(k, s, n).subrange(0, k as int) == spaces(k),
        k < n ==> left_padded(k, s, n).subrange(k as int, (k + s.len()) as int) == s,
        k < n ==> left_padded(k, s, n).len() == k + s.len(),
{
    let p = left_padded(k, s, n);
    if k < n {
        assert(p.subrange(0, k as int) =~= spaces(k));
        assert(p.subrange(k as int, (k + s.len()) as int) =~= s);
    }
}

/// Appends `count` spaces to `s`.
fn push_spaces(s: &mut String, count: usize)
    ensures
        final(s)@ == old(s)@ + spaces(count as nat),
{
    let ghost start = s@;
    let mut i: usize = 0;
    while i < count
        invariant
            i <= count,
            s@ == start + spaces(i as nat),
        decreases count - i,
    {
        s.push(' ');
        i = i + 1;
        assert(s@ =~= start + spaces(i as nat));
    }
}

/// Pads `string_content` with spaces, or truncates it, to exactly `length`
/// characters.
pub fn right_pad(string_content: String, length: usize) -> (r: String)
    ensures
        r@ == right_padded(string_content@, length as nat),
        r@.len() == length,
{
    let char_count = string_content.as_str().unicode_len();
    if char_count == length {
        assert(string_content@.subrange(0, length as int) =~= string_content@);
        string_content
    } else if char_count > length {
        string_content.as_str().substring_char(0, length).to_owned()
    } else {
        let mut r = string_content;
        push_spaces(&mut r, length - char_count);
        r
    }
}

/// Shifts `string_content` right by `start_index` spaces; when `start_index`
/// reaches `length`, the result is `length` spaces instead.
pub fn left_pad(start_index: u16, string_content: String, length: u16) -> (r: String)
    ensures
        r@ == left_padded(start_index as nat, string_content@, length as nat),
{
    let mut r = String::new();
    if start_index >= length {
        push_spaces(&mut r, length as usize);
        assert(r@ =~= spaces(length as nat));
    } else {
        push_spaces(&mut r, start_index as usize);
        r.append(string_content.as_str());
        assert(r@ =~= spaces(start_index as nat) + string_content@);
    }
    r
}

/// Replaces the character at character position `index` of `content`.
pub fn replace_at(content: &mut String, character: char, index: u16)
    requires
        (index as nat) < old(content)@.len(),
    ensures
        final(content)@ == old(content)@.update(index as int, character),
{
    let len = content.as_str().unicode_len();
    let mut r = String::new();
    let mut i: usize = 0;
    while i < len
        invariant
            i <= len,
            len == content@.len(),
            (index as nat) < content@.len(),
            r@ =~= content@.update(index as int, character).subrange(0, i as int),
        decreases len - i,
    {
        if i == index as usize {
            r.push(character);
        } else {
            r.push(content.as_str().get_char(i));
        }
        i = i + 1;
    }
    assert(r@ =~= content@.update(index as int, character));
    *content = r;
}

} // verus!
