use vstd::prelude::*;
use vstd::string::*;

verus! {

/// What `char::is_alphanumeric` of the standard library answers for `c`:
/// whether Unicode counts `c` as alphabetic or numeric.
pub uninterp spec fn unicode_alphanumeric(c: char) -> bool;

/// The scalars that may stand in a macro name: the ASCII letters and digits,
/// and beyond ASCII whatever Unicode counts as alphabetic or numeric.
pub open spec fn is_alnum(c: char) -> bool {
    if c <= '\x7f' {
        ('0' <= c && c <= '9') || ('A' <= c && c <= 'Z') || ('a' <= c && c <= 'z')
    } else {
        unicode_alphanumeric(c)
    }
}

/// The five scalars that a backslash turns into literal text.
pub open spec fn is_escapable(c: char) -> bool {
    c == '\\' || c == '#' || c == '%' || c == '{' || c == '}'
}

/// A macro name: one or more alphanumeric scalars.
pub open spec fn is_name(s: Seq<char>) -> bool {
    s.len() > 0 && forall|i: int| 0 <= i < s.len() ==> is_alnum(#[trigger] s[i])
}

/// Whether a backslash is waiting to escape the next scalar once `s` has been
/// read, given whether one was waiting before. A backslash escapes unless it is
/// itself escaped.
pub open spec fn escape_after(start: bool, s: Seq<char>) -> bool
    decreases s.len(),
{
    if s.len() == 0 {
        start
    } else {
        s.last() == '\\' && !escape_after(start, s.drop_last())
    }
}

/// Calls `char::is_alphanumeric` of the standard library. The contract only
/// names the answer; it claims nothing about which scalars qualify.
#[verifier::external_body]
fn unicode_alphanumeric_of(c: char) -> (b: bool)
    ensures
        b == unicode_alphanumeric(c),
{
    c.is_alphanumeric()
}

/// Whether `c` may stand in a macro name.
pub fn is_alphanumeric(c: char) -> (b: bool)
    ensures
        b == is_alnum(c),
{
    if c <= '\x7f' {
        ('0' <= c && c <= '9') || ('A' <= c && c <= 'Z') || ('a' <= c && c <= 'z')
    } else {
        unicode_alphanumeric_of(c)
    }
}

/// `String::push` of the standard library appends one scalar to the end of
/// the string.
pub assume_specification[ String::push ](s: &mut String, ch: char)
    ensures
        final(s)@ == old(s)@.push(ch),
;

/// The scalars of `s`, in order.
pub fn to_chars(s: &str) -> (v: Vec<char>)
    ensures
        v@ == s@,
{
    let mut v: Vec<char> = Vec::new();
    for c in it: s.chars()
        invariant
            v@ == s@.take(it.index() as int),
            it.seq() == s@,
    {
        v.push(c);
    }
    proof {
        assert(s@.take(s@.len() as int) == s@);
    }
    v
}

/// The string made of the scalars of `v`, in order.
pub fn to_string(v: &Vec<char>) -> (s: String)
    ensures
        s@ == v@,
{
    let mut s = String::new();
    let mut i: usize = 0;
    while i < v.len()
        invariant
            i <= v.len(),
            s@ == v@.take(i as int),
        decreases v.len() - i,
    {
        s.push(v[i]);
        i += 1;
    }
    proof {
        assert(v@.take(v@.len() as int) == v@);
    }
    s
}

/// Appends the scalars of `text` to `stack` last scalar first, so that popping
/// `stack` afterwards yields `text` in reading order.
pub fn push_reversed(stack: &mut Vec<char>, text: &Vec<char>)
    ensures
        final(stack)@ == old(stack)@ + text@.reverse(),
        final(stack)@.reverse() == text@ + old(stack)@.reverse(),
{
    let mut i: usize = text.len();
    while i > 0
        invariant
            i <= text.len(),
            stack@ == old(stack)@ + text@.reverse().take(text.len() - i),
        decreases i,
    {
        i -= 1;
        stack.push(text[i]);
        proof {
            let r = text@.reverse();
            let k = text.len() - i;
            assert(r.take(k) == r.take(k - 1).push(text@[i as int]));
        }
    }
    proof {
        assert(text@.reverse().take(text.len() as int) == text@.reverse());
        assert((old(stack)@ + text@.reverse()).reverse() == text@ + old(stack)@.reverse());
    }
}

/// Popping the end of a reversed buffer takes the first scalar of the text it
/// stands for.
pub proof fn lemma_reverse_pop(stack: Seq<char>)
    requires
        stack.len() > 0,
    ensures
        stack.reverse()[0] == stack.last(),
        stack.drop_last().reverse() == stack.reverse().drop_first(),
{
    assert(stack.drop_last().reverse() =~= stack.reverse().drop_first());
}

} // verus!
