//! Small verified helpers on strings and lists of strings.

use vstd::prelude::*;
use vstd::std_specs::iter::IteratorSpec;

verus! {

/// `String::push` of std: appends one character.
pub assume_specification[ String::push ](s: &mut String, c: char)
    ensures
        final(s)@ == old(s)@.push(c),
;

/// `==` on string slices, of std: true exactly when both hold the same
/// characters.
pub assume_specification[ <str as PartialEq>::eq ](a: &str, b: &str) -> (same: bool)
    ensures
        same == (a@ == b@),
;

/// The characters of `s`, in order.
pub fn chars_of(s: &str) -> (chars: Vec<char>)
    ensures
        chars@ == s@,
{
    broadcast use vstd::string::group_string_axioms;

    let mut chars: Vec<char> = Vec::new();
    let mut it = s.chars();
    loop
        invariant_except_break
            chars@ + it.remaining() == s@,
        ensures
            chars@ == s@,
        decreases s@.len() - chars@.len(),
    {
        match it.next() {
            Some(c) => {
                chars.push(c);
                assert(chars@ + it.remaining() =~= s@);
            },
            None => {
                assert(chars@ =~= s@);
                break ;
            },
        }
    }
    chars
}

/// The characters of `chars` from position `from` up to `to`, as a string.
pub fn string_of(chars: &Vec<char>, from: usize, to: usize) -> (text: String)
    requires
        from <= to <= chars@.len(),
    ensures
        text@ == chars@.subrange(from as int, to as int),
{
    let mut text = String::new();
    let mut i: usize = from;
    while i < to
        invariant
            from <= i <= to <= chars@.len(),
            text@ == chars@.subrange(from as int, i as int),
        decreases to - i,
    {
        text.push(chars[i]);
        i += 1;
        assert(text@ =~= chars@.subrange(from as int, i as int));
    }
    text
}

/// Whether `chars` begins with the characters of `head`.
pub fn starts_with(chars: &Vec<char>, head: &Vec<char>) -> (yes: bool)
    ensures
        yes == (head@.len() <= chars@.len() && chars@.subrange(0, head@.len() as int) == head@),
{
    if head.len() > chars.len() {
        return false;
    }
    let mut i: usize = 0;
    while i < head.len()
        invariant
            i <= head@.len() <= chars@.len(),
            chars@.subrange(0, i as int) == head@.subrange(0, i as int),
        decreases head@.len() - i,
    {
        if chars[i] != head[i] {
            assert(chars@.subrange(0, head@.len() as int)[i as int] != head@[i as int]);
            return false;
        }
        i += 1;
        assert(chars@.subrange(0, i as int) =~= chars@.subrange(0, i as int - 1).push(
            chars@[i as int - 1],
        ));
        assert(head@.subrange(0, i as int) =~= head@.subrange(0, i as int - 1).push(
            head@[i as int - 1],
        ));
    }
    assert(head@.subrange(0, head@.len() as int) =~= head@);
    true
}

/// A copy of a list of strings.
pub fn clone_lines(lines: &Vec<String>) -> (copy: Vec<String>)
    ensures
        copy@ == lines@,
{
    let mut copy: Vec<String> = Vec::new();
    let mut i: usize = 0;
    while i < lines.len()
        invariant
            i <= lines@.len(),
            copy@ == lines@.subrange(0, i as int),
        decreases lines@.len() - i,
    {
        copy.push(lines[i].clone());
        i += 1;
        assert(copy@ =~= lines@.subrange(0, i as int));
    }
    assert(copy@ =~= lines@);
    copy
}

} // verus!
