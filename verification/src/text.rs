//! Small operations on text that the providers share. Text is reasoned about
//! as its sequence of characters.

use vstd::prelude::*;
use vstd::std_specs::iter::IteratorSpec;
use vstd::string::StrSliceExecFns;
use vstd::utf8::encode_utf8_decode_utf8;

verus! {

/// The characters of `s`, in order.
pub fn chars_of(s: &str) -> (chars: Vec<char>)
    ensures
        chars@ == s@,
{
    broadcast use vstd::string::group_string_axioms;

    let mut it = s.chars();
    let mut chars: Vec<char> = Vec::new();
    loop
        invariant
            it.obeys_prophetic_iter_laws(),
            chars@ + it.remaining() == s@,
            it.decrease() is Some,
        ensures
            chars@ == s@,
        decreases it.decrease()->0,
    {
        match it.next() {
            Some(c) => {
                chars.push(c);
                assert(chars@ + it.remaining() =~= s@);
            },
            None => {
                assert(chars@ =~= s@);
                break ;
            },
        }
    }
    chars
}

/// What an optional text holds, as characters.
pub open spec fn text_of(value: Option<String>) -> Option<Seq<char>> {
    match value {
        Some(s) => Some(s@),
        None => None,
    }
}

/// `s` without every leading repetition of `prefix`.
pub open spec fn strip_leading(s: Seq<char>, prefix: Seq<char>) -> Seq<char>
    decreases s.len(),
{
    if prefix.len() > 0 && prefix.is_prefix_of(s) {
        strip_leading(s.skip(prefix.len() as int), prefix)
    } else {
        s
    }
}

/// Whether two texts hold the same characters.
pub fn str_equal(a: &str, b: &str) -> (same: bool)
    ensures
        same == (a@ == b@),
{
    let x = a.as_bytes();
    let y = b.as_bytes();
    proof {
        // Text is recovered from its bytes, so equal bytes mean equal text.
        encode_utf8_decode_utf8(a@);
        encode_utf8_decode_utf8(b@);
    }
    if x.len() != y.len() {
        return false;
    }
    let mut i: usize = 0;
    while i < x.len()
        invariant
            i <= x@.len(),
            x@.len() == y@.len(),
            x@.take(i as int) == y@.take(i as int),
            a@ == b@ ==> x@ == y@,
        decreases x@.len() - i,
    {
        if x[i] != y[i] {
            return false;
        }
        assert(x@.take(i + 1) =~= x@.take(i as int).push(x@[i as int]));
        assert(y@.take(i + 1) =~= y@.take(i as int).push(y@[i as int]));
        i = i + 1;
    }
    assert(x@ =~= x@.take(i as int));
    assert(y@ =~= y@.take(i as int));
    true
}

/// Whether `prefix` stands in `text` at position `from`. Beyond the end of
/// `text` nothing stands.
pub fn starts_at(text: &Vec<char>, from: usize, prefix: &Vec<char>) -> (found: bool)
    ensures
        found == (from <= text@.len() && prefix@.is_prefix_of(text@.skip(from as int))),
{
    if from > text.len() || prefix.len() > text.len() - from {
        return false;
    }
    let ghost rest = text@.skip(from as int);
    let mut i: usize = 0;
    while i < prefix.len()
        invariant
            from <= text@.len() <= usize::MAX,
            prefix@.len() <= text@.len() - from,
            i <= prefix@.len(),
            rest == text@.skip(from as int),
            prefix@.take(i as int) == rest.subrange(0, i as int),
        decreases prefix@.len() - i,
    {
        if prefix[i] != text[from + i] {
            assert(rest.subrange(0, prefix@.len() as int)[i as int] != prefix@[i as int]);
            return false;
        }
        assert(prefix@.take(i + 1) =~= prefix@.take(i as int).push(prefix@[i as int]));
        assert(rest.subrange(0, i + 1) =~= rest.subrange(0, i as int).push(rest[i as int]));
        i = i + 1;
    }
    assert(prefix@ =~= prefix@.take(i as int));
    true
}

/// Whether `c` is white space, as Unicode defines it (the property
/// White_Space).
pub open spec fn is_white_space(c: char) -> bool {
    let u = c as u32;
    ||| 0x09 <= u <= 0x0D
    ||| u == 0x20
    ||| u == 0x85
    ||| u == 0xA0
    ||| u == 0x1680
    ||| 0x2000 <= u <= 0x200A
    ||| u == 0x2028
    ||| u == 0x2029
    ||| u == 0x202F
    ||| u == 0x205F
    ||| u == 0x3000
}

/// Computes `is_white_space`.
pub fn is_whitespace(c: char) -> (white: bool)
    ensures
        white == is_white_space(c),
{
    let u: u32 = c as u32;
    (0x09 <= u && u <= 0x0D) || u == 0x20 || u == 0x85 || u == 0xA0 || u == 0x1680 || (0x2000 <= u
        && u <= 0x200A) || u == 0x2028 || u == 0x2029 || u == 0x202F || u == 0x205F || u == 0x3000
}

/// `s` without the white space it begins with.
pub open spec fn trim_start(s: Seq<char>) -> Seq<char>
    decreases s.len(),
{
    if s.len() > 0 && is_white_space(s[0]) {
        trim_start(s.drop_first())
    } else {
        s
    }
}

/// `s` without the white space it ends with.
pub open spec fn trim_end(s: Seq<char>) -> Seq<char>
    decreases s.len(),
{
    if s.len() > 0 && is_white_space(s.last()) {
        trim_end(s.drop_last())
    } else {
        s
    }
}

/// `s` without the white space at either end.
pub open spec fn trimmed(s: Seq<char>) -> Seq<char> {
    trim_end(trim_start(s))
}

/// Removes the white space at either end of `s`.
pub fn trim(s: &str) -> (inner: String)
    ensures
        inner@ == trimmed(s@),
{
    let text = chars_of(s);
    let len: usize = text.len();
    let mut start: usize = 0;
    assert(text@.skip(0) =~= text@);
    while start < len && is_whitespace(text[start])
        invariant
            start <= len == text@.len(),
            trim_start(text@) == trim_start(text@.skip(start as int)),
        decreases len - start,
    {
        assert(text@.skip(start as int).drop_first() =~= text@.skip(start + 1));
        start = start + 1;
    }
    let ghost tail = text@.skip(start as int);
    assert(trim_start(text@) == tail);
    let mut end: usize = len;
    assert(text@.subrange(start as int, end as int) =~= tail);
    while end > start && is_whitespace(text[end - 1])
        invariant
            start <= end <= len == text@.len(),
            trim_end(tail) == trim_end(text@.subrange(start as int, end as int)),
        decreases end,
    {
        assert(text@.subrange(start as int, end as int).drop_last() =~= text@.subrange(
            start as int,
            end - 1,
        ));
        end = end - 1;
    }
    s.substring_char(start, end).to_owned()
}

/// The two sides of the one `|` in `s`. Text with no `|`, or with more than
/// one, has no two sides.
pub open spec fn split_pair(s: Seq<char>) -> Option<(Seq<char>, Seq<char>)> {
    match s.index_of_first('|') {
        Some(at) => if s.skip(at + 1).contains('|') {
            None
        } else {
            Some((s.take(at), s.skip(at + 1)))
        },
        None => None,
    }
}

/// What an optional pair of texts holds, as characters.
pub open spec fn pair_of(pair: Option<(String, String)>) -> Option<(Seq<char>, Seq<char>)> {
    match pair {
        Some((left, right)) => Some((left@, right@)),
        None => None,
    }
}

/// Splits `s` at its one `|`.
pub fn split_at_bar(s: &str) -> (pair: Option<(String, String)>)
    ensures
        pair_of(pair) == split_pair(s@),
{
    let text = chars_of(s);
    let len: usize = text.len();
    let mut at: usize = 0;
    while at < len && text[at] != '|'
        invariant
            at <= len == text@.len(),
            forall|j: int| 0 <= j < at ==> text@[j] != '|',
        decreases len - at,
    {
        at = at + 1;
    }
    proof {
        text@.index_of_first_ensures('|');
    }
    if at == len {
        return None;
    }
    assert(text@.contains('|'));
    assert(text@.index_of_first('|') == Some(at as int));
    let mut next: usize = at + 1;
    while next < len && text[next] != '|'
        invariant
            at < next <= len == text@.len(),
            forall|j: int| at < j < next ==> text@[j] != '|',
        decreases len - next,
    {
        next = next + 1;
    }
    let ghost rest = text@.skip(at + 1);
    if next < len {
        assert(rest[next - at - 1] == '|');
        return None;
    }
    assert(!rest.contains('|')) by {
        if rest.contains('|') {
            let j = choose|j: int| 0 <= j < rest.len() && rest[j] == '|';
            assert(text@[at + 1 + j] == '|');
        }
    }
    let left = s.substring_char(0, at).to_owned();
    let right = s.substring_char(at + 1, len).to_owned();
    Some((left, right))
}

} // verus!
