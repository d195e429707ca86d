use vstd::prelude::*;
use vstd::std_specs::iter::IteratorSpec;
use vstd::string::*;

verus! {

/// Copies a string slice into an owned string.
pub fn owned(s: &str) -> (r: String)
    ensures
        r@ == s@,
{
    String::from_str(s)
}

/// Joins two pieces of text.
pub fn join2(a: &str, b: &str) -> (r: String)
    ensures
        r@ == a@ + b@,
{
    String::from_str(a).concat(b)
}

/// Joins three pieces of text.
pub fn join3(a: &str, b: &str, c: &str) -> (r: String)
    ensures
        r@ == a@ + b@ + c@,
{
    String::from_str(a).concat(b).concat(c)
}

/// The upper-case form of a text, as `str::to_uppercase` gives it.
pub uninterp spec fn upper_of(s: Seq<char>) -> Seq<char>;

/// The lower-case form of a text, as `str::to_lowercase` gives it.
pub uninterp spec fn lower_of(s: Seq<char>) -> Seq<char>;

/// Whether `needle` occurs in `hay` as a run of consecutive characters.
pub open spec fn occurs_in(needle: Seq<char>, hay: Seq<char>) -> bool {
    exists|i: int|
        0 <= i && i + needle.len() <= hay.len() && #[trigger] hay.subrange(
            i,
            i + needle.len(),
        ) == needle
}

/// Upper-cases a text with `str::to_uppercase`.
#[verifier::external_body]
pub(crate) fn upper(s: &str) -> (r: String)
    ensures
        r@ == upper_of(s@),
{
    s.to_uppercase()
}

/// Lower-cases a text with `str::to_lowercase`.
#[verifier::external_body]
pub(crate) fn lower(s: &str) -> (r: String)
    ensures
        r@ == lower_of(s@),
{
    s.to_lowercase()
}

/// Searches a text for another with `str::contains`: whether the second occurs
/// in the first as a run of consecutive characters.
#[verifier::external_body]
pub(crate) fn contains_text(hay: &str, needle: &str) -> (r: bool)
    ensures
        r == occurs_in(needle@, hay@),
{
    hay.contains(needle)
}

/// Tests with `str::starts_with` whether a text begins with another.
#[verifier::external_body]
pub(crate) fn begins_with(text: &str, prefix: &str) -> (r: bool)
    ensures
        r == prefix@.is_prefix_of(text@),
{
    text.starts_with(prefix)
}

/// The place of the first occurrence of a character in a text, or the length
/// of the text where it does not occur.
pub open spec fn first_index_of(s: Seq<char>, c: char) -> int
    decreases s.len(),
{
    if s.len() == 0 || s[0] == c {
        0
    } else {
        1 + first_index_of(s.drop_first(), c)
    }
}

/// The first line of a text: what stands before its first line break.
pub open spec fn first_line_of(s: Seq<char>) -> Seq<char> {
    s.take(first_index_of(s, '\n'))
}

/// A text cut at the first occurrence of a character: what stands before it
/// and what stands after it, or nothing where the character does not occur.
pub open spec fn cut_at(s: Seq<char>, c: char) -> Option<(Seq<char>, Seq<char>)> {
    let k = first_index_of(s, c);
    if k < s.len() {
        Some((s.take(k), s.skip(k + 1)))
    } else {
        None
    }
}

/// A place before which a character does not occur, and at which the text ends
/// or holds the character, is the place of its first occurrence.
pub proof fn lemma_first_index_is(s: Seq<char>, c: char, k: int)
    requires
        0 <= k <= s.len(),
        forall|j: int| 0 <= j < k ==> s[j] != c,
        k < s.len() ==> s[k] == c,
    ensures
        first_index_of(s, c) == k,
    decreases s.len(),
{
    if k > 0 {
        let rest = s.drop_first();
        assert(s[0] != c);
        assert forall|j: int| 0 <= j < k - 1 implies rest[j] != c by {
            assert(rest[j] == s[j + 1]);
        }
        if k - 1 < rest.len() {
            assert(rest[k - 1] == s[k]);
        }
        lemma_first_index_is(rest, c, k - 1);
    }
}

/// Finds the first occurrence of a character: its place and the number of
/// characters in the text, which is the place where the character does not occur.
fn find_char(text: &str, c: char) -> (r: (usize, usize))
    ensures
        r.0 == first_index_of(text@, c),
        r.1 == text@.len(),
        r.0 <= r.1,
{
    broadcast use {next_postcondition, axiom_spec_iter};

    let len = text.unicode_len();
    let mut rest = text.chars();
    let mut end: usize = 0;
    while end < len
        invariant_except_break
            rest.remaining() == text@.skip(end as int),
        invariant
            end <= len,
            len == text@.len(),
            rest.obeys_prophetic_iter_laws(),
            forall|j: int| 0 <= j < end ==> text@[j] != c,
        ensures
            end < len ==> text@[end as int] == c,
        decreases len - end,
    {
        let ghost before = rest.remaining();
        assert(before[0] == text@[end as int]);
        match rest.next() {
            Some(found) => {
                if found == c {
                    break ;
                }
                assert(before.drop_first() =~= text@.skip(end + 1));
                end = end + 1;
            },
            None => {
                break ;
            },
        }
    }
    proof {
        lemma_first_index_is(text@, c, end as int);
    }
    (end, len)
}

/// The first line of a text.
pub fn first_line(text: &str) -> (r: String)
    ensures
        r@ == first_line_of(text@),
{
    let (end, _) = find_char(text, '\n');
    owned(text.substring_char(0, end))
}

/// Cuts a text at the first occurrence of a character.
pub fn cut(text: &str, c: char) -> (r: Option<(String, String)>)
    ensures
        match r {
            Some((before, after)) => cut_at(text@, c) == Some((before@, after@)),
            None => cut_at(text@, c) is None,
        },
{
    let (place, len) = find_char(text, c);
    if place < len {
        Some((owned(text.substring_char(0, place)), owned(text.substring_char(place + 1, len))))
    } else {
        None
    }
}

/// The characters of a text.
pub fn chars_of(text: &str) -> (r: Vec<char>)
    ensures
        r@ == text@,
{
    broadcast use {next_postcondition, axiom_spec_iter};

    let len = text.unicode_len();
    let mut rest = text.chars();
    let mut out: Vec<char> = Vec::new();
    while out.len() < len
        invariant
            out@.len() <= len,
            len == text@.len(),
            rest.obeys_prophetic_iter_laws(),
            rest.remaining() == text@.skip(out@.len() as int),
            out@ == text@.take(out@.len() as int),
        decreases len - out@.len(),
    {
        let ghost before = rest.remaining();
        let ghost taken = out@;
        assert(before[0] == text@[taken.len() as int]);
        match rest.next() {
            Some(c) => {
                out.push(c);
                assert(before.drop_first() =~= text@.skip(taken.len() as int + 1));
                assert(taken.push(c) =~= text@.take(taken.len() as int + 1));
            },
            None => {
                return out;
            },
        }
    }
    assert(text@.take(len as int) =~= text@);
    out
}

} // verus!
