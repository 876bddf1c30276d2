//! Unix paths as texts.
use vstd::prelude::*;

use crate::text::{chars_of, copy_text, push_text};

verus! {

broadcast use vstd::seq::group_seq_axioms;

/// The path starts at the root.
pub open spec fn is_absolute(path: Seq<char>) -> bool {
    path.len() > 0 && path[0] == '/'
}

/// The position of the first separator, or the length where there is none.
pub open spec fn first_separator(path: Seq<char>) -> int
    decreases path.len(),
{
    if path.len() == 0 || path[0] == '/' {
        0
    } else {
        1 + first_separator(path.drop_first())
    }
}

/// The part of the path before its first separator.
pub open spec fn first_segment(path: Seq<char>) -> Seq<char> {
    path.take(first_separator(path))
}

/// Some part of the path between separators is `..`.
pub open spec fn has_parent_segment(path: Seq<char>) -> bool
    decreases path.len(),
{
    let end = first_separator(path);
    ||| path.take(end) == seq!['.', '.']
    ||| 0 <= end < path.len() && has_parent_segment(path.skip(end + 1))
}

/// The path names something below the directory it is taken from: it does not start at the root
/// or at `.`, and never goes up. Repeated separators and later `.` parts change nothing.
pub open spec fn stays_below(path: Seq<char>) -> bool {
    &&& !is_absolute(path)
    &&& first_segment(path) != seq!['.']
    &&& !has_parent_segment(path)
}

/// The rest of a path names nothing more: it is made of separators and `.` parts.
pub open spec fn names_nothing(path: Seq<char>) -> bool
    decreases path.len(),
{
    let end = first_separator(path);
    &&& path.take(end).len() == 0 || path.take(end) == seq!['.']
    &&& 0 <= end < path.len() ==> names_nothing(path.skip(end + 1))
}

/// The path is one name of an entry directly in a directory.
pub open spec fn is_leaf(path: Seq<char>) -> bool {
    let end = first_separator(path);
    &&& first_segment(path).len() > 0
    &&& first_segment(path) != seq!['.']
    &&& first_segment(path) != seq!['.', '.']
    &&& 0 <= end < path.len() ==> names_nothing(path.skip(end + 1))
}

/// `part` seen from `base`.
pub open spec fn path_join(base: Seq<char>, part: Seq<char>) -> Seq<char> {
    if is_absolute(part) {
        part
    } else if base.len() == 0 || base.last() == '/' {
        base + part
    } else {
        base + seq!['/'] + part
    }
}

/// The canonical path is the directory or something in it.
pub open spec fn path_within(path: Seq<char>, directory: Seq<char>) -> bool {
    let prefix = path_join(directory, Seq::empty());
    ||| path == directory
    ||| prefix.len() <= path.len() && path.take(prefix.len() as int) == prefix
}

/// The first separator is where the text has one and none before.
pub proof fn lemma_first_separator_is(path: Seq<char>, end: int)
    requires
        0 <= end <= path.len(),
        end < path.len() ==> path[end] == '/',
        forall|i: int| 0 <= i < end ==> path[i] != '/',
    ensures
        first_separator(path) == end,
    decreases end,
{
    if end > 0 {
        let tail = path.drop_first();
        assert(path[0] != '/');
        assert forall|i: int| 0 <= i < end - 1 implies tail[i] != '/' by {
            assert(tail[i] == path[i + 1]);
        }
        lemma_first_separator_is(tail, end - 1);
    }
}

/// Whether the path starts at the root.
pub fn path_is_absolute(path: &str) -> (r: bool)
    ensures
        r == is_absolute(path@),
{
    let len: usize = path.unicode_len();
    len > 0 && path.get_char(0) == '/'
}

/// Whether the path stays below the directory it is taken from.
pub fn path_stays_below(path: &str) -> (r: bool)
    ensures
        r == stays_below(path@),
{
    let chars: Vec<char> = chars_of(path);
    if chars.len() > 0 && chars[0] == '/' {
        return false;
    }
    let mut start: usize = 0;
    assert(path@.skip(0) =~= path@);
    loop
        invariant
            chars@ == path@,
            start <= chars.len(),
            !is_absolute(path@),
            start > 0 ==> first_segment(path@) != seq!['.'],
            has_parent_segment(path@) == has_parent_segment(path@.skip(start as int)),
        decreases chars.len() - start,
    {
        let ghost rest = path@.skip(start as int);
        let mut end: usize = start;
        while end < chars.len() && chars[end] != '/'
            invariant
                chars@ == path@,
                start <= end <= chars.len(),
                rest == path@.skip(start as int),
                forall|i: int| 0 <= i < end - start ==> rest[i] != '/',
            decreases chars.len() - end,
        {
            assert(rest[end - start] == chars@[end as int]);
            end += 1;
        }
        proof {
            if end < chars.len() {
                assert(rest[end - start] == chars@[end as int]);
            }
            lemma_first_separator_is(rest, end - start);
        }
        let ghost segment = rest.take(end - start);
        if end - start == 2 && chars[start] == '.' && chars[start + 1] == '.' {
            assert(segment =~= seq!['.', '.']);
            return false;
        }
        proof {
            if segment == seq!['.', '.'] {
                assert(segment.len() == 2 && segment[0] == '.' && segment[1] == '.');
                assert(rest[0] == chars@[start as int] && rest[1] == chars@[start + 1]);
                assert(segment[0] == chars@[start as int] && segment[1] == chars@[start + 1]);
            }
        }
        if start == 0 {
            assert(rest =~= path@);
            if end == 1 && chars[0] == '.' {
                assert(segment =~= seq!['.']);
                return false;
            }
            proof {
                if segment == seq!['.'] {
                    assert(segment.len() == 1 && segment[0] == '.');
                    assert(segment[0] == chars@[0]);
                    assert(false);
                }
                assert(first_segment(path@) == segment);
            }
        }
        if end >= chars.len() {
            assert(!has_parent_segment(rest));
            return true;
        }
        proof {
            assert(rest.skip(end - start + 1) =~= path@.skip(end + 1));
        }
        start = end + 1;
    }
}

/// Whether the characters `chars[from..to]` are the given number of dots and nothing else.
fn is_dots(chars: &Vec<char>, from: usize, to: usize, dots: usize) -> (r: bool)
    requires
        from <= to <= chars@.len(),
        1 <= dots <= 2,
    ensures
        dots == 1 ==> r == (chars@.subrange(from as int, to as int) == seq!['.']),
        dots == 2 ==> r == (chars@.subrange(from as int, to as int) == seq!['.', '.']),
{
    let ghost part = chars@.subrange(from as int, to as int);
    proof {
        assert(seq!['.'].len() == 1 && seq!['.'][0] == '.');
        assert(seq!['.', '.'].len() == 2 && seq!['.', '.'][0] == '.' && seq!['.', '.'][1] == '.');
    }
    if to - from != dots {
        assert(part.len() != dots);
        return false;
    }
    if chars[from] != '.' {
        assert(part[0] != '.');
        return false;
    }
    if dots == 2 && chars[from + 1] != '.' {
        assert(part[1] != '.');
        return false;
    }
    proof {
        if dots == 1 {
            assert(part =~= seq!['.']);
        } else {
            assert(part =~= seq!['.', '.']);
        }
    }
    true
}

/// The position of the first separator from `from` on, or the length where there is none.
fn find_separator(chars: &Vec<char>, from: usize) -> (r: usize)
    requires
        from <= chars@.len(),
    ensures
        from <= r <= chars@.len(),
        r - from == first_separator(chars@.skip(from as int)),
{
    let ghost rest = chars@.skip(from as int);
    let mut end: usize = from;
    while end < chars.len() && chars[end] != '/'
        invariant
            from <= end <= chars@.len(),
            rest == chars@.skip(from as int),
            forall|i: int| 0 <= i < end - from ==> rest[i] != '/',
        decreases chars@.len() - end,
    {
        assert(rest[end - from] == chars@[end as int]);
        end += 1;
    }
    proof {
        if end < chars@.len() {
            assert(rest[end - from] == chars@[end as int]);
        }
        lemma_first_separator_is(rest, end - from);
    }
    end
}

/// Whether the path is one name of an entry directly in a directory.
pub fn path_is_leaf(path: &str) -> (r: bool)
    ensures
        r == is_leaf(path@),
{
    let chars: Vec<char> = chars_of(path);
    let first: usize = find_separator(&chars, 0);
    proof {
        assert(path@.skip(0) =~= path@);
        assert(chars@.subrange(0, first as int) =~= first_segment(path@));
    }
    if first == 0 || is_dots(&chars, 0, first, 1) || is_dots(&chars, 0, first, 2) {
        return false;
    }
    let mut end: usize = first;
    while end < chars.len()
        invariant
            end <= chars@.len(),
            chars@ == path@,
            first == first_separator(path@),
            first_segment(path@).len() > 0,
            first_segment(path@) != seq!['.'],
            first_segment(path@) != seq!['.', '.'],
            first < chars@.len() ==> is_leaf(path@) == (end < chars@.len() ==> names_nothing(
                path@.skip(end + 1),
            )),
            first >= chars@.len() ==> is_leaf(path@),
            end >= first,
        decreases chars@.len() - end,
    {
        let start: usize = end + 1;
        let next: usize = find_separator(&chars, start);
        let ghost rest = path@.skip(start as int);
        proof {
            assert(chars@.subrange(start as int, next as int) =~= rest.take(next - start));
        }
        if next > start && !is_dots(&chars, start, next, 1) {
            return false;
        }
        proof {
            if next < chars@.len() {
                assert(rest.skip(next - start + 1) =~= path@.skip(next + 1));
            }
        }
        end = next;
    }
    true
}

/// `part` seen from `base`.
pub fn join_path(base: &str, part: &str) -> (r: String)
    ensures
        r@ == path_join(base@, part@),
{
    if path_is_absolute(part) {
        return copy_text(part);
    }
    let mut out: String = copy_text(base);
    let len: usize = base.unicode_len();
    if len > 0 && base.get_char(len - 1) != '/' {
        out.push('/');
        assert(out@ =~= base@ + seq!['/']);
    }
    push_text(&mut out, part);
    out
}

/// Whether the canonical path is the directory or something in it.
pub fn path_is_within(path: &str, directory: &str) -> (r: bool)
    ensures
        r == path_within(path@, directory@),
{
    let prefix: Vec<char> = chars_of(join_path(directory, "").as_str());
    let inner: Vec<char> = chars_of(path);
    proof {
        reveal_strlit("");
        assert(""@ =~= Seq::<char>::empty());
    }
    if crate::text::text_eq(path, directory) {
        return true;
    }
    if prefix.len() > inner.len() {
        return false;
    }
    let mut index: usize = 0;
    while index < prefix.len()
        invariant
            index <= prefix.len() <= inner.len(),
            prefix@ == path_join(directory@, Seq::empty()),
            inner@ == path@,
            path@ != directory@,
            forall|i: int| 0 <= i < index ==> prefix@[i] == inner@[i],
        decreases prefix.len() - index,
    {
        if prefix[index] != inner[index] {
            proof {
                assert(path@.take(prefix@.len() as int)[index as int] != prefix@[index as int]);
            }
            return false;
        }
        index += 1;
    }
    assert(path@.take(prefix@.len() as int) =~= prefix@);
    true
}

} // verus!
