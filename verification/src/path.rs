//! The identifier of a request: the part of its path behind the last slash.

use vstd::prelude::*;

verus! {

/// Where the final segment of `path` begins: just behind its last slash, or at
/// the front when it holds none.
pub open spec fn segment_start(path: Seq<char>) -> nat
    decreases path.len(),
{
    if path.len() == 0 {
        0
    } else if path.last() == '/' {
        path.len()
    } else {
        segment_start(path.drop_last())
    }
}

/// The final segment of `path`: everything behind its last slash.
pub open spec fn final_segment(path: Seq<char>) -> Seq<char> {
    path.subrange(segment_start(path) as int, path.len() as int)
}

/// `segment_start` lies inside the path, no slash stands at or behind it, and a
/// slash stands just before it unless it is the front of the path.
pub proof fn lemma_segment_start(path: Seq<char>)
    ensures
        segment_start(path) <= path.len(),
        forall|i: int| segment_start(path) <= i < path.len() ==> path[i] != '/',
        segment_start(path) > 0 ==> path[segment_start(path) - 1] == '/',
    decreases path.len(),
{
    if path.len() > 0 && path.last() != '/' {
        let shorter = path.drop_last();
        lemma_segment_start(shorter);
        assert forall|i: int| segment_start(path) <= i < path.len() implies path[i] != '/' by {
            if i < shorter.len() {
                assert(path[i] == shorter[i]);
            }
        }
        if segment_start(path) > 0 {
            assert(path[segment_start(path) - 1] == shorter[segment_start(shorter) - 1]);
        }
    }
}

/// The final segment holds no slash, and the path is what stands before it
/// followed by it.
pub proof fn lemma_final_segment_has_no_slash(path: Seq<char>)
    ensures
        !final_segment(path).contains('/'),
        path == path.subrange(0, segment_start(path) as int) + final_segment(path),
{
    lemma_segment_start(path);
    let segment = final_segment(path);
    assert forall|i: int| 0 <= i < segment.len() implies segment[i] != '/' by {
        assert(segment[i] == path[segment_start(path) + i]);
    }
    assert(path =~= path.subrange(0, segment_start(path) as int) + segment);
}

/// Appending a character that is no slash leaves the start of the final
/// segment where it was.
proof fn lemma_segment_start_push(path: Seq<char>, c: char)
    requires
        c != '/',
    ensures
        segment_start(path.push(c)) == segment_start(path),
{
    assert(path.push(c).drop_last() =~= path);
}

/// Whatever precedes it, a slash followed by a text without slashes has that
/// text as its final segment.
pub proof fn lemma_final_segment_after_slash(prefix: Seq<char>, segment: Seq<char>)
    requires
        !segment.contains('/'),
    ensures
        final_segment(prefix.push('/') + segment) == segment,
    decreases segment.len(),
{
    let head = prefix.push('/');
    if segment.len() == 0 {
        assert(head + segment =~= head);
        assert(final_segment(head) =~= segment);
    } else {
        let shorter = segment.drop_last();
        assert(segment[segment.len() - 1] == segment.last());
        assert(segment.contains(segment.last()));
        assert forall|i: int| 0 <= i < shorter.len() implies shorter[i] != '/' by {
            assert(segment.contains(segment[i]));
        }
        lemma_final_segment_after_slash(prefix, shorter);
        assert(head + segment =~= (head + shorter).push(segment.last()));
        lemma_segment_start_push(head + shorter, segment.last());
        lemma_segment_start(head + shorter);
        assert(final_segment(head + shorter) =~= shorter);
        assert(segment_start(head + shorter) == head.len());
        assert(final_segment(head + segment) =~= segment);
    }
}

/// The final segment is empty exactly for the empty path and for a path that
/// ends in a slash.
pub proof fn lemma_final_segment_empty(path: Seq<char>)
    ensures
        final_segment(path).len() == 0 <==> path.len() == 0 || path.last() == '/',
{
    lemma_segment_start(path);
}

/// A path without any slash is its own final segment.
pub proof fn lemma_final_segment_without_slash(path: Seq<char>)
    requires
        !path.contains('/'),
    ensures
        final_segment(path) == path,
    decreases path.len(),
{
    if path.len() > 0 {
        assert(path.contains(path[path.len() - 1]));
        let shorter = path.drop_last();
        assert forall|i: int| 0 <= i < shorter.len() implies shorter[i] != '/' by {
            assert(path.contains(path[i]));
        }
        lemma_final_segment_without_slash(shorter);
        lemma_segment_start(shorter);
        assert(final_segment(path) =~= path);
    } else {
        assert(final_segment(path) =~= path);
    }
}

/// What one more character of `path` says of the start of the final segment
/// of its first `end` characters.
proof fn lemma_segment_start_prefix(path: Seq<char>, end: int)
    requires
        0 <= end <= path.len(),
    ensures
        end == 0 ==> segment_start(path.take(end)) == 0,
        end > 0 && path[end - 1] == '/' ==> segment_start(path.take(end)) == end,
        end > 0 && path[end - 1] != '/' ==> segment_start(path.take(end)) == segment_start(
            path.take(end - 1),
        ),
{
    if end > 0 {
        assert(path.take(end).last() == path[end - 1]);
        assert(path.take(end).drop_last() =~= path.take(end - 1));
    }
}

/// Returns the part of `path` behind its last slash, or all of it where it
/// holds no slash.
pub fn last_segment<'a>(path: &'a str) -> (segment: &'a str)
    ensures
        segment@ == final_segment(path@),
{
    let n: usize = path.unicode_len();
    let mut start: usize = 0;
    let mut seen: usize = 0;
    proof {
        lemma_segment_start_prefix(path@, 0);
    }
    for c in it: path.chars()
        invariant
            n == path@.len(),
            it.seq() == path@,
            seen == it.index(),
            start <= seen <= n,
            start == segment_start(path@.take(seen as int)),
    {
        seen = seen + 1;
        proof {
            lemma_segment_start_prefix(path@, seen as int);
        }
        if c == '/' {
            start = seen;
        }
    }
    proof {
        assert(path@.take(n as int) =~= path@);
    }
    path.substring_char(start, n)
}

} // verus!
