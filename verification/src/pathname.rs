use vstd::prelude::*;
use vstd::string::{StrSliceExecFns, StringExecFns};

verus! {

/// The path with its trailing separators removed.
pub open spec fn strip_trailing_slashes(s: Seq<char>) -> Seq<char>
    decreases s.len(),
{
    if s.len() > 0 && s.last() == '/' {
        strip_trailing_slashes(s.drop_last())
    } else {
        s
    }
}

/// The index just after the last separator of `s`, or 0 if `s` has none.
pub open spec fn after_last_slash(s: Seq<char>) -> int
    decreases s.len(),
{
    if s.len() == 0 {
        0
    } else if s.last() == '/' {
        s.len() as int
    } else {
        after_last_slash(s.drop_last())
    }
}

/// The final component of a path: the segment after the last separator,
/// once trailing separators are stripped.  A path whose final segment is
/// empty (the root, or an empty path) or is `.` or `..` has no usable
/// component and yields `None`.
pub open spec fn final_component_spec(path: Seq<char>) -> Option<Seq<char>> {
    let t = strip_trailing_slashes(path);
    let comp = t.subrange(after_last_slash(t), t.len() as int);
    if comp.len() == 0 || comp == seq!['.'] || comp == seq!['.', '.'] {
        None
    } else {
        Some(comp)
    }
}

proof fn lemma_strip_prefix(s: Seq<char>, end: int)
    requires
        0 <= end <= s.len(),
        forall|j: int| end <= j < s.len() ==> s[j] == '/',
    ensures
        strip_trailing_slashes(s) == strip_trailing_slashes(s.take(end)),
    decreases s.len() - end,
{
    if end < s.len() {
        assert(s.last() == '/');
        assert(s.drop_last() =~= s.take(s.len() - 1));
        lemma_strip_prefix(s.take(s.len() - 1), end);
        assert(s.take(s.len() - 1).take(end) =~= s.take(end));
    } else {
        assert(s.take(end) =~= s);
    }
}

proof fn lemma_after_last_slash_take(s: Seq<char>, start: int)
    requires
        0 <= start <= s.len(),
        forall|j: int| start <= j < s.len() ==> s[j] != '/',
    ensures
        after_last_slash(s) == after_last_slash(s.take(start)),
    decreases s.len() - start,
{
    if start < s.len() {
        assert(s.last() != '/');
        assert(s.drop_last() =~= s.take(s.len() - 1));
        lemma_after_last_slash_take(s.take(s.len() - 1), start);
        assert(s.take(s.len() - 1).take(start) =~= s.take(start));
    } else {
        assert(s.take(start) =~= s);
    }
}

/// Computes the final path component, exactly as `final_component_spec`
/// describes it.
pub fn final_component(path: &str) -> (r: Option<String>)
    ensures
        match r {
            Some(s) => final_component_spec(path@) == Some(s@),
            None => final_component_spec(path@) is None,
        },
{
    let len = path.unicode_len();
    let mut end: usize = len;
    while end > 0 && path.get_char(end - 1) == '/'
        invariant
            end <= len,
            len == path@.len(),
            forall|j: int| end <= j < len ==> path@[j] == '/',
        decreases end,
    {
        end = end - 1;
    }
    proof {
        lemma_strip_prefix(path@, end as int);
        assert(strip_trailing_slashes(path@.take(end as int)) == path@.take(end as int));
        assert(strip_trailing_slashes(path@) == path@.take(end as int));
    }
    let mut start: usize = end;
    while start > 0 && path.get_char(start - 1) != '/'
        invariant
            start <= end <= len,
            len == path@.len(),
            strip_trailing_slashes(path@) == path@.take(end as int),
            forall|j: int| start <= j < end ==> path@[j] != '/',
        decreases start,
    {
        start = start - 1;
    }
    proof {
        let t = path@.take(end as int);
        lemma_after_last_slash_take(t, start as int);
        if start > 0 {
            assert(t.take(start as int).last() == '/');
        }
        assert(after_last_slash(t) == start as int);
    }
    let comp = path.substring_char(start, end);
    proof {
        assert(comp@ =~= strip_trailing_slashes(path@).subrange(
            after_last_slash(strip_trailing_slashes(path@)),
            strip_trailing_slashes(path@).len() as int,
        ));
    }
    let clen = comp.unicode_len();
    if clen == 0 {
        return None;
    }
    if clen == 1 && comp.get_char(0) == '.' {
        proof {
            assert(comp@ =~= seq!['.']);
        }
        return None;
    }
    if clen == 2 && comp.get_char(0) == '.' && comp.get_char(1) == '.' {
        proof {
            assert(comp@ =~= seq!['.', '.']);
        }
        return None;
    }
    proof {
        assert(comp@ != seq!['.']);
        assert(comp@ != seq!['.', '.']);
    }
    Some(String::from_str(comp))
}

} // verus!
