//! Base names and path joining.
//!
//! A destination inside a target directory is the directory joined with the
//! base name of the source: its final path component, read as a file name.
//! Trailing separators and trailing `.` components are ignored; a path with
//! nothing left after that (the root, or `.`) has no base name, and neither
//! has one ending in a `..` component.

use vstd::prelude::*;
use vstd::string::StrSliceExecFns;
use vstd::string::StringExecFns;

verus! {

/// `s` ends in a `.` path component: a final `.` standing alone or right
/// after a separator.
pub open spec fn ends_in_dot_component(s: Seq<char>) -> bool {
    s.len() > 0 && s.last() == '.' && (s.len() == 1 || s[s.len() - 2] == '/')
}

/// `s` with every trailing `/`, and every trailing `.` component, removed.
pub open spec fn strip_trailing_slashes_and_dots(s: Seq<char>) -> Seq<char>
    decreases s.len(),
{
    if s.len() > 0 && (s.last() == '/' || ends_in_dot_component(s)) {
        strip_trailing_slashes_and_dots(s.drop_last())
    } else {
        s
    }
}

/// The suffix of `s` after its last `/`; `s` itself if it has none.
pub open spec fn final_component(s: Seq<char>) -> Seq<char>
    decreases s.len(),
{
    if s.len() == 0 {
        s
    } else if s.last() == '/' {
        Seq::<char>::empty()
    } else {
        final_component(s.drop_last()).push(s.last())
    }
}

/// The base name of a path: the final component once trailing separators and
/// `.` components are stripped, or `None` when nothing remains or the path
/// ends in a `..` component.
pub open spec fn base_name_spec(s: Seq<char>) -> Option<Seq<char>> {
    let c = final_component(strip_trailing_slashes_and_dots(s));
    if c.len() == 0 || c == seq!['.', '.'] {
        None
    } else {
        Some(c)
    }
}

/// `base` appended to the directory `dir`, with a separator inserted unless
/// `dir` is empty or already ends in one.
pub open spec fn join_spec(dir: Seq<char>, base: Seq<char>) -> Seq<char> {
    if dir.len() == 0 {
        base
    } else if dir.last() == '/' {
        dir + base
    } else {
        dir + seq!['/'] + base
    }
}

/// On a run of non-separator characters that ends `t`, `final_component`
/// returns exactly that run.
proof fn lemma_final_component_of_run(t: Seq<char>, a: int)
    requires
        0 <= a <= t.len(),
        forall|j: int| a <= j < t.len() ==> t[j] != '/',
        a == 0 || t[a - 1] == '/',
    ensures
        final_component(t) == t.subrange(a, t.len() as int),
    decreases t.len(),
{
    if a == t.len() {
        if t.len() == 0 {
            assert(final_component(t) =~= t.subrange(a, t.len() as int));
        } else {
            assert(t.last() == t[a - 1]);
            assert(final_component(t) =~= t.subrange(a, t.len() as int));
        }
    } else {
        assert(t.last() == t[t.len() - 1]);
        assert(t.last() != '/');
        let u = t.drop_last();
        lemma_final_component_of_run(u, a);
        assert(u.subrange(a, u.len() as int) == t.subrange(a, t.len() - 1));
        assert(final_component(t) == final_component(u).push(t.last()));
        assert(t.subrange(a, t.len() - 1).push(t[t.len() - 1]) =~= t.subrange(
            a,
            t.len() as int,
        ));
    }
}

/// Computes the base name of `s`, per `base_name_spec`.
pub fn base_name(s: &str) -> (r: Option<String>)
    ensures
        match r {
            Some(b) => base_name_spec(s@) == Some(b@),
            None => base_name_spec(s@) is None,
        },
{
    let len = s.unicode_len();
    proof {
        assert(s@.subrange(0, len as int) =~= s@);
    }
    let mut end: usize = len;
    while end > 0 && (s.get_char(end - 1) == '/' || (s.get_char(end - 1) == '.' && (end == 1
        || s.get_char(end - 2) == '/')))
        invariant
            end <= len,
            len == s@.len(),
            strip_trailing_slashes_and_dots(s@) == strip_trailing_slashes_and_dots(
                s@.subrange(0, end as int),
            ),
        decreases end,
    {
        proof {
            let t = s@.subrange(0, end as int);
            assert(t.last() == s@[end - 1]);
            if end >= 2 {
                assert(t[end - 2] == s@[end - 2]);
            }
            assert(t.last() == '/' || ends_in_dot_component(t));
            assert(t.drop_last() =~= s@.subrange(0, end - 1));
        }
        end = end - 1;
    }
    proof {
        let t = s@.subrange(0, end as int);
        if end > 0 {
            assert(t.last() == s@[end - 1]);
            if end >= 2 {
                assert(t[end - 2] == s@[end - 2]);
            }
            assert(!(t.last() == '/' || ends_in_dot_component(t)));
        }
        assert(strip_trailing_slashes_and_dots(t) == t);
    }
    if end == 0 {
        proof {
            assert(final_component(s@.subrange(0, 0)).len() == 0);
        }
        return None;
    }
    let mut start: usize = end;
    while start > 0 && s.get_char(start - 1) != '/'
        invariant
            start <= end,
            end <= len,
            len == s@.len(),
            forall|j: int| start <= j < end ==> s@[j] != '/',
        decreases start,
    {
        start = start - 1;
    }
    proof {
        let t = s@.subrange(0, end as int);
        assert(forall|j: int| start <= j < t.len() ==> t[j] != '/');
        if start > 0 {
            assert(t[start - 1] == s@[start - 1]);
        }
        lemma_final_component_of_run(t, start as int);
        assert(t.subrange(start as int, end as int) =~= s@.subrange(start as int, end as int));
    }
    let n = end - start;
    if n == 2 && s.get_char(start) == '.' && s.get_char(start + 1) == '.' {
        proof {
            assert(s@.subrange(start as int, end as int) =~= seq!['.', '.']);
        }
        return None;
    }
    let sub = s.substring_char(start, end);
    proof {
        let c = s@.subrange(start as int, end as int);
        assert(c.len() > 0);
        if c == seq!['.', '.'] {
            assert(c.len() == 2 && c[0] == '.' && c[1] == '.');
            assert(false);
        }
    }
    Some(sub.to_owned())
}

/// Joins `base` onto the directory `dir`, per `join_spec`.
pub fn join_path(dir: &str, base: &str) -> (r: String)
    ensures
        r@ == join_spec(dir@, base@),
{
    let n = dir.unicode_len();
    if n == 0 {
        base.to_owned()
    } else if dir.get_char(n - 1) == '/' {
        proof {
            assert(dir@.last() == dir@[n - 1]);
        }
        dir.to_owned().concat(base)
    } else {
        proof {
            reveal_strlit("/");
            assert("/"@ =~= seq!['/']);
        }
        let mut out = dir.to_owned();
        out.append("/");
        out.append(base);
        out
    }
}

} // verus!
