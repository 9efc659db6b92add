//! A plain-string model of filesystem paths. The library works on normalized
//! path strings: components separated by single `/` characters, with no
//! trailing separator (a bare `/` root excepted). The shell canonicalizes
//! real paths with the operating system and hands them in under this form;
//! every decision about containment, parents and file names is then made
//! here, where it is verified.

use vstd::prelude::*;

verus! {

/// The path obtained by appending one component `name` under `base`.
pub open spec fn joined(base: Seq<char>, name: Seq<char>) -> Seq<char> {
    base.push('/') + name
}

/// Appends one component under a base path.
pub fn path_join(base: &str, name: &str) -> (r: String)
    ensures
        r@ == joined(base@, name@),
{
    let mut r = base.to_owned();
    r.append("/");
    r.append(name);
    proof {
        reveal_strlit("/");
        assert(r@ =~= joined(base@, name@));
    }
    r
}

/// True iff the normalized path `candidate` is `root` itself or lies below
/// it: `root` is a character prefix of `candidate` and the prefix ends at a
/// component boundary.
pub open spec fn path_descends(candidate: Seq<char>, root: Seq<char>) -> bool {
    candidate == root || (root.len() < candidate.len() && candidate.take(root.len() as int)
        == root && (candidate[root.len() as int] == '/' || (root.len() > 0 && root[root.len() - 1]
        == '/')))
}

/// Decides whether `candidate_parent`, the canonical directory holding a
/// UI-supplied path, is the canonical sandbox `root` or a descendant of it.
/// Every sandboxed read or write gates on this decision.
pub fn is_within(root: &str, candidate_parent: &str) -> (r: bool)
    ensures
        r == path_descends(candidate_parent@, root@),
{
    let rlen = root.unicode_len();
    let clen = candidate_parent.unicode_len();
    if clen < rlen {
        return false;
    }
    let mut i: usize = 0;
    while i < rlen
        invariant
            i <= rlen,
            rlen == root@.len(),
            clen == candidate_parent@.len(),
            rlen <= clen,
            forall|j: int| 0 <= j < i ==> candidate_parent@[j] == root@[j],
        decreases rlen - i,
    {
        if candidate_parent.get_char(i) != root.get_char(i) {
            proof {
                assert(candidate_parent@.take(rlen as int)[i as int] != root@[i as int]);
            }
            return false;
        }
        i = i + 1;
    }
    if clen == rlen {
        proof {
            assert(candidate_parent@ =~= root@);
        }
        return true;
    }
    proof {
        assert(candidate_parent@.take(rlen as int) =~= root@);
    }
    if candidate_parent.get_char(rlen) == '/' {
        return true;
    }
    if rlen > 0 && root.get_char(rlen - 1) == '/' {
        return true;
    }
    proof {
        assert(candidate_parent@ != root@) by {
            assert(candidate_parent@.len() != root@.len());
        }
    }
    false
}

/// The index of the last `/` in `s`, or `-1` if there is none.
pub open spec fn last_slash(s: Seq<char>) -> int
    decreases s.len(),
{
    if s.len() == 0 {
        -1
    } else if s[s.len() - 1] == '/' {
        s.len() - 1
    } else {
        last_slash(s.drop_last())
    }
}

/// Characters after the last slash are not slashes, and the character at the
/// returned index is one.
pub proof fn lemma_last_slash(s: Seq<char>)
    ensures
        -1 <= last_slash(s) < s.len(),
        last_slash(s) >= 0 ==> s[last_slash(s)] == '/',
        forall|j: int| last_slash(s) < j < s.len() ==> s[j] != '/',
    decreases s.len(),
{
    if s.len() == 0 {
    } else if s[s.len() - 1] == '/' {
    } else {
        lemma_last_slash(s.drop_last());
        assert(forall|j: int|
            last_slash(s) < j < s.len() - 1 ==> s[j] == s.drop_last()[j] && s[j] != '/');
    }
}

/// The parent directory of a normalized path: the part before the last
/// separator; `/` for a top-level entry such as `/a`; the empty path for a
/// bare relative name; nothing for an empty path or the root itself.
pub open spec fn parent_dir(s: Seq<char>) -> Option<Seq<char>> {
    let i = last_slash(s);
    if i == -1 {
        if s.len() == 0 {
            Option::None
        } else {
            Option::Some(Seq::empty())
        }
    } else if i == 0 {
        if s.len() == 1 {
            Option::None
        } else {
            Option::Some(s.take(1))
        }
    } else {
        Option::Some(s.take(i))
    }
}

/// Computes the parent directory of a normalized path.
pub fn parent_of(s: &str) -> (r: Option<String>)
    ensures
        match r {
            Option::Some(p) => parent_dir(s@) == Option::Some(p@),
            Option::None => parent_dir(s@) == Option::<Seq<char>>::None,
        },
{
    let len = s.unicode_len();
    let mut i: usize = len;
    while i > 0
        invariant
            i <= len,
            len == s@.len(),
            forall|j: int| i <= j < len ==> s@[j] != '/',
        decreases i,
    {
        if s.get_char(i - 1) == '/' {
            proof {
                lemma_last_slash(s@);
                assert(last_slash(s@) == i - 1) by {
                    if last_slash(s@) > i - 1 {
                        assert(s@[last_slash(s@)] != '/');
                    }
                    if last_slash(s@) < i - 1 {
                        assert(s@[i - 1] != '/');
                    }
                }
            }
            if i - 1 == 0 {
                if len == 1 {
                    return Option::None;
                }
                let p = s.substring_char(0, 1);
                return Option::Some(p.to_owned());
            }
            let p = s.substring_char(0, i - 1);
            proof {
                assert(p@ =~= s@.take(i - 1));
            }
            return Option::Some(p.to_owned());
        }
        i = i - 1;
    }
    proof {
        lemma_last_slash(s@);
        assert(last_slash(s@) == -1) by {
            if last_slash(s@) >= 0 {
                assert(s@[last_slash(s@)] != '/');
            }
        }
    }
    if len == 0 {
        Option::None
    } else {
        Option::Some(String::new())
    }
}

/// True iff the library treats `s` as an absolute path: it begins with a
/// separator, or carries a drive-letter prefix such as `C:`.
pub open spec fn absolute_path(s: Seq<char>) -> bool {
    s.len() > 0 && (s[0] == '/' || s[0] == '\\' || (s.len() >= 2 && s[1] == ':'))
}

/// Decides whether the library treats `s` as an absolute path.
pub fn is_absolute_path(s: &str) -> (r: bool)
    ensures
        r == absolute_path(s@),
{
    let len = s.unicode_len();
    if len == 0 {
        return false;
    }
    let c0 = s.get_char(0);
    if c0 == '/' || c0 == '\\' {
        return true;
    }
    if len >= 2 && s.get_char(1) == ':' {
        return true;
    }
    false
}

/// A settings override names its directory either absolutely or relative to
/// the application root; this resolves it to one normalized path.
pub open spec fn resolved_override(app_root: Seq<char>, over: Seq<char>) -> Seq<char> {
    if absolute_path(over) {
        over
    } else {
        joined(app_root, over)
    }
}

/// Resolves a settings override against the application root.
pub fn resolve_override(app_root: &str, over: &str) -> (r: String)
    ensures
        r@ == resolved_override(app_root@, over@),
{
    if is_absolute_path(over) {
        over.to_owned()
    } else {
        path_join(app_root, over)
    }
}

} // verus!
