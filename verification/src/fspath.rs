//! File-system paths as text: joining a relative path onto a base, and the
//! parent of a path, as `std::path` does them on the platform the program is
//! built for.
use vstd::prelude::*;

verus! {

/// The path that `std::path::Path::join` makes of `base` and `rel`.
pub uninterp spec fn path_join(base: Seq<char>, rel: Seq<char>) -> Seq<char>;

/// The parent that `std::path::Path::parent` gives of a path, `None` for a
/// root or an empty path.
pub uninterp spec fn path_parent(p: Seq<char>) -> Option<Seq<char>>;

/// `std::path::Path::join`, on paths given and returned as text.
#[verifier::external_body]
pub(crate) fn join_path(base: &str, rel: &str) -> (joined: String)
    ensures
        joined@ == path_join(base@, rel@),
{
    std::path::Path::new(base).join(rel).to_string_lossy().into_owned()
}

/// `std::path::Path::parent`, on paths given and returned as text.
#[verifier::external_body]
pub(crate) fn parent_path(p: &str) -> (parent: Option<String>)
    ensures
        match parent {
            Some(q) => path_parent(p@) == Some(q@),
            None => path_parent(p@) is None,
        },
{
    std::path::Path::new(p).parent().map(|q| q.to_string_lossy().into_owned())
}

/// The first `n` of the ancestors of a path, as `std::path::Path::ancestors`
/// lists them: the path itself, then its parent, and so on up to the root.
pub open spec fn ancestors(p: Seq<char>, n: nat) -> Seq<Seq<char>>
    decreases n,
{
    if n == 0 {
        Seq::empty()
    } else {
        seq![p] + match path_parent(p) {
            Some(q) => ancestors(q, (n - 1) as nat),
            None => Seq::empty(),
        }
    }
}

/// Each path of a list joined with `rel`.
pub open spec fn join_each(ps: Seq<Seq<char>>, rel: Seq<char>) -> Seq<Seq<char>> {
    ps.map_values(|p: Seq<char>| path_join(p, rel))
}

/// `rel` joined onto each of the first `n` ancestors of `p`, in order.
pub(crate) fn push_under_ancestors(out: &mut Vec<String>, p: &str, n: usize, rel: &str)
    ensures
        final(out)@.map_values(|s: String| s@) == old(out)@.map_values(|s: String| s@)
            + join_each(ancestors(p@, n as nat), rel@),
    decreases n,
{
    if n == 0 {
        assert(join_each(ancestors(p@, 0), rel@) =~= Seq::empty());
        assert(out@.map_values(|s: String| s@) =~= old(out)@.map_values(|s: String| s@));
        return;
    }
    let ghost start = out@.map_values(|s: String| s@);
    out.push(join_path(p, rel));
    let ghost mid = out@.map_values(|s: String| s@);
    assert(mid =~= start.push(path_join(p@, rel@)));
    match parent_path(p) {
        Some(q) => {
            push_under_ancestors(out, q.as_str(), n - 1, rel);
            assert(join_each(ancestors(p@, n as nat), rel@) =~= seq![path_join(p@, rel@)]
                + join_each(ancestors(q@, (n - 1) as nat), rel@));
        },
        None => {
            assert(join_each(ancestors(p@, n as nat), rel@) =~= seq![path_join(p@, rel@)]);
        },
    }
    assert(out@.map_values(|s: String| s@) =~= old(out)@.map_values(|s: String| s@)
        + join_each(ancestors(p@, n as nat), rel@));
}

/// Whether `std::path::Path::is_absolute` holds of a path.
pub uninterp spec fn path_absolute(p: Seq<char>) -> bool;

/// `std::path::Path::is_absolute`, on a path given as text.
#[verifier::external_body]
pub(crate) fn is_absolute_path(p: &str) -> (absolute: bool)
    ensures
        absolute == path_absolute(p@),
{
    std::path::Path::new(p).is_absolute()
}

/// A path taken relative to `base`: an absolute path stays as it is, a
/// relative one is joined onto `base`.
pub open spec fn resolved_against(base: Seq<char>, p: Seq<char>) -> Seq<char> {
    if path_absolute(p) {
        p
    } else {
        path_join(base, p)
    }
}

/// A path taken relative to `base`: an absolute path stays as it is, a
/// relative one is joined onto `base`.
pub fn resolve_against(base: &str, p: &str) -> (resolved: String)
    ensures
        resolved@ == resolved_against(base@, p@),
{
    if is_absolute_path(p) {
        p.to_owned()
    } else {
        join_path(base, p)
    }
}

/// The ancestors of a path start with the path itself, each next one is
/// the parent of the one before, and there are at most `n` of them, fewer
/// only when a root is reached.
pub proof fn lemma_ancestors_chain(p: Seq<char>, n: nat)
    ensures
        ancestors(p, n).len() <= n,
        n > 0 ==> ancestors(p, n).len() > 0 && ancestors(p, n)[0] == p,
        forall|k: int|
            0 <= k < ancestors(p, n).len() - 1 ==> path_parent(#[trigger] ancestors(p, n)[k])
                == Some(ancestors(p, n)[k + 1]),
        ancestors(p, n).len() < n ==> path_parent(ancestors(p, n).last()) is None,
    decreases n,
{
    if n > 0 {
        match path_parent(p) {
            Some(q) => {
                lemma_ancestors_chain(q, (n - 1) as nat);
                let a = ancestors(p, n);
                let b = ancestors(q, (n - 1) as nat);
                assert(a == seq![p] + b);
                assert forall|k: int| 0 <= k < a.len() - 1 implies path_parent(#[trigger] a[k])
                    == Some(a[k + 1]) by {
                    if k > 0 {
                        assert(a[k] == b[k - 1]);
                        assert(a[k + 1] == b[k]);
                    }
                }
                if a.len() < n {
                    assert(b.len() < n - 1);
                    assert(a.last() == b.last());
                }
            },
            None => {
                assert(ancestors(p, n) =~= seq![p]);
            },
        }
    }
}

} // verus!
