//! The tail of the daemon log: its last lines, as `str::lines` splits them.
use vstd::prelude::*;
use crate::chars::chars_of;
use crate::text::{free_of, index_of, lemma_index_of, string_of};

verus! {

/// A line without the carriage return that ended it.
pub open spec fn strip_cr(line: Seq<char>) -> Seq<char> {
    if line.len() > 0 && line.last() == '\r' {
        line.drop_last()
    } else {
        line
    }
}

/// The lines of a text: split at each line feed, a carriage return before
/// the line feed removed, and no empty last line after a final line feed.
pub open spec fn lines(s: Seq<char>) -> Seq<Seq<char>>
    decreases s.len(),
{
    if s.len() == 0 {
        Seq::empty()
    } else {
        proof {
            lemma_index_of(s, '\n');
        }
        let i = index_of(s, '\n');
        if i < s.len() {
            seq![strip_cr(s.take(i))] + lines(s.skip(i + 1))
        } else {
            seq![s]
        }
    }
}

proof fn lemma_line_end_at(s: Seq<char>, k: int)
    requires
        0 <= k <= s.len(),
        forall|j: int| 0 <= j < k ==> s[j] != '\n',
        k < s.len() ==> s[k] == '\n',
    ensures
        index_of(s, '\n') == k,
{
    lemma_index_of(s, '\n');
    if index_of(s, '\n') < k {
        assert(s[index_of(s, '\n')] == '\n');
    }
    if k < index_of(s, '\n') {
        assert(s[k] != '\n');
    }
}

/// The lines of `content`, as `str::lines` gives them.
pub fn log_lines(content: &str) -> (out: Vec<String>)
    ensures
        out@.map_values(|l: String| l@) == lines(content@),
{
    let chars = chars_of(content);
    let ghost s = chars@;
    let n = chars.len();
    let mut out: Vec<String> = Vec::new();
    let mut p: usize = 0;
    assert(s.skip(0) =~= s);
    while p < n
        invariant
            p <= n == s.len(),
            s == chars@,
            s == content@,
            lines(s) == out@.map_values(|l: String| l@) + lines(s.skip(p as int)),
        decreases n - p,
    {
        let ghost t = s.skip(p as int);
        let mut q = p;
        while q < n && chars[q] != '\n'
            invariant
                p <= q <= n == s.len(),
                s == chars@,
                forall|j: int| p <= j < q ==> s[j] != '\n',
            decreases n - q,
        {
            q = q + 1;
        }
        proof {
            assert forall|j: int| 0 <= j < q - p implies t[j] != '\n' by {
                assert(t[j] == s[p + j]);
            }
            lemma_line_end_at(t, q - p);
        }
        let ghost before = out@.map_values(|l: String| l@);
        if q < n {
            let end = if q > p && chars[q - 1] == '\r' {
                q - 1
            } else {
                q
            };
            let line = string_of(&chars, p, end);
            assert(t.take(q - p) =~= s.subrange(p as int, q as int));
            assert(line@ == strip_cr(t.take(q - p)));
            out.push(line);
            assert(t.skip(q - p + 1) =~= s.skip(q + 1));
            assert(out@.map_values(|l: String| l@) =~= before.push(line@));
            assert(lines(s) == out@.map_values(|l: String| l@) + lines(s.skip(q + 1)));
            p = q + 1;
        } else {
            let line = string_of(&chars, p, n);
            assert(line@ =~= t);
            out.push(line);
            assert(out@.map_values(|l: String| l@) =~= before.push(line@));
            assert(s.skip(n as int) =~= Seq::<char>::empty());
            assert(lines(s) =~= out@.map_values(|l: String| l@) + lines(s.skip(n as int)));
            p = n;
        }
    }
    assert(s.skip(n as int) =~= Seq::<char>::empty());
    assert(lines(s) =~= out@.map_values(|l: String| l@));
    out
}

/// Where the last `tail` of `count` lines begin.
pub open spec fn tail_start(count: int, tail: int) -> int {
    if count >= tail {
        count - tail
    } else {
        0
    }
}

/// The last `tail` lines of `content` (all of them when there are fewer),
/// in order.
pub fn tail_lines(content: &str, tail: usize) -> (out: Vec<String>)
    ensures
        out@.map_values(|l: String| l@) == lines(content@).skip(
            tail_start(lines(content@).len() as int, tail as int),
        ),
{
    let all = log_lines(content);
    let ghost all_view = all@.map_values(|l: String| l@);
    let start = all.len().saturating_sub(tail);
    let mut out: Vec<String> = Vec::new();
    let mut i = start;
    while i < all.len()
        invariant
            start <= i <= all@.len(),
            all_view == all@.map_values(|l: String| l@),
            out@.map_values(|l: String| l@) == all_view.subrange(start as int, i as int),
        decreases all@.len() - i,
    {
        let ghost before = out@.map_values(|l: String| l@);
        let line = all[i].clone();
        assert(line@ == all_view[i as int]);
        out.push(line);
        assert(out@.map_values(|l: String| l@) =~= before.push(line@));
        assert(out@.map_values(|l: String| l@) =~= all_view.subrange(start as int, i + 1));
        i = i + 1;
    }
    assert(all_view.subrange(start as int, all@.len() as int) =~= all_view.skip(start as int));
    out
}

/// A line ending in a carriage return loses it, and only it; any other
/// line is kept as it is.
pub proof fn lemma_strip_cr(a: Seq<char>)
    ensures
        strip_cr(a.push('\r')) == a,
        (a.len() == 0 || a.last() != '\r') ==> strip_cr(a) == a,
{
    assert(a.push('\r').drop_last() =~= a);
}

/// The lines of a text are cut at each line feed: the text up to the first
/// line feed, without a final carriage return, is the first line, and the
/// lines of the rest follow; a non-empty text without a line feed is one
/// line, and an empty text has none.
pub proof fn lemma_lines_cut(a: Seq<char>, b: Seq<char>)
    requires
        free_of(a, '\n'),
    ensures
        lines(a + seq!['\n'] + b) == seq![strip_cr(a)] + lines(b),
        a.len() > 0 ==> lines(a) == seq![a],
        lines(Seq::<char>::empty()) == Seq::<Seq<char>>::empty(),
{
    let s = a + seq!['\n'] + b;
    lemma_line_end_at(s, a.len() as int);
    assert(s.take(a.len() as int) =~= a);
    assert(s.skip(a.len() as int + 1) =~= b);
    if a.len() > 0 {
        lemma_line_end_at(a, a.len() as int);
    }
}

/// No line holds a line feed.
pub proof fn lemma_lines_hold_no_line_feed(s: Seq<char>, k: int)
    requires
        0 <= k < lines(s).len(),
    ensures
        free_of(lines(s)[k], '\n'),
    decreases s.len(),
{
    lemma_index_of(s, '\n');
    let i = index_of(s, '\n');
    if i < s.len() {
        if k == 0 {
            assert(lines(s)[0] == strip_cr(s.take(i)));
            assert forall|j: int| 0 <= j < strip_cr(s.take(i)).len() implies strip_cr(s.take(i))[j]
                != '\n' by {
                assert(strip_cr(s.take(i))[j] == s[j]);
            }
        } else {
            lemma_lines_hold_no_line_feed(s.skip(i + 1), k - 1);
            assert(lines(s)[k] == lines(s.skip(i + 1))[k - 1]);
        }
    }
}

/// The tail holds the last `tail` lines, all of them when there are fewer,
/// in their order.
pub proof fn lemma_tail_is_last_lines(ls: Seq<Seq<char>>, tail: int)
    requires
        tail >= 0,
    ensures
        ({
            let t = ls.skip(tail_start(ls.len() as int, tail));
            let m = if ls.len() < tail { ls.len() as int } else { tail };
            &&& t.len() == m
            &&& forall|k: int| 0 <= k < m ==> #[trigger] t[k] == ls[ls.len() - m + k]
        }),
{
}

} // verus!
