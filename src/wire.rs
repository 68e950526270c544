//! The reply body of a successful upload: relative paths separated by single
//! spaces, read back by splitting on whitespace.
use vstd::prelude::*;

verus! {

pub open spec fn is_space(c: char) -> bool {
    c == ' ' || c == '\t' || c == '\n' || c == '\r'
}

/// A word: non-empty, without whitespace.
pub open spec fn is_word(w: Seq<char>) -> bool {
    w.len() > 0 && forall|i: int| 0 <= i < w.len() ==> !is_space(#[trigger] w[i])
}

/// The words joined by single spaces.
pub open spec fn joined(ws: Seq<Seq<char>>) -> Seq<char>
    decreases ws.len(),
{
    if ws.len() == 0 {
        seq![]
    } else if ws.len() == 1 {
        ws[0]
    } else {
        joined(ws.drop_last()) + seq![' '] + ws.last()
    }
}

/// Reading `s` left to right: the words completed so far and the word in progress.
pub open spec fn scan(s: Seq<char>) -> (Seq<Seq<char>>, Seq<char>)
    decreases s.len(),
{
    if s.len() == 0 {
        (seq![], seq![])
    } else {
        let (done, cur) = scan(s.drop_last());
        if is_space(s.last()) {
            if cur.len() > 0 {
                (done.push(cur), seq![])
            } else {
                (done, cur)
            }
        } else {
            (done, cur.push(s.last()))
        }
    }
}

/// The maximal runs of non-whitespace characters of `s`, in order.
pub open spec fn words(s: Seq<char>) -> Seq<Seq<char>> {
    let (done, cur) = scan(s);
    if cur.len() > 0 {
        done.push(cur)
    } else {
        done
    }
}

pub open spec fn views(v: Seq<String>) -> Seq<Seq<char>> {
    v.map_values(|x: String| x@)
}

/// The paths joined by single spaces.
pub fn join_paths(paths: &Vec<String>) -> (r: String)
    ensures
        r@ == joined(views(paths@)),
{
    let mut s = String::new();
    let mut i: usize = 0;
    while i < paths.len()
        invariant
            i <= paths.len(),
            s@ == joined(views(paths@).subrange(0, i as int)),
        decreases paths.len() - i,
    {
        let ghost prev = views(paths@).subrange(0, i as int);
        if i > 0 {
            s.append(" ");
            proof {
                reveal_strlit(" ");
            }
        }
        s.append(paths[i].as_str());
        proof {
            let next = views(paths@).subrange(0, i + 1);
            assert(next.drop_last() =~= prev);
            assert(s@ =~= joined(next));
        }
        i = i + 1;
    }
    assert(views(paths@).subrange(0, paths.len() as int) =~= views(paths@));
    s
}

/// The whitespace-separated words of `s`, in order.
pub fn split_words(s: &str) -> (r: Vec<String>)
    ensures
        views(r@) == words(s@),
{
    let n = s.unicode_len();
    let mut out: Vec<String> = Vec::new();
    let mut start: usize = 0;
    let mut i: usize = 0;
    while i < n
        invariant
            n == s@.len(),
            start <= i <= n,
            (views(out@), s@.subrange(start as int, i as int)) == scan(s@.subrange(0, i as int)),
        decreases n - i,
    {
        let c = s.get_char(i);
        let ghost pre = s@.subrange(0, i as int);
        assert(s@.subrange(0, i + 1).drop_last() =~= pre);
        if c == ' ' || c == '\t' || c == '\n' || c == '\r' {
            if start < i {
                let w = s.substring_char(start, i).to_owned();
                out.push(w);
                assert(views(out@) =~= scan(pre).0.push(scan(pre).1));
            }
            start = i + 1;
            assert(s@.subrange(start as int, i + 1) =~= seq![]);
        } else {
            assert(s@.subrange(start as int, i + 1) =~= s@.subrange(start as int, i as int).push(c));
        }
        i = i + 1;
    }
    assert(s@.subrange(0, n as int) =~= s@);
    if start < n {
        let w = s.substring_char(start, n).to_owned();
        out.push(w);
        assert(views(out@) =~= words(s@));
    }
    out
}

proof fn lemma_scan_word(a: Seq<char>, w: Seq<char>)
    requires
        forall|i: int| 0 <= i < w.len() ==> !is_space(#[trigger] w[i]),
    ensures
        scan(a + w) == (scan(a).0, scan(a).1 + w),
    decreases w.len(),
{
    if w.len() == 0 {
        assert(a + w =~= a);
        assert(scan(a).1 + w =~= scan(a).1);
    } else {
        let w0 = w.drop_last();
        assert((a + w).drop_last() =~= a + w0);
        lemma_scan_word(a, w0);
        assert(scan(a).1 + w0 + seq![w.last()] =~= scan(a).1 + w);
        assert((scan(a).1 + w0).push(w.last()) =~= scan(a).1 + w);
    }
}

proof fn lemma_scan_joined(ws: Seq<Seq<char>>)
    requires
        ws.len() > 0,
        forall|i: int| 0 <= i < ws.len() ==> is_word(#[trigger] ws[i]),
    ensures
        scan(joined(ws)) == (ws.drop_last(), ws.last()),
    decreases ws.len(),
{
    if ws.len() == 1 {
        lemma_scan_word(seq![], ws[0]);
        assert(seq![] + ws[0] =~= ws[0]);
        assert(ws.drop_last() =~= seq![]);
        assert(scan(seq![]).1 + ws[0] =~= ws[0]);
    } else {
        let p = ws.drop_last();
        assert forall|i: int| 0 <= i < p.len() implies is_word(#[trigger] p[i]) by {
            assert(p[i] == ws[i]);
        }
        lemma_scan_joined(p);
        let a = joined(p) + seq![' '];
        assert(a.drop_last() =~= joined(p));
        assert(p.drop_last().push(p.last()) =~= p);
        assert(scan(a) == (p, Seq::<char>::empty()));
        assert(is_word(ws[ws.len() - 1]));
        lemma_scan_word(a, ws.last());
        assert(Seq::<char>::empty() + ws.last() =~= ws.last());
    }
}

/// Joining non-empty, whitespace-free paths and splitting the result on
/// whitespace gives back the same paths in the same order.
pub proof fn lemma_split_joined(ws: Seq<Seq<char>>)
    requires
        forall|i: int| 0 <= i < ws.len() ==> is_word(#[trigger] ws[i]),
    ensures
        words(joined(ws)) == ws,
{
    if ws.len() == 0 {
        assert(words(joined(ws)) =~= ws);
    } else {
        lemma_scan_joined(ws);
        assert(ws.drop_last().push(ws.last()) =~= ws);
    }
}

} // verus!
