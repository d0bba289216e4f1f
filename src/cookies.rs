use vstd::prelude::*;
use crate::header::{visible_char, visible_text};

verus! {

/// Reads stored cookie text left to right: the `name=value` pairs completed
/// so far, and the pair being read. Pairs end at `;`, spaces before a pair
/// are skipped, and empty pairs are dropped.
pub open spec fn cookie_scan(s: Seq<char>) -> (Seq<Seq<char>>, Seq<char>)
    decreases s.len(),
{
    if s.len() == 0 {
        (Seq::empty(), Seq::empty())
    } else {
        let (done, cur) = cookie_scan(s.drop_last());
        let c = s.last();
        if c == ';' {
            if cur.len() == 0 {
                (done, cur)
            } else {
                (done.push(cur), Seq::empty())
            }
        } else if c == ' ' && cur.len() == 0 {
            (done, cur)
        } else {
            (done, cur.push(c))
        }
    }
}

/// The cookie pairs of a `Cookie` header text such as `a=1; b=2`.
pub open spec fn cookie_pairs(s: Seq<char>) -> Seq<Seq<char>> {
    let (done, cur) = cookie_scan(s);
    if cur.len() == 0 {
        done
    } else {
        done.push(cur)
    }
}

/// Pairs read from visible text are visible text.
proof fn lemma_scan_visible(s: Seq<char>)
    requires
        visible_text(s),
    ensures
        forall|j: int| 0 <= j < cookie_scan(s).0.len() ==> visible_text(#[trigger] cookie_scan(s).0[j]),
        visible_text(cookie_scan(s).1),
    decreases s.len(),
{
    if s.len() > 0 {
        let t = s.drop_last();
        assert(visible_char(s[s.len() - 1]));
        assert(visible_text(t)) by {
            assert forall|i: int| 0 <= i < t.len() implies #[trigger] visible_char(t[i]) by {
                assert(visible_char(s[i]));
            }
        }
        lemma_scan_visible(t);
        let (done, cur) = cookie_scan(t);
        let c = s.last();
        if c != ';' && !(c == ' ' && cur.len() == 0) {
            assert forall|i: int| 0 <= i < cur.push(c).len() implies #[trigger] visible_char(cur.push(c)[i]) by {
                if i < cur.len() {
                    assert(visible_char(cur[i]));
                }
            }
        }
    }
}

/// The cookie pairs of visible text are visible text, so each is accepted
/// as a header value of its own.
pub proof fn lemma_pairs_visible(s: Seq<char>)
    requires
        visible_text(s),
    ensures
        forall|j: int| 0 <= j < cookie_pairs(s).len() ==> visible_text(#[trigger] cookie_pairs(s)[j]),
{
    lemma_scan_visible(s);
}

/// Splits stored cookie text into its `name=value` pairs, so that each can be
/// handed to a cookie store on its own.
pub fn split_cookie_pairs(text: &str) -> (r: Vec<String>)
    ensures
        r@.len() == cookie_pairs(text@).len(),
        forall|j: int| 0 <= j < r@.len() ==> #[trigger] r@[j]@ == cookie_pairs(text@)[j],
{
    let n = text.unicode_len();
    let mut pairs: Vec<String> = Vec::new();
    let mut start: usize = 0;
    let mut i: usize = 0;
    while i < n
        invariant
            n == text@.len(),
            start <= i <= n,
            pairs@.len() == cookie_scan(text@.take(i as int)).0.len(),
            forall|j: int| 0 <= j < pairs@.len() ==> #[trigger] pairs@[j]@ == cookie_scan(text@.take(i as int)).0[j],
            cookie_scan(text@.take(i as int)).1 == text@.subrange(start as int, i as int),
        decreases n - i,
    {
        let ghost before = text@.take(i as int);
        let ghost after = text@.take(i + 1);
        assert(after.drop_last() =~= before);
        assert(after.last() == text@[i as int]);
        let c = text.get_char(i);
        if c == ';' {
            if start < i {
                pairs.push(text.substring_char(start, i).to_owned());
            }
            start = i + 1;
        } else if c == ' ' && start == i {
            start = i + 1;
        }
        i = i + 1;
        assert(cookie_scan(text@.take(i as int)).1 =~= text@.subrange(start as int, i as int));
    }
    assert(text@.take(n as int) =~= text@);
    if start < n {
        pairs.push(text.substring_char(start, n).to_owned());
    }
    pairs
}

} // verus!
