//! Fuzzy search over named items: items whose name matches the pattern, best
//! score first.
use vstd::prelude::*;

use fuzzy_matcher::skim::SkimMatcherV2;
use fuzzy_matcher::FuzzyMatcher;

verus! {

/// The score that skim's default fuzzy matcher gives `choice` for `pattern`, or
/// `None` when it does not match.
pub uninterp spec fn skim_score(choice: Seq<char>, pattern: Seq<char>) -> Option<i64>;

/// `SkimMatcherV2::fuzzy_indices` with the default matcher, keeping the score: the
/// result is [`skim_score`] of the two strings, and an empty pattern matches with
/// score 0.
#[verifier::external_body]
fn fuzzy_score(choice: &str, pattern: &str) -> (r: Option<i64>)
    ensures
        r == skim_score(choice@, pattern@),
        pattern@.len() == 0 ==> r == Some(0i64),
{
    SkimMatcherV2::default().fuzzy_indices(choice, pattern).map(|x| x.0)
}

/// `a` comes before `b` in a ranking: a higher score first, and the earlier item
/// first among equal scores.
pub open spec fn ranks_before(a: (i64, usize), b: (i64, usize)) -> bool {
    a.0 > b.0 || (a.0 == b.0 && a.1 < b.1)
}

/// `r` ranks the items among the first `n` of `names` that match `pattern`: each of
/// them appears once, with its score, and in ranking order.
pub open spec fn is_ranking(r: Seq<(i64, usize)>, names: Seq<Seq<char>>, pattern: Seq<char>, n: int) -> bool {
    &&& forall|k: int|
        0 <= k < r.len() ==> 0 <= (#[trigger] r[k]).1 < n && skim_score(names[r[k].1 as int], pattern)
            == Some(r[k].0)
    &&& forall|i: int|
        0 <= i < n && (#[trigger] skim_score(names[i], pattern)) is Some ==> exists|k: int|
            0 <= k < r.len() && r[k].1 == i
    &&& forall|a: int, b: int| 0 <= a < b < r.len() ==> ranks_before(#[trigger] r[a], #[trigger] r[b])
}

pub struct SearchEngine<T> {
    pool: Vec<(String, T)>,
    result: Vec<(i64, usize)>,
}

impl<T> SearchEngine<T> {
    /// The names of the items.
    pub closed spec fn names(&self) -> Seq<Seq<char>> {
        self.pool@.map_values(|p: (String, T)| p.0@)
    }

    /// The items.
    pub closed spec fn values(&self) -> Seq<T> {
        self.pool@.map_values(|p: (String, T)| p.1)
    }

    /// The last search's result: (score, item) pairs in ranking order.
    pub closed spec fn result(&self) -> Seq<(i64, usize)> {
        self.result@
    }

    /// The result only names items of the pool.
    pub closed spec fn wf(&self) -> bool {
        forall|k: int| 0 <= k < self.result@.len() ==> (#[trigger] self.result@[k]).1 < self.pool@.len()
    }

    pub fn new() -> (e: Self)
        ensures
            e.wf(),
            e.names() == Seq::<Seq<char>>::empty(),
            e.values() == Seq::<T>::empty(),
            e.result() == Seq::<(i64, usize)>::empty(),
    {
        Self { pool: Vec::new(), result: Vec::new() }
    }

    /// Adds an item under `name`; the last result stays.
    pub fn push(&mut self, name: String, value: T)
        requires
            old(self).wf(),
        ensures
            final(self).wf(),
            final(self).names() == old(self).names().push(name@),
            final(self).values() == old(self).values().push(value),
            final(self).result() == old(self).result(),
    {
        let ghost n = name@;
        self.pool.push((name, value));
        proof {
            assert(self.names() =~= old(self).names().push(n));
            assert(self.values() =~= old(self).values().push(value));
        }
    }

    /// Ranks the items by how well their names match `pattern` (see [`is_ranking`]).
    pub fn search(&mut self, pattern: &str)
        requires
            old(self).wf(),
        ensures
            final(self).wf(),
            final(self).names() == old(self).names(),
            final(self).values() == old(self).values(),
            is_ranking(final(self).result(), old(self).names(), pattern@, old(self).names().len() as int),
    {
        let ghost names = self.names();
        let n = self.pool.len();
        let mut result: Vec<(i64, usize)> = Vec::new();
        let mut i: usize = 0;
        while i < n
            invariant
                n == self.pool@.len(),
                names == self.names(),
                names.len() == n,
                i <= n,
                is_ranking(result@, names, pattern@, i as int),
            decreases n - i,
        {
            let score = fuzzy_score(self.pool[i].0.as_str(), pattern);
            proof {
                assert(self.pool@[i as int].0@ == names[i as int]);
            }
            match score {
                Some(s) => {
                    let ghost before = result@;
                    let mut p: usize = 0;
                    while p < result.len() && result[p].0 >= s
                        invariant
                            p <= result@.len(),
                            result@ == before,
                            forall|q: int| 0 <= q < p ==> (#[trigger] result@[q]).0 >= s,
                        decreases result@.len() - p,
                    {
                        p = p + 1;
                    }
                    result.insert(p, (s, i));
                    proof {
                        lemma_insert_keeps_ranking(before, names, pattern@, i as int, s, p as int);
                    }
                },
                None => {
                    proof {
                        assert forall|j: int|
                            0 <= j < i + 1 && (#[trigger] skim_score(names[j], pattern@)) is Some implies exists|k: int|
                                0 <= k < result@.len() && result@[k].1 == j by {
                            assert(j < i);
                        }
                    }
                },
            }
            i = i + 1;
        }
        self.result = result;
    }

    /// The item ranked `index` by the last search.
    pub fn get(&self, index: usize) -> (r: Option<&T>)
        requires
            self.wf(),
        ensures
            index < self.result().len() ==> r == Some(&self.values()[self.result()[index as int].1 as int]),
            index >= self.result().len() ==> r is None,
    {
        if index < self.result.len() {
            let i = self.result[index].1;
            Some(&self.pool[i].1)
        } else {
            None
        }
    }
}

proof fn lemma_insert_keeps_ranking(
    r: Seq<(i64, usize)>,
    names: Seq<Seq<char>>,
    pattern: Seq<char>,
    i: int,
    s: i64,
    p: int,
)
    requires
        0 <= i < names.len(),
        is_ranking(r, names, pattern, i),
        skim_score(names[i], pattern) == Some(s),
        0 <= p <= r.len(),
        forall|q: int| 0 <= q < p ==> (#[trigger] r[q]).0 >= s,
        p < r.len() ==> r[p].0 < s,
        i <= usize::MAX,
    ensures
        is_ranking(r.insert(p, (s, i as usize)), names, pattern, i + 1),
{
    let r2 = r.insert(p, (s, i as usize));
    assert forall|k: int| 0 <= k < r2.len() implies 0 <= (#[trigger] r2[k]).1 < i + 1
        && skim_score(names[r2[k].1 as int], pattern) == Some(r2[k].0) by {
        if k < p {
            assert(r2[k] == r[k]);
        } else if k > p {
            assert(r2[k] == r[k - 1]);
        }
    }
    assert forall|j: int|
        0 <= j < i + 1 && (#[trigger] skim_score(names[j], pattern)) is Some implies exists|k: int|
            0 <= k < r2.len() && r2[k].1 == j by {
        if j == i {
            assert(r2[p].1 == i);
        } else {
            let k = choose|k: int| 0 <= k < r.len() && r[k].1 == j;
            if k < p {
                assert(r2[k] == r[k]);
            } else {
                assert(r2[k + 1] == r[k]);
            }
        }
    }
    assert forall|a: int, b: int| 0 <= a < b < r2.len() implies ranks_before(#[trigger] r2[a], #[trigger] r2[b]) by {
        if a < p && b < p {
            assert(r2[a] == r[a] && r2[b] == r[b]);
        } else if a < p && b == p {
            assert(r2[a] == r[a]);
            assert(r[a].1 < i);
        } else if a < p && b > p {
            assert(r2[a] == r[a] && r2[b] == r[b - 1]);
        } else if a == p {
            assert(r2[b] == r[b - 1]);
            assert(r[p].0 < s);
            if b - 1 > p {
                assert(ranks_before(r[p], r[b - 1]));
            }
        } else {
            assert(r2[a] == r[a - 1] && r2[b] == r[b - 1]);
        }
    }
}

/// Two sequences in strict ranking order that hold the same pairs are equal.
proof fn lemma_sorted_same_members(r: Seq<(i64, usize)>, q: Seq<(i64, usize)>)
    requires
        forall|a: int, b: int| 0 <= a < b < r.len() ==> ranks_before(#[trigger] r[a], #[trigger] r[b]),
        forall|a: int, b: int| 0 <= a < b < q.len() ==> ranks_before(#[trigger] q[a], #[trigger] q[b]),
        forall|x: (i64, usize)| r.contains(x) <==> q.contains(x),
    ensures
        r == q,
    decreases r.len(),
{
    if r.len() == 0 {
        if q.len() > 0 {
            assert(q.contains(q[0]));
        }
        assert(r =~= q);
    } else {
        assert(r.contains(r[0]));
        assert(q.len() > 0);
        assert(q.contains(q[0]));
        let kq = choose|k: int| 0 <= k < q.len() && q[k] == r[0];
        let kr = choose|k: int| 0 <= k < r.len() && r[k] == q[0];
        if kq > 0 {
            assert(ranks_before(q[0], q[kq]));
            if kr > 0 {
                assert(ranks_before(r[0], r[kr]));
            }
        }
        assert(r[0] == q[0]);
        let r1 = r.drop_first();
        let q1 = q.drop_first();
        assert forall|x: (i64, usize)| r1.contains(x) <==> q1.contains(x) by {
            if r1.contains(x) {
                let k = choose|k: int| 0 <= k < r1.len() && r1[k] == x;
                assert(r[k + 1] == x);
                assert(ranks_before(r[0], r[k + 1]));
                assert(q.contains(x));
                let j = choose|j: int| 0 <= j < q.len() && q[j] == x;
                assert(j != 0);
                assert(q1[j - 1] == x);
            }
            if q1.contains(x) {
                let k = choose|k: int| 0 <= k < q1.len() && q1[k] == x;
                assert(q[k + 1] == x);
                assert(ranks_before(q[0], q[k + 1]));
                assert(r.contains(x));
                let j = choose|j: int| 0 <= j < r.len() && r[j] == x;
                assert(j != 0);
                assert(r1[j - 1] == x);
            }
        }
        assert forall|a: int, b: int| 0 <= a < b < r1.len() implies ranks_before(#[trigger] r1[a], #[trigger] r1[b]) by {
            assert(r1[a] == r[a + 1] && r1[b] == r[b + 1]);
        }
        assert forall|a: int, b: int| 0 <= a < b < q1.len() implies ranks_before(#[trigger] q1[a], #[trigger] q1[b]) by {
            assert(q1[a] == q[a + 1] && q1[b] == q[b + 1]);
        }
        lemma_sorted_same_members(r1, q1);
        assert(r.len() == q.len());
        assert forall|k: int| 0 <= k < r.len() implies r[k] == q[k] by {
            if k > 0 {
                assert(r[k] == r1[k - 1]);
                assert(q[k] == q1[k - 1]);
            }
        }
        assert(r =~= q);
    }
}

/// Searching is deterministic: for the same names and pattern there is one ranking
/// only, so every search gives the same result.
pub proof fn lemma_ranking_is_unique(
    r: Seq<(i64, usize)>,
    q: Seq<(i64, usize)>,
    names: Seq<Seq<char>>,
    pattern: Seq<char>,
    n: int,
)
    requires
        0 <= n <= names.len(),
        is_ranking(r, names, pattern, n),
        is_ranking(q, names, pattern, n),
    ensures
        r == q,
{
    assert forall|x: (i64, usize)| r.contains(x) implies q.contains(x) by {
        let k = choose|k: int| 0 <= k < r.len() && r[k] == x;
        assert(0 <= r[k].1 < n);
        let i = x.1 as int;
        assert(skim_score(names[i], pattern) is Some);
        let j = choose|j: int| 0 <= j < q.len() && q[j].1 == i;
        assert(q[j].0 == x.0);
        assert(q[j] == x);
    }
    assert forall|x: (i64, usize)| q.contains(x) implies r.contains(x) by {
        let k = choose|k: int| 0 <= k < q.len() && q[k] == x;
        assert(0 <= q[k].1 < n);
        let i = x.1 as int;
        assert(skim_score(names[i], pattern) is Some);
        let j = choose|j: int| 0 <= j < r.len() && r[j].1 == i;
        assert(r[j].0 == x.0);
        assert(r[j] == x);
    }
    lemma_sorted_same_members(r, q);
}

} // verus!
