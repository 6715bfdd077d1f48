//! Merging and ranking of torrent search results.

use vstd::prelude::*;

verus! {

/// One hit returned by a torrent index.
#[derive(Debug, Clone)]
pub struct TorrentSearchResult {
    pub name: String,
    pub size: String,
    pub seeders: u32,
    pub leechers: u32,
    pub magnet_link: String,
    pub source: String,
}

/// The predicate "has exactly `k` seeders".
pub open spec fn seeded_with(k: u32) -> spec_fn(TorrentSearchResult) -> bool {
    |r: TorrentSearchResult| r.seeders == k
}

/// Seeder counts never increase from front to back.
pub open spec fn is_ranked(s: Seq<TorrentSearchResult>) -> bool {
    forall|i: int, j: int| 0 <= i <= j < s.len() ==> s[j].seeders <= s[i].seeders
}

/// `ranked` is `original` stably sorted by seeders, most seeded first:
/// it is ordered by seeders, and for every seeder count the results with
/// that count appear in the same order as in `original`.
pub open spec fn is_stable_ranking(
    ranked: Seq<TorrentSearchResult>,
    original: Seq<TorrentSearchResult>,
) -> bool {
    &&& is_ranked(ranked)
    &&& forall|k: u32|
        #[trigger] ranked.filter(seeded_with(k)) == original.filter(seeded_with(k))
}

proof fn lemma_filter_none(s: Seq<TorrentSearchResult>, k: u32)
    requires
        forall|i: int| 0 <= i < s.len() ==> s[i].seeders != k,
    ensures
        s.filter(seeded_with(k)) == Seq::<TorrentSearchResult>::empty(),
    decreases s.len(),
{
    reveal(Seq::filter);
    if s.len() > 0 {
        lemma_filter_none(s.drop_last(), k);
    }
}

proof fn lemma_filter_single(x: TorrentSearchResult, k: u32)
    ensures
        seq![x].filter(seeded_with(k)) == (if x.seeders == k {
            seq![x]
        } else {
            Seq::<TorrentSearchResult>::empty()
        }),
{
    reveal(Seq::filter);
    let s = seq![x];
    assert(s.drop_last() =~= Seq::<TorrentSearchResult>::empty());
    assert(s.last() == x);
    assert(Seq::<TorrentSearchResult>::empty().filter(seeded_with(k)) =~= Seq::<
        TorrentSearchResult,
    >::empty());
    if x.seeders == k {
        assert(Seq::<TorrentSearchResult>::empty().push(x) =~= seq![x]);
    }
}

/// Splitting off the first element of a sequence before filtering.
proof fn lemma_filter_front(s: Seq<TorrentSearchResult>, k: u32)
    requires
        s.len() > 0,
    ensures
        s.filter(seeded_with(k)) == seq![s[0]].filter(seeded_with(k)) + s.drop_first().filter(
            seeded_with(k),
        ),
{
    assert(s =~= seq![s[0]] + s.drop_first());
    Seq::filter_distributes_over_add(seq![s[0]], s.drop_first(), seeded_with(k));
}

/// Inserting `x` in front of every result that has no more seeders than it
/// extends a stable ranking of `suffix` to one of `x` followed by `suffix`.
proof fn lemma_insert_ranked(
    ranked: Seq<TorrentSearchResult>,
    suffix: Seq<TorrentSearchResult>,
    x: TorrentSearchResult,
    p: int,
)
    requires
        is_stable_ranking(ranked, suffix),
        0 <= p <= ranked.len(),
        forall|i: int| 0 <= i < p ==> ranked[i].seeders > x.seeders,
        forall|i: int| p <= i < ranked.len() ==> ranked[i].seeders <= x.seeders,
    ensures
        is_stable_ranking(ranked.insert(p, x), seq![x] + suffix),
{
    let a = ranked.subrange(0, p);
    let b = ranked.subrange(p, ranked.len() as int);
    let out = ranked.insert(p, x);
    assert(ranked =~= a + b);
    assert(out =~= (a + seq![x]) + b);
    assert forall|k: u32|
        #[trigger] out.filter(seeded_with(k)) == (seq![x] + suffix).filter(seeded_with(k)) by {
        let f = seeded_with(k);
        Seq::filter_distributes_over_add(a + seq![x], b, f);
        Seq::filter_distributes_over_add(a, seq![x], f);
        Seq::filter_distributes_over_add(seq![x], suffix, f);
        Seq::filter_distributes_over_add(a, b, f);
        lemma_filter_single(x, k);
        assert(ranked.filter(f) == suffix.filter(f));
        if x.seeders == k {
            lemma_filter_none(a, k);
            assert(a.filter(f) + seq![x] + b.filter(f) =~= seq![x] + (a.filter(f) + b.filter(f)));
        } else {
            assert(a.filter(f) + Seq::<TorrentSearchResult>::empty() =~= a.filter(f));
            assert(Seq::<TorrentSearchResult>::empty() + suffix.filter(f) =~= suffix.filter(f));
        }
    }
    assert forall|i: int, j: int| 0 <= i <= j < out.len() implies out[j].seeders
        <= out[i].seeders by {
        if i < p && j > p {
            assert(out[j] == ranked[j - 1]);
        }
    }
}

/// Sorts `results` by seeders, most seeded first, keeping the relative order
/// of results with equal seeder counts.
pub fn rank_by_seeders(results: Vec<TorrentSearchResult>) -> (ranked: Vec<TorrentSearchResult>)
    ensures
        is_stable_ranking(ranked@, results@),
{
    let ghost original = results@;
    let mut rest = results;
    let mut ranked: Vec<TorrentSearchResult> = Vec::new();
    proof {
        assert(original.subrange(original.len() as int, original.len() as int) =~= Seq::<
            TorrentSearchResult,
        >::empty());
        assert(rest@ =~= original.subrange(0, rest.len() as int));
    }
    while rest.len() > 0
        invariant
            rest.len() <= original.len(),
            rest@ == original.subrange(0, rest.len() as int),
            is_stable_ranking(
                ranked@,
                original.subrange(rest.len() as int, original.len() as int),
            ),
        decreases rest.len(),
    {
        let ghost n = rest.len() as int;
        let x = rest.pop().unwrap();
        let mut p: usize = 0;
        while p < ranked.len() && ranked[p].seeders > x.seeders
            invariant
                p <= ranked.len(),
                forall|i: int| 0 <= i < p ==> ranked@[i].seeders > x.seeders,
            decreases ranked.len() - p,
        {
            p = p + 1;
        }
        proof {
            assert(x == original[n - 1]);
            lemma_insert_ranked(
                ranked@,
                original.subrange(n, original.len() as int),
                x,
                p as int,
            );
            assert(seq![x] + original.subrange(n, original.len() as int) =~= original.subrange(
                n - 1,
                original.len() as int,
            ));
        }
        ranked.insert(p, x);
    }
    proof {
        assert(original.subrange(0, original.len() as int) =~= original);
    }
    ranked
}

/// Two stable rankings of the same results are the same sequence: the
/// ranking of a result list is fully determined.
pub proof fn lemma_stable_ranking_unique(
    a: Seq<TorrentSearchResult>,
    b: Seq<TorrentSearchResult>,
    original: Seq<TorrentSearchResult>,
)
    requires
        is_stable_ranking(a, original),
        is_stable_ranking(b, original),
    ensures
        a == b,
{
    lemma_same_groups_same_ranking(a, b);
}

proof fn lemma_same_groups_same_ranking(a: Seq<TorrentSearchResult>, b: Seq<TorrentSearchResult>)
    requires
        is_ranked(a),
        is_ranked(b),
        forall|k: u32| #[trigger] a.filter(seeded_with(k)) == b.filter(seeded_with(k)),
    ensures
        a == b,
    decreases a.len(),
{
    if a.len() == 0 {
        if b.len() > 0 {
            let m = b[0].seeders;
            lemma_filter_front(b, m);
            lemma_filter_single(b[0], m);
            lemma_filter_none(a, m);
            assert(b.filter(seeded_with(m)).len() > 0);
        }
        assert(a =~= b);
    } else {
        let m = a[0].seeders;
        lemma_filter_front(a, m);
        lemma_filter_single(a[0], m);
        assert(a.filter(seeded_with(m))[0] == a[0]);
        if b.len() == 0 {
            lemma_filter_none(b, m);
            assert(false);
        }
        let mb = b[0].seeders;
        lemma_filter_front(b, mb);
        lemma_filter_single(b[0], mb);
        if mb > m {
            lemma_filter_none(a, mb);
            assert(b.filter(seeded_with(mb)).len() > 0);
            assert(false);
        }
        if m > mb {
            lemma_filter_none(b, m);
            assert(a.filter(seeded_with(m)).len() > 0);
            assert(false);
        }
        lemma_filter_front(b, m);
        assert(b.filter(seeded_with(m))[0] == b[0]);
        assert(a[0] == b[0]);
        let a1 = a.drop_first();
        let b1 = b.drop_first();
        assert forall|k: u32| #[trigger] a1.filter(seeded_with(k)) == b1.filter(seeded_with(k)) by {
            lemma_filter_front(a, k);
            lemma_filter_front(b, k);
            let head = seq![a[0]].filter(seeded_with(k));
            assert(a1.filter(seeded_with(k)) =~= a.filter(seeded_with(k)).subrange(
                head.len() as int,
                a.filter(seeded_with(k)).len() as int,
            ));
            assert(b1.filter(seeded_with(k)) =~= b.filter(seeded_with(k)).subrange(
                head.len() as int,
                b.filter(seeded_with(k)).len() as int,
            ));
        }
        assert(is_ranked(a1));
        assert(is_ranked(b1));
        lemma_same_groups_same_ranking(a1, b1);
        assert(a =~= seq![a[0]] + a1);
        assert(b =~= seq![b[0]] + b1);
    }
}

proof fn lemma_filter_keeps_count(s: Seq<TorrentSearchResult>, x: TorrentSearchResult)
    ensures
        s.filter(seeded_with(x.seeders)).to_multiset().count(x) == s.to_multiset().count(x),
    decreases s.len(),
{
    reveal(Seq::filter);
    broadcast use vstd::seq_lib::group_to_multiset_ensures;

    if s.len() > 0 {
        let init = s.drop_last();
        lemma_filter_keeps_count(init, x);
        assert(s =~= init.push(s.last()));
    }
}

/// A stable ranking holds exactly the results it ranks, each as often as
/// in the original list.
pub proof fn lemma_stable_ranking_is_permutation(
    ranked: Seq<TorrentSearchResult>,
    original: Seq<TorrentSearchResult>,
)
    requires
        is_stable_ranking(ranked, original),
    ensures
        ranked.to_multiset() == original.to_multiset(),
{
    assert forall|x: TorrentSearchResult|
        ranked.to_multiset().count(x) == original.to_multiset().count(x) by {
        lemma_filter_keeps_count(ranked, x);
        lemma_filter_keeps_count(original, x);
        assert(ranked.filter(seeded_with(x.seeders)) == original.filter(seeded_with(x.seeders)));
    }
    assert(ranked.to_multiset() =~= original.to_multiset());
}

/// What a source contributed: its results if it answered in time and
/// without error, nothing otherwise.
pub open spec fn answered(source: Option<Vec<TorrentSearchResult>>) -> Seq<TorrentSearchResult> {
    match source {
        Some(results) => results@,
        None => Seq::empty(),
    }
}

/// The number of results kept out of `total` under the limit `max`.
pub open spec fn kept_count(max: usize, total: nat) -> int {
    if total < max {
        total as int
    } else {
        max as int
    }
}

/// Searches two torrent indexes at once and ranks their combined results.
/// The engine fixes how long each index may take, how many results are
/// asked of YTS, and how many ranked results are kept.
#[derive(Clone, Copy)]
pub struct TorrentSearchEngine {
    pub yts_timeout_secs: u64,
    pub piratebay_timeout_secs: u64,
    pub yts_limit: u32,
    pub max_results: usize,
}

impl TorrentSearchEngine {
    /// YTS gets 10 s and is asked for 20 results, The Pirate Bay gets 25 s,
    /// and the 50 best-seeded results are kept.
    pub fn new() -> (engine: Self)
        ensures
            engine.yts_timeout_secs == 10,
            engine.piratebay_timeout_secs == 25,
            engine.yts_limit == 20,
            engine.max_results == 50,
    {
        TorrentSearchEngine {
            yts_timeout_secs: 10,
            piratebay_timeout_secs: 25,
            yts_limit: 20,
            max_results: 50,
        }
    }

    /// Combines what the two indexes answered (YTS first), ranks the results
    /// by seeders, most first, with ties in their combined order, and keeps
    /// the first `max_results` of them. A source that failed or timed out is
    /// given as `None` and contributes nothing.
    pub fn rank_results(
        &self,
        yts: Option<Vec<TorrentSearchResult>>,
        piratebay: Option<Vec<TorrentSearchResult>>,
    ) -> (results: Vec<TorrentSearchResult>)
        ensures
            exists|ranked: Seq<TorrentSearchResult>|
                {
                    &&& is_stable_ranking(ranked, answered(yts) + answered(piratebay))
                    &&& results@ == ranked.take(kept_count(self.max_results, ranked.len()))
                },
    {
        let ghost combined = answered(yts) + answered(piratebay);
        let mut all: Vec<TorrentSearchResult> = Vec::new();
        match yts {
            Some(mut found) => {
                all.append(&mut found);
            },
            None => {},
        }
        match piratebay {
            Some(mut found) => {
                all.append(&mut found);
            },
            None => {},
        }
        assert(all@ =~= combined);
        let mut ranked = rank_by_seeders(all);
        let ghost full = ranked@;
        ranked.truncate(self.max_results);
        assert(ranked@ =~= full.take(kept_count(self.max_results, full.len())));
        ranked
    }
}

impl Default for TorrentSearchEngine {
    fn default() -> (engine: Self)
        ensures
            engine.yts_timeout_secs == 10,
            engine.piratebay_timeout_secs == 25,
            engine.yts_limit == 20,
            engine.max_results == 50,
    {
        TorrentSearchEngine::new()
    }
}

/// Cutting a ranking short never drops a result that has more seeders than
/// one that is kept.
pub proof fn lemma_limit_keeps_best(ranked: Seq<TorrentSearchResult>, n: int)
    requires
        is_ranked(ranked),
        0 <= n <= ranked.len(),
    ensures
        is_ranked(ranked.take(n)),
        forall|i: int, j: int|
            #![trigger ranked.take(n)[i], ranked[j]]
            0 <= i < n <= j < ranked.len() ==> ranked[j].seeders <= ranked.take(n)[i].seeders,
{
}

/// Every result kept after ranking was found by one of the sources.
pub proof fn lemma_kept_results_were_found(
    ranked: Seq<TorrentSearchResult>,
    found: Seq<TorrentSearchResult>,
    n: int,
)
    requires
        is_stable_ranking(ranked, found),
        0 <= n <= ranked.len(),
    ensures
        forall|i: int| 0 <= i < n ==> found.contains(#[trigger] ranked.take(n)[i]),
{
    broadcast use vstd::seq_lib::group_to_multiset_ensures;

    lemma_stable_ranking_is_permutation(ranked, found);
    assert forall|i: int| 0 <= i < n implies found.contains(#[trigger] ranked.take(n)[i]) by {
        assert(ranked[i] == ranked.take(n)[i]);
        assert(ranked.contains(ranked[i]));
        assert(ranked.to_multiset().count(ranked[i]) > 0);
    }
}

} // verus!
