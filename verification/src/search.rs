//! Searching the library: case-insensitive substring matching, fuzzy
//! subsequence scoring, and the ranked result lists built from them.
use vstd::prelude::*;
use crate::app::{items_view, ItemView, LibraryItem, SearchMode};
use crate::kodi::{Album, AlbumView, Artist, ArtistView, Song, SongView};
use crate::text::{
    char_count, chars_of, contains_infix, is_infix, join, join_strings, lowercase, push_char,
    push_str, to_lowercase,
};

verus! {

// ------------------------------------------------------------------
// Matching a single text
// ------------------------------------------------------------------

/// Case-insensitive substring match: the lowercased needle occurs in the
/// lowercased haystack.
pub open spec fn exact_match_spec(haystack: Seq<char>, needle: Seq<char>) -> bool {
    is_infix(lowercase(needle), lowercase(haystack))
}

/// The first index at or after `from` where `c` occurs in `h`.
pub open spec fn find_from(h: Seq<char>, c: char, from: int) -> Option<int>
    decreases h.len() - from,
{
    if from < 0 || from >= h.len() {
        None
    } else if h[from] == c {
        Some(from)
    } else {
        find_from(h, c, from + 1)
    }
}

/// Matches the characters of `n` one after another, each at its first
/// occurrence after the previous match, starting at index `from` of `h`.
/// Gives the number of characters of `h` consumed up to the last match.
pub open spec fn greedy_end(h: Seq<char>, n: Seq<char>, from: int) -> Option<int>
    decreases n.len(),
{
    if n.len() == 0 {
        Some(from)
    } else {
        match find_from(h, n[0], from) {
            Some(i) => greedy_end(h, n.drop_first(), i + 1),
            None => None,
        }
    }
}

/// The fuzzy score: `Some(0)` for an empty needle; otherwise, when the
/// lowercased needle is a subsequence of the lowercased haystack, minus the
/// position (counted from one) of the last character of the leftmost
/// greedy match; `None` when it is not a subsequence. Lower ranks first.
pub open spec fn fuzzy_score_spec(haystack: Seq<char>, needle: Seq<char>) -> Option<int> {
    if needle.len() == 0 {
        Some(0)
    } else {
        match greedy_end(lowercase(haystack), lowercase(needle), 0) {
            Some(e) => Some(-e),
            None => None,
        }
    }
}

pub fn exact_match(haystack: &str, needle: &str) -> (r: bool)
    ensures
        r == exact_match_spec(haystack@, needle@),
{
    let h = chars_of(to_lowercase(haystack).as_str());
    let n = chars_of(to_lowercase(needle).as_str());
    contains_infix(&h, &n)
}

pub fn fuzzy_score(haystack: &str, needle: &str) -> (r: Option<i64>)
    ensures
        match fuzzy_score_spec(haystack@, needle@) {
            Some(s) => r == Some(s as i64) && i64::MIN <= s <= 0,
            None => r is None,
        },
{
    if needle.is_empty() {
        return Some(0);
    }
    let h = chars_of(to_lowercase(haystack).as_str());
    let n = chars_of(to_lowercase(needle).as_str());
    let hl = char_count(&h);
    let nl = n.len();
    let ghost hs = h@;
    let ghost ns = n@;
    let mut hi: usize = 0;
    let mut score: i64 = 0;
    let mut last_match: usize = 0;
    assert(ns.skip(0) == ns);
    for k in 0..nl
        invariant
            hs == h@,
            ns == n@,
            hs == lowercase(haystack@),
            ns == lowercase(needle@),
            needle@.len() != 0,
            hl == hs.len(),
            hl <= isize::MAX,
            nl == ns.len(),
            hi == last_match,
            last_match <= hl,
            score == -(last_match as int),
            greedy_end(hs, ns, 0) == greedy_end(hs, ns.skip(k as int), last_match as int),
    {
        let nc = n[k];
        let mut found = false;
        let mut pos = last_match;
        let ghost start = last_match;
        while hi < hl
            invariant_except_break
                pos == hi,
                start <= hi <= hl,
                !found,
                find_from(hs, nc, start as int) == find_from(hs, nc, hi as int),
                last_match == start,
                score == -(start as int),
            invariant
                hs == h@,
                hl == hs.len(),
                hl <= isize::MAX,
                nc == ns[k as int],
            ensures
                found ==> (find_from(hs, nc, start as int) == Some(last_match - 1)
                    && start < last_match <= hl && hi == last_match
                    && score == -(last_match as int)),
                !found ==> find_from(hs, nc, start as int) is None && last_match == start,
            decreases hl - hi,
        {
            let hc = h[hi];
            hi = hi + 1;
            pos = pos + 1;
            if hc == nc {
                score = score - (pos as i64 - last_match as i64);
                last_match = pos;
                found = true;
                break;
            }
        }
        if !found {
            proof {
                let rest = ns.skip(k as int);
                assert(rest.len() > 0);
                assert(rest[0] == nc);
                assert(find_from(hs, rest[0], last_match as int) is None);
                assert(greedy_end(hs, rest, last_match as int) is None);
                assert(greedy_end(hs, ns, 0) is None);
                assert(needle@.len() != 0);
            }
            return None;
        }
        proof {
            assert(ns.skip(k as int)[0] == nc);
            assert(ns.skip(k as int).drop_first() == ns.skip(k + 1));
        }
    }
    proof {
        assert(ns.skip(nl as int).len() == 0);
    }
    Some(score)
}

// ------------------------------------------------------------------
// Ranking and selecting
// ------------------------------------------------------------------

/// Scores are compared first, then positions.
pub open spec fn ranks_before(scores: Seq<Option<int>>, a: usize, b: usize) -> bool {
    let sa = scores[a as int]->0;
    let sb = scores[b as int]->0;
    sa < sb || (sa == sb && a < b)
}

/// `order` lists every position whose score is `Some`, exactly once, by
/// ascending score and, for equal scores, in the order they were given (a stable
/// sort by score).
pub open spec fn is_ranking(scores: Seq<Option<int>>, order: Seq<usize>) -> bool {
    &&& forall|k: int| 0 <= k < order.len() ==> #[trigger] order[k] < scores.len() && scores[order[k] as int] is Some
    &&& forall|i: int| 0 <= i < scores.len() && #[trigger] scores[i] is Some ==> order.contains(i as usize)
    &&& forall|a: int, b: int| 0 <= a < b < order.len() ==> ranks_before(scores, #[trigger] order[a], #[trigger] order[b])
}

/// The ranking of `scores` (there is exactly one: `lemma_ranking_unique`).
pub open spec fn ranking(scores: Seq<Option<int>>) -> Seq<usize> {
    choose|order: Seq<usize>| is_ranking(scores, order)
}

/// Two rankings of the same scores are the same list.
pub proof fn lemma_ranking_unique(scores: Seq<Option<int>>, o1: Seq<usize>, o2: Seq<usize>)
    requires
        scores.len() <= usize::MAX,
        is_ranking(scores, o1),
        is_ranking(scores, o2),
    ensures
        o1 == o2,
    decreases o1.len() + o2.len(),
{
    if o1.len() == 0 {
        if o2.len() > 0 {
            let _ = o2[0];
            assert(scores[o2[0] as int] is Some);
            assert(o1.contains(o2[0]));
        }
        assert(o1 =~= o2);
    } else if o2.len() == 0 {
        let _ = o1[0];
        assert(scores[o1[0] as int] is Some);
        assert(o2.contains(o1[0]));
    } else {
        let m1 = o1[0];
        let m2 = o2[0];
        assert(scores[m2 as int] is Some);
        assert(scores[m1 as int] is Some);
        assert(o1.contains(m2));
        assert(o2.contains(m1));
        let a = choose|a: int| 0 <= a < o1.len() && o1[a] == m2;
        let b = choose|b: int| 0 <= b < o2.len() && o2[b] == m1;
        if a > 0 && b > 0 {
            assert(ranks_before(scores, o1[0], o1[a]));
            assert(ranks_before(scores, o2[0], o2[b]));
            assert(false);
        }
        assert(m1 == m2);
        let s2 = scores.update(m1 as int, None);
        let t1 = o1.drop_first();
        let t2 = o2.drop_first();
        assert forall|k: int| 0 <= k < t1.len() implies #[trigger] t1[k] < s2.len() && s2[t1[k] as int] is Some by {
            assert(t1[k] == o1[k + 1]);
            assert(ranks_before(scores, o1[0], o1[k + 1]));
        }
        assert forall|k: int| 0 <= k < t2.len() implies #[trigger] t2[k] < s2.len() && s2[t2[k] as int] is Some by {
            assert(t2[k] == o2[k + 1]);
            assert(ranks_before(scores, o2[0], o2[k + 1]));
        }
        assert forall|i: int| 0 <= i < s2.len() && #[trigger] s2[i] is Some implies t1.contains(i as usize) by {
            assert(scores[i] is Some);
            assert(o1.contains(i as usize));
            let j = choose|j: int| 0 <= j < o1.len() && o1[j] == i as usize;
            assert(j != 0);
            assert(t1[j - 1] == i as usize);
        }
        assert forall|i: int| 0 <= i < s2.len() && #[trigger] s2[i] is Some implies t2.contains(i as usize) by {
            assert(scores[i] is Some);
            assert(o2.contains(i as usize));
            let j = choose|j: int| 0 <= j < o2.len() && o2[j] == i as usize;
            assert(j != 0);
            assert(t2[j - 1] == i as usize);
        }
        assert forall|x: int, y: int| 0 <= x < y < t1.len() implies ranks_before(s2, #[trigger] t1[x], #[trigger] t1[y]) by {
            assert(t1[x] == o1[x + 1]);
            assert(t1[y] == o1[y + 1]);
            assert(ranks_before(scores, o1[x + 1], o1[y + 1]));
            assert(ranks_before(scores, o1[0], o1[x + 1]));
            assert(ranks_before(scores, o1[0], o1[y + 1]));
        }
        assert forall|x: int, y: int| 0 <= x < y < t2.len() implies ranks_before(s2, #[trigger] t2[x], #[trigger] t2[y]) by {
            assert(t2[x] == o2[x + 1]);
            assert(t2[y] == o2[y + 1]);
            assert(ranks_before(scores, o2[x + 1], o2[y + 1]));
            assert(ranks_before(scores, o2[0], o2[x + 1]));
            assert(ranks_before(scores, o2[0], o2[y + 1]));
        }
        lemma_ranking_unique(s2, t1, t2);
        assert(o1 =~= o2) by {
            assert forall|k: int| 0 <= k < o1.len() implies o1[k] == o2[k] by {
                if k > 0 {
                    assert(o1[k] == t1[k - 1]);
                    assert(o2[k] == t2[k - 1]);
                }
            }
        }
    }
}

/// `order` ranks the scored positions below `n`: each listed once, by
/// ascending score, equal scores by position.
pub open spec fn ranks_prefix(scores: Seq<Option<int>>, n: nat, order: Seq<usize>) -> bool {
    &&& forall|k: int| 0 <= k < order.len() ==> #[trigger] order[k] < n && scores[order[k] as int] is Some
    &&& forall|j: int| 0 <= j < n && #[trigger] scores[j] is Some ==> order.contains(j as usize)
    &&& forall|a: int, b: int| 0 <= a < b < order.len() ==> ranks_before(scores, #[trigger] order[a], #[trigger] order[b])
}

/// The first place at or after `from` in `order` whose score is above `s`
/// (the length of `order` when there is none).
pub open spec fn first_above(scores: Seq<Option<int>>, order: Seq<usize>, s: int, from: int) -> int
    decreases order.len() - from,
{
    if from < 0 || from >= order.len() {
        order.len() as int
    } else if scores[order[from] as int]->0 > s {
        from
    } else {
        first_above(scores, order, s, from + 1)
    }
}

proof fn lemma_first_above(scores: Seq<Option<int>>, order: Seq<usize>, s: int, from: int)
    requires
        0 <= from <= order.len(),
    ensures
        from <= first_above(scores, order, s, from) <= order.len(),
        forall|k: int| from <= k < first_above(scores, order, s, from) ==> scores[#[trigger] order[k] as int]->0 <= s,
        first_above(scores, order, s, from) < order.len() ==> scores[order[first_above(scores, order, s, from)] as int]->0
            > s,
    decreases order.len() - from,
{
    if from < order.len() && scores[order[from] as int]->0 <= s {
        lemma_first_above(scores, order, s, from + 1);
    }
}

proof fn lemma_prefix_ranking(scores: Seq<Option<int>>, n: nat) -> (order: Seq<usize>)
    requires
        n <= scores.len() <= usize::MAX,
    ensures
        ranks_prefix(scores, n, order),
    decreases n,
{
    if n == 0 {
        Seq::empty()
    } else {
        let prev = lemma_prefix_ranking(scores, (n - 1) as nat);
        let i = (n - 1) as usize;
        if scores[i as int] is None {
            prev
        } else {
            let sc = scores[i as int]->0;
            lemma_first_above(scores, prev, sc, 0);
            let p = first_above(scores, prev, sc, 0);
            let order = prev.insert(p, i);
            assert forall|a: int, b: int| 0 <= a < b < order.len() implies ranks_before(
                scores,
                #[trigger] order[a],
                #[trigger] order[b],
            ) by {
                if b < p {
                    assert(order[a] == prev[a]);
                    assert(order[b] == prev[b]);
                } else if b == p {
                    assert(order[a] == prev[a]);
                } else if a < p {
                    assert(order[a] == prev[a]);
                    assert(order[b] == prev[b - 1]);
                } else if a == p {
                    assert(order[b] == prev[b - 1]);
                    if b - 1 > p {
                        assert(ranks_before(scores, prev[p], prev[b - 1]));
                    }
                } else {
                    assert(order[a] == prev[a - 1]);
                    assert(order[b] == prev[b - 1]);
                }
            }
            assert forall|j: int| 0 <= j < n && #[trigger] scores[j] is Some implies order.contains(j as usize) by {
                if j == i {
                    assert(order[p] == i);
                } else {
                    assert(prev.contains(j as usize));
                    let q = choose|q: int| 0 <= q < prev.len() && prev[q] == j as usize;
                    if q < p {
                        assert(order[q] == j as usize);
                    } else {
                        assert(order[q + 1] == j as usize);
                    }
                }
            }
            assert forall|k: int| 0 <= k < order.len() implies #[trigger] order[k] < n && scores[order[k] as int] is Some by {
                if k < p {
                    assert(order[k] == prev[k]);
                } else if k > p {
                    assert(order[k] == prev[k - 1]);
                }
            }
            order
        }
    }
}

/// Every list of scores has its ranking.
pub proof fn lemma_ranking_exists(scores: Seq<Option<int>>)
    requires
        scores.len() <= usize::MAX,
    ensures
        is_ranking(scores, ranking(scores)),
{
    let order = lemma_prefix_ranking(scores, scores.len());
    assert(is_ranking(scores, order));
}

pub open spec fn opt_int(x: Option<i64>) -> Option<int> {
    match x {
        Some(v) => Some(v as int),
        None => None,
    }
}

pub open spec fn opt_ints(xs: Seq<Option<i64>>) -> Seq<Option<int>> {
    xs.map_values(|x: Option<i64>| opt_int(x))
}

/// The positions of `scores` that are `Some`, stably sorted by score.
pub fn rank(scores: &Vec<Option<i64>>) -> (order: Vec<usize>)
    ensures
        is_ranking(opt_ints(scores@), order@),
        order@ == ranking(opt_ints(scores@)),
{
    let ghost ss = opt_ints(scores@);
    let n = scores.len();
    let mut order: Vec<usize> = Vec::new();
    for i in 0..n
        invariant
            n == scores@.len(),
            ss == opt_ints(scores@),
            forall|k: int| 0 <= k < order@.len() ==> #[trigger] order@[k] < i && ss[order@[k] as int] is Some,
            forall|j: int| 0 <= j < i && #[trigger] ss[j] is Some ==> order@.contains(j as usize),
            forall|a: int, b: int| 0 <= a < b < order@.len() ==> ranks_before(ss, #[trigger] order@[a], #[trigger] order@[b]),
    {
        if let Some(sc) = scores[i] {
            assert(ss[i as int] == Some(sc as int));
            let len = order.len();
            let mut p: usize = 0;
            while p < len
                invariant
                    len == order@.len(),
                    p <= len,
                    i < n,
                    n == scores@.len(),
                    ss == opt_ints(scores@),
                    forall|k: int| 0 <= k < order@.len() ==> #[trigger] order@[k] < i && ss[order@[k] as int] is Some,
                    forall|k: int| 0 <= k < p ==> ss[#[trigger] order@[k] as int]->0 <= sc,
                ensures
                    p <= len,
                    forall|k: int| 0 <= k < p ==> ss[#[trigger] order@[k] as int]->0 <= sc,
                    p < len ==> ss[order@[p as int] as int]->0 > sc,
                decreases len - p,
            {
                let o = order[p];
                let so = match scores[o] {
                    Some(v) => v,
                    None => 0,
                };
                assert(ss[o as int] == opt_int(scores@[o as int]));
                if so > sc {
                    break;
                }
                p = p + 1;
            }
            let ghost before_insert = order@;
            order.insert(p, i);
            proof {
                assert(order@ == before_insert.insert(p as int, i));
                assert forall|a: int, b: int| 0 <= a < b < order@.len() implies ranks_before(ss, #[trigger] order@[a], #[trigger] order@[b]) by {
                    if b < p {
                        assert(order@[a] == before_insert[a]);
                        assert(order@[b] == before_insert[b]);
                    } else if b == p {
                        assert(order@[a] == before_insert[a]);
                    } else if a < p {
                        assert(order@[a] == before_insert[a]);
                        assert(order@[b] == before_insert[b - 1]);
                    } else if a == p {
                        assert(order@[b] == before_insert[b - 1]);
                        if b - 1 > p {
                            assert(ranks_before(ss, before_insert[p as int], before_insert[b - 1]));
                        }
                    } else {
                        assert(order@[a] == before_insert[a - 1]);
                        assert(order@[b] == before_insert[b - 1]);
                    }
                }
                assert forall|j: int| 0 <= j < i + 1 && #[trigger] ss[j] is Some implies order@.contains(j as usize) by {
                    if j == i {
                        assert(order@[p as int] == i);
                    } else {
                        assert(before_insert.contains(j as usize));
                        let q = choose|q: int| 0 <= q < before_insert.len() && before_insert[q] == j as usize;
                        if q < p {
                            assert(order@[q] == j as usize);
                        } else {
                            assert(order@[q + 1] == j as usize);
                        }
                    }
                }
                assert forall|k: int| 0 <= k < order@.len() implies #[trigger] order@[k] < i + 1 && ss[order@[k] as int] is Some by {
                    if k < p {
                        assert(order@[k] == before_insert[k]);
                    } else if k > p {
                        assert(order@[k] == before_insert[k - 1]);
                    }
                }
            }
        } else {
            assert(ss[i as int] is None);
        }
    }
    proof {
        assert(is_ranking(ss, order@));
        lemma_ranking_unique(ss, order@, ranking(ss));
    }
    order
}

/// All positions `0..n`, in order.
pub open spec fn all_positions(n: nat) -> Seq<usize> {
    Seq::new(n, |i: int| i as usize)
}

/// The positions among the first `n` texts that match `q` exactly, in order.
pub open spec fn exact_positions(texts: Seq<Seq<char>>, q: Seq<char>, n: nat) -> Seq<usize>
    decreases n,
{
    if n == 0 {
        Seq::empty()
    } else {
        let prev = exact_positions(texts, q, (n - 1) as nat);
        if exact_match_spec(texts[n - 1], q) {
            prev.push((n - 1) as usize)
        } else {
            prev
        }
    }
}

/// The fuzzy scores of the texts against `q`.
pub open spec fn fuzzy_scores(texts: Seq<Seq<char>>, q: Seq<char>) -> Seq<Option<int>> {
    Seq::new(texts.len(), |i: int| fuzzy_score_spec(texts[i], q))
}

/// Which texts a query selects, and in what order: all of them for an empty
/// query; those that contain it, in order, in exact mode; those that contain
/// it as a subsequence, stably sorted by fuzzy score, in fuzzy mode.
pub open spec fn selection(texts: Seq<Seq<char>>, q: Seq<char>, mode: SearchMode) -> Seq<usize> {
    if q.len() == 0 {
        all_positions(texts.len())
    } else {
        match mode {
            SearchMode::Exact => exact_positions(texts, q, texts.len()),
            SearchMode::Fuzzy => ranking(fuzzy_scores(texts, q)),
        }
    }
}

/// The selection of `texts` by `q` in `mode`.
pub fn select(texts: &Vec<String>, q: &str, mode: SearchMode) -> (r: Vec<usize>)
    ensures
        r@ == selection(texts.deep_view(), q@, mode),
        forall|k: int| 0 <= k < r@.len() ==> #[trigger] r@[k] < texts@.len(),
{
    let n = texts.len();
    let ghost tv = texts.deep_view();
    let mut r: Vec<usize> = Vec::new();
    if q.is_empty() {
        for i in 0..n
            invariant
                n == texts@.len(),
                r@ == all_positions(i as nat),
        {
            r.push(i);
            assert(r@ =~= all_positions((i + 1) as nat));
        }
        return r;
    }
    match mode {
        SearchMode::Exact => {
            for i in 0..n
                invariant
                    n == texts@.len(),
                    tv == texts.deep_view(),
                    r@ == exact_positions(tv, q@, i as nat),
                    forall|k: int| 0 <= k < r@.len() ==> #[trigger] r@[k] < i,
            {
                assert(tv[i as int] == texts@[i as int]@);
                if exact_match(texts[i].as_str(), q) {
                    r.push(i);
                }
            }
            r
        },
        SearchMode::Fuzzy => {
            let mut scores: Vec<Option<i64>> = Vec::new();
            for i in 0..n
                invariant
                    n == texts@.len(),
                    tv == texts.deep_view(),
                    scores@.len() == i,
                    forall|k: int| 0 <= k < i ==> #[trigger] opt_int(scores@[k]) == fuzzy_score_spec(tv[k], q@),
            {
                assert(tv[i as int] == texts@[i as int]@);
                let s = fuzzy_score(texts[i].as_str(), q);
                scores.push(s);
                assert(scores@[i as int] == s);
            }
            assert(opt_ints(scores@) =~= fuzzy_scores(tv, q@)) by {
                assert forall|k: int| 0 <= k < n implies #[trigger] opt_ints(scores@)[k] == fuzzy_scores(tv, q@)[k] by {
                    assert(opt_int(scores@[k]) == fuzzy_score_spec(tv[k], q@));
                }
            }
            let order = rank(&scores);
            proof {
                assert forall|k: int| 0 <= k < order@.len() implies #[trigger] order@[k] < texts@.len() by {
                    let _ = order@[k];
                }
            }
            order
        },
    }
}

// ------------------------------------------------------------------
// The texts that items are searched by
// ------------------------------------------------------------------

pub open spec fn space() -> Seq<char> {
    seq![' ']
}

pub open spec fn artist_text(a: ArtistView) -> Seq<char> {
    a.label
}

/// An album is searched by its title and its artists.
pub open spec fn album_text(a: AlbumView) -> Seq<char> {
    a.label + space() + join(a.artist, space())
}

/// A song is searched by its title, its artists and its album.
pub open spec fn song_text(s: SongView) -> Seq<char> {
    s.label + space() + join(s.artist, space()) + space() + s.album
}

pub open spec fn artists_view(v: Seq<Artist>) -> Seq<ArtistView> {
    v.map_values(|a: Artist| a@)
}

pub open spec fn albums_view(v: Seq<Album>) -> Seq<AlbumView> {
    v.map_values(|a: Album| a@)
}

pub open spec fn songs_view(v: Seq<Song>) -> Seq<SongView> {
    v.map_values(|s: Song| s@)
}

pub open spec fn artist_texts(v: Seq<ArtistView>) -> Seq<Seq<char>> {
    v.map_values(|a: ArtistView| artist_text(a))
}

pub open spec fn album_texts(v: Seq<AlbumView>) -> Seq<Seq<char>> {
    v.map_values(|a: AlbumView| album_text(a))
}

pub open spec fn song_texts(v: Seq<SongView>) -> Seq<Seq<char>> {
    v.map_values(|s: SongView| song_text(s))
}

/// The items at the given positions of the artist list.
pub open spec fn artist_items(v: Seq<ArtistView>, order: Seq<usize>) -> Seq<ItemView> {
    order.map_values(|i: usize| ItemView::Artist(v[i as int]))
}

pub open spec fn album_items(v: Seq<AlbumView>, order: Seq<usize>) -> Seq<ItemView> {
    order.map_values(|i: usize| ItemView::Album(v[i as int]))
}

pub open spec fn song_items(v: Seq<SongView>, order: Seq<usize>) -> Seq<ItemView> {
    order.map_values(|i: usize| ItemView::Song(v[i as int]))
}

/// The artists that `q` selects in `mode`, as library items.
pub open spec fn filtered_artists(v: Seq<ArtistView>, q: Seq<char>, mode: SearchMode) -> Seq<ItemView> {
    artist_items(v, selection(artist_texts(v), q, mode))
}

pub open spec fn filtered_albums(v: Seq<AlbumView>, q: Seq<char>, mode: SearchMode) -> Seq<ItemView> {
    album_items(v, selection(album_texts(v), q, mode))
}

pub open spec fn filtered_songs(v: Seq<SongView>, q: Seq<char>, mode: SearchMode) -> Seq<ItemView> {
    song_items(v, selection(song_texts(v), q, mode))
}

fn album_search_text(a: &Album) -> (r: String)
    ensures
        r@ == album_text(a@),
{
    proof {
        reveal_strlit(" ");
        assert(" "@ =~= space());
    }
    let mut r = a.label.clone();
    push_char(&mut r, ' ');
    let j = join_strings(&a.artist, " ");
    push_str(&mut r, j.as_str());
    r
}

fn song_search_text(s: &Song) -> (r: String)
    ensures
        r@ == song_text(s@),
{
    proof {
        reveal_strlit(" ");
        assert(" "@ =~= space());
    }
    let mut r = s.label.clone();
    push_char(&mut r, ' ');
    let j = join_strings(&s.artist, " ");
    push_str(&mut r, j.as_str());
    push_char(&mut r, ' ');
    push_str(&mut r, s.album.as_str());
    r
}

pub fn filter_artists(artists: &Vec<Artist>, q: &str, mode: SearchMode) -> (r: Vec<LibraryItem>)
    ensures
        items_view(r@) == filtered_artists(artists_view(artists@), q@, mode),
{
    let n = artists.len();
    let mut texts: Vec<String> = Vec::new();
    for i in 0..n
        invariant
            n == artists@.len(),
            texts@.len() == i,
            forall|j: int| 0 <= j < i ==> #[trigger] texts@[j]@ == artist_text(artists@[j]@),
    {
        texts.push(artists[i].label.clone());
    }
    assert(texts.deep_view() =~= artist_texts(artists_view(artists@)));
    let order = select(&texts, q, mode);
    let m = order.len();
    let mut r: Vec<LibraryItem> = Vec::new();
    for k in 0..m
        invariant
            m == order@.len(),
            n == artists@.len(),
            forall|j: int| 0 <= j < order@.len() ==> #[trigger] order@[j] < n,
            r@.len() == k,
            forall|j: int| 0 <= j < k ==> #[trigger] r@[j]@ == ItemView::Artist(artists@[order@[j] as int]@),
    {
        let i = order[k];
        r.push(LibraryItem::Artist(artists[i].clone()));
    }
    assert(items_view(r@) =~= artist_items(artists_view(artists@), order@));
    r
}

pub fn filter_albums(albums: &Vec<Album>, q: &str, mode: SearchMode) -> (r: Vec<LibraryItem>)
    ensures
        items_view(r@) == filtered_albums(albums_view(albums@), q@, mode),
{
    let n = albums.len();
    let mut texts: Vec<String> = Vec::new();
    for i in 0..n
        invariant
            n == albums@.len(),
            texts@.len() == i,
            forall|j: int| 0 <= j < i ==> #[trigger] texts@[j]@ == album_text(albums@[j]@),
    {
        texts.push(album_search_text(&albums[i]));
    }
    assert(texts.deep_view() =~= album_texts(albums_view(albums@)));
    let order = select(&texts, q, mode);
    let m = order.len();
    let mut r: Vec<LibraryItem> = Vec::new();
    for k in 0..m
        invariant
            m == order@.len(),
            n == albums@.len(),
            forall|j: int| 0 <= j < order@.len() ==> #[trigger] order@[j] < n,
            r@.len() == k,
            forall|j: int| 0 <= j < k ==> #[trigger] r@[j]@ == ItemView::Album(albums@[order@[j] as int]@),
    {
        let i = order[k];
        r.push(LibraryItem::Album(albums[i].clone()));
    }
    assert(items_view(r@) =~= album_items(albums_view(albums@), order@));
    r
}

pub fn filter_songs(songs: &Vec<Song>, q: &str, mode: SearchMode) -> (r: Vec<LibraryItem>)
    ensures
        items_view(r@) == filtered_songs(songs_view(songs@), q@, mode),
{
    let n = songs.len();
    let mut texts: Vec<String> = Vec::new();
    for i in 0..n
        invariant
            n == songs@.len(),
            texts@.len() == i,
            forall|j: int| 0 <= j < i ==> #[trigger] texts@[j]@ == song_text(songs@[j]@),
    {
        texts.push(song_search_text(&songs[i]));
    }
    assert(texts.deep_view() =~= song_texts(songs_view(songs@)));
    let order = select(&texts, q, mode);
    let m = order.len();
    let mut r: Vec<LibraryItem> = Vec::new();
    for k in 0..m
        invariant
            m == order@.len(),
            n == songs@.len(),
            forall|j: int| 0 <= j < order@.len() ==> #[trigger] order@[j] < n,
            r@.len() == k,
            forall|j: int| 0 <= j < k ==> #[trigger] r@[j]@ == ItemView::Song(songs@[order@[j] as int]@),
    {
        let i = order[k];
        r.push(LibraryItem::Song(songs[i].clone()));
    }
    assert(items_view(r@) =~= song_items(songs_view(songs@), order@));
    r
}

} // verus!
