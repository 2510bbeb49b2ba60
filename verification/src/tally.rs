//! Counting final scores.
//!
//! The final scores of many games are tallied, score by score, and the
//! tally is then reduced to the number of games that the home side won.
//! A score is tallied under one integer key that holds both sides' runs.

use vstd::prelude::*;
use std::collections::HashMap;
use itertools::Itertools;
use crate::simba::Score;

verus! {

/// What separates the two halves of a key: 2^32.
pub const KEY_BASE: u64 = 0x1_0000_0000;

/// What lifts the runs of a side into the non-negative numbers: 2^31.
pub const KEY_SHIFT: i64 = 0x8000_0000;

/// The key of a score: the visitors' runs in the upper half, the home
/// side's in the lower half, each lifted by `KEY_SHIFT`.
pub open spec fn key_of(score: Score) -> u64 {
    ((score.away + KEY_SHIFT) * KEY_BASE + (score.home + KEY_SHIFT)) as u64
}

/// Whether a key stands for a score with the home side ahead.
pub open spec fn key_home_wins(key: u64) -> bool {
    key % KEY_BASE > key / KEY_BASE
}

/// Different scores have different keys, and a key tells who won.
pub proof fn lemma_key_of(a: Score, b: Score)
    ensures
        key_of(a) == key_of(b) ==> a == b,
        key_home_wins(key_of(a)) == (a.home > a.away),
        key_of(a) / KEY_BASE == a.away + KEY_SHIFT,
        key_of(a) % KEY_BASE == a.home + KEY_SHIFT,
{
    lemma_key_halves(a);
    lemma_key_halves(b);
}

proof fn lemma_key_halves(a: Score)
    ensures
        key_of(a) == (a.away + KEY_SHIFT) * KEY_BASE + (a.home + KEY_SHIFT),
        key_of(a) / KEY_BASE == a.away + KEY_SHIFT,
        key_of(a) % KEY_BASE == a.home + KEY_SHIFT,
{
    let hi = a.away + KEY_SHIFT;
    let lo = a.home + KEY_SHIFT;
    assert(0 <= hi < 0x1_0000_0000 && 0 <= lo < 0x1_0000_0000);
    assert(0 <= hi * 0x1_0000_0000 + lo <= 0xffff_ffff_ffff_ffff) by (nonlinear_arith)
        requires
            0 <= hi < 0x1_0000_0000,
            0 <= lo < 0x1_0000_0000,
    ;
    assert((hi * 0x1_0000_0000 + lo) / 0x1_0000_0000 == hi && (hi * 0x1_0000_0000 + lo)
        % 0x1_0000_0000 == lo) by (nonlinear_arith)
        requires
            0 <= hi,
            0 <= lo < 0x1_0000_0000,
    ;
}

pub fn score_key(score: Score) -> (key: u64)
    ensures
        key == key_of(score),
{
    proof {
        lemma_key_halves(score);
    }
    let hi: u64 = (score.away as i64 + KEY_SHIFT) as u64;
    let lo: u64 = (score.home as i64 + KEY_SHIFT) as u64;
    assert(hi * KEY_BASE + lo <= u64::MAX) by (nonlinear_arith)
        requires
            hi < 0x1_0000_0000,
            lo < 0x1_0000_0000,
            KEY_BASE == 0x1_0000_0000,
    ;
    hi * KEY_BASE + lo
}

pub fn home_wins_key(key: u64) -> (yes: bool)
    ensures
        yes == key_home_wins(key),
{
    key % KEY_BASE > key / KEY_BASE
}

/// How often `key` occurs in `keys`.
pub open spec fn occurrences(keys: Seq<u64>, key: u64) -> nat
    decreases keys.len(),
{
    if keys.len() == 0 {
        0
    } else {
        occurrences(keys.drop_last(), key) + if keys.last() == key {
            1nat
        } else {
            0
        }
    }
}

/// Counts how often each key occurs, with `Itertools::counts`: the map
/// holds exactly the keys that occur, each with the number of its
/// occurrences.
#[verifier::external_body]
pub(crate) fn count_keys(keys: &Vec<u64>) -> (counts: HashMap<u64, usize>)
    ensures
        forall|k: u64| #[trigger] counts@.contains_key(k) <==> keys@.contains(k),
        forall|k: u64| #[trigger] counts@.contains_key(k) ==> counts@[k] == occurrences(keys@, k),
{
    keys.iter().copied().counts()
}

/// Whether a key is counted: every key is, unless only the home side's
/// wins are asked for.
pub open spec fn wanted(key: u64, home_wins_only: bool) -> bool {
    !home_wins_only || key_home_wins(key)
}

/// How many of `keys` are wanted.
pub open spec fn matching(keys: Seq<u64>, home_wins_only: bool) -> nat
    decreases keys.len(),
{
    if keys.len() == 0 {
        0
    } else {
        matching(keys.drop_last(), home_wins_only) + if wanted(keys.last(), home_wins_only) {
            1nat
        } else {
            0
        }
    }
}

/// The occurrences in `keys` of the wanted keys among `seen`, added up.
pub open spec fn counted(keys: Seq<u64>, seen: Seq<u64>, home_wins_only: bool) -> nat
    decreases seen.len(),
{
    if seen.len() == 0 {
        0
    } else {
        counted(keys, seen.drop_last(), home_wins_only) + if wanted(seen.last(), home_wins_only) {
            occurrences(keys, seen.last())
        } else {
            0
        }
    }
}

proof fn lemma_counted_nothing(seen: Seq<u64>, home_wins_only: bool)
    ensures
        counted(Seq::empty(), seen, home_wins_only) == 0,
    decreases seen.len(),
{
    if seen.len() > 0 {
        lemma_counted_nothing(seen.drop_last(), home_wins_only);
    }
}

/// One more key adds one to the sum when it is wanted and among `seen`,
/// and nothing otherwise.
proof fn lemma_counted_push(keys: Seq<u64>, key: u64, seen: Seq<u64>, home_wins_only: bool)
    requires
        seen.no_duplicates(),
    ensures
        counted(keys.push(key), seen, home_wins_only) == counted(keys, seen, home_wins_only)
            + if seen.contains(key) && wanted(key, home_wins_only) {
            1nat
        } else {
            0
        },
    decreases seen.len(),
{
    assert(keys.push(key).drop_last() =~= keys);
    if seen.len() > 0 {
        let rest = seen.drop_last();
        lemma_counted_push(keys, key, rest, home_wins_only);
        if seen.last() == key {
            assert(!rest.contains(key)) by {
                if rest.contains(key) {
                    let j = choose|j: int| 0 <= j < rest.len() && rest[j] == key;
                    assert(seen[j] == seen[seen.len() - 1]);
                }
            }
            assert(seen[seen.len() - 1] == key);
        } else {
            assert(rest.contains(key) == seen.contains(key)) by {
                if seen.contains(key) {
                    let j = choose|j: int| 0 <= j < seen.len() && seen[j] == key;
                    assert(rest[j] == key);
                }
                if rest.contains(key) {
                    let j = choose|j: int| 0 <= j < rest.len() && rest[j] == key;
                    assert(seen[j] == key);
                }
            }
        }
    }
}

/// Counting by distinct keys never counts a key twice: the sum stays
/// within the number of wanted keys, and reaches it when every key is
/// among `seen`.
proof fn lemma_counted_matching(keys: Seq<u64>, seen: Seq<u64>, home_wins_only: bool)
    requires
        seen.no_duplicates(),
    ensures
        counted(keys, seen, home_wins_only) <= matching(keys, home_wins_only),
        matching(keys, home_wins_only) <= keys.len(),
        (forall|i: int| 0 <= i < keys.len() ==> seen.contains(#[trigger] keys[i])) ==> counted(
            keys,
            seen,
            home_wins_only,
        ) == matching(keys, home_wins_only),
    decreases keys.len(),
{
    if keys.len() == 0 {
        assert(keys =~= Seq::empty());
        lemma_counted_nothing(seen, home_wins_only);
    } else {
        let rest = keys.drop_last();
        lemma_counted_matching(rest, seen, home_wins_only);
        lemma_counted_push(rest, keys.last(), seen, home_wins_only);
        assert(rest.push(keys.last()) =~= keys);
        if forall|i: int| 0 <= i < keys.len() ==> seen.contains(#[trigger] keys[i]) {
            assert(seen.contains(keys[keys.len() - 1]));
            assert forall|i: int| 0 <= i < rest.len() implies seen.contains(#[trigger] rest[i]) by {
                assert(rest[i] == keys[i]);
            }
        }
    }
}

/// How many of the scores have the home side ahead.
pub open spec fn home_wins(scores: Seq<Score>) -> nat {
    scores.filter(|s: Score| s.home > s.away).len()
}

/// The keys of the scores, in their order.
pub open spec fn keys_of(scores: Seq<Score>) -> Seq<u64> {
    scores.map_values(|s: Score| key_of(s))
}

proof fn lemma_matching_scores(scores: Seq<Score>)
    ensures
        matching(keys_of(scores), true) == home_wins(scores),
        matching(keys_of(scores), false) == scores.len(),
    decreases scores.len(),
{
    reveal(Seq::filter);
    if scores.len() > 0 {
        lemma_matching_scores(scores.drop_last());
        lemma_key_of(scores.last(), scores.last());
        assert(keys_of(scores).drop_last() =~= keys_of(scores.drop_last()));
    }
}

/// Tallies the scores and returns the number of games that the home side
/// won, and the number of games.
pub fn tally(scores: &Vec<Score>) -> (sums: (usize, usize))
    ensures
        sums.0 == home_wins(scores@),
        sums.1 == scores@.len(),
        sums.0 <= sums.1,
{
    let mut keys: Vec<u64> = Vec::new();
    let mut i: usize = 0;
    while i < scores.len()
        invariant
            i <= scores@.len(),
            keys@ =~= keys_of(scores@.take(i as int)),
        decreases scores@.len() - i,
    {
        keys.push(score_key(scores[i]));
        i += 1;
    }
    assert(scores@.take(i as int) =~= scores@);

    let counts = count_keys(&keys);
    let ghost seen: Seq<u64> = Seq::empty();
    let mut wins: usize = 0;
    let mut games: usize = 0;
    for entry in it: counts.iter()
        invariant
            keys@ == keys_of(scores@),
            forall|k: u64| #[trigger] counts@.contains_key(k) <==> keys@.contains(k),
            forall|k: u64|
                #[trigger] counts@.contains_key(k) ==> counts@[k] == occurrences(keys@, k),
            it.seq().no_duplicates(),
            forall|j: int|
                0 <= j < it.seq().len() ==> counts@.contains_key(*(#[trigger] it.seq()[j]).0)
                    && counts@[*it.seq()[j].0] == *it.seq()[j].1,
            seen.len() == it.index(),
            forall|j: int| 0 <= j < seen.len() ==> seen[j] == *(#[trigger] it.seq()[j]).0,
            seen.no_duplicates(),
            wins == counted(keys@, seen, true),
            games == counted(keys@, seen, false),
    {
        let (key, n) = entry;
        proof {
            let ghost before = seen;
            let at = it.index() as int;
            assert(entry == it.seq()[at]);
            assert(counts@.contains_key(*key) && counts@[*key] == *n);
            assert forall|j: int| 0 <= j < before.len() implies before[j] != *key by {
                if before[j] == *key {
                    assert(it.seq()[j].0 == it.seq()[at].0);
                    assert(*it.seq()[j].1 == counts@[*it.seq()[j].0]);
                    assert(it.seq()[j].1 == it.seq()[at].1);
                    assert(it.seq()[j] == it.seq()[at]);
                }
            }
            seen = seen.push(*key);
            assert(seen.drop_last() =~= before);
            assert(seen.last() == *key);
            assert(seen.no_duplicates());
            assert(counted(keys@, seen, true) == wins + if key_home_wins(*key) {
                *n as nat
            } else {
                0
            });
            assert(counted(keys@, seen, false) == games + *n);
            lemma_counted_matching(keys@, seen, true);
            lemma_counted_matching(keys@, seen, false);
            assert(games + *n <= keys@.len());
            assert(key_home_wins(*key) ==> wins + *n <= keys@.len());
            assert(keys@.len() == keys.len());
        }
        games += *n;
        if home_wins_key(*key) {
            wins += *n;
        }
    }
    proof {
        lemma_counted_matching(keys@, seen, true);
        lemma_counted_matching(keys@, seen, false);
        lemma_matching_scores(scores@);
        assert forall|i: int| 0 <= i < keys@.len() implies seen.contains(#[trigger] keys@[i]) by {
            assert(keys@.contains(keys@[i]));
            assert(counts@.contains_key(keys@[i]));
        }
    }
    (wins, games)
}

} // verus!
