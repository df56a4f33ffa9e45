//! Choosing one fact per reporting period among duplicates.
use vstd::prelude::*;

use crate::models::FactValue;
use crate::models::opt_is;
use crate::text::lemma_lex_irreflexive;
use crate::text::lemma_lex_total;
use crate::text::lemma_lex_transitive;
use crate::text::lex_lt;
use crate::text::opt_str_is;
use crate::text::str_eq;
use crate::text::str_lt;

verus! {

/// A fact comes from a periodic report: 10-K, 10-K/A, 10-Q, 10-Q/A, 20-F or 40-F.
pub open spec fn is_periodic(f: FactValue) -> bool {
    ||| opt_is(f.form, "10-K"@)
    ||| opt_is(f.form, "10-K/A"@)
    ||| opt_is(f.form, "10-Q"@)
    ||| opt_is(f.form, "10-Q/A"@)
    ||| opt_is(f.form, "20-F"@)
    ||| opt_is(f.form, "40-F"@)
}

/// `a` is strictly preferred to `b`: a periodic form wins over another
/// form, and between two of the same kind the later filing date wins.
pub open spec fn preferred(a: FactValue, b: FactValue) -> bool {
    ||| is_periodic(a) && !is_periodic(b)
    ||| is_periodic(a) == is_periodic(b) && lex_lt(b.filed@, a.filed@)
}

/// Position `k` takes part in the choice for end date `e`: its end is `e`,
/// and it has a frame whenever some fact with that end has one.
pub open spec fn is_candidate(facts: Seq<FactValue>, e: Seq<char>, k: int) -> bool {
    &&& 0 <= k < facts.len()
    &&& facts[k].end@ == e
    &&& (has_framed(facts, e) ==> facts[k].frame is Some)
}

/// Some fact with end date `e` has a frame.
pub open spec fn has_framed(facts: Seq<FactValue>, e: Seq<char>) -> bool {
    exists|k: int| 0 <= k < facts.len() && facts[k].end@ == e && #[trigger] facts[k].frame is Some
}

/// Position `r` is the fact kept for its end date: the earliest of the
/// candidates that no candidate is preferred to.
pub open spec fn is_chosen(facts: Seq<FactValue>, r: int) -> bool {
    &&& 0 <= r < facts.len()
    &&& is_candidate(facts, facts[r].end@, r)
    &&& forall|k: int|
        is_candidate(facts, facts[r].end@, k) ==> !preferred(#[trigger] facts[k], facts[r])
    &&& forall|k: int|
        #![trigger is_candidate(facts, facts[r].end@, k)]
        is_candidate(facts, facts[r].end@, k) && k < r ==> preferred(facts[r], facts[k])
}

/// The result of deduplication: one chosen fact per end date, in
/// increasing order of end date, and every end date present.
pub open spec fn is_dedup_of(facts: Seq<FactValue>, res: Seq<usize>) -> bool {
    &&& forall|q: int| 0 <= q < res.len() ==> is_chosen(facts, #[trigger] res[q] as int)
    &&& forall|p: int, q: int|
        0 <= p < q < res.len() ==> lex_lt(facts[res[p] as int].end@, facts[res[q] as int].end@)
    &&& forall|k: int| 0 <= k < facts.len() ==> end_in(facts, res, #[trigger] facts[k].end@)
}

proof fn lemma_preferred_transitive(a: FactValue, b: FactValue, c: FactValue)
    requires
        preferred(a, b),
        preferred(b, c),
    ensures
        preferred(a, c),
{
    if is_periodic(a) == is_periodic(b) && is_periodic(b) == is_periodic(c) {
        lemma_lex_transitive(c.filed@, b.filed@, a.filed@);
    }
}

/// `c` is not preferred to `b`, and `a` is preferred to `b`: then `a` is preferred to `c`.
proof fn lemma_preferred_over_lesser(a: FactValue, b: FactValue, c: FactValue)
    requires
        preferred(a, b),
        !preferred(c, b),
    ensures
        preferred(a, c),
{
    lemma_lex_total(b.filed@, c.filed@);
    if is_periodic(a) == is_periodic(b) && is_periodic(b) == is_periodic(c) {
        if b.filed@ == c.filed@ {
        } else {
            lemma_lex_transitive(c.filed@, b.filed@, a.filed@);
        }
    }
}

proof fn lemma_preferred_irreflexive(a: FactValue)
    ensures
        !preferred(a, a),
{
    lemma_lex_irreflexive(a.filed@);
}

/// Whether the fact comes from a periodic report: 10-K, 10-Q, 20-F, 40-F
/// or an amendment of the first two.
pub fn is_periodic_form(fact: &FactValue) -> (r: bool)
    ensures
        r == is_periodic(*fact),
{
    opt_str_is(&fact.form, "10-K") || opt_str_is(&fact.form, "10-K/A") || opt_str_is(
        &fact.form,
        "10-Q",
    ) || opt_str_is(&fact.form, "10-Q/A") || opt_str_is(&fact.form, "20-F") || opt_str_is(
        &fact.form,
        "40-F",
    )
}

fn is_preferred(a: &FactValue, b: &FactValue) -> (r: bool)
    ensures
        r == preferred(*a, *b),
{
    let pa = is_periodic_form(a);
    let pb = is_periodic_form(b);
    if pa && !pb {
        true
    } else if pb && !pa {
        false
    } else {
        str_lt(b.filed.as_str(), a.filed.as_str())
    }
}

/// Whether some fact with end date `end` has a frame.
fn any_framed(facts: &[FactValue], end: &str) -> (r: bool)
    ensures
        r == has_framed(facts@, end@),
{
    let mut k: usize = 0;
    while k < facts.len()
        invariant
            k <= facts@.len(),
            forall|j: int| 0 <= j < k && facts@[j].end@ == end@ ==> facts@[j].frame is None,
        decreases facts.len() - k,
    {
        if facts[k].frame.is_some() && str_eq(facts[k].end.as_str(), end) {
            return true;
        }
        k = k + 1;
    }
    false
}

/// The position of the fact kept for end date `facts[first].end`.
pub fn pick_best(facts: &[FactValue], first: usize) -> (r: usize)
    requires
        first < facts@.len(),
    ensures
        is_chosen(facts@, r as int),
        facts@[r as int].end@ == facts@[first as int].end@,
{
    let ghost e = facts@[first as int].end@;
    let end = facts[first].end.as_str();
    let framed = any_framed(facts, end);
    let mut best: Option<usize> = None;
    let mut k: usize = 0;
    while k < facts.len()
        invariant
            first < facts@.len(),
            e == facts@[first as int].end@,
            end@ == e,
            framed == has_framed(facts@, e),
            k <= facts@.len(),
            match best {
                None => forall|j: int| 0 <= j < k ==> !is_candidate(facts@, e, j),
                Some(b) => {
                    &&& b < k
                    &&& is_candidate(facts@, e, b as int)
                    &&& forall|j: int|
                        0 <= j < k && is_candidate(facts@, e, j) ==> !preferred(
                            #[trigger] facts@[j],
                            facts@[b as int],
                        )
                    &&& forall|j: int|
                        0 <= j < b && is_candidate(facts@, e, j) ==> preferred(
                            facts@[b as int],
                            #[trigger] facts@[j],
                        )
                },
            },
        decreases facts.len() - k,
    {
        let cand = str_eq(facts[k].end.as_str(), end) && (!framed || facts[k].frame.is_some());
        assert(cand == is_candidate(facts@, e, k as int));
        if cand {
            match best {
                None => {
                    proof {
                        lemma_preferred_irreflexive(facts@[k as int]);
                    }
                    best = Some(k);
                },
                Some(b) => {
                    if is_preferred(&facts[k], &facts[b]) {
                        proof {
                            assert forall|j: int|
                                0 <= j < k + 1 && is_candidate(facts@, e, j) implies !preferred(
                                #[trigger] facts@[j],
                                facts@[k as int],
                            ) by {
                                if j == k {
                                    lemma_preferred_irreflexive(facts@[k as int]);
                                } else if preferred(facts@[j], facts@[k as int]) {
                                    lemma_preferred_transitive(
                                        facts@[j],
                                        facts@[k as int],
                                        facts@[b as int],
                                    );
                                }
                            }
                            assert forall|j: int|
                                0 <= j < k && is_candidate(facts@, e, j) implies preferred(
                                facts@[k as int],
                                #[trigger] facts@[j],
                            ) by {
                                lemma_preferred_over_lesser(
                                    facts@[k as int],
                                    facts@[b as int],
                                    facts@[j],
                                );
                            }
                        }
                        best = Some(k);
                    }
                },
            }
        }
        k = k + 1;
    }
    proof {
        if has_framed(facts@, e) {
            let w = choose|w: int| 0 <= w < facts@.len() && facts@[w].end@ == e && #[trigger] facts@[w].frame is Some;
            assert(is_candidate(facts@, e, w));
        } else {
            assert(is_candidate(facts@, e, first as int));
        }
    }
    let r = best.unwrap();
    proof {
        assert forall|j: int| is_candidate(facts@, e, j) implies !preferred(
            #[trigger] facts@[j],
            facts@[r as int],
        ) by {}
    }
    r
}

/// Some kept fact has end date `e`.
pub open spec fn end_in(facts: Seq<FactValue>, res: Seq<usize>, e: Seq<char>) -> bool {
    exists|q: int| 0 <= q < res.len() && #[trigger] facts[res[q] as int].end@ == e
}

/// Some fact before position `i` has end date `e`.
pub open spec fn end_before(facts: Seq<FactValue>, i: int, e: Seq<char>) -> bool {
    exists|k: int| 0 <= k < i && #[trigger] facts[k].end@ == e
}

/// The kept positions are valid and in strictly increasing order of end date.
pub open spec fn sorted_by_end(facts: Seq<FactValue>, res: Seq<usize>) -> bool {
    &&& forall|q: int| 0 <= q < res.len() ==> #[trigger] res[q] < facts.len()
    &&& forall|p: int, q: int|
        0 <= p < q < res.len() ==> lex_lt(facts[res[p] as int].end@, facts[res[q] as int].end@)
}

/// Whether the end date of `facts[i]` is met at an earlier position.
fn seen_before(facts: &[FactValue], i: usize) -> (r: bool)
    requires
        i < facts@.len(),
    ensures
        r == end_before(facts@, i as int, facts@[i as int].end@),
{
    let end = facts[i].end.as_str();
    let mut j: usize = 0;
    while j < i
        invariant
            i < facts@.len(),
            end@ == facts@[i as int].end@,
            j <= i,
            forall|m: int| 0 <= m < j ==> facts@[m].end@ != end@,
        decreases i - j,
    {
        if str_eq(facts[j].end.as_str(), end) {
            assert(facts@[j as int].end@ == end@);
            return true;
        }
        j = j + 1;
    }
    false
}

/// Inserts position `r` into `res` where its end date belongs.
fn insert_by_end(facts: &[FactValue], res: &mut Vec<usize>, r: usize)
    requires
        r < facts@.len(),
        sorted_by_end(facts@, old(res)@),
        !end_in(facts@, old(res)@, facts@[r as int].end@),
    ensures
        sorted_by_end(facts@, final(res)@),
        exists|p: int| 0 <= p <= old(res)@.len() && final(res)@ == old(res)@.insert(p, r),
{
    let end = facts[r].end.as_str();
    let mut p: usize = 0;
    while p < res.len()
        invariant
            r < facts@.len(),
            end@ == facts@[r as int].end@,
            p <= res@.len(),
            sorted_by_end(facts@, res@),
            !end_in(facts@, res@, end@),
            forall|q: int| 0 <= q < p ==> lex_lt(#[trigger] facts@[res@[q] as int].end@, end@),
        ensures
            p <= res@.len(),
            forall|q: int| 0 <= q < p ==> lex_lt(#[trigger] facts@[res@[q] as int].end@, end@),
            p < res@.len() ==> lex_lt(end@, facts@[res@[p as int] as int].end@),
        decreases res.len() - p,
    {
        let rq = res[p];
        if str_lt(end, facts[rq].end.as_str()) {
            break;
        }
        proof {
            assert(facts@[res@[p as int] as int].end@ != end@);
            lemma_lex_total(facts@[rq as int].end@, end@);
        }
        p = p + 1;
    }
    proof {
        if p < res@.len() {
            assert forall|q: int| p <= q < res@.len() implies lex_lt(
                end@,
                #[trigger] facts@[res@[q] as int].end@,
            ) by {
                if q > p {
                    lemma_lex_transitive(
                        end@,
                        facts@[res@[p as int] as int].end@,
                        facts@[res@[q] as int].end@,
                    );
                }
            }
        }
    }
    let ghost old_res = res@;
    res.insert(p, r);
    proof {
        assert(res@ == old_res.insert(p as int, r));
        assert forall|q: int| 0 <= q < res@.len() implies #[trigger] res@[q] < facts@.len() by {
            if q < p {
                assert(res@[q] == old_res[q]);
            } else if q > p {
                assert(res@[q] == old_res[q - 1]);
            }
        }
        assert forall|a: int, b: int| 0 <= a < b < res@.len() implies lex_lt(
            facts@[res@[a] as int].end@,
            facts@[res@[b] as int].end@,
        ) by {
            if a < p && b < p {
                assert(res@[a] == old_res[a]);
                assert(res@[b] == old_res[b]);
            } else if a < p && b == p {
                assert(res@[a] == old_res[a]);
            } else if a < p && b > p {
                assert(res@[a] == old_res[a]);
                assert(res@[b] == old_res[b - 1]);
                lemma_lex_transitive(
                    facts@[old_res[a] as int].end@,
                    end@,
                    facts@[old_res[b - 1] as int].end@,
                );
            } else if a == p {
                assert(res@[b] == old_res[b - 1]);
            } else {
                assert(res@[a] == old_res[a - 1]);
                assert(res@[b] == old_res[b - 1]);
            }
        }
    }
}

/// Deduplicate fact values for the same period.
///
/// Facts are grouped by end date, and one fact is kept per group:
/// 1. facts with a `frame` (SEC's "best fit") are preferred when the group has any;
/// 2. periodic forms (10-K, 10-Q, ...) are preferred over other forms;
/// 3. then the latest `filed` date wins, and the earliest fact among equals.
///
/// The result holds the positions in `facts` of the kept facts, in
/// increasing order of end date.
pub fn dedup_facts(facts: &[FactValue]) -> (res: Vec<usize>)
    ensures
        is_dedup_of(facts@, res@),
        res@ == dedup_order(facts@),
{
    let mut res: Vec<usize> = Vec::new();
    let mut i: usize = 0;
    while i < facts.len()
        invariant
            i <= facts@.len(),
            forall|q: int| 0 <= q < res@.len() ==> is_chosen(facts@, #[trigger] res@[q] as int),
            sorted_by_end(facts@, res@),
            forall|k: int| 0 <= k < i ==> end_in(facts@, res@, #[trigger] facts@[k].end@),
            forall|q: int|
                0 <= q < res@.len() ==> end_before(facts@, i as int, #[trigger] facts@[res@[q] as int].end@),
        decreases facts.len() - i,
    {
        let ghost e = facts@[i as int].end@;
        if seen_before(facts, i) {
            proof {
                let m = choose|m: int| 0 <= m < i && #[trigger] facts@[m].end@ == e;
                assert(end_in(facts@, res@, facts@[m].end@));
                assert forall|q: int|
                    0 <= q < res@.len() implies end_before(facts@, i + 1, #[trigger] facts@[res@[q] as int].end@) by {
                    let ghost eq = facts@[res@[q] as int].end@;
                    assert(end_before(facts@, i as int, eq));
                    let k = choose|k: int| 0 <= k < i && #[trigger] facts@[k].end@ == eq;
                    assert(facts@[k].end@ == eq);
                }
            }
        } else {
            let r = pick_best(facts, i);
            proof {
                if end_in(facts@, res@, e) {
                    let q = choose|q: int| 0 <= q < res@.len() && #[trigger] facts@[res@[q] as int].end@ == e;
                    assert(end_before(facts@, i as int, facts@[res@[q] as int].end@));
                }
            }
            let ghost old_res = res@;
            insert_by_end(facts, &mut res, r);
            proof {
                let p = choose|p: int| 0 <= p <= old_res.len() && res@ == old_res.insert(p, r);
                assert forall|q: int| 0 <= q < res@.len() implies is_chosen(
                    facts@,
                    #[trigger] res@[q] as int,
                ) by {
                    if q < p {
                        assert(res@[q] == old_res[q]);
                    } else if q > p {
                        assert(res@[q] == old_res[q - 1]);
                    }
                }
                assert forall|k: int| 0 <= k < i + 1 implies end_in(facts@, res@, #[trigger] facts@[k].end@) by {
                    if k == i {
                        assert(facts@[res@[p] as int].end@ == facts@[k].end@);
                    } else {
                        assert(end_in(facts@, old_res, facts@[k].end@));
                        let q0 = choose|q: int|
                            0 <= q < old_res.len() && #[trigger] facts@[old_res[q] as int].end@
                                == facts@[k].end@;
                        if q0 < p {
                            assert(res@[q0] == old_res[q0]);
                        } else {
                            assert(res@[q0 + 1] == old_res[q0]);
                        }
                    }
                }
                assert forall|q: int|
                    0 <= q < res@.len() implies end_before(facts@, i + 1, #[trigger] facts@[res@[q] as int].end@) by {
                    if q == p {
                        assert(facts@[i as int].end@ == facts@[res@[q] as int].end@);
                    } else {
                        let q0 = if q < p { q } else { q - 1 };
                        assert(res@[q] == old_res[q0]);
                        assert(end_before(facts@, i as int, facts@[old_res[q0] as int].end@));
                        let k = choose|k: int| 0 <= k < i && #[trigger] facts@[k].end@ == facts@[old_res[q0] as int].end@;
                        assert(facts@[k].end@ == facts@[res@[q] as int].end@);
                    }
                }
            }
        }
        i = i + 1;
    }
    proof {
        lemma_dedup_order(facts@, res@);
    }
    res
}

/// Two positions kept for the same end date are the same position.
proof fn lemma_chosen_unique(facts: Seq<FactValue>, r1: int, r2: int)
    requires
        is_chosen(facts, r1),
        is_chosen(facts, r2),
        facts[r1].end@ == facts[r2].end@,
    ensures
        r1 == r2,
{
    let e = facts[r1].end@;
    assert(is_candidate(facts, e, r2));
    assert(is_candidate(facts, e, r1));
    if r1 < r2 {
        assert(preferred(facts[r2], facts[r1]));
        assert(!preferred(facts[r2], facts[r1]));
    } else if r2 < r1 {
        assert(preferred(facts[r1], facts[r2]));
        assert(!preferred(facts[r1], facts[r2]));
    }
}

/// The result of deduplication is determined by the facts: any two
/// results that meet `is_dedup_of` are the same sequence.
pub proof fn lemma_dedup_unique(facts: Seq<FactValue>, a: Seq<usize>, b: Seq<usize>)
    requires
        is_dedup_of(facts, a),
        is_dedup_of(facts, b),
    ensures
        a == b,
{
    // Every element of one is an element of the other.
    assert forall|q: int| 0 <= q < a.len() implies b.contains(#[trigger] a[q]) by {
        assert(is_chosen(facts, a[q] as int));
        let k = a[q] as int;
        assert(end_in(facts, b, facts[k].end@));
        let m = choose|m: int| 0 <= m < b.len() && #[trigger] facts[b[m] as int].end@ == facts[k].end@;
        assert(is_chosen(facts, b[m] as int));
        lemma_chosen_unique(facts, a[q] as int, b[m] as int);
        assert(b[m] == a[q]);
    }
    assert forall|q: int| 0 <= q < b.len() implies a.contains(#[trigger] b[q]) by {
        assert(is_chosen(facts, b[q] as int));
        let k = b[q] as int;
        assert(end_in(facts, a, facts[k].end@));
        let m = choose|m: int| 0 <= m < a.len() && #[trigger] facts[a[m] as int].end@ == facts[k].end@;
        assert(is_chosen(facts, a[m] as int));
        lemma_chosen_unique(facts, b[q] as int, a[m] as int);
        assert(a[m] == b[q]);
    }
    lemma_sorted_same_elements(facts, a, b, 0);
}

proof fn lemma_sorted_distinct(facts: Seq<FactValue>, s: Seq<usize>, i: int, j: int)
    requires
        forall|p: int, q: int|
            0 <= p < q < s.len() ==> lex_lt(facts[s[p] as int].end@, facts[s[q] as int].end@),
        0 <= i < s.len(),
        0 <= j < s.len(),
        i != j,
    ensures
        s[i] != s[j],
{
    if i < j {
        lemma_lex_irreflexive(facts[s[i] as int].end@);
    } else {
        lemma_lex_irreflexive(facts[s[j] as int].end@);
    }
}

proof fn lemma_sorted_same_elements(facts: Seq<FactValue>, a: Seq<usize>, b: Seq<usize>, i: int)
    requires
        0 <= i,
        forall|p: int, q: int|
            0 <= p < q < a.len() ==> lex_lt(facts[a[p] as int].end@, facts[a[q] as int].end@),
        forall|p: int, q: int|
            0 <= p < q < b.len() ==> lex_lt(facts[b[p] as int].end@, facts[b[q] as int].end@),
        forall|q: int| 0 <= q < a.len() ==> b.contains(#[trigger] a[q]),
        forall|q: int| 0 <= q < b.len() ==> a.contains(#[trigger] b[q]),
        forall|j: int| 0 <= j < i && j < a.len() && j < b.len() ==> a[j] == b[j],
        i <= a.len() && i <= b.len(),
    ensures
        a == b,
    decreases a.len() + b.len() - 2 * i,
{
    if i < a.len() && i < b.len() {
        // a[i] sits at position m in b, and b[i] at position m2 in a.
        assert(b.contains(a[i]));
        assert(a.contains(b[i]));
        let m = choose|m: int| 0 <= m < b.len() && b[m] == a[i];
        let m2 = choose|m: int| 0 <= m < a.len() && a[m] == b[i];
        if m < i {
            assert(a[m] == b[m]);
            lemma_sorted_distinct(facts, a, m, i);
        }
        if m2 < i {
            assert(a[m2] == b[m2]);
            lemma_sorted_distinct(facts, b, m2, i);
        }
        if m != i {
            // m > i and m2 > i: the ends would have to precede each other.
            if m2 == i {
                lemma_sorted_distinct(facts, b, m, i);
            } else {
                lemma_lex_total(facts[a[i] as int].end@, facts[b[i] as int].end@);
                lemma_lex_transitive(
                    facts[b[i] as int].end@,
                    facts[b[m] as int].end@,
                    facts[a[m2] as int].end@,
                );
                lemma_lex_irreflexive(facts[b[i] as int].end@);
            }
        }
        lemma_sorted_same_elements(facts, a, b, i + 1);
    } else if i < a.len() {
        // b is exhausted: a[i] must be somewhere in b at a position below i.
        assert(b.contains(a[i]));
        let m = choose|m: int| 0 <= m < b.len() && b[m] == a[i];
        assert(a[m] == b[m]);
        lemma_sorted_distinct(facts, a, m, i);
    } else if i < b.len() {
        assert(a.contains(b[i]));
        let m = choose|m: int| 0 <= m < a.len() && a[m] == b[i];
        assert(a[m] == b[m]);
        lemma_sorted_distinct(facts, b, m, i);
    } else {
        assert(a =~= b);
    }
}

/// The deduplicated positions of `facts`.
pub open spec fn dedup_order(facts: Seq<FactValue>) -> Seq<usize> {
    choose|res: Seq<usize>| is_dedup_of(facts, res)
}

/// A result of deduplication is the deduplicated positions.
pub proof fn lemma_dedup_order(facts: Seq<FactValue>, res: Seq<usize>)
    requires
        is_dedup_of(facts, res),
    ensures
        dedup_order(facts) == res,
{
    let c = dedup_order(facts);
    assert(is_dedup_of(facts, c));
    lemma_dedup_unique(facts, c, res);
}

/// The forms of periodic reports: annual and quarterly reports (10-K,
/// 10-Q) and their amendments, and the annual reports of foreign issuers
/// (20-F, 40-F).
pub open spec fn periodic_form_name(form: Seq<char>) -> bool {
    ||| form == "10-K"@
    ||| form == "10-K/A"@
    ||| form == "10-Q"@
    ||| form == "10-Q/A"@
    ||| form == "20-F"@
    ||| form == "40-F"@
}

/// A fact filed on a periodic form: 10-K, 10-K/A, 10-Q, 10-Q/A, 20-F or 40-F.
pub open spec fn on_periodic_form(f: FactValue) -> bool {
    f.form matches Some(s) && periodic_form_name(s@)
}

/// Deduplication keeps a periodic report's fact over any other form's for
/// the same end date (of the facts it chooses among), whatever the filing
/// dates: when a candidate for the end date of a kept fact was filed on a
/// periodic form, so was the kept fact.
pub proof fn lemma_periodic_form_kept(facts: Seq<FactValue>, r: int, k: int)
    requires
        is_chosen(facts, r),
        is_candidate(facts, facts[r].end@, k),
        on_periodic_form(facts[k]),
    ensures
        on_periodic_form(facts[r]),
{
    assert(is_periodic(facts[k]));
    assert(!preferred(facts[k], facts[r]));
}

/// Among facts of the same kind (periodic or not), the later filing is kept
/// for an end date: no candidate of that kind was filed later than the
/// kept fact.
pub proof fn lemma_latest_filing_kept(facts: Seq<FactValue>, r: int, k: int)
    requires
        is_chosen(facts, r),
        is_candidate(facts, facts[r].end@, k),
        on_periodic_form(facts[k]) == on_periodic_form(facts[r]),
    ensures
        !lex_lt(facts[r].filed@, facts[k].filed@),
{
    assert(on_periodic_form(facts[k]) == is_periodic(facts[k]));
    assert(on_periodic_form(facts[r]) == is_periodic(facts[r]));
    assert(!preferred(facts[k], facts[r]));
}

/// A framed fact is kept over unframed ones: when some fact with the end
/// date of a kept fact has a frame, the kept fact has one.
pub proof fn lemma_framed_kept(facts: Seq<FactValue>, r: int, k: int)
    requires
        is_chosen(facts, r),
        0 <= k < facts.len(),
        facts[k].end@ == facts[r].end@,
        facts[k].frame is Some,
    ensures
        facts[r].frame is Some,
{
    assert(has_framed(facts, facts[r].end@));
}

} // verus!
