//! Choice of the link that carries a message, by reliability and priority,
//! subject to an external controller's overrides.
use vstd::prelude::*;

use crate::link_control::LinkOverrides;
use crate::protocol_core::{Locator, Priority, PriorityRange, Reliability, ZenohIdProto};

verus! {

/// A link candidate: its reliability and the priorities it serves (if restricted).
pub type LinkProfile = (Reliability, Option<PriorityRange>);

/// Candidate `i` matches both the reliability and the priority.
pub open spec fn full_match(elems: Seq<LinkProfile>, i: int, reliability: Reliability, priority: Priority) -> bool {
    &&& elems[i].0 == reliability
    &&& elems[i].1 matches Some(r) && r.spec_contains(priority)
}

/// The number of priorities that candidate `i` serves (when restricted).
pub open spec fn range_len(elems: Seq<LinkProfile>, i: int) -> nat {
    elems[i].1.unwrap().spec_len()
}

/// Candidate `i` is the best full match: a full match with the narrowest
/// priority range, the first one among equally narrow ones.
pub open spec fn best_full_match(elems: Seq<LinkProfile>, i: int, reliability: Reliability, priority: Priority) -> bool {
    &&& 0 <= i < elems.len()
    &&& full_match(elems, i, reliability, priority)
    &&& forall|j: int| 0 <= j < elems.len() && full_match(elems, j, reliability, priority) ==> range_len(elems, i) <= range_len(elems, j)
    &&& forall|j: int| 0 <= j < i && full_match(elems, j, reliability, priority) ==> range_len(elems, j) > range_len(elems, i)
}

/// Candidate `i` is the first one with the wanted reliability.
pub open spec fn first_reliability_match(elems: Seq<LinkProfile>, i: int, reliability: Reliability) -> bool {
    &&& 0 <= i < elems.len()
    &&& elems[i].0 == reliability
    &&& forall|j: int| 0 <= j < i ==> elems[j].0 != reliability
}

/// The candidate that link selection picks:
/// 1. a "full match" on reliability and priority (the narrowest range, then the first);
/// 2. else a "partial match", the first with the wanted reliability;
/// 3. else any candidate, the first;
/// and none when there is no candidate.
pub open spec fn spec_select(elems: Seq<LinkProfile>, reliability: Reliability, priority: Priority) -> Option<int> {
    if exists|i: int| 0 <= i < elems.len() && full_match(elems, i, reliability, priority) {
        Some(choose|i: int| best_full_match(elems, i, reliability, priority))
    } else if exists|i: int| 0 <= i < elems.len() && elems[i].0 == reliability {
        Some(choose|i: int| first_reliability_match(elems, i, reliability))
    } else if elems.len() > 0 {
        Some(0)
    } else {
        None
    }
}

/// There is at most one best full match.
pub proof fn lemma_best_full_unique(elems: Seq<LinkProfile>, i: int, k: int, reliability: Reliability, priority: Priority)
    requires
        best_full_match(elems, i, reliability, priority),
        best_full_match(elems, k, reliability, priority),
    ensures
        i == k,
{
    if i < k {
        assert(range_len(elems, k) <= range_len(elems, i));
    } else if k < i {
        assert(range_len(elems, i) <= range_len(elems, k));
    }
}

/// Returns the index of the best matching reliability / priority-range pair:
/// a full match (narrowest range, then first), else a partial match (first
/// with the wanted reliability), else the first candidate; `None` when there
/// is no candidate.
pub fn select(elements: &[LinkProfile], reliability: Reliability, priority: Priority) -> (r: Option<usize>)
    ensures
        r matches Some(i) ==> Some(i as int) == spec_select(elements@, reliability, priority),
        r matches Some(i) ==> i < elements@.len(),
        r is None ==> spec_select(elements@, reliability, priority) is None,
{
    let ghost elems = elements@;
    let mut full: Option<usize> = None;
    let mut prev_len: usize = 0;
    let mut partial: Option<usize> = None;
    let mut any: Option<usize> = None;
    let mut k: usize = 0;
    while k < elements.len()
        invariant
            elems == elements@,
            0 <= k <= elems.len(),
            full is None <==> forall|j: int| 0 <= j < k ==> !full_match(elems, j, reliability, priority),
            full matches Some(f) ==> {
                &&& f < k
                &&& full_match(elems, f as int, reliability, priority)
                &&& prev_len == range_len(elems, f as int)
                &&& forall|j: int| 0 <= j < k && full_match(elems, j, reliability, priority) ==> range_len(elems, f as int) <= range_len(elems, j)
                &&& forall|j: int| 0 <= j < f && full_match(elems, j, reliability, priority) ==> range_len(elems, j) > range_len(elems, f as int)
            },
            partial matches Some(p) ==> {
                &&& p < k
                &&& elems[p as int].0 == reliability
                &&& forall|j: int| 0 <= j < p ==> elems[j].0 == reliability ==> full_match(elems, j, reliability, priority)
            },
            partial is None ==> forall|j: int| 0 <= j < k ==> elems[j].0 == reliability ==> full_match(elems, j, reliability, priority),
            any matches Some(a) ==> a < k,
            k > 0 && (forall|j: int| 0 <= j < k ==> elems[j].0 != reliability) ==> any == Some(0usize),
        decreases elems.len() - k,
    {
        let (r, ps) = elements[k];
        let same_reliability = r == reliability;
        let in_range = match ps {
            Some(range) => range.contains(priority),
            None => false,
        };
        assert(full_match(elems, k as int, reliability, priority) == (same_reliability && in_range));
        if same_reliability && in_range {
            let len = ps.unwrap().len();
            if full.is_none() || prev_len > len {
                full = Some(k);
                prev_len = len;
            } else if any.is_none() {
                any = Some(k);
            }
        } else if same_reliability && partial.is_none() {
            partial = Some(k);
        } else if any.is_none() {
            any = Some(k);
        }
        k = k + 1;
    }
    proof {
        if let Some(f) = full {
            assert(best_full_match(elems, f as int, reliability, priority));
            let c = choose|i: int| best_full_match(elems, i, reliability, priority);
            lemma_best_full_unique(elems, f as int, c, reliability, priority);
        } else if let Some(p) = partial {
            assert forall|j: int| 0 <= j < p implies elems[j].0 != reliability by {
                if elems[j].0 == reliability {
                    assert(full_match(elems, j, reliability, priority));
                }
            }
            assert(first_reliability_match(elems, p as int, reliability));
            let c = choose|i: int| first_reliability_match(elems, i, reliability);
            assert(first_reliability_match(elems, c, reliability));
            assert(c == p as int);
        } else {
            assert forall|j: int| 0 <= j < elems.len() implies elems[j].0 != reliability by {
                if elems[j].0 == reliability {
                    assert(full_match(elems, j, reliability, priority));
                }
            }
        }
    }
    match full {
        Some(f) => Some(f),
        None => match partial {
            Some(p) => Some(p),
            None => any,
        },
    }
}


/// A link candidate with its destination locator.
pub type LinkCandidate = (Reliability, Option<PriorityRange>, Locator);

/// Indices, in increasing order, of the first `n` candidates whose locator is not disabled.
pub open spec fn enabled_indices(elems: Seq<LinkCandidate>, disabled: Set<Seq<char>>, n: nat) -> Seq<int>
    decreases n,
{
    if n == 0 {
        Seq::empty()
    } else {
        let prev = enabled_indices(elems, disabled, (n - 1) as nat);
        if !disabled.contains(elems[n - 1].2@) {
            prev.push(n - 1)
        } else {
            prev
        }
    }
}

/// The reliability / priority profiles of the candidates at `idx`.
pub open spec fn profiles_at(elems: Seq<LinkCandidate>, idx: Seq<int>) -> Seq<LinkProfile> {
    Seq::new(idx.len(), |k: int| (elems[idx[k]].0, elems[idx[k]].1))
}

/// Candidate `i` is the first one whose locator is `forced`, and that locator
/// is not disabled.
pub open spec fn first_usable_forced(elems: Seq<LinkCandidate>, i: int, forced: Seq<char>, disabled: Set<Seq<char>>) -> bool {
    &&& 0 <= i < elems.len()
    &&& elems[i].2@ == forced
    &&& !disabled.contains(forced)
    &&& forall|j: int| 0 <= j < i ==> elems[j].2@ != forced
}

/// The candidate that link selection picks under overrides:
/// - with a forced link for the peer: the first candidate on that locator,
///   unless the locator is disabled or absent (then none);
/// - otherwise: the default choice among the candidates that are not disabled.
pub open spec fn spec_select_with_overrides(
    elems: Seq<LinkCandidate>,
    reliability: Reliability,
    priority: Priority,
    forced: Option<Seq<char>>,
    disabled: Set<Seq<char>>,
) -> Option<int> {
    match forced {
        Some(f) => {
            if !disabled.contains(f) && exists|i: int| 0 <= i < elems.len() && elems[i].2@ == f {
                Some(choose|i: int| first_usable_forced(elems, i, f, disabled))
            } else {
                None
            }
        },
        None => {
            let av = enabled_indices(elems, disabled, elems.len());
            match spec_select(profiles_at(elems, av), reliability, priority) {
                Some(k) => Some(av[k]),
                None => None,
            }
        },
    }
}

/// The enabled indices are increasing, in range, and exactly the candidates
/// that are not disabled.
pub proof fn lemma_enabled_indices(elems: Seq<LinkCandidate>, disabled: Set<Seq<char>>, n: nat)
    requires
        n <= elems.len(),
    ensures
        forall|k: int| 0 <= k < enabled_indices(elems, disabled, n).len() ==> {
            let i = #[trigger] enabled_indices(elems, disabled, n)[k];
            &&& 0 <= i < n
            &&& !disabled.contains(elems[i].2@)
        },
        forall|k1: int, k2: int|
            0 <= k1 < k2 < enabled_indices(elems, disabled, n).len() ==> #[trigger] enabled_indices(elems, disabled, n)[k1]
                < #[trigger] enabled_indices(elems, disabled, n)[k2],
        forall|i: int| 0 <= i < n && !disabled.contains(elems[i].2@) ==> #[trigger] enabled_indices(elems, disabled, n).contains(i),
        enabled_indices(elems, disabled, n).len() <= n,
    decreases n,
{
    if n > 0 {
        lemma_enabled_indices(elems, disabled, (n - 1) as nat);
        let prev = enabled_indices(elems, disabled, (n - 1) as nat);
        let cur = enabled_indices(elems, disabled, n);
        assert forall|i: int| 0 <= i < n && !disabled.contains(elems[i].2@) implies #[trigger] cur.contains(i) by {
            if i < n - 1 {
                assert(prev.contains(i));
                let k = choose|k: int| 0 <= k < prev.len() && prev[k] == i;
                assert(cur[k] == i);
            } else {
                assert(cur[cur.len() - 1] == i);
            }
        }
    }
}

/// Select a link considering the overrides of an external controller:
/// a forced link for the peer is used if it is present and not disabled (and
/// nothing else is), disabled links are skipped, and the default selection
/// runs on the rest. Returns the index of the chosen candidate.
pub fn select_with_overrides(
    elements: &[LinkCandidate],
    reliability: Reliability,
    priority: Priority,
    peer_zid: &ZenohIdProto,
    overrides: &LinkOverrides,
) -> (r: Option<usize>)
    ensures
        r matches Some(i) ==> Some(i as int) == spec_select_with_overrides(
            elements@,
            reliability,
            priority,
            if overrides.forced().contains_key(peer_zid.id) { Some(overrides.forced()[peer_zid.id]) } else { None },
            overrides.disabled(),
        ),
        r is None ==> spec_select_with_overrides(
            elements@,
            reliability,
            priority,
            if overrides.forced().contains_key(peer_zid.id) { Some(overrides.forced()[peer_zid.id]) } else { None },
            overrides.disabled(),
        ) is None,
{
    let ghost elems = elements@;
    let ghost disabled = overrides.disabled();
    if let Some(forced_locator) = overrides.get_forced_link(peer_zid) {
        let ghost f = forced_locator@;
        let mut idx: usize = 0;
        while idx < elements.len()
            invariant
                elems == elements@,
                f == forced_locator@,
                overrides.forced().contains_key(peer_zid.id),
                overrides.forced()[peer_zid.id] == f,
                disabled == overrides.disabled(),
                0 <= idx <= elems.len(),
                forall|j: int| 0 <= j < idx ==> !(elems[j].2@ == f && !disabled.contains(f)),
            decreases elems.len() - idx,
        {
            let locator = &elements[idx].2;
            if *locator == forced_locator && !overrides.is_disabled(locator) {
                proof {
                    assert(overrides.forced().contains_key(peer_zid.id));
                    assert(elems[idx as int].2@ == f);
                    assert(!disabled.contains(f));
                    assert forall|j: int| 0 <= j < idx implies elems[j].2@ != f by {}
                    assert(first_usable_forced(elems, idx as int, f, disabled));
                    let c = choose|i: int| first_usable_forced(elems, i, f, disabled);
                    assert(first_usable_forced(elems, c, f, disabled));
                    if c < idx {
                        assert(elems[c].2@ != f);
                    } else if idx < c {
                        assert(elems[idx as int].2@ != f);
                    }
                    assert(c == idx);
                }
                return Some(idx);
            }
            idx = idx + 1;
        }
        proof {
            if !disabled.contains(f) {
                assert forall|i: int| 0 <= i < elems.len() implies elems[i].2@ != f by {}
            }
        }
        return None;
    }
    let mut positions: Vec<usize> = Vec::new();
    let mut profiles: Vec<LinkProfile> = Vec::new();
    let mut k: usize = 0;
    while k < elements.len()
        invariant
            elems == elements@,
            disabled == overrides.disabled(),
            0 <= k <= elems.len(),
            positions@.len() == profiles@.len(),
            positions@.len() == enabled_indices(elems, disabled, k as nat).len(),
            forall|j: int| 0 <= j < positions@.len() ==> #[trigger] positions@[j] as int == enabled_indices(elems, disabled, k as nat)[j],
            profiles@ =~= profiles_at(elems, enabled_indices(elems, disabled, k as nat)),
        decreases elems.len() - k,
    {
        let cand = &elements[k];
        if !overrides.is_disabled(&cand.2) {
            positions.push(k);
            profiles.push((cand.0, cand.1));
        }
        proof {
            let prev = enabled_indices(elems, disabled, k as nat);
            let cur = enabled_indices(elems, disabled, (k + 1) as nat);
            assert(profiles@ =~= profiles_at(elems, cur));
        }
        k = k + 1;
    }
    let ghost av = enabled_indices(elems, disabled, elems.len());
    proof {
        lemma_enabled_indices(elems, disabled, elems.len());
    }
    if profiles.len() == 0 {
        return None;
    }
    match select(profiles.as_slice(), reliability, priority) {
        Some(sel) => {
            Some(positions[sel])
        },
        None => None,
    }
}

/// Among the first `n` candidates, a best full match exists whenever a full match does.
proof fn lemma_best_full_prefix(elems: Seq<LinkProfile>, reliability: Reliability, priority: Priority, n: nat) -> (w: Option<int>)
    requires
        n <= elems.len(),
    ensures
        w is None <==> forall|j: int| 0 <= j < n ==> !full_match(elems, j, reliability, priority),
        w matches Some(f) ==> {
            &&& 0 <= f < n
            &&& full_match(elems, f, reliability, priority)
            &&& forall|j: int| 0 <= j < n && full_match(elems, j, reliability, priority) ==> range_len(elems, f) <= range_len(elems, j)
            &&& forall|j: int| 0 <= j < f && full_match(elems, j, reliability, priority) ==> range_len(elems, j) > range_len(elems, f)
        },
    decreases n,
{
    if n == 0 {
        None
    } else {
        let prev = lemma_best_full_prefix(elems, reliability, priority, (n - 1) as nat);
        let last = n - 1;
        if full_match(elems, last, reliability, priority) {
            match prev {
                None => Some(last),
                Some(f) => if range_len(elems, f) > range_len(elems, last) { Some(last) } else { Some(f) },
            }
        } else {
            prev
        }
    }
}

/// Link selection picks a candidate exactly when there is one, and picks one
/// of the candidates.
pub proof fn lemma_select_some_iff_nonempty(elems: Seq<LinkProfile>, reliability: Reliability, priority: Priority)
    ensures
        spec_select(elems, reliability, priority) is Some <==> elems.len() > 0,
        spec_select(elems, reliability, priority) matches Some(i) ==> 0 <= i < elems.len(),
{
    if exists|i: int| 0 <= i < elems.len() && full_match(elems, i, reliability, priority) {
        let w = lemma_best_full_prefix(elems, reliability, priority, elems.len());
        assert(best_full_match(elems, w.unwrap(), reliability, priority));
    } else if exists|i: int| 0 <= i < elems.len() && elems[i].0 == reliability {
        let w = lemma_first_reliability_prefix(elems, reliability, elems.len());
        assert(first_reliability_match(elems, w.unwrap(), reliability));
    }
}

/// The first candidate with the wanted reliability, among the first `n`.
proof fn lemma_first_reliability_prefix(elems: Seq<LinkProfile>, reliability: Reliability, n: nat) -> (w: Option<int>)
    requires
        n <= elems.len(),
    ensures
        w is None <==> forall|j: int| 0 <= j < n ==> elems[j].0 != reliability,
        w matches Some(p) ==> 0 <= p < n && first_reliability_match(elems, p, reliability),
    decreases n,
{
    if n == 0 {
        None
    } else {
        let prev = lemma_first_reliability_prefix(elems, reliability, (n - 1) as nat);
        if prev is None && elems[n - 1].0 == reliability {
            Some(n - 1)
        } else {
            prev
        }
    }
}

/// When some candidate matches both reliability and priority, the one picked
/// does too, and no matching candidate serves a narrower priority range.
pub proof fn lemma_select_prefers_full_match(elems: Seq<LinkProfile>, reliability: Reliability, priority: Priority, j: int)
    requires
        0 <= j < elems.len(),
        full_match(elems, j, reliability, priority),
    ensures
        spec_select(elems, reliability, priority) matches Some(i) && full_match(elems, i, reliability, priority)
            && range_len(elems, i) <= range_len(elems, j),
{
    let w = lemma_best_full_prefix(elems, reliability, priority, elems.len());
    assert(best_full_match(elems, w.unwrap(), reliability, priority));
}

/// When some candidate has the wanted reliability, the one picked has it too.
pub proof fn lemma_select_prefers_reliability(elems: Seq<LinkProfile>, reliability: Reliability, priority: Priority, j: int)
    requires
        0 <= j < elems.len(),
        elems[j].0 == reliability,
    ensures
        spec_select(elems, reliability, priority) matches Some(i) && elems[i].0 == reliability,
{
    if exists|i: int| 0 <= i < elems.len() && full_match(elems, i, reliability, priority) {
        let w = lemma_best_full_prefix(elems, reliability, priority, elems.len());
        assert(best_full_match(elems, w.unwrap(), reliability, priority));
    } else {
        let w = lemma_first_reliability_prefix(elems, reliability, elems.len());
        assert(first_reliability_match(elems, w.unwrap(), reliability));
    }
}

/// A disabled link is never selected, with or without a forced link.
pub proof fn lemma_disabled_never_selected(
    elems: Seq<LinkCandidate>,
    reliability: Reliability,
    priority: Priority,
    forced: Option<Seq<char>>,
    disabled: Set<Seq<char>>,
)
    ensures
        spec_select_with_overrides(elems, reliability, priority, forced, disabled) matches Some(i) ==> {
            &&& 0 <= i < elems.len()
            &&& !disabled.contains(elems[i].2@)
        },
{
    match forced {
        Some(f) => {
            if !disabled.contains(f) && exists|i: int| 0 <= i < elems.len() && elems[i].2@ == f {
                let i0 = choose|i: int| 0 <= i < elems.len() && elems[i].2@ == f;
                let w = lemma_first_locator_prefix(elems, f, elems.len());
                assert(first_usable_forced(elems, w.unwrap(), f, disabled));
            }
        },
        None => {
            let av = enabled_indices(elems, disabled, elems.len());
            lemma_enabled_indices(elems, disabled, elems.len());
            lemma_select_some_iff_nonempty(profiles_at(elems, av), reliability, priority);
        },
    }
}

/// The first candidate whose locator is `f`, among the first `n`.
proof fn lemma_first_locator_prefix(elems: Seq<LinkCandidate>, f: Seq<char>, n: nat) -> (w: Option<int>)
    requires
        n <= elems.len(),
    ensures
        w is None <==> forall|j: int| 0 <= j < n ==> elems[j].2@ != f,
        w matches Some(p) ==> 0 <= p < n && elems[p].2@ == f && forall|j: int| 0 <= j < p ==> elems[j].2@ != f,
    decreases n,
{
    if n == 0 {
        None
    } else {
        let prev = lemma_first_locator_prefix(elems, f, (n - 1) as nat);
        if prev is None && elems[n - 1].2@ == f {
            Some(n - 1)
        } else {
            prev
        }
    }
}

/// A forced link that is present and not disabled carries all the traffic to
/// its peer; a forced link that is absent or disabled leaves no link at all.
pub proof fn lemma_forced_link_wins(
    elems: Seq<LinkCandidate>,
    reliability: Reliability,
    priority: Priority,
    f: Seq<char>,
    disabled: Set<Seq<char>>,
)
    ensures
        (!disabled.contains(f) && exists|i: int| 0 <= i < elems.len() && #[trigger] elems[i].2@ == f)
            ==> (spec_select_with_overrides(elems, reliability, priority, Some(f), disabled) matches Some(i)
            && 0 <= i < elems.len() && elems[i].2@ == f),
        (disabled.contains(f) || forall|i: int| 0 <= i < elems.len() ==> #[trigger] elems[i].2@ != f)
            ==> spec_select_with_overrides(elems, reliability, priority, Some(f), disabled) is None,
{
    if !disabled.contains(f) && exists|i: int| 0 <= i < elems.len() && elems[i].2@ == f {
        let w = lemma_first_locator_prefix(elems, f, elems.len());
        assert(first_usable_forced(elems, w.unwrap(), f, disabled));
    }
}

/// Without overrides, selection is the default selection on all candidates.
pub proof fn lemma_no_overrides_is_default(elems: Seq<LinkCandidate>, reliability: Reliability, priority: Priority)
    ensures
        spec_select_with_overrides(elems, reliability, priority, None, Set::empty()) == spec_select(
            Seq::new(elems.len(), |i: int| (elems[i].0, elems[i].1)),
            reliability,
            priority,
        ),
{
    let disabled = Set::<Seq<char>>::empty();
    let av = enabled_indices(elems, disabled, elems.len());
    lemma_enabled_indices_all(elems, elems.len());
    let all = Seq::new(elems.len(), |i: int| (elems[i].0, elems[i].1));
    assert(profiles_at(elems, av) =~= all);
    lemma_select_some_iff_nonempty(all, reliability, priority);
    if let Some(k) = spec_select(all, reliability, priority) {
        assert(av[k] == k);
    }
}

/// With nothing disabled, the enabled indices are `0..n`.
proof fn lemma_enabled_indices_all(elems: Seq<LinkCandidate>, n: nat)
    requires
        n <= elems.len(),
    ensures
        enabled_indices(elems, Set::empty(), n) =~= Seq::new(n, |i: int| i),
    decreases n,
{
    if n > 0 {
        lemma_enabled_indices_all(elems, (n - 1) as nat);
    }
}

} // verus!
