//! Link control for external controller integration: forced and disabled links.
//!
//! When overrides are set, they take precedence over the default link
//! selection algorithm.
use std::collections::HashMap;
use vstd::prelude::*;

use crate::protocol_core::{Locator, ZenohIdProto};

verus! {

broadcast use vstd::std_specs::hash::group_hash_axioms;

/// The locators of `v`, as a set of texts.
pub open spec fn locator_set(v: Seq<Locator>) -> Set<Seq<char>> {
    Set::new(|t: Seq<char>| exists|i: int| 0 <= i < v.len() && (#[trigger] v[i])@ == t)
}

/// No two locators of `v` have the same text.
pub open spec fn distinct_locators(v: Seq<Locator>) -> bool {
    forall|i: int, j: int| 0 <= i < v.len() && 0 <= j < v.len() && i != j ==> (#[trigger] v[i])@ != (#[trigger] v[j])@
}

/// Link overrides managed by an external controller.
#[derive(Debug)]
pub struct LinkOverrides {
    /// Forced links per peer (keyed by the peer identifier's value): when set,
    /// all traffic to the peer uses this link
    forced_links: HashMap<u128, Locator>,
    /// Disabled links: excluded from selection but still connected
    disabled_links: Vec<Locator>,
}

impl LinkOverrides {
    /// The forced link of each peer, by the peer identifier's value.
    pub closed spec fn forced(self) -> Map<u128, Seq<char>> {
        self.forced_links@.map_values(|l: Locator| l@)
    }

    /// The disabled links.
    pub closed spec fn disabled(self) -> Set<Seq<char>> {
        locator_set(self.disabled_links@)
    }

    #[verifier::type_invariant]
    spec fn wf(self) -> bool {
        distinct_locators(self.disabled_links@)
    }

    /// Create a new empty link overrides manager.
    pub fn new() -> (r: Self)
        ensures
            r.forced() == Map::<u128, Seq<char>>::empty(),
            r.disabled() == Set::<Seq<char>>::empty(),
    {
        let r = LinkOverrides { forced_links: HashMap::new(), disabled_links: Vec::new() };
        assert(r.forced() =~= Map::<u128, Seq<char>>::empty());
        assert(r.disabled() =~= Set::<Seq<char>>::empty());
        r
    }

    /// Force all traffic to a specific peer to use a specific link.
    pub fn set_forced_link(&mut self, peer: ZenohIdProto, link: Locator)
        ensures
            final(self).forced() == old(self).forced().insert(peer.id, link@),
            final(self).disabled() == old(self).disabled(),
    {
        proof {
            use_type_invariant(&*self);
        }
        let ghost l = link@;
        let mut m: HashMap<u128, Locator> = HashMap::new();
        std::mem::swap(&mut m, &mut self.forced_links);
        m.insert(peer.id, link);
        self.forced_links = m;
        assert(self.forced() =~= old(self).forced().insert(peer.id, l));
    }

    /// Clear the forced link for a peer, returning to default behavior.
    pub fn clear_forced_link(&mut self, peer: &ZenohIdProto)
        ensures
            final(self).forced() == old(self).forced().remove(peer.id),
            final(self).disabled() == old(self).disabled(),
    {
        proof {
            use_type_invariant(&*self);
        }
        let mut m: HashMap<u128, Locator> = HashMap::new();
        std::mem::swap(&mut m, &mut self.forced_links);
        let _ = m.remove(&peer.id);
        self.forced_links = m;
        assert(self.forced() =~= old(self).forced().remove(peer.id));
    }

    /// Get the forced link for a peer, if any.
    pub fn get_forced_link(&self, peer: &ZenohIdProto) -> (r: Option<Locator>)
        ensures
            self.forced().contains_key(peer.id) ==> (r matches Some(l) && l@ == self.forced()[peer.id]),
            !self.forced().contains_key(peer.id) ==> r is None,
    {
        match self.forced_links.get(&peer.id) {
            Some(l) => Some(l.clone()),
            None => None,
        }
    }

    /// Check if a peer has a forced link.
    pub fn has_forced_link(&self, peer: &ZenohIdProto) -> (r: bool)
        ensures
            r == self.forced().contains_key(peer.id),
    {
        self.forced_links.contains_key(&peer.id)
    }

    /// Position of `link` among the disabled links, if it is there.
    fn disabled_position(&self, link: &Locator) -> (r: Option<usize>)
        ensures
            r matches Some(i) ==> i < self.disabled_links@.len() && self.disabled_links@[i as int]@ == link@,
            r is None ==> !self.disabled().contains(link@),
    {
        let mut i: usize = 0;
        while i < self.disabled_links.len()
            invariant
                0 <= i <= self.disabled_links@.len(),
                forall|j: int| 0 <= j < i ==> (#[trigger] self.disabled_links@[j])@ != link@,
            decreases self.disabled_links@.len() - i,
        {
            if self.disabled_links[i] == *link {
                return Some(i);
            }
            i = i + 1;
        }
        None
    }

    /// Disable a link entirely. Traffic will not use this link.
    pub fn disable_link(&mut self, link: Locator)
        ensures
            final(self).disabled() == old(self).disabled().insert(link@),
            final(self).forced() == old(self).forced(),
    {
        proof {
            use_type_invariant(&*self);
        }
        if self.disabled_position(&link).is_none() {
            let ghost before = self.disabled_links@;
            let mut v: Vec<Locator> = Vec::new();
            std::mem::swap(&mut v, &mut self.disabled_links);
            v.push(link);
            assert(distinct_locators(v@));
            self.disabled_links = v;
            assert(self.disabled() =~= old(self).disabled().insert(link@)) by {
                let after = self.disabled_links@;
                assert(after.len() == before.len() + 1);
                assert(after[before.len() as int]@ == link@);
                assert forall|t: Seq<char>| #[trigger] old(self).disabled().contains(t)
                    implies self.disabled().contains(t) by {
                    let k = choose|k: int| 0 <= k < before.len() && (#[trigger] before[k])@ == t;
                    assert(after[k]@ == t);
                }
                assert forall|t: Seq<char>| #[trigger] self.disabled().contains(t) && t != link@
                    implies old(self).disabled().contains(t) by {
                    let k = choose|k: int| 0 <= k < after.len() && (#[trigger] after[k])@ == t;
                    assert(before[k]@ == t);
                }
            }
        } else {
            assert(self.disabled() =~= old(self).disabled().insert(link@));
        }
    }

    /// Re-enable a previously disabled link.
    pub fn enable_link(&mut self, link: &Locator)
        ensures
            final(self).disabled() == old(self).disabled().remove(link@),
            final(self).forced() == old(self).forced(),
    {
        proof {
            use_type_invariant(&*self);
        }
        if let Some(i) = self.disabled_position(link) {
            let ghost before = self.disabled_links@;
            let mut v: Vec<Locator> = Vec::new();
            std::mem::swap(&mut v, &mut self.disabled_links);
            let _removed = v.remove(i);
            assert(v@ == before.remove(i as int));
            assert(distinct_locators(v@));
            self.disabled_links = v;
            assert(self.disabled() =~= old(self).disabled().remove(link@)) by {
                assert forall|t: Seq<char>| #[trigger] old(self).disabled().contains(t) && t != link@
                    implies self.disabled().contains(t) by {
                    let k = choose|k: int| 0 <= k < before.len() && (#[trigger] before[k])@ == t;
                    if k < i {
                        assert(self.disabled_links@[k]@ == t);
                    } else {
                        assert(self.disabled_links@[k - 1]@ == t);
                    }
                }
                assert forall|t: Seq<char>| #[trigger] self.disabled().contains(t)
                    implies old(self).disabled().contains(t) && t != link@ by {
                    let k = choose|k: int| 0 <= k < self.disabled_links@.len() && (#[trigger] self.disabled_links@[k])@ == t;
                    if k < i {
                        assert(before[k]@ == t);
                    } else {
                        assert(before[k + 1]@ == t);
                    }
                }
            }
        } else {
            assert(self.disabled() =~= old(self).disabled().remove(link@));
        }
    }

    /// Check if a link is currently disabled.
    pub fn is_disabled(&self, link: &Locator) -> (r: bool)
        ensures
            r == self.disabled().contains(link@),
    {
        self.disabled_position(link).is_some()
    }

    /// Get all current link overrides (peer identifier value -> forced link).
    pub fn get_all_forced_links(&self) -> (r: HashMap<u128, Locator>)
        ensures
            r@.map_values(|l: Locator| l@) == self.forced(),
    {
        self.forced_links.clone()
    }

    /// Get all currently disabled links, each once.
    pub fn get_disabled_links(&self) -> (r: Vec<Locator>)
        ensures
            locator_set(r@) == self.disabled(),
            distinct_locators(r@),
    {
        proof {
            use_type_invariant(self);
        }
        let mut r: Vec<Locator> = Vec::new();
        let mut i: usize = 0;
        while i < self.disabled_links.len()
            invariant
                0 <= i <= self.disabled_links@.len(),
                r@.len() == i,
                forall|j: int| 0 <= j < i ==> (#[trigger] r@[j])@ == self.disabled_links@[j]@,
            decreases self.disabled_links@.len() - i,
        {
            r.push(self.disabled_links[i].clone());
            i = i + 1;
        }
        assert(locator_set(r@) =~= self.disabled()) by {
            assert forall|t: Seq<char>| #[trigger] locator_set(r@).contains(t)
                implies self.disabled().contains(t) by {
                let k = choose|k: int| 0 <= k < r@.len() && (#[trigger] r@[k])@ == t;
                assert(self.disabled_links@[k]@ == t);
            }
            assert forall|t: Seq<char>| #[trigger] self.disabled().contains(t)
                implies locator_set(r@).contains(t) by {
                let k = choose|k: int| 0 <= k < self.disabled_links@.len() && (#[trigger] self.disabled_links@[k])@ == t;
                assert(r@[k]@ == t);
            }
        }
        r
    }

    /// Clear all overrides (forced links and disabled links).
    pub fn clear_all(&mut self)
        ensures
            final(self).forced() == Map::<u128, Seq<char>>::empty(),
            final(self).disabled() == Set::<Seq<char>>::empty(),
    {
        proof {
            use_type_invariant(&*self);
        }
        self.forced_links = HashMap::new();
        self.disabled_links = Vec::new();
        assert(self.forced() =~= Map::<u128, Seq<char>>::empty());
        assert(self.disabled() =~= Set::<Seq<char>>::empty());
    }
}

} // verus!
