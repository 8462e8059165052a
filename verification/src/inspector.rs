use vstd::prelude::*;
use std::collections::HashMap;

verus! {

broadcast use vstd::std_specs::hash::group_hash_axioms;

/// The inspector protocol's state: the UI state each registered surface
/// reported (by surface handle), and the bound protocol objects.
pub struct Inspector {
    pub client_states: HashMap<u64, String>,
    pub resources: Vec<u64>,
}

pub open spec fn states_view(m: Map<u64, String>) -> Map<u64, Seq<char>> {
    m.map_values(|s: String| s@)
}

impl Inspector {
    pub fn new() -> (i: Inspector)
        ensures
            i.client_states@ == Map::<u64, String>::empty(),
            i.resources@.len() == 0,
    {
        Inspector { client_states: HashMap::new(), resources: Vec::new() }
    }

    /// A client registers a surface: it starts with an empty state, and a
    /// surface registered before keeps the state it has.
    pub fn register_client(&mut self, surface: u64)
        ensures
            old(self).client_states@.contains_key(surface) ==> final(self).client_states@
                == old(self).client_states@,
            !old(self).client_states@.contains_key(surface) ==> states_view(
                final(self).client_states@,
            ) == states_view(old(self).client_states@).insert(surface, Seq::empty()),
            final(self).resources@ == old(self).resources@,
    {
        if !self.client_states.contains_key(&surface) {
            self.client_states.insert(surface, String::new());
            proof {
                assert(states_view(self.client_states@) =~= states_view(
                    old(self).client_states@,
                ).insert(surface, Seq::empty()));
            }
        }
    }

    /// A client reported a surface's UI state.
    pub fn update_state(&mut self, surface: u64, state: String)
        ensures
            states_view(final(self).client_states@) == states_view(
                old(self).client_states@,
            ).insert(surface, state@),
            final(self).resources@ == old(self).resources@,
    {
        self.client_states.insert(surface, state);
        proof {
            assert(states_view(self.client_states@) =~= states_view(
                old(self).client_states@,
            ).insert(surface, state@));
        }
    }

    /// The state reported for a surface, `{}` when none was.
    pub fn state_for(&self, surface: u64) -> (r: String)
        ensures
            r@ == (if self.client_states@.contains_key(surface) {
                self.client_states@[surface]@
            } else {
                "{}"@
            }),
    {
        match self.client_states.get(&surface) {
            Some(s) => s.clone(),
            None => String::from_str("{}"),
        }
    }

    /// A protocol object was bound.
    pub fn add_resource(&mut self, resource: u64)
        ensures
            final(self).resources@ == old(self).resources@.push(resource),
            final(self).client_states@ == old(self).client_states@,
    {
        self.resources.push(resource);
    }

    /// A protocol object was destroyed: every record of it goes.
    pub fn remove_resource(&mut self, resource: u64)
        ensures
            final(self).resources@ == old(self).resources@.filter(|r: u64| r != resource),
            final(self).client_states@ == old(self).client_states@,
    {
        let ghost orig = self.resources@;
        let mut kept: Vec<u64> = Vec::new();
        let mut i: usize = 0;
        assert(orig.take(0).filter(|r: u64| r != resource) =~= Seq::<u64>::empty());
        while i < self.resources.len()
            invariant
                orig == self.resources@,
                i <= self.resources.len(),
                kept@ == orig.take(i as int).filter(|r: u64| r != resource),
            decreases self.resources.len() - i,
        {
            let r = self.resources[i];
            proof {
                assert(orig.take(i + 1).drop_last() =~= orig.take(i as int));
                reveal(Seq::filter);
            }
            if r != resource {
                kept.push(r);
            }
            i = i + 1;
        }
        assert(orig.take(orig.len() as int) =~= orig);
        self.resources = kept;
    }
}

/// A state reported for a surface is what the inspector hands out for it
/// afterwards: the table `update_state` leaves holds the surface, with the
/// reported text, which is what `state_for` returns.
pub proof fn lemma_reported_state_read_back(
    before: Map<u64, String>,
    after: Map<u64, String>,
    surface: u64,
    state: Seq<char>,
)
    requires
        states_view(after) == states_view(before).insert(surface, state),
    ensures
        after.contains_key(surface),
        after[surface]@ == state,
{
    assert(states_view(after).contains_key(surface));
    assert(states_view(after)[surface] == state);
}

} // verus!
