use std::collections::HashMap;

use vstd::prelude::*;

use crate::hazards::{seq_intersection, Hazard, Hazards};

verus! {

/// The abstract state of a [`Policy`].
pub struct PolicyView {
    /// Hazards blocked on every device.
    pub global: Seq<Hazard>,
    /// Hazards blocked on specific devices, by device identifier.
    pub local: Map<usize, Seq<Hazard>>,
}

impl PolicyView {
    /// The hazards blocked on the device `id`, besides the global ones.
    pub open spec fn local_for(self, id: usize) -> Seq<Hazard> {
        if self.local.contains_key(id) { self.local[id] } else { Seq::empty() }
    }

    /// Whether `hazard` is blocked on the device `id`.
    pub open spec fn blocks(self, id: usize, hazard: Hazard) -> bool {
        self.global.contains(hazard) || self.local_for(id).contains(hazard)
    }
}

/// The hazards blocked on a device besides the global ones are exactly
/// those the policy lists for that device, and none when it lists none.
pub proof fn law_local_hazards_are_listed(policy: PolicyView, id: usize)
    ensures
        policy.local.contains_key(id) ==> policy.local_for(id) == policy.local[id],
        !policy.local.contains_key(id) ==> policy.local_for(id).len() == 0,
{
}

/// Every hazard listed for a device that a request has is among the
/// hazards blocked on that device that the request has.
pub proof fn law_listed_hazard_blocked_on_device(policy: PolicyView, id: usize, hazards: Seq<Hazard>, h: Hazard)
    requires
        policy.local.contains_key(id),
        policy.local[id].contains(h),
        hazards.contains(h),
    ensures
        seq_intersection(policy.local_for(id), hazards).contains(h),
        policy.blocks(id, h),
{
    broadcast use vstd::seq_lib::group_filter_ensures;
    let pred = |x: Hazard| hazards.contains(x);
    let i = choose|i: int| 0 <= i < policy.local[id].len() && policy.local[id][i] == h;
    assert(pred(policy.local_for(id)[i]));
    assert(seq_intersection(policy.local_for(id), hazards).contains(policy.local_for(id)[i]));
}

/// After the hazards of a device are blocked, each of them is blocked on
/// that device.
pub proof fn law_block_device_blocks_each(policy: PolicyView, id: usize, blocked: Seq<Hazard>, h: Hazard)
    requires
        blocked.contains(h),
    ensures
        (PolicyView { local: policy.local.insert(id, blocked), ..policy }).blocks(id, h),
{
}

/// A privacy policy: the hazards whose requests a controller must not
/// send, either to every device or to specific devices.
#[derive(Debug)]
pub struct Policy {
    block_on_hazards: Hazards,
    block_device_on_hazards: HashMap<usize, Hazards>,
}

impl View for Policy {
    type V = PolicyView;

    closed spec fn view(&self) -> PolicyView {
        PolicyView {
            global: self.block_on_hazards@,
            local: self.block_device_on_hazards@.map_values(|h: Hazards| h@),
        }
    }
}

impl Policy {
    /// Creates a policy that blocks nothing.
    pub fn init() -> (r: Self)
        ensures
            r@.global == Seq::<Hazard>::empty(),
            r@.local == Map::<usize, Seq<Hazard>>::empty(),
    {
        let r = Policy { block_on_hazards: Hazards::new(), block_device_on_hazards: HashMap::new() };
        assert(r@.local =~= Map::<usize, Seq<Hazard>>::empty());
        r
    }

    /// Blocks the given hazards on every device, replacing the hazards
    /// blocked so far on every device.
    pub fn block_hazards(self, hazards: Hazards) -> (r: Self)
        ensures
            r@.global == hazards@,
            r@.local == self@.local,
    {
        let mut r = self;
        r.block_on_hazards = hazards;
        r
    }

    /// Blocks the given hazards on the device `id`, replacing the hazards
    /// blocked so far on that device.
    pub fn block_device_on_hazards(self, id: usize, hazards: Hazards) -> (r: Self)
        ensures
            r@.global == self@.global,
            r@.local == self@.local.insert(id, hazards@),
    {
        broadcast use vstd::std_specs::hash::group_hash_axioms;
        let ghost h = hazards@;
        let mut r = self;
        r.block_device_on_hazards.insert(id, hazards);
        assert(r@.local =~= self@.local.insert(id, h));
        r
    }

    /// Returns the hazards among `hazards` that are blocked on every device.
    pub fn global_blocked_hazards(&self, hazards: &Hazards) -> (r: Hazards)
        ensures
            r@ == seq_intersection(self@.global, hazards@),
    {
        self.block_on_hazards.intersection(hazards)
    }

    /// Returns the hazards among `hazards` that are blocked on the device
    /// `id` in particular.
    pub fn local_blocked_hazards(&self, id: usize, hazards: &Hazards) -> (r: Hazards)
        ensures
            r@ == seq_intersection(self@.local_for(id), hazards@),
    {
        broadcast use vstd::std_specs::hash::group_hash_axioms;
        match self.block_device_on_hazards.get(&id) {
            Some(local) => local.intersection(hazards),
            None => {
                let r = Hazards::new();
                proof {
                    reveal(Seq::filter);
                }
                r
            },
        }
    }
}

}
