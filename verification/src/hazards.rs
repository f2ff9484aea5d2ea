use vstd::prelude::*;

verus! {

/// A hazard that may occur on a device while one of its routes is invoked.
#[derive(Debug, Clone, Copy, PartialEq, Eq, Structural)]
pub enum Hazard {
    /// The air could be poisoned.
    AirPoisoning,
    /// Electric energy is consumed.
    ElectricEnergyConsumption,
    /// An explosion could occur.
    Explosion,
    /// A fire could start.
    FireHazard,
    /// Food could spoil.
    SpoiledFood,
}

/// An ordered collection of distinct [`Hazard`]s.
///
/// Hazards keep the order in which they were first inserted; inserting a
/// hazard that is already present leaves the collection unchanged.
#[derive(Debug)]
pub struct Hazards {
    hazards: Vec<Hazard>,
}

impl View for Hazards {
    type V = Seq<Hazard>;

    closed spec fn view(&self) -> Seq<Hazard> {
        self.hazards@
    }
}

/// The sequence obtained by appending `h` to `s` when `s` does not hold it.
pub open spec fn seq_insert(s: Seq<Hazard>, h: Hazard) -> Seq<Hazard> {
    if s.contains(h) { s } else { s.push(h) }
}

/// Inserting a hazard twice gives the collection of inserting it once.
pub proof fn law_insert_idempotent(s: Seq<Hazard>, h: Hazard)
    ensures
        seq_insert(seq_insert(s, h), h) == seq_insert(s, h),
{
    assert(seq_insert(s, h).contains(h)) by {
        if !s.contains(h) {
            assert(s.push(h)[s.len() as int] == h);
        }
    }
}

/// After inserting a hazard, the collection holds it, together with every
/// hazard it held before, in the same order.
pub proof fn law_insert_keeps_hazards(s: Seq<Hazard>, h: Hazard)
    ensures
        seq_insert(s, h).contains(h),
        seq_insert(s, h).take(s.len() as int) == s,
{
    if !s.contains(h) {
        assert(s.push(h)[s.len() as int] == h);
        assert(s.push(h).take(s.len() as int) =~= s);
    } else {
        assert(s.take(s.len() as int) =~= s);
    }
}

/// The hazards of `s`, in their order, that also occur in `t`.
pub open spec fn seq_intersection(s: Seq<Hazard>, t: Seq<Hazard>) -> Seq<Hazard> {
    s.filter(|h: Hazard| t.contains(h))
}

/// The hazards of `s` in their order of first occurrence.
pub open spec fn seq_from_slice(s: Seq<Hazard>) -> Seq<Hazard>
    decreases s.len(),
{
    if s.len() == 0 {
        Seq::empty()
    } else {
        seq_insert(seq_from_slice(s.drop_last()), s.last())
    }
}

impl Clone for Hazards {
    fn clone(&self) -> (r: Self)
        ensures
            r@ == self@,
    {
        proof {
            use_type_invariant(self);
        }
        let hazards = self.hazards.clone();
        assert(hazards@ =~= self.hazards@);
        Hazards { hazards }
    }
}

impl Hazards {
    #[verifier::type_invariant]
    spec fn distinct(self) -> bool {
        self.hazards@.no_duplicates()
    }

    /// Creates an empty collection of hazards.
    pub fn new() -> (r: Self)
        ensures
            r@ == Seq::<Hazard>::empty(),
    {
        Hazards { hazards: Vec::new() }
    }

    /// Returns whether the collection holds no hazard.
    pub fn is_empty(&self) -> (r: bool)
        ensures
            r == (self@.len() == 0),
    {
        self.hazards.len() == 0
    }

    /// Returns the number of hazards.
    pub fn len(&self) -> (r: usize)
        ensures
            r == self@.len(),
    {
        self.hazards.len()
    }

    /// Returns the hazard at position `index`.
    pub fn get(&self, index: usize) -> (r: Hazard)
        requires
            index < self@.len(),
        ensures
            r == self@[index as int],
    {
        self.hazards[index]
    }

    /// Returns whether `hazard` is in the collection.
    pub fn contains(&self, hazard: Hazard) -> (r: bool)
        ensures
            r == self@.contains(hazard),
    {
        let mut i: usize = 0;
        while i < self.hazards.len()
            invariant
                0 <= i <= self.hazards@.len(),
                forall|j: int| 0 <= j < i ==> self.hazards@[j] != hazard,
            decreases self.hazards@.len() - i,
        {
            if self.hazards[i] == hazard {
                return true;
            }
            i = i + 1;
        }
        false
    }

    /// Adds `hazard` when it is not already present.
    pub fn add(&mut self, hazard: Hazard)
        ensures
            final(self)@ == seq_insert(old(self)@, hazard),
    {
        proof {
            use_type_invariant(&*self);
        }
        if !self.contains(hazard) {
            let mut hazards = Vec::new();
            std::mem::swap(&mut hazards, &mut self.hazards);
            hazards.push(hazard);
            assert(hazards@.no_duplicates()) by {
                assert forall|i: int, j: int|
                    0 <= i < hazards@.len() && 0 <= j < hazards@.len() && i != j
                    implies hazards@[i] != hazards@[j] by {
                    if i == hazards@.len() - 1 {
                        assert(old(self)@[j] == hazards@[j]);
                    } else if j == hazards@.len() - 1 {
                        assert(old(self)@[i] == hazards@[i]);
                    }
                }
            }
            self.hazards = hazards;
        }
    }


    /// Creates a collection from a slice of hazards, skipping repeated ones.
    pub fn init_with_elements(hazards: &[Hazard]) -> (r: Self)
        ensures
            r@ == seq_from_slice(hazards@),
    {
        let mut r = Hazards::new();
        let mut i: usize = 0;
        while i < hazards.len()
            invariant
                0 <= i <= hazards@.len(),
                r@ == seq_from_slice(hazards@.take(i as int)),
            decreases hazards@.len() - i,
        {
            assert(hazards@.take(i + 1).drop_last() == hazards@.take(i as int));
            r.add(hazards[i]);
            i = i + 1;
        }
        assert(hazards@.take(hazards@.len() as int) == hazards@);
        r
    }

    /// Returns the hazards of this collection, in their order, that also
    /// occur in `other`.
    pub fn intersection(&self, other: &Hazards) -> (r: Hazards)
        ensures
            r@ == seq_intersection(self@, other@),
    {
        proof {
            use_type_invariant(self);
        }
        let ghost pred = |h: Hazard| other@.contains(h);
        let mut res: Vec<Hazard> = Vec::new();
        let mut i: usize = 0;
        while i < self.hazards.len()
            invariant
                0 <= i <= self.hazards@.len(),
                self.hazards@.no_duplicates(),
                pred == (|h: Hazard| other@.contains(h)),
                res@ == self.hazards@.take(i as int).filter(pred),
                res@.no_duplicates(),
                forall|k: int|
                    0 <= k < res@.len() ==> exists|j: int|
                        0 <= j < i && #[trigger] res@[k] == self.hazards@[j],
            decreases self.hazards@.len() - i,
        {
            let h = self.hazards[i];
            let ghost before = res@;
            assert(self.hazards@.take(i + 1).drop_last() == self.hazards@.take(i as int));
            proof {
                reveal(Seq::filter);
            }
            if other.contains(h) {
                assert forall|k: int| 0 <= k < before.len() implies before[k] != h by {
                    let j = choose|j: int| 0 <= j < i && before[k] == self.hazards@[j];
                    if before[k] == h {
                        assert(self.hazards@[j] == self.hazards@[i as int]);
                    }
                }
                res.push(h);
                assert forall|k: int| 0 <= k < res@.len() implies exists|j: int|
                    0 <= j < i + 1 && #[trigger] res@[k] == self.hazards@[j] by {
                    if k < before.len() {
                        assert(res@[k] == before[k]);
                    } else {
                        assert(res@[k] == self.hazards@[i as int]);
                    }
                }
            }
            i = i + 1;
        }
        assert(self.hazards@.take(self.hazards@.len() as int) == self.hazards@);
        Hazards { hazards: res }
    }

    /// Returns the collection with `hazard` added when it is not already
    /// present.
    pub fn insert(self, hazard: Hazard) -> (r: Self)
        ensures
            r@ == seq_insert(self@, hazard),
    {
        let mut hazards = self;
        hazards.add(hazard);
        hazards
    }
}

}
