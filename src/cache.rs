use vstd::prelude::*;

verus! {

/// The value a cache holds after a run of producer cycles, starting from `start`.
///
/// A cycle that produced a value (`Some`) replaces what was held; a failed cycle
/// (`None`) leaves it as it was.
pub open spec fn after_cycles<T>(start: Option<T>, cycles: Seq<Option<T>>) -> Option<T>
    decreases cycles.len(),
{
    if cycles.len() == 0 {
        start
    } else {
        match cycles.last() {
            Some(v) => Some(v),
            None => after_cycles(start, cycles.drop_last()),
        }
    }
}

/// Holder of the most recently published value of one producer.
///
/// It is empty until the first successful cycle and is replaced wholesale by each
/// later one; a failed cycle never touches it.
pub struct SnapshotCache<T> {
    value: Option<T>,
}

impl<T> View for SnapshotCache<T> {
    type V = Option<T>;

    closed spec fn view(&self) -> Option<T> {
        self.value
    }
}

impl<T: Copy> SnapshotCache<T> {
    /// An empty cache: no cycle has succeeded yet.
    pub fn new() -> (r: Self)
        ensures
            r@ == None::<T>,
    {
        SnapshotCache { value: None }
    }

    /// A copy of the latest published value, or `None` when nothing was published yet.
    pub fn get(&self) -> (r: Option<T>)
        ensures
            r == self@,
    {
        self.value
    }

    /// Replaces the held value by `v`.
    pub fn publish(&mut self, v: T)
        ensures
            final(self)@ == Some(v),
    {
        self.value = Some(v);
    }

    /// Records the outcome of one producer cycle: a produced value is published,
    /// a failed cycle leaves the cache unchanged.
    pub fn record(&mut self, outcome: Option<T>)
        ensures
            final(self)@ == after_cycles(old(self)@, seq![outcome]),
    {
        let ghost prev = self@;
        match outcome {
            Some(v) => self.publish(v),
            None => {},
        }
        assert(seq![outcome].drop_last() =~= Seq::<Option<T>>::empty());
        assert(seq![outcome].last() == outcome);
        assert(after_cycles(prev, Seq::<Option<T>>::empty()) == prev);
    }
}

/// After a successful cycle that produced `v`, any number of failed cycles leave
/// the cache holding `v`, unchanged.
pub proof fn lemma_stale_after_failures<T>(start: Option<T>, v: T, failures: nat)
    ensures
        after_cycles(start, seq![Some(v)] + Seq::new(failures, |i: int| None::<T>)) == Some(v),
    decreases failures,
{
    let fs = Seq::new(failures, |i: int| None::<T>);
    if failures == 0 {
        assert(seq![Some(v)] + fs =~= seq![Some(v)]);
        assert(seq![Some(v)].drop_last() =~= Seq::<Option<T>>::empty());
    } else {
        let shorter = Seq::new((failures - 1) as nat, |i: int| None::<T>);
        assert((seq![Some(v)] + fs).drop_last() =~= seq![Some(v)] + shorter);
        lemma_stale_after_failures(start, v, (failures - 1) as nat);
    }
}

/// What a cache that started empty holds is either nothing, when no cycle
/// succeeded, or exactly the value of one completed cycle: the last successful one.
pub proof fn lemma_holds_one_completed_value<T>(cycles: Seq<Option<T>>)
    ensures
        after_cycles(None::<T>, cycles) is None <==> (forall|i: int|
            0 <= i < cycles.len() ==> cycles[i] is None),
        after_cycles(None::<T>, cycles) is Some ==> exists|j: int|
            0 <= j < cycles.len() && cycles[j] == after_cycles(None::<T>, cycles) && (forall|
                i: int,
            |
                j < i < cycles.len() ==> cycles[i] is None),
    decreases cycles.len(),
{
    if cycles.len() > 0 {
        let rest = cycles.drop_last();
        lemma_holds_one_completed_value(rest);
        let n = cycles.len() - 1;
        if cycles.last() is Some {
            assert(cycles[n] == after_cycles(None::<T>, cycles));
        } else {
            assert forall|i: int| 0 <= i < rest.len() implies rest[i] == cycles[i] by {}
            if after_cycles(None::<T>, cycles) is Some {
                let j = choose|j: int|
                    0 <= j < rest.len() && rest[j] == after_cycles(None::<T>, rest) && (forall|
                        i: int,
                    |
                        j < i < rest.len() ==> rest[i] is None);
                assert(cycles[j] == after_cycles(None::<T>, cycles));
                assert forall|i: int| j < i < cycles.len() implies cycles[i] is None by {
                    if i < n {
                        assert(rest[i] is None);
                    }
                }
            }
        }
    }
}

} // verus!
