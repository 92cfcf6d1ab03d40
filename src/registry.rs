//! The set of message identifiers whose pipeline is running.
//!
//! Callers share one registry behind a lock; each pipeline claims its
//! identifier with `try_begin` and gives it back with `end`.
use vstd::prelude::*;

verus! {

/// The identifiers currently claimed, without repeats.
pub struct ProcessingRegistry {
    ids: Vec<u64>,
}

impl View for ProcessingRegistry {
    type V = Set<u64>;

    closed spec fn view(&self) -> Set<u64> {
        self.ids@.to_set()
    }
}

/// Whether a claim of `id` succeeds when `s` is claimed.
pub open spec fn begin_succeeds(s: Set<u64>, id: u64) -> bool {
    !s.contains(id)
}

/// What `n` claims of `id` in a row, with no release between them, return.
pub open spec fn begin_results(s: Set<u64>, id: u64, n: nat) -> Seq<bool>
    decreases n,
{
    if n == 0 {
        Seq::empty()
    } else {
        seq![begin_succeeds(s, id)] + begin_results(s.insert(id), id, (n - 1) as nat)
    }
}

/// How many entries of `bs` are `true`.
pub open spec fn count_true(bs: Seq<bool>) -> nat
    decreases bs.len(),
{
    if bs.len() == 0 {
        0
    } else {
        (if bs[0] { 1nat } else { 0nat }) + count_true(bs.drop_first())
    }
}

/// Claims of an identifier that is already claimed all fail.
proof fn lemma_claimed_never_begins(s: Set<u64>, id: u64, n: nat)
    requires
        s.contains(id),
    ensures
        count_true(begin_results(s, id, n)) == 0,
    decreases n,
{
    if n > 0 {
        assert(s.insert(id) =~= s);
        lemma_claimed_never_begins(s, id, (n - 1) as nat);
        assert(begin_results(s, id, n).drop_first() =~= begin_results(s, id, (n - 1) as nat));
    }
}

/// Of any number of claims of a free identifier with no release between them,
/// exactly one succeeds: the first.
pub proof fn lemma_single_winner(s: Set<u64>, id: u64, n: nat)
    requires
        !s.contains(id),
        n >= 1,
    ensures
        count_true(begin_results(s, id, n)) == 1,
        begin_results(s, id, n)[0],
{
    let rest = begin_results(s.insert(id), id, (n - 1) as nat);
    lemma_claimed_never_begins(s.insert(id), id, (n - 1) as nat);
    assert(begin_results(s, id, n).drop_first() =~= rest);
}

impl ProcessingRegistry {
    /// The identifiers are stored once each.
    pub closed spec fn wf(&self) -> bool {
        self.ids@.no_duplicates()
    }

    /// An empty registry.
    pub fn new() -> (r: ProcessingRegistry)
        ensures
            r.wf(),
            r@ == Set::<u64>::empty(),
    {
        let r = ProcessingRegistry { ids: Vec::new() };
        assert(r@ =~= Set::<u64>::empty());
        r
    }

    /// Where `id` is stored, if it is.
    fn position(&self, id: u64) -> (r: Option<usize>)
        ensures
            r matches Some(k) ==> k < self.ids@.len() && self.ids@[k as int] == id,
            r is None ==> !self@.contains(id),
    {
        let mut k: usize = 0;
        while k < self.ids.len()
            invariant
                k <= self.ids@.len(),
                forall|j: int| 0 <= j < k ==> self.ids@[j] != id,
            decreases self.ids.len() - k,
        {
            if self.ids[k] == id {
                return Some(k);
            }
            k += 1;
        }
        None
    }

    /// Whether `id` is claimed.
    pub fn contains(&self, id: u64) -> (r: bool)
        ensures
            r == self@.contains(id),
    {
        self.position(id).is_some()
    }

    /// Claims `id`: when it is free, records it and returns `true`; when it
    /// is already claimed, changes nothing and returns `false`.
    pub fn try_begin(&mut self, id: u64) -> (r: bool)
        requires
            old(self).wf(),
        ensures
            final(self).wf(),
            r == begin_succeeds(old(self)@, id),
            final(self)@ == old(self)@.insert(id),
    {
        if self.contains(id) {
            assert(self@.insert(id) =~= self@);
            false
        } else {
            let ghost before = self.ids@;
            self.ids.push(id);
            assert forall|x: u64| self@.contains(x) <==> old(self)@.insert(id).contains(x) by {
                if x == id {
                    assert(self.ids@[before.len() as int] == id);
                }
                if old(self)@.contains(x) {
                    let j = choose|j: int| 0 <= j < before.len() && before[j] == x;
                    assert(self.ids@[j] == x);
                }
                if self@.contains(x) && x != id {
                    let j = choose|j: int| 0 <= j < self.ids@.len() && self.ids@[j] == x;
                    assert(before[j] == x);
                }
            }
            assert(self@ =~= old(self)@.insert(id));
            true
        }
    }

    /// Releases `id`; releasing one that is not claimed changes nothing.
    pub fn end(&mut self, id: u64)
        requires
            old(self).wf(),
        ensures
            final(self).wf(),
            final(self)@ == old(self)@.remove(id),
    {
        match self.position(id) {
            Some(k) => {
                let ghost before = self.ids@;
                self.ids.remove(k);
                assert(self.ids@ =~= before.remove(k as int));
                assert forall|j: int| 0 <= j < self.ids@.len() implies self.ids@[j] != id by {
                    if j < k {
                        assert(before[j] == self.ids@[j]);
                    } else {
                        assert(before[j + 1] == self.ids@[j]);
                    }
                }
                assert forall|x: u64| self@.contains(x) <==> old(self)@.remove(id).contains(x) by {
                    if x != id && old(self)@.contains(x) {
                        let j = choose|j: int| 0 <= j < before.len() && before[j] == x;
                        if j < k {
                            assert(self.ids@[j] == x);
                        } else {
                            assert(self.ids@[j - 1] == x);
                        }
                    }
                    if self@.contains(x) {
                        let j = choose|j: int| 0 <= j < self.ids@.len() && self.ids@[j] == x;
                        if j < k {
                            assert(before[j] == x);
                        } else {
                            assert(before[j + 1] == x);
                        }
                    }
                }
                assert(self@ =~= old(self)@.remove(id));
            },
            None => {
                assert(self@ =~= old(self)@.remove(id));
            },
        }
    }
}

} // verus!
