//! The species-to-visual-resource registry.
//!
//! Visual resources for a species are created lazily on the first
//! reproduction into it; a periodic sweep drops every cached entry whose
//! species no longer appears in the Controller Population's live species
//! table, so the cache cannot grow without bound as species die out.

use vstd::prelude::*;

verus! {

/// The species ids that currently own a cached visual resource.
pub struct SpeciesRegistry {
    pub entries: Vec<usize>,
}

/// The entries of `s` whose species id appears in `live`, in order.
pub open spec fn retained(s: Seq<usize>, live: Seq<usize>) -> Seq<usize>
    decreases s.len(),
{
    if s.len() == 0 {
        Seq::empty()
    } else {
        let prefix = retained(s.drop_last(), live);
        if live.contains(s.last()) {
            prefix.push(s.last())
        } else {
            prefix
        }
    }
}

impl SpeciesRegistry {
    /// No species id is cached twice.
    pub open spec fn wf(self) -> bool {
        forall|i: int, j: int|
            0 <= i < j < self.entries@.len() ==> self.entries@[i] != self.entries@[j]
    }

    /// An empty registry.
    pub fn new() -> (r: SpeciesRegistry)
        ensures
            r.wf(),
            r.entries@.len() == 0,
    {
        SpeciesRegistry { entries: Vec::new() }
    }

    /// Whether a species already owns a resource entry.
    pub fn has(&self, species: usize) -> (r: bool)
        ensures
            r == self.entries@.contains(species),
    {
        let mut i: usize = 0;
        while i < self.entries.len()
            invariant
                i <= self.entries@.len(),
                forall|j: int| 0 <= j < i as int ==> self.entries@[j] != species,
            decreases self.entries@.len() - i,
        {
            if self.entries[i] == species {
                proof {
                    assert(self.entries@[i as int] == species);
                }
                return true;
            }
            i = i + 1;
        }
        false
    }

    /// Cache a species on its first use; an already-cached species is
    /// left alone. Returns whether a new resource must be created.
    pub fn ensure_present(&mut self, species: usize) -> (added: bool)
        requires
            old(self).wf(),
        ensures
            final(self).wf(),
            added == !old(self).entries@.contains(species),
            final(self).entries@ == if added {
                old(self).entries@.push(species)
            } else {
                old(self).entries@
            },
            final(self).entries@.contains(species),
    {
        if self.has(species) {
            false
        } else {
            self.entries.push(species);
            proof {
                assert(self.entries@.last() == species);
            }
            true
        }
    }

    /// Sweep the cache: drop every entry whose species is not in the live
    /// species table any more, and return the dropped ids so their
    /// resources can be released.
    pub fn sweep(&mut self, live: &Vec<usize>) -> (dropped: Vec<usize>)
        requires
            old(self).wf(),
        ensures
            final(self).wf(),
            final(self).entries@ == retained(old(self).entries@, live@),
            forall|i: int|
                0 <= i < old(self).entries@.len() && !live@.contains(old(self).entries@[i])
                    ==> dropped@.contains(#[trigger] old(self).entries@[i]),
            forall|i: int| 0 <= i < dropped@.len() ==> !live@.contains(#[trigger] dropped@[i]),
    {
        let ghost entries0 = self.entries@;
        let mut kept: Vec<usize> = Vec::new();
        let mut dropped: Vec<usize> = Vec::new();
        let mut i: usize = 0;
        while i < self.entries.len()
            invariant
                i <= self.entries@.len(),
                self.entries@ == entries0,
                old(self).wf(),
                self.entries@ == old(self).entries@,
                kept@ == retained(entries0.subrange(0, i as int), live@),
                forall|j: int|
                    0 <= j < i as int && !live@.contains(entries0[j]) ==> dropped@.contains(
                        #[trigger] entries0[j],
                    ),
                forall|j: int| 0 <= j < dropped@.len() ==> !live@.contains(#[trigger] dropped@[j]),
                forall|a: int, b: int| 0 <= a < b < kept@.len() ==> kept@[a] != kept@[b],
                forall|j: int|
                    0 <= j < kept@.len() ==> exists|k: int|
                        0 <= k < i as int && entries0[k] == #[trigger] kept@[j],
                forall|j: int, k: int|
                    0 <= j < kept@.len() && i as int <= k < entries0.len() ==> kept@[j]
                        != entries0[k],
            decreases self.entries@.len() - i,
        {
            let s = self.entries[i];
            let ghost dropped0 = dropped@;
            let ghost kept0 = kept@;
            let mut found: bool = false;
            let mut k: usize = 0;
            while k < live.len()
                invariant
                    k <= live@.len(),
                    found ==> live@.contains(s),
                    !found ==> forall|m: int| 0 <= m < k as int ==> live@[m] != s,
                decreases live@.len() - k,
            {
                if live[k] == s {
                    proof {
                        assert(live@[k as int] == s);
                    }
                    found = true;
                }
                k = k + 1;
            }
            proof {
                assert(entries0.subrange(0, i as int + 1).drop_last() == entries0.subrange(
                    0,
                    i as int,
                ));
                assert(entries0.subrange(0, i as int + 1).last() == entries0[i as int]);
            }
            if found {
                kept.push(s);
            } else {
                dropped.push(s);
            }
            proof {
                assert forall|x: usize| dropped0.contains(x) implies dropped@.contains(x) by {
                    let m = choose|m: int| 0 <= m < dropped0.len() && dropped0[m] == x;
                    assert(dropped@[m] == x);
                }
                if !found {
                    assert(dropped@[dropped@.len() - 1] == s);
                }
            }
            i = i + 1;
        }
        proof {
            assert(entries0.subrange(0, entries0.len() as int) == entries0);
        }
        self.entries = kept;
        dropped
    }
}

/// What the sweep keeps is exactly the still-live part of the cache: an
/// id survives if and only if it was cached and its species is live.
pub proof fn lemma_sweep_exact(s: Seq<usize>, live: Seq<usize>, x: usize)
    ensures
        retained(s, live).contains(x) <==> s.contains(x) && live.contains(x),
    decreases s.len(),
{
    if s.len() == 0 {
        assert(!s.contains(x));
    } else {
        lemma_sweep_exact(s.drop_last(), live, x);
        let prefix = retained(s.drop_last(), live);
        let whole = retained(s, live);
        if live.contains(s.last()) {
            assert(whole == prefix.push(s.last()));
            if whole.contains(x) {
                let j = choose|j: int| 0 <= j < whole.len() && whole[j] == x;
                if j < prefix.len() {
                    assert(prefix[j] == x);
                    assert(s.drop_last().contains(x));
                    assert(s[choose|k: int|
                        0 <= k < s.drop_last().len() && s.drop_last()[k] == x] == x);
                } else {
                    assert(x == s.last());
                    assert(s[s.len() - 1] == x);
                }
            }
            if s.contains(x) && live.contains(x) {
                let j = choose|j: int| 0 <= j < s.len() && s[j] == x;
                if j < s.len() - 1 {
                    assert(s.drop_last()[j] == x);
                    assert(prefix.contains(x));
                    let m = choose|m: int| 0 <= m < prefix.len() && prefix[m] == x;
                    assert(whole[m] == x);
                } else {
                    assert(whole[whole.len() - 1] == x);
                }
            }
        } else {
            assert(whole == prefix);
            if s.contains(x) && live.contains(x) {
                let j = choose|j: int| 0 <= j < s.len() && s[j] == x;
                assert(j < s.len() - 1 || x == s.last());
                if j < s.len() - 1 {
                    assert(s.drop_last()[j] == x);
                }
            }
            if whole.contains(x) {
                assert(s.drop_last().contains(x));
                assert(s[choose|k: int|
                    0 <= k < s.drop_last().len() && s.drop_last()[k] == x] == x);
            }
        }
    }
}

} // verus!
