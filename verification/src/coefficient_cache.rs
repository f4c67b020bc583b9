//! Reuse of one backend execution for the three Laurent coefficients of a point.
//!
//! A master exposes scalar Laurent tags while its backend computes all three
//! coefficients together. Four groups are kept first-in first-out, for
//! tag-major SIMD callbacks: all lanes request one tag before the next. Each
//! tag is consumed once per group, including when several lanes have
//! identical arguments, so repeated same-tag calls are never memoized away.
//! Arguments are compared by their IEEE bit patterns (real and imaginary
//! part of each complex argument), which keeps signed branch-axis zeros apart.
use vstd::prelude::*;

verus! {

/// Number of argument words a group stores: eleven complex arguments.
pub const KEY_WORDS: usize = 22;

/// Number of groups.
pub const GROUPS: usize = 4;

/// One buffered point: its argument words, its three coefficients, and the
/// tags already handed out.
#[derive(Clone, Copy)]
pub struct CoefficientGroup<V> {
    pub key: [u64; 22],
    pub values: [V; 3],
    pub used: [bool; 3],
}

impl<V: Copy> CoefficientGroup<V> {
    pub open spec fn spec_any_used(self) -> bool {
        self.used[0] || self.used[1] || self.used[2]
    }

    /// The stored words agree with `arguments` on every argument position.
    pub open spec fn spec_matches(self, arguments: Seq<u64>) -> bool {
        forall|i: int| 0 <= i < arguments.len() ==> self.key[i] == arguments[i]
    }

    /// The group holds `arguments` and has not yet handed out `tag`.
    pub open spec fn spec_reusable(self, arguments: Seq<u64>, tag: int) -> bool {
        &&& self.spec_any_used()
        &&& !self.used[tag]
        &&& self.spec_matches(arguments)
    }

    fn new(zero: V) -> (r: Self)
        ensures
            !r.spec_any_used(),
            forall|i: int| 0 <= i < 22 ==> r.key[i] == 0,
            forall|i: int| 0 <= i < 3 ==> r.values[i] == zero,
    {
        CoefficientGroup { key: [0u64; 22], values: [zero, zero, zero], used: [false, false, false] }
    }

    fn reusable(&self, arguments: &[u64], tag: usize) -> (r: bool)
        requires
            arguments@.len() <= KEY_WORDS,
            tag < 3,
        ensures
            r == self.spec_reusable(arguments@, tag as int),
    {
        if !(self.used[0] || self.used[1] || self.used[2]) || self.used[tag] {
            return false;
        }
        let mut i: usize = 0;
        while i < arguments.len()
            invariant
                i <= arguments@.len() <= 22,
                forall|k: int| 0 <= k < i ==> self.key[k] == arguments@[k],
            decreases arguments.len() - i,
        {
            if self.key[i] != arguments[i] {
                return false;
            }
            i = i + 1;
        }
        true
    }

    /// The bit mask of the handed-out tags (bit `t` for tag `t`).
    pub fn used_tags(&self) -> (r: u8)
        ensures
            r == (if self.used[0] { 1u8 } else { 0u8 }) + (if self.used[1] { 2u8 } else { 0u8 }) + (
            if self.used[2] { 4u8 } else { 0u8 }),
    {
        let a: u8 = if self.used[0] { 1 } else { 0 };
        let b: u8 = if self.used[1] { 2 } else { 0 };
        let c: u8 = if self.used[2] { 4 } else { 0 };
        a + b + c
    }
}

/// The stored words after `arguments` overwrote their prefix.
pub open spec fn spec_stored_key(old_key: [u64; 22], arguments: Seq<u64>) -> Seq<u64> {
    Seq::new(22, |i: int| if i < arguments.len() { arguments[i] } else { old_key[i] })
}

/// The four-group buffer of one family's backend.
pub struct CoefficientGroups<V> {
    pub groups: [CoefficientGroup<V>; 4],
    pub oldest: usize,
}

impl<V: Copy> CoefficientGroups<V> {
    pub open spec fn wf(self) -> bool {
        self.oldest < GROUPS
    }

    /// Position of the `offset`-th group in age order, oldest first.
    pub open spec fn spec_slot(self, offset: int) -> int {
        (self.oldest + offset) % 4
    }

    /// The first group in age order, from `offset` on, that can serve `tag`.
    pub open spec fn spec_find_from(self, arguments: Seq<u64>, tag: int, offset: int) -> Option<int>
        decreases 4 - offset,
    {
        if offset >= 4 || offset < 0 {
            None
        } else if self.groups[self.spec_slot(offset)].spec_reusable(arguments, tag) {
            Some(self.spec_slot(offset))
        } else {
            self.spec_find_from(arguments, tag, offset + 1)
        }
    }

    /// The group that serves `tag` of `arguments` without a new execution.
    pub open spec fn spec_find(self, arguments: Seq<u64>, tag: int) -> Option<int> {
        self.spec_find_from(arguments, tag, 0)
    }

    /// `after` is this buffer once group `i` handed out `tag`.
    pub open spec fn spec_served(self, after: Self, i: int, tag: int) -> bool {
        &&& after.oldest == self.oldest
        &&& after.groups[i].key == self.groups[i].key
        &&& after.groups[i].values == self.groups[i].values
        &&& after.groups[i].used@ == self.groups[i].used@.update(tag, true)
        &&& forall|j: int| 0 <= j < 4 && j != i ==> #[trigger] after.groups[j] == self.groups[j]
    }

    /// `after` is this buffer once its oldest group was refilled by a new
    /// execution for `arguments` that handed out `tag`, the next group
    /// becoming the oldest.
    pub open spec fn spec_refilled(self, after: Self, arguments: Seq<u64>, tag: int) -> bool {
        let i = self.oldest as int;
        &&& after.oldest == (self.oldest + 1) % 4
        &&& after.groups[i].key@ == spec_stored_key(self.groups[i].key, arguments)
        &&& forall|t: int| 0 <= t < 3 ==> after.groups[i].used[t] == (t == tag)
        &&& forall|j: int| 0 <= j < 4 && j != i ==> #[trigger] after.groups[j] == self.groups[j]
    }

    /// An empty buffer whose unfilled coefficients are `zero`.
    pub fn new(zero: V) -> (r: Self)
        ensures
            r.wf(),
            r.oldest == 0,
            forall|i: int| 0 <= i < 4 ==> !(#[trigger] r.groups[i]).spec_any_used(),
    {
        let g = CoefficientGroup::new(zero);
        CoefficientGroups { groups: [g, g, g, g], oldest: 0 }
    }

    /// Forgets every buffered point.
    pub fn invalidate(&mut self)
        ensures
            final(self).wf(),
            final(self).oldest == 0,
            forall|i: int|
                0 <= i < 4 ==> {
                    &&& !(#[trigger] final(self).groups[i]).spec_any_used()
                    &&& final(self).groups[i].key == old(self).groups[i].key
                    &&& final(self).groups[i].values == old(self).groups[i].values
                },
    {
        let mut i: usize = 0;
        while i < 4
            invariant
                i <= 4,
                forall|k: int|
                    0 <= k < 4 ==> {
                        &&& (#[trigger] self.groups[k]).key == old(self).groups[k].key
                        &&& self.groups[k].values == old(self).groups[k].values
                        &&& (k < i ==> !self.groups[k].spec_any_used())
                    },
            decreases 4 - i,
        {
            let mut g = self.groups[i];
            g.used = [false, false, false];
            self.groups[i] = g;
            i = i + 1;
        }
        self.oldest = 0;
    }

    fn find(&self, arguments: &[u64], tag: usize) -> (r: Option<usize>)
        requires
            self.wf(),
            arguments@.len() <= KEY_WORDS,
            tag < 3,
        ensures
            match (r, self.spec_find(arguments@, tag as int)) {
                (Some(i), Some(j)) => i == j,
                (None, None) => true,
                _ => false,
            },
            r matches Some(i) ==> i < 4,
    {
        let mut offset: usize = 0;
        while offset < 4
            invariant
                offset <= 4,
                self.wf(),
                arguments@.len() <= KEY_WORDS,
                tag < 3,
                self.spec_find(arguments@, tag as int) == self.spec_find_from(
                    arguments@,
                    tag as int,
                    offset as int,
                ),
            decreases 4 - offset,
        {
            let index = (self.oldest + offset) % 4;
            if self.groups[index].reusable(arguments, tag) {
                return Some(index);
            }
            offset = offset + 1;
        }
        None
    }

    /// The coefficient `tag` of the point `arguments`. A buffered group that
    /// holds the point and has not yet handed out `tag` serves it (the oldest
    /// such group); otherwise the oldest group is invalidated, `evaluate`
    /// runs once, and its three coefficients replace that group.
    ///
    /// A request that a buffered group serves never runs `evaluate`: the
    /// call then asks nothing of it, not even that it can be called.
    pub fn evaluate<F: FnOnce() -> [V; 3]>(&mut self, arguments: &[u64], tag: usize, evaluate: F) -> (r: V)
        requires
            old(self).wf(),
            arguments@.len() <= KEY_WORDS,
            tag < 3,
            old(self).spec_find(arguments@, tag as int) is None ==> evaluate.requires(()),
        ensures
            final(self).wf(),
            match old(self).spec_find(arguments@, tag as int) {
                Some(i) => {
                    &&& r == old(self).groups[i].values[tag as int]
                    &&& old(self).spec_served(*final(self), i, tag as int)
                },
                None => {
                    &&& evaluate.ensures((), final(self).groups[old(self).oldest as int].values)
                    &&& r == final(self).groups[old(self).oldest as int].values[tag as int]
                    &&& old(self).spec_refilled(*final(self), arguments@, tag as int)
                },
            },
    {
        match self.find(arguments, tag) {
            Some(index) => {
                let mut g = self.groups[index];
                g.used[tag] = true;
                let value = g.values[tag];
                self.groups[index] = g;
                value
            },
            None => {
                let index = self.oldest;
                self.oldest = (self.oldest + 1) % 4;
                let mut g = self.groups[index];
                // The evicted entry is invalid before the backend runs.
                g.used = [false, false, false];
                self.groups[index] = g;
                let values = evaluate();
                let mut k: usize = 0;
                while k < arguments.len()
                    invariant
                        k <= arguments@.len() <= 22,
                        forall|i: int| 0 <= i < k ==> g.key[i] == arguments@[i],
                        forall|i: int| k <= i < 22 ==> g.key[i] == old(self).groups[index as int].key[i],
                    decreases arguments.len() - k,
                {
                    g.key[k] = arguments[k];
                    k = k + 1;
                }
                g.values = values;
                let mut used = [false, false, false];
                used[tag] = true;
                g.used = used;
                self.groups[index] = g;
                proof {
                    assert(g.key@ == spec_stored_key(old(self).groups[index as int].key, arguments@));
                }
                values[tag]
            },
        }
    }

    /// The tag mask of the group at `index`.
    pub fn used_tags(&self, index: usize) -> (r: u8)
        requires
            index < 4,
        ensures
            r == (if self.groups[index as int].used[0] { 1u8 } else { 0u8 }) + (if self.groups[index as int].used[1] { 2u8 } else { 0u8 }) + (
            if self.groups[index as int].used[2] { 4u8 } else { 0u8 }),
    {
        self.groups[index].used_tags()
    }
}

impl<V: Copy> CoefficientGroups<V> {
    /// A group that can serve the request makes the search succeed, with a
    /// group that can serve it.
    proof fn lemma_find_from_some(self, arguments: Seq<u64>, tag: int, offset: int, k: int)
        requires
            self.wf(),
            0 <= offset <= k < 4,
            self.groups[self.spec_slot(k)].spec_reusable(arguments, tag),
        ensures
            self.spec_find_from(arguments, tag, offset) matches Some(i) && 0 <= i < 4
                && self.groups[i].spec_reusable(arguments, tag),
        decreases k - offset,
    {
        if !self.groups[self.spec_slot(offset)].spec_reusable(arguments, tag) {
            self.lemma_find_from_some(arguments, tag, offset + 1, k);
        }
    }

    /// The search succeeds only with a group that can serve the request.
    proof fn lemma_find_from_sound(self, arguments: Seq<u64>, tag: int, offset: int)
        requires
            self.wf(),
        ensures
            self.spec_find_from(arguments, tag, offset) matches Some(i) ==> 0 <= i < 4
                && self.groups[i].spec_reusable(arguments, tag),
        decreases 4 - offset,
    {
        if 0 <= offset < 4 && !self.groups[self.spec_slot(offset)].spec_reusable(arguments, tag) {
            self.lemma_find_from_sound(arguments, tag, offset + 1);
        }
    }

    /// Where no group can serve a request, the search fails.
    proof fn lemma_find_from_none(self, arguments: Seq<u64>, tag: int, offset: int)
        requires
            self.wf(),
            forall|j: int| 0 <= j < 4 ==> !(#[trigger] self.groups[j]).spec_reusable(arguments, tag),
        ensures
            self.spec_find_from(arguments, tag, offset) is None,
        decreases 4 - offset,
    {
        if 0 <= offset < 4 {
            assert(0 <= self.spec_slot(offset) < 4);
            self.lemma_find_from_none(arguments, tag, offset + 1);
        }
    }
}

/// After a request of `tag` at a point that no group could serve, and so
/// ran the backend once, every other tag of the same point is served from
/// the buffer without running the backend again.
pub proof fn lemma_refill_serves_other_tags<V: Copy>(
    before: CoefficientGroups<V>,
    after: CoefficientGroups<V>,
    arguments: Seq<u64>,
    tag: int,
    other: int,
)
    requires
        before.wf(),
        arguments.len() <= KEY_WORDS,
        0 <= tag < 3,
        0 <= other < 3,
        other != tag,
        before.spec_refilled(after, arguments, tag),
    ensures
        after.spec_find(arguments, other) is Some,
{
    let i = before.oldest as int;
    assert(after.wf());
    assert(after.groups[i].spec_any_used()) by {
        assert(after.groups[i].used[tag]);
    }
    assert(after.groups[i].spec_matches(arguments)) by {
        assert forall|k: int| 0 <= k < arguments.len() implies after.groups[i].key[k] == arguments[k] by {
            assert(after.groups[i].key@[k] == spec_stored_key(before.groups[i].key, arguments)[k]);
        }
    }
    assert(after.spec_slot(3) == i);
    after.lemma_find_from_some(arguments, other, 0, 3);
}

/// Serving one tag from the buffer keeps every other tag of the same point
/// that the buffer could serve servable.
pub proof fn lemma_serving_keeps_other_tags<V: Copy>(
    before: CoefficientGroups<V>,
    after: CoefficientGroups<V>,
    arguments: Seq<u64>,
    tag: int,
    other: int,
)
    requires
        before.wf(),
        0 <= tag < 3,
        0 <= other < 3,
        other != tag,
        before.spec_find(arguments, tag) is Some,
        before.spec_served(after, before.spec_find(arguments, tag)->0, tag),
        before.spec_find(arguments, other) is Some,
    ensures
        after.spec_find(arguments, other) is Some,
{
    let i = before.spec_find(arguments, tag)->0;
    let j = before.spec_find(arguments, other)->0;
    before.lemma_find_from_sound(arguments, tag, 0);
    before.lemma_find_from_sound(arguments, other, 0);
    assert(after.wf());
    assert(after.groups[j].spec_reusable(arguments, other)) by {
        if j == i {
            assert(after.groups[j].used[tag]);
            assert(after.groups[j].used[other] == before.groups[j].used[other]);
        }
    }
    let k = (j - after.oldest + 4) % 4;
    assert(after.spec_slot(k) == j);
    after.lemma_find_from_some(arguments, other, 0, k);
}

/// A group hands out each tag once: once it served `tag`, it cannot serve
/// `tag` again.
pub proof fn lemma_served_tag_is_consumed<V: Copy>(
    before: CoefficientGroups<V>,
    after: CoefficientGroups<V>,
    i: int,
    arguments: Seq<u64>,
    tag: int,
)
    requires
        0 <= i < 4,
        0 <= tag < 3,
        before.spec_served(after, i, tag),
    ensures
        !after.groups[i].spec_reusable(arguments, tag),
{
    assert(after.groups[i].used@[tag]);
}

/// After [`CoefficientGroups::invalidate`] no request is served from the
/// buffer: the next request of every tag runs the backend.
pub proof fn lemma_invalidated_serves_nothing<V: Copy>(
    groups: CoefficientGroups<V>,
    arguments: Seq<u64>,
    tag: int,
)
    requires
        groups.wf(),
        forall|i: int| 0 <= i < 4 ==> !(#[trigger] groups.groups[i]).spec_any_used(),
    ensures
        groups.spec_find(arguments, tag) is None,
{
    groups.lemma_find_from_none(arguments, tag, 0);
}

/// A family's prepared evaluator and the coefficient buffer in front of it.
pub struct PreparedBackend<E, V> {
    pub evaluator: E,
    pub group: CoefficientGroups<V>,
}

/// Replaces the cached evaluator of a family by `rebuilt`, and forgets every
/// buffered point, whose coefficients the replaced evaluator computed. Where
/// the rebuild failed, its error is returned and the backend is unchanged.
pub fn rebuild_cached_evaluator<E, V: Copy>(backend: &mut PreparedBackend<E, V>, rebuilt: Result<E, String>) -> (r: Result<(), String>)
    requires
        old(backend).group.wf(),
    ensures
        match rebuilt {
            Ok(e) => {
                &&& r is Ok
                &&& final(backend).evaluator == e
                &&& final(backend).group.wf()
                &&& final(backend).group.oldest == 0
                &&& forall|i: int| 0 <= i < 4 ==> !(#[trigger] final(backend).group.groups[i]).spec_any_used()
            },
            Err(m) => r == Err::<(), String>(m) && *final(backend) == *old(backend),
        },
{
    match rebuilt {
        Ok(evaluator) => {
            backend.evaluator = evaluator;
            backend.group.invalidate();
            Ok(())
        },
        Err(message) => Err(message),
    }
}

} // verus!
