//! The resource arbiter: a priority-ceiling discipline for the shared
//! peripherals. Every shared resource is keyed by a stable index and
//! carries a fixed ceiling priority — the highest priority of any
//! execution context that ever touches it. Entering a critical section on
//! a resource raises the running context's effective priority to that
//! ceiling, which keeps every possible contender off the core for the
//! duration of the access: mutual exclusion without a blocking lock, and
//! no priority inversion. Nested sections acquire resources in one fixed
//! system-wide order, which rules out deadlock.

use vstd::prelude::*;

verus! {

/// The maximum of two priorities.
pub open spec fn spec_max_prio(a: u8, b: u8) -> u8 {
    if a > b { a } else { b }
}

/// The effective priority after entering the critical sections recorded
/// on `stack`, starting from a context's own `base` priority: the base
/// raised to the ceiling of every resource held.
pub open spec fn spec_prio_after(base: u8, ceilings: Seq<u8>, stack: Seq<(usize, u8)>) -> u8
    decreases stack.len(),
{
    if stack.len() == 0 {
        base
    } else {
        spec_max_prio(
            spec_prio_after(base, ceilings, stack.drop_last()),
            ceilings[stack.last().0 as int],
        )
    }
}

/// The arbiter of one execution context: which resources the context
/// currently holds, at which effective priority it therefore runs, and
/// the nested critical sections still open.
pub struct Arbiter {
    /// The fixed ceiling priority of each resource, by resource index.
    pub ceilings: Vec<u8>,
    /// Whether each resource is currently held, by resource index.
    pub held: Vec<bool>,
    /// The context's own priority when it holds nothing.
    pub base: u8,
    /// The effective priority the context runs at now.
    pub current: u8,
    /// The open critical sections, outermost first: each records the
    /// resource index taken and the effective priority to restore when
    /// the section is left.
    pub stack: Vec<(usize, u8)>,
}

impl Arbiter {
    /// The arbiter's invariant: the effective priority is exactly the
    /// base raised to the ceilings of the held resources; every open
    /// section recorded the priority in force when it was entered; the
    /// open sections take resources in strictly increasing index order;
    /// and the held flags mirror the open sections.
    pub open spec fn wf(self) -> bool {
        &&& self.held.len() == self.ceilings.len()
        &&& self.current == spec_prio_after(self.base, self.ceilings@, self.stack@)
        &&& forall|i: int|
            0 <= i < self.stack.len() ==> (#[trigger] self.stack@[i]).0 < self.ceilings.len()
        &&& forall|i: int|
            0 <= i < self.stack.len() ==> (#[trigger] self.stack@[i]).1 == spec_prio_after(
                self.base,
                self.ceilings@,
                self.stack@.take(i),
            )
        &&& forall|i: int, j: int|
            0 <= i < j < self.stack.len() ==> (#[trigger] self.stack@[i]).0
                < (#[trigger] self.stack@[j]).0
        &&& forall|r: int|
            0 <= r < self.held.len() ==> ((#[trigger] self.held@[r]) <==> exists|i: int|
                0 <= i < self.stack.len() && (#[trigger] self.stack@[i]).0 == r)
    }

    /// An arbiter for a context of the given base priority over resources
    /// with the given ceilings, holding nothing.
    pub fn new(ceilings: Vec<u8>, base: u8) -> (a: Arbiter)
        ensures
            a.wf(),
            a.ceilings == ceilings,
            a.base == base,
            a.current == base,
            a.stack@.len() == 0,
            forall|r: int| 0 <= r < a.held.len() ==> !(#[trigger] a.held@[r]),
    {
        let mut held: Vec<bool> = Vec::new();
        let n = ceilings.len();
        let mut i: usize = 0;
        while i < n
            invariant
                i <= n,
                held.len() == i,
                forall|r: int| 0 <= r < i ==> !(#[trigger] held@[r]),
            decreases n - i,
        {
            held.push(false);
            i = i + 1;
        }
        Arbiter { ceilings, held, base, current: base, stack: Vec::new() }
    }

    /// Whether a resource is currently held.
    pub fn holds(&self, r: usize) -> (b: bool)
        requires
            r < self.held.len(),
        ensures
            b == self.held@[r as int],
    {
        self.held[r]
    }

    /// Enter a critical section on a resource: record the section, mark
    /// the resource held, and raise the effective priority to the
    /// resource's ceiling. The resource must not already be held, its
    /// ceiling must cover this context, and nested sections must take
    /// resources in increasing index order.
    pub fn enter(&mut self, r: usize)
        requires
            old(self).wf(),
            r < old(self).ceilings.len(),
            !old(self).held@[r as int],
            old(self).ceilings@[r as int] >= old(self).base,
            old(self).stack@.len() == 0 || old(self).stack@.last().0 < r,
        ensures
            final(self).wf(),
            final(self).held@ == old(self).held@.update(r as int, true),
            final(self).stack@ == old(self).stack@.push((r, old(self).current)),
            final(self).current == spec_max_prio(old(self).current, old(self).ceilings@[r as int]),
            final(self).ceilings == old(self).ceilings,
            final(self).base == old(self).base,
    {
        let saved = self.current;
        self.stack.push((r, saved));
        let c = self.ceilings[r];
        if c > self.current {
            self.current = c;
        }
        self.held.set(r, true);
        proof {
            let stk = self.stack@;
            assert(stk.drop_last() =~= old(self).stack@);
            assert forall|i: int| 0 <= i < stk.len() implies (#[trigger] stk[i]).1
                == spec_prio_after(self.base, self.ceilings@, stk.take(i)) by {
                assert(stk.take(i) =~= if i < stk.len() - 1 {
                    old(self).stack@.take(i)
                } else {
                    old(self).stack@
                });
            }
            assert forall|q: int| 0 <= q < self.held.len() implies ((#[trigger] self.held@[q])
                <==> exists|i: int| 0 <= i < stk.len() && (#[trigger] stk[i]).0 == q) by {
                if q == r {
                    assert(stk[stk.len() - 1].0 == r);
                } else {
                    if self.held@[q] {
                        let w = choose|i: int|
                            0 <= i < old(self).stack@.len() && (#[trigger] old(
                                self,
                            ).stack@[i]).0 == q;
                        assert(stk[w].0 == q);
                    }
                }
            }
        }
    }

    /// Leave the innermost critical section, which must be on the given
    /// resource: release it and restore the effective priority in force
    /// when the section was entered.
    pub fn exit(&mut self, r: usize)
        requires
            old(self).wf(),
            old(self).stack@.len() > 0,
            old(self).stack@.last().0 == r,
        ensures
            final(self).wf(),
            final(self).held@ == old(self).held@.update(r as int, false),
            final(self).stack@ == old(self).stack@.drop_last(),
            final(self).current == old(self).stack@.last().1,
            final(self).ceilings == old(self).ceilings,
            final(self).base == old(self).base,
    {
        let entry = self.stack.pop().unwrap();
        self.current = entry.1;
        self.held.set(r, false);
        proof {
            let stk = self.stack@;
            assert(stk =~= old(self).stack@.drop_last());
            assert(old(self).stack@.take(old(self).stack@.len() - 1) =~= stk);
            assert forall|i: int| 0 <= i < stk.len() implies (#[trigger] stk[i]).1
                == spec_prio_after(self.base, self.ceilings@, stk.take(i)) by {
                assert(stk.take(i) =~= old(self).stack@.take(i));
            }
            assert forall|q: int| 0 <= q < self.held.len() implies ((#[trigger] self.held@[q])
                <==> exists|i: int| 0 <= i < stk.len() && (#[trigger] stk[i]).0 == q) by {
                if q != r && self.held@[q] {
                    let w = choose|i: int|
                        0 <= i < old(self).stack@.len() && (#[trigger] old(self).stack@[i]).0
                            == q;
                    assert(w < stk.len());
                    assert(stk[w].0 == q);
                }
            }
        }
    }
}

/// The effective priority never falls below the base priority.
proof fn lemma_prio_after_ge_base(base: u8, ceilings: Seq<u8>, stack: Seq<(usize, u8)>)
    ensures
        spec_prio_after(base, ceilings, stack) >= base,
    decreases stack.len(),
{
    if stack.len() > 0 {
        lemma_prio_after_ge_base(base, ceilings, stack.drop_last());
    }
}

/// The effective priority covers the ceiling of every open section.
proof fn lemma_prio_after_covers(base: u8, ceilings: Seq<u8>, stack: Seq<(usize, u8)>, i: int)
    requires
        0 <= i < stack.len(),
    ensures
        spec_prio_after(base, ceilings, stack) >= ceilings[stack[i].0 as int],
    decreases stack.len(),
{
    if i < stack.len() - 1 {
        lemma_prio_after_covers(base, ceilings, stack.drop_last(), i);
    }
}

/// Law: while a resource is held, the holder's effective priority is at
/// least that resource's ceiling — so no other context that could touch
/// the resource can be scheduled while the section is open — and never
/// below the context's own priority.
pub proof fn lemma_ceiling_protection(a: Arbiter, r: int)
    requires
        a.wf(),
        0 <= r < a.held.len(),
        a.held@[r],
    ensures
        a.current >= a.ceilings@[r],
        a.current >= a.base,
{
    let i = choose|i: int| 0 <= i < a.stack@.len() && (#[trigger] a.stack@[i]).0 == r;
    lemma_prio_after_covers(a.base, a.ceilings@, a.stack@, i);
    lemma_prio_after_ge_base(a.base, a.ceilings@, a.stack@);
}

} // verus!
