//! Weighted round-robin scheduling.
//!
//! The scheduler keeps one FIFO queue per queue kind. Each kind has a weight: the number of items
//! returned from its queue before the next queue is due. Queues are serviced in the order the
//! kinds were handed to the constructor; an empty queue is skipped.
//!
//! The scheduler itself is a plain data structure. Waiting for an item to arrive, and locking the
//! scheduler between producers and the consumer, is left to the caller.

use std::collections::VecDeque;
use vstd::prelude::*;

verus! {

/// Sum of the lengths of a sequence of queues.
pub open spec fn sum_lens<I>(qs: Seq<Seq<I>>) -> nat
    decreases qs.len(),
{
    if qs.len() == 0 {
        0
    } else {
        sum_lens(qs.drop_last()) + qs.last().len()
    }
}

/// Sum of `ws[lo..hi]`.
pub open spec fn range_sum(ws: Seq<nat>, lo: int, hi: int) -> nat
    decreases hi - lo,
{
    if lo >= hi {
        0
    } else {
        range_sum(ws, lo, hi - 1) + ws[hi - 1]
    }
}

/// Number of pushes in `ops` onto a slot below `n`.
pub open spec fn push_count<I>(ops: Seq<Op<I>>, n: nat) -> nat
    decreases ops.len(),
{
    if ops.len() == 0 {
        0
    } else {
        push_count(ops.drop_first(), n) + match ops[0] {
            Op::Push(_, slot) => if slot < n {
                1nat
            } else {
                0nat
            },
            Op::Pop => 0nat,
        }
    }
}

/// The items that `ops` pushes onto `slot`, in order.
pub open spec fn pushed_to<I>(ops: Seq<Op<I>>, slot: nat) -> Seq<I>
    decreases ops.len(),
{
    if ops.len() == 0 {
        seq![]
    } else {
        let first = match ops[0] {
            Op::Push(item, j) => if j == slot {
                seq![item]
            } else {
                seq![]
            },
            Op::Pop => seq![],
        };
        first + pushed_to(ops.drop_first(), slot)
    }
}

/// The items of `outs` that came from `slot`, in order.
pub open spec fn items_from<I>(outs: Seq<(nat, I)>, slot: nat) -> Seq<I>
    decreases outs.len(),
{
    if outs.len() == 0 {
        seq![]
    } else {
        let first = if outs[0].0 == slot {
            seq![outs[0].1]
        } else {
            seq![]
        };
        first + items_from(outs.drop_first(), slot)
    }
}

/// One operation on a scheduler: push an item onto the queue of a slot, or pop.
pub enum Op<I> {
    Push(I, nat),
    Pop,
}

/// The abstract state of a scheduler.
pub struct RoundRobinState<I, K> {
    /// The key of each slot, in service order.
    pub keys: Seq<K>,
    /// The weight of each slot.
    pub weights: Seq<nat>,
    /// The queue of each slot, front first.
    pub queues: Seq<Seq<I>>,
    /// The slot being serviced.
    pub active: nat,
    /// The tickets the active slot has left.
    pub tickets: nat,
}

impl<I, K> RoundRobinState<I, K> {
    pub open spec fn len(self) -> nat {
        self.keys.len()
    }

    pub open spec fn wf(self) -> bool {
        &&& self.len() > 0
        &&& self.weights.len() == self.len()
        &&& self.queues.len() == self.len()
        &&& forall|i: int| 0 <= i < self.len() ==> #[trigger] self.weights[i] > 0
        &&& forall|i: int, j: int|
            0 <= i < self.len() && 0 <= j < self.len() && i != j ==> #[trigger] self.keys[i]
                != #[trigger] self.keys[j]
        &&& self.active < self.len()
        &&& self.tickets <= self.weights[self.active as int]
    }

    /// Number of items held over all queues.
    pub open spec fn total(self) -> nat {
        sum_lens(self.queues)
    }

    /// Sum of the weights of all slots.
    pub open spec fn total_weight(self) -> nat {
        range_sum(self.weights, 0, self.len() as int)
    }

    /// The slot that holds `key`.
    pub open spec fn slot_of(self, key: K) -> int {
        choose|i: int| 0 <= i < self.len() && self.keys[i] == key
    }

    pub open spec fn has_key(self, key: K) -> bool {
        exists|i: int| 0 <= i < self.len() && self.keys[i] == key
    }

    /// The state after `item` was appended to the queue of `slot`; nothing changes for a slot
    /// that does not exist.
    pub open spec fn push(self, item: I, slot: nat) -> Self {
        if slot < self.len() {
            RoundRobinState {
                queues: self.queues.update(slot as int, self.queues[slot as int].push(item)),
                ..self
            }
        } else {
            self
        }
    }

    /// Slot reached after `offset` advances from the active slot.
    pub open spec fn slot_at(self, offset: nat) -> nat {
        ((self.active + offset) % self.len()) as nat
    }

    /// The smallest offset `o` with `from <= o <= len` whose slot has a non-empty queue, or
    /// `len + 1` if there is none.
    pub open spec fn first_nonempty(self, from: nat) -> nat
        decreases self.len() + 1 - from,
    {
        if from > self.len() {
            self.len() + 1
        } else if self.queues[self.slot_at(from) as int].len() > 0 {
            from
        } else {
            self.first_nonempty(from + 1)
        }
    }

    /// Whether the active slot is serviced again without advancing.
    pub open spec fn stays(self) -> bool {
        self.tickets > 0 && self.queues[self.active as int].len() > 0
    }

    /// The slot the next pop takes its item from.
    pub open spec fn next_slot(self) -> nat {
        if self.stays() {
            self.active
        } else {
            self.slot_at(self.first_nonempty(1))
        }
    }

    /// The tickets of the next slot before the pop takes one.
    pub open spec fn next_tickets(self) -> nat {
        if self.stays() {
            self.tickets
        } else {
            self.weights[self.next_slot() as int]
        }
    }

    /// The state after a pop that found at least one item.
    pub open spec fn pop(self) -> Self {
        let s = self.next_slot() as int;
        RoundRobinState {
            queues: self.queues.update(s, self.queues[s].drop_first()),
            active: s as nat,
            tickets: (self.next_tickets() - 1) as nat,
            ..self
        }
    }

    /// The slot and item a pop returns, when at least one item is held.
    pub open spec fn popped(self) -> (nat, I) {
        (self.next_slot(), self.queues[self.next_slot() as int][0])
    }

    pub open spec fn step(self, op: Op<I>) -> Self {
        match op {
            Op::Push(item, slot) => self.push(item, slot),
            Op::Pop => if self.total() > 0 {
                self.pop()
            } else {
                self
            },
        }
    }

    /// The state after a run of operations. A pop on an empty scheduler changes nothing.
    pub open spec fn run(self, ops: Seq<Op<I>>) -> Self
        decreases ops.len(),
    {
        if ops.len() == 0 {
            self
        } else {
            self.step(ops[0]).run(ops.drop_first())
        }
    }

    /// The slot and item of each pop of a run that returned one, in order.
    pub open spec fn outputs(self, ops: Seq<Op<I>>) -> Seq<(nat, I)>
        decreases ops.len(),
    {
        if ops.len() == 0 {
            seq![]
        } else {
            let first = if ops[0] is Pop && self.total() > 0 {
                seq![self.popped()]
            } else {
                seq![]
            };
            first + self.step(ops[0]).outputs(ops.drop_first())
        }
    }
}

/// A scheduling position: a queue's key and the tickets it has.
#[derive(Debug)]
struct Slot<K> {
    key: K,
    tickets: usize,
}

/// Weighted round-robin scheduler.
///
/// Keeps one queue per key and returns an item from a queue when asked. The weight of a key is
/// the number of items returned from its queue before moving on to the next one.
#[derive(Debug)]
pub struct WeightedRoundRobin<I, K> {
    /// The slots that are round-robin'd, with their full ticket counts.
    slots: Vec<Slot<K>>,
    /// One queue per slot.
    queues: Vec<VecDeque<I>>,
    /// The slot being serviced.
    active_slot_idx: usize,
    /// The tickets the active slot has left.
    active_tickets: usize,
    /// Number of items over all queues.
    count: usize,
}

impl<I, K> View for WeightedRoundRobin<I, K> {
    type V = RoundRobinState<I, K>;

    closed spec fn view(&self) -> RoundRobinState<I, K> {
        RoundRobinState {
            keys: self.slots@.map_values(|s: Slot<K>| s.key),
            weights: self.slots@.map_values(|s: Slot<K>| s.tickets as nat),
            queues: self.queues@.map_values(|q: VecDeque<I>| q@),
            active: self.active_slot_idx as nat,
            tickets: self.active_tickets as nat,
        }
    }
}

impl<I, K> WeightedRoundRobin<I, K> {
    /// Well-formedness: the abstract state is well-formed and `count` is the number of items.
    pub closed spec fn wf(&self) -> bool {
        &&& self@.wf()
        &&& self.slots@.len() == self.queues@.len()
        &&& self.count as nat == self@.total()
    }

    /// A well-formed scheduler has a well-formed abstract state.
    pub proof fn lemma_wf_view(&self)
        requires
            self.wf(),
        ensures
            self@.wf(),
            self@.total() == self.spec_count(),
    {
    }

    /// Number of items the scheduler holds.
    pub closed spec fn spec_count(&self) -> nat {
        self.count as nat
    }
}

proof fn lemma_sum_lens_update<I>(qs: Seq<Seq<I>>, i: int, q: Seq<I>)
    requires
        0 <= i < qs.len(),
    ensures
        sum_lens(qs.update(i, q)) + qs[i].len() == sum_lens(qs) + q.len(),
    decreases qs.len(),
{
    let u = qs.update(i, q);
    if i == qs.len() - 1 {
        assert(u.drop_last() =~= qs.drop_last());
    } else {
        assert(u.drop_last() =~= qs.drop_last().update(i, q));
        lemma_sum_lens_update(qs.drop_last(), i, q);
    }
}

proof fn lemma_sum_lens_positive<I>(qs: Seq<Seq<I>>) -> (i: int)
    requires
        sum_lens(qs) > 0,
    ensures
        0 <= i < qs.len(),
        qs[i].len() > 0,
    decreases qs.len(),
{
    if qs.last().len() > 0 {
        qs.len() - 1
    } else {
        let j = lemma_sum_lens_positive(qs.drop_last());
        j
    }
}

proof fn lemma_sum_lens_empty<I>(qs: Seq<Seq<I>>)
    requires
        forall|i: int| 0 <= i < qs.len() ==> (#[trigger] qs[i]).len() == 0,
    ensures
        sum_lens(qs) == 0,
    decreases qs.len(),
{
    if qs.len() > 0 {
        lemma_sum_lens_empty(qs.drop_last());
    }
}

proof fn lemma_mod_below_twice(x: int, n: int)
    requires
        0 < n,
        0 <= x < 2 * n,
    ensures
        x % n == if x < n {
            x
        } else {
            x - n
        },
{
    if x < n {
        vstd::arithmetic::div_mod::lemma_small_mod(x as nat, n as nat);
    } else {
        vstd::arithmetic::div_mod::lemma_small_mod((x - n) as nat, n as nat);
        vstd::arithmetic::div_mod::lemma_mod_sub_multiples_vanish(x, n);
    }
}

impl<I, K> RoundRobinState<I, K> {
    /// The scan for a non-empty queue stops at or before any offset whose queue is non-empty.
    pub proof fn lemma_first_nonempty_le(self, from: nat, o: nat)
        requires
            self.wf(),
            from <= o <= self.len(),
            self.queues[self.slot_at(o) as int].len() > 0,
        ensures
            from <= self.first_nonempty(from) <= o,
            self.queues[self.slot_at(self.first_nonempty(from)) as int].len() > 0,
            forall|p: nat|
                from <= p < self.first_nonempty(from) ==> self.queues[#[trigger] self.slot_at(
                    p,
                ) as int].len() == 0,
        decreases o - from,
    {
        if self.queues[self.slot_at(from) as int].len() > 0 {
        } else {
            self.lemma_first_nonempty_le(from + 1, o);
        }
    }

    pub proof fn lemma_first_nonempty_ge(self, from: nat)
        requires
            self.wf(),
            from <= self.len() + 1,
        ensures
            self.first_nonempty(from) >= from,
        decreases self.len() + 1 - from,
    {
        if from <= self.len() && self.queues[self.slot_at(from) as int].len() == 0 {
            self.lemma_first_nonempty_ge(from + 1);
        }
    }

    /// The offset at which the scan from the active slot reaches slot `i`, in `1..=len`.
    pub open spec fn offset_of(self, i: nat) -> nat {
        if i > self.active {
            (i - self.active) as nat
        } else {
            (i + self.len() - self.active) as nat
        }
    }

    pub proof fn lemma_offset_of(self, i: nat)
        requires
            self.wf(),
            i < self.len(),
        ensures
            1 <= self.offset_of(i) <= self.len(),
            self.slot_at(self.offset_of(i)) == i,
    {
        lemma_mod_below_twice((self.active + self.offset_of(i)) as int, self.len() as int);
    }

    /// A scheduler that holds an item finds a slot to serve.
    pub proof fn lemma_next_slot(self)
        requires
            self.wf(),
            self.total() > 0,
        ensures
            self.next_slot() < self.len(),
            self.queues[self.next_slot() as int].len() > 0,
            self.next_tickets() > 0,
            self.next_tickets() <= self.weights[self.next_slot() as int],
            !self.stays() ==> 1 <= self.first_nonempty(1) <= self.len(),
    {
        if !self.stays() {
            let i = lemma_sum_lens_positive(self.queues);
            self.lemma_offset_of(i as nat);
            self.lemma_first_nonempty_le(1, self.offset_of(i as nat));
            let o = self.first_nonempty(1);
            lemma_mod_below_twice((self.active + o) as int, self.len() as int);
        }
    }

    /// A pop keeps the state well-formed and takes one item.
    pub proof fn lemma_pop(self)
        requires
            self.wf(),
            self.total() > 0,
        ensures
            self.pop().wf(),
            self.pop().total() + 1 == self.total(),
    {
        self.lemma_next_slot();
        let s = self.next_slot() as int;
        lemma_sum_lens_update(self.queues, s, self.queues[s].drop_first());
    }

    /// A push to an existing slot keeps the state well-formed and adds one item.
    pub proof fn lemma_push(self, item: I, slot: nat)
        requires
            self.wf(),
        ensures
            self.push(item, slot).wf(),
            self.push(item, slot).total() == self.total() + if slot < self.len() {
                1nat
            } else {
                0nat
            },
    {
        if slot < self.len() {
            lemma_sum_lens_update(self.queues, slot as int, self.queues[slot as int].push(item));
        }
    }
}

impl<I, K: Copy + Eq> WeightedRoundRobin<I, K> {
    /// Creates a scheduler with one empty queue for each `(key, weight)` pair of `weights`, in
    /// service order. The first slot is active, with its full weight of tickets.
    pub fn new(weights: Vec<(K, usize)>) -> (r: Self)
        requires
            weights.len() > 0,
            forall|i: int| 0 <= i < weights.len() ==> (#[trigger] weights[i]).1 > 0,
            forall|i: int, j: int|
                0 <= i < weights.len() && 0 <= j < weights.len() && i != j ==> (
                #[trigger] weights[i]).0 != (#[trigger] weights[j]).0,
        ensures
            r.wf(),
            r@.wf(),
            r.spec_count() == 0,
            r@.keys == weights@.map_values(|p: (K, usize)| p.0),
            r@.weights == weights@.map_values(|p: (K, usize)| p.1 as nat),
            r@.queues == Seq::new(weights.len() as nat, |i: int| Seq::<I>::empty()),
            r@.active == 0,
            r@.tickets == weights[0].1,
            r@.total() == 0,
    {
        let mut slots: Vec<Slot<K>> = Vec::new();
        let mut queues: Vec<VecDeque<I>> = Vec::new();
        let mut i: usize = 0;
        while i < weights.len()
            invariant
                i <= weights.len(),
                slots.len() == i,
                queues.len() == i,
                forall|j: int|
                    0 <= j < i ==> (#[trigger] slots[j]).key == weights[j].0 && slots[j].tickets
                        == weights[j].1,
                forall|j: int| 0 <= j < i ==> (#[trigger] queues[j])@.len() == 0,
            decreases weights.len() - i,
        {
            slots.push(Slot { key: weights[i].0, tickets: weights[i].1 });
            queues.push(VecDeque::new());
            i = i + 1;
        }
        let tickets = slots[0].tickets;
        let r = WeightedRoundRobin {
            slots,
            queues,
            active_slot_idx: 0,
            active_tickets: tickets,
            count: 0,
        };
        assert(r@.keys =~= weights@.map_values(|p: (K, usize)| p.0));
        assert(r@.weights =~= weights@.map_values(|p: (K, usize)| p.1 as nat));
        assert forall|j: int| 0 <= j < weights.len() implies r@.queues[j] =~= Seq::<I>::empty() by {
            assert(r.queues@[j]@.len() == 0);
        }
        assert(r@.queues =~= Seq::new(weights.len() as nat, |i: int| Seq::<I>::empty()));
        proof {
            lemma_sum_lens_empty(r@.queues);
        }
        r
    }

    /// Number of items held over all queues.
    pub fn item_count(&self) -> (r: usize)
        requires
            self.wf(),
        ensures
            r == self@.total(),
    {
        self.count
    }

    /// Finds the slot of `key`.
    fn slot_index(&self, key: K) -> (r: usize)
        requires
            self.wf(),
            self@.has_key(key),
            vstd::laws_eq::obeys_concrete_eq::<K>(),
        ensures
            r == self@.slot_of(key),
    {
        proof {
            reveal(vstd::laws_eq::obeys_concrete_eq);
        }
        let ghost target = self@.slot_of(key);
        let mut i: usize = 0;
        while i < self.slots.len()
            invariant
                self.wf(),
                0 <= target < self@.len(),
                self@.keys[target] == key,
                i <= target,
                vstd::laws_eq::obeys_concrete_eq::<K>(),
            decreases self.slots.len() - i,
        {
            proof {
                reveal(vstd::laws_eq::obeys_concrete_eq);
            }
            if self.slots[i].key == key {
                assert(self@.keys[i as int] == key);
                return i;
            }
            i = i + 1;
        }
        i
    }

    /// Appends `item` to the queue of `queue`.
    pub fn push(&mut self, item: I, queue: K)
        requires
            old(self).wf(),
            old(self)@.has_key(queue),
            old(self)@.total() < usize::MAX,
            vstd::laws_eq::obeys_concrete_eq::<K>(),
        ensures
            final(self).wf(),
            final(self)@.wf(),
            final(self)@ == old(self)@.push(item, old(self)@.slot_of(queue) as nat),
            final(self)@.total() == old(self)@.total() + 1,
    {
        let i = self.slot_index(queue);
        proof {
            self@.lemma_push(item, i as nat);
        }
        self.queues[i].push_back(item);
        self.count = self.count + 1;
        assert(self@.queues =~= old(self)@.push(item, i as nat).queues);
    }

    /// Removes and returns all items of the queue of `queue`, front first.
    pub fn drain_queue(&mut self, queue: K) -> (r: Vec<I>)
        requires
            old(self).wf(),
            old(self)@.has_key(queue),
            vstd::laws_eq::obeys_concrete_eq::<K>(),
        ensures
            final(self).wf(),
            final(self)@.wf(),
            r@ == old(self)@.queues[old(self)@.slot_of(queue)],
            final(self)@ == (RoundRobinState {
                queues: old(self)@.queues.update(old(self)@.slot_of(queue), Seq::empty()),
                ..old(self)@
            }),
    {
        let i = self.slot_index(queue);
        let ghost s0 = self@;
        let mut taken: VecDeque<I> = VecDeque::new();
        std::mem::swap(&mut self.queues[i], &mut taken);
        let ghost all = taken@;
        let mut r: Vec<I> = Vec::new();
        while taken.len() > 0
            invariant
                r@ + taken@ == all,
            decreases taken@.len(),
        {
            let item = taken.pop_front().unwrap();
            r.push(item);
            assert(r@ + taken@ =~= all);
        }
        assert(r@ =~= all);
        proof {
            lemma_sum_lens_update(s0.queues, i as int, Seq::empty());
        }
        self.count = self.count - r.len();
        assert(self@.queues =~= s0.queues.update(i as int, Seq::empty()));
        r
    }

    /// Number of slots.
    pub fn slot_count(&self) -> (r: usize)
        requires
            self.wf(),
        ensures
            r == self@.len(),
    {
        self.slots.len()
    }

    /// The key and the queue of slot `slot`.
    pub fn slot_queue(&self, slot: usize) -> (r: (K, &VecDeque<I>))
        requires
            self.wf(),
            slot < self@.len(),
        ensures
            r.0 == self@.keys[slot as int],
            r.1@ == self@.queues[slot as int],
    {
        (self.slots[slot].key, &self.queues[slot])
    }

    /// The number of items in each queue, with its key, in service order.
    pub fn event_queues_counts(&self) -> (r: Vec<(K, usize)>)
        requires
            self.wf(),
        ensures
            r@.len() == self@.len(),
            forall|i: int|
                0 <= i < self@.len() ==> (#[trigger] r@[i]).0 == self@.keys[i] && r@[i].1
                    == self@.queues[i].len(),
    {
        let mut r: Vec<(K, usize)> = Vec::new();
        let mut i: usize = 0;
        while i < self.slots.len()
            invariant
                self.wf(),
                i <= self@.len(),
                r@.len() == i,
                forall|j: int|
                    0 <= j < i ==> (#[trigger] r@[j]).0 == self@.keys[j] && r@[j].1
                        == self@.queues[j].len(),
            decreases self@.len() - i,
        {
            r.push((self.slots[i].key, self.queues[i].len()));
            i = i + 1;
        }
        r
    }

    /// Takes the next item: `None` when every queue is empty, else the item at the front of the
    /// queue that the weighted round-robin order services next, with that queue's key.
    pub fn pop(&mut self) -> (r: Option<(I, K)>)
        requires
            old(self).wf(),
        ensures
            final(self).wf(),
            final(self)@.wf(),
            old(self)@.total() == 0 ==> r is None && final(self)@ == old(self)@,
            old(self)@.total() > 0 ==> r == Some(
                (old(self)@.popped().1, old(self)@.keys[old(self)@.next_slot() as int]),
            ) && final(self)@ == old(self)@.pop() && final(self)@.total() + 1 == old(
                self,
            )@.total(),
    {
        if self.count == 0 {
            return None;
        }
        let ghost s0 = self@;
        proof {
            s0.lemma_next_slot();
            s0.lemma_pop();
        }
        let n = self.slots.len();
        if !(self.active_tickets > 0 && self.queues[self.active_slot_idx].len() > 0) {
            let mut off: usize = 1;
            let mut idx: usize = if self.active_slot_idx + 1 < n {
                self.active_slot_idx + 1
            } else {
                0
            };
            proof {
                lemma_mod_below_twice((s0.active + 1) as int, n as int);
            }
            while self.queues[idx].len() == 0
                invariant
                    self@ == s0,
                    self.wf(),
                    n == s0.len(),
                    !s0.stays(),
                    1 <= off <= s0.first_nonempty(1) <= n,
                    idx == s0.slot_at(off as nat),
                    s0.first_nonempty(1) == s0.first_nonempty(off as nat),
                decreases n - off,
            {
                assert(s0.queues[idx as int].len() == 0);
                proof {
                    s0.lemma_first_nonempty_ge((off + 1) as nat);
                }
                off = off + 1;
                proof {
                    lemma_mod_below_twice((s0.active + off - 1) as int, n as int);
                    lemma_mod_below_twice((s0.active + off) as int, n as int);
                }
                idx = if idx + 1 < n {
                    idx + 1
                } else {
                    0
                };
            }
            self.active_slot_idx = idx;
            self.active_tickets = self.slots[idx].tickets;
        }
        let idx = self.active_slot_idx;
        self.active_tickets = self.active_tickets - 1;
        let item = self.queues[idx].pop_front().unwrap();
        self.count = self.count - 1;
        let key = self.slots[idx].key;
        assert(self@.queues =~= s0.pop().queues);
        Some((item, key))
    }
}

proof fn lemma_range_sum_split(ws: Seq<nat>, a: int, b: int, c: int)
    requires
        a <= b <= c,
    ensures
        range_sum(ws, a, c) == range_sum(ws, a, b) + range_sum(ws, b, c),
    decreases c - b,
{
    if b < c {
        lemma_range_sum_split(ws, a, b, c - 1);
    }
}

proof fn lemma_range_sum_shift(u: Seq<nat>, v: Seq<nat>, lo: int, hi: int, d: int)
    requires
        forall|i: int| lo <= i < hi ==> u[i] == #[trigger] v[i + d],
    ensures
        range_sum(u, lo, hi) == range_sum(v, lo + d, hi + d),
    decreases hi - lo,
{
    if lo < hi {
        lemma_range_sum_shift(u, v, lo, hi - 1, d);
        assert(u[hi - 1] == v[hi - 1 + d]);
    }
}

proof fn lemma_sum_lens_nonempty<I>(qs: Seq<Seq<I>>, i: int)
    requires
        0 <= i < qs.len(),
        qs[i].len() > 0,
    ensures
        sum_lens(qs) > 0,
    decreases qs.len(),
{
    if i < qs.len() - 1 {
        lemma_sum_lens_nonempty(qs.drop_last(), i);
    }
}

impl<I, K> RoundRobinState<I, K> {
    /// The weights in service order, starting at the active slot.
    pub open spec fn rotated_weights(self) -> Seq<nat> {
        Seq::new(self.len(), |i: int| self.weights[self.slot_at(i as nat) as int])
    }

    /// The most pops that can serve other slots before `k` is served, while the queue of `k`
    /// stays non-empty: the active slot's remaining tickets and the full weight of each slot
    /// between it and `k`.
    pub open spec fn budget(self, k: nat) -> nat {
        if self.active == k && self.tickets > 0 {
            0
        } else {
            self.tickets + range_sum(self.rotated_weights(), 1, self.offset_of(k) as int)
        }
    }

    proof fn lemma_rotated_total(self)
        requires
            self.wf(),
        ensures
            range_sum(self.rotated_weights(), 0, self.len() as int) == self.total_weight(),
    {
        let n = self.len() as int;
        let a = self.active as int;
        let rot = self.rotated_weights();
        assert forall|i: int| 0 <= i < n - a implies rot[i] == #[trigger] self.weights[i + a] by {
            lemma_mod_below_twice(a + i, n);
        }
        lemma_range_sum_shift(rot, self.weights, 0, n - a, a);
        assert forall|i: int| n - a <= i < n implies rot[i] == #[trigger] self.weights[i + (a - n)]
            by {
            lemma_mod_below_twice(a + i, n);
        }
        lemma_range_sum_shift(rot, self.weights, n - a, n, a - n);
        lemma_range_sum_split(rot, 0, n - a, n);
        lemma_range_sum_split(self.weights, 0, a, n);
    }

    /// No run of pops can pass over `k` for longer than the sum of the other slots' weights.
    proof fn lemma_budget_bound(self, k: nat)
        requires
            self.wf(),
            k < self.len(),
        ensures
            self.budget(k) <= self.total_weight() - self.weights[k as int],
    {
        let n = self.len() as int;
        let rot = self.rotated_weights();
        self.lemma_rotated_total();
        self.lemma_offset_of(k);
        let off = self.offset_of(k) as int;
        lemma_mod_below_twice(self.active as int, n);
        assert(rot[0] == self.weights[self.active as int]);
        if self.active == k {
            lemma_range_sum_split(rot, 0, 1, n);
        } else {
            assert(off < n);
            lemma_range_sum_split(rot, 0, 1, off);
            lemma_range_sum_split(rot, 0, off, n);
            lemma_range_sum_split(rot, off, off + 1, n);
            assert(rot[off] == self.weights[k as int]);
        }
    }

    /// A pop that serves another slot than `k`, while `k` has items, uses up some budget.
    proof fn lemma_budget_decreases(self, k: nat)
        requires
            self.wf(),
            k < self.len(),
            self.queues[k as int].len() > 0,
            self.next_slot() != k,
        ensures
            self.pop().budget(k) < self.budget(k),
            self.pop().queues[k as int] == self.queues[k as int],
    {
        lemma_sum_lens_nonempty(self.queues, k as int);
        self.lemma_next_slot();
        if !self.stays() {
            let n = self.len() as int;
            let a = self.active as int;
            let o = self.first_nonempty(1) as int;
            self.lemma_offset_of(k);
            let offk = self.offset_of(k) as int;
            self.lemma_first_nonempty_le(1, offk as nat);
            let j = self.next_slot() as int;
            let s2 = self.pop();
            lemma_mod_below_twice(a + o, n);
            lemma_mod_below_twice(a + offk, n);
            assert(o < offk);
            assert(s2.offset_of(k) == offk - o);
            let rot = self.rotated_weights();
            let rot2 = s2.rotated_weights();
            assert forall|i: int| 1 <= i < offk - o implies rot2[i] == #[trigger] rot[i + o] by {
                lemma_mod_below_twice(j + i, n);
                lemma_mod_below_twice(a + o + i, n);
            }
            lemma_range_sum_shift(rot2, rot, 1, offk - o, o);
            lemma_mod_below_twice(a + o, n);
            assert(rot[o] == self.weights[j]);
            lemma_range_sum_split(rot, o, o + 1, offk);
            lemma_range_sum_split(rot, 1, o, offk);
            assert(s2.active == j && s2.tickets == self.weights[j] - 1);
            assert(s2.budget(k) == s2.tickets + range_sum(rot2, 1, offk - o));
            assert(self.budget(k) == self.tickets + range_sum(rot, 1, offk));
        } else {
            assert(self.pop().rotated_weights() =~= self.rotated_weights());
        }
    }

    proof fn lemma_budget_run(self, ops: Seq<Op<I>>, k: nat)
        requires
            self.wf(),
            k < self.len(),
            self.queues[k as int].len() > 0,
            forall|i: int|
                0 <= i < self.outputs(ops).len() ==> (#[trigger] self.outputs(ops)[i]).0 != k,
        ensures
            self.outputs(ops).len() <= self.budget(k),
        decreases ops.len(),
    {
        if ops.len() > 0 {
            let s2 = self.step(ops[0]);
            let rest = ops.drop_first();
            let outs = self.outputs(ops);
            match ops[0] {
                Op::Push(item, slot) => {
                    self.lemma_push(item, slot);
                    assert(outs =~= s2.outputs(rest));
                    assert(s2.rotated_weights() =~= self.rotated_weights());
                    assert(s2.queues[k as int].len() > 0);
                    s2.lemma_budget_run(rest, k);
                },
                Op::Pop => {
                    lemma_sum_lens_nonempty(self.queues, k as int);
                    self.lemma_pop();
                    assert(outs =~= seq![self.popped()] + s2.outputs(rest));
                    assert(outs[0] == self.popped());
                    self.lemma_budget_decreases(k);
                    assert forall|i: int| 0 <= i < s2.outputs(rest).len() implies (
                    #[trigger] s2.outputs(rest)[i]).0 != k by {
                        assert(s2.outputs(rest)[i] == outs[i + 1]);
                    }
                    s2.lemma_budget_run(rest, k);
                    assert(outs.len() == s2.outputs(rest).len() + 1);
                },
            }
        }
    }

    /// A run keeps the slots and the state well-formed.
    pub proof fn lemma_run_wf(self, ops: Seq<Op<I>>)
        requires
            self.wf(),
        ensures
            self.run(ops).wf(),
            self.run(ops).keys == self.keys,
            self.run(ops).weights == self.weights,
        decreases ops.len(),
    {
        if ops.len() > 0 {
            match ops[0] {
                Op::Push(item, slot) => self.lemma_push(item, slot),
                Op::Pop => if self.total() > 0 {
                    self.lemma_pop();
                },
            }
            self.step(ops[0]).lemma_run_wf(ops.drop_first());
        }
    }

    proof fn lemma_run_count(self, ops: Seq<Op<I>>)
        requires
            self.wf(),
        ensures
            self.run(ops).total() + self.outputs(ops).len() == self.total() + push_count(
                ops,
                self.len(),
            ),
        decreases ops.len(),
    {
        if ops.len() > 0 {
            match ops[0] {
                Op::Push(item, slot) => self.lemma_push(item, slot),
                Op::Pop => if self.total() > 0 {
                    self.lemma_pop();
                },
            }
            self.step(ops[0]).lemma_run_count(ops.drop_first());
        }
    }

    /// Every item of a scheduler is accounted for: when as many pops have returned an item as
    /// items were pushed onto an empty scheduler, it is empty again.
    pub proof fn lemma_balanced_run_empties(self, ops: Seq<Op<I>>)
        requires
            self.wf(),
            self.total() == 0,
            self.outputs(ops).len() == push_count(ops, self.len()),
        ensures
            self.run(ops).total() == 0,
    {
        self.lemma_run_count(ops);
    }

    /// Each queue is first in, first out: the items a run takes from a slot, followed by what
    /// is left on it, are the items it held followed by the items pushed onto it.
    pub proof fn lemma_fifo(self, ops: Seq<Op<I>>, k: nat)
        requires
            self.wf(),
            k < self.len(),
        ensures
            items_from(self.outputs(ops), k) + self.run(ops).queues[k as int] == self.queues[k as int]
                + pushed_to(ops, k),
        decreases ops.len(),
    {
        if ops.len() == 0 {
            assert(self.queues[k as int] + seq![] =~= self.queues[k as int]);
        } else {
            let s2 = self.step(ops[0]);
            let rest = ops.drop_first();
            let outs = self.outputs(ops);
            match ops[0] {
                Op::Push(item, slot) => {
                    self.lemma_push(item, slot);
                    s2.lemma_fifo(rest, k);
                    assert(outs =~= s2.outputs(rest));
                    if slot == k {
                        assert(pushed_to(ops, k) =~= seq![item] + pushed_to(rest, k));
                        assert(self.queues[k as int] + pushed_to(ops, k) =~= s2.queues[k as int]
                            + pushed_to(rest, k));
                    } else {
                        assert(pushed_to(ops, k) =~= pushed_to(rest, k));
                    }
                },
                Op::Pop => {
                    assert(pushed_to(ops, k) =~= pushed_to(rest, k));
                    if self.total() > 0 {
                        self.lemma_pop();
                        self.lemma_next_slot();
                        s2.lemma_fifo(rest, k);
                        let first = seq![self.popped()];
                        assert(outs =~= first + s2.outputs(rest));
                        assert((first + s2.outputs(rest)).drop_first() =~= s2.outputs(rest));
                        if self.next_slot() == k {
                            let q = self.queues[k as int];
                            assert(items_from(outs, k) =~= seq![q[0]] + items_from(
                                s2.outputs(rest),
                                k,
                            ));
                            assert(seq![q[0]] + (q.drop_first() + pushed_to(rest, k)) =~= q
                                + pushed_to(rest, k));
                            assert(items_from(outs, k) + s2.run(rest).queues[k as int]
                                =~= seq![q[0]] + (items_from(s2.outputs(rest), k) + s2.run(
                                rest,
                            ).queues[k as int]));
                        } else {
                            assert(items_from(outs, k) =~= items_from(s2.outputs(rest), k));
                        }
                    } else {
                        assert(outs =~= s2.outputs(rest));
                        s2.lemma_fifo(rest, k);
                    }
                },
            }
        }
    }

    /// No queue starves: while the queue of slot `k` holds items, at most the sum of the other
    /// slots' weights can be popped before `k` is served.
    pub proof fn lemma_no_starvation(self, ops: Seq<Op<I>>, k: nat)
        requires
            self.wf(),
            k < self.len(),
            self.queues[k as int].len() > 0,
            forall|i: int|
                0 <= i < self.outputs(ops).len() ==> (#[trigger] self.outputs(ops)[i]).0 != k,
        ensures
            self.outputs(ops).len() <= self.total_weight() - self.weights[k as int],
    {
        self.lemma_budget_run(ops, k);
        self.lemma_budget_bound(k);
    }
}

} // verus!
