use vstd::prelude::*;
use crate::entity::Entity;
use crate::flags::Invalidation;

verus! {

/// Where an event is delivered.
#[derive(Clone, Copy, Debug, PartialEq, Eq, Structural)]
pub enum Target {
    /// Only to this entity (and, depending on propagation, its ancestors).
    Direct(Entity),
    /// Starting from the focused or hovered entity.
    Origin,
}

/// A queued UI event: a payload kind and its delivery policy.
#[derive(Clone, Copy, Debug, PartialEq, Eq, Structural)]
pub struct UiEvent {
    pub kind: u32,
    pub target: Target,
}

/// What the handlers do when an event of one kind is dispatched: the kinds
/// they enqueue, delivered to the same target, and the flags they set. The
/// rank orders the kinds of the reaction graph: a kind may only enqueue
/// kinds of lower rank.
#[derive(Debug)]
pub struct Reaction {
    pub rank: u32,
    pub emits: Vec<u32>,
    pub restyle: bool,
    pub relayout: bool,
    pub redraw: bool,
    pub tree_changed: bool,
}

/// The registered handlers: the reaction to kind `k` stands at index `k`;
/// kinds past the end have no handler.
#[derive(Debug)]
pub struct Handlers {
    pub reactions: Vec<Reaction>,
}

impl Handlers {
    pub open spec fn emits_of(self, k: u32) -> Seq<u32> {
        if (k as int) < self.reactions@.len() {
            self.reactions@[k as int].emits@
        } else {
            Seq::empty()
        }
    }

    /// The rank of the slot at `j`; kinds with no handler have rank zero.
    pub open spec fn rank_at(self, j: int) -> nat {
        if 0 <= j < self.reactions@.len() {
            self.reactions@[j].rank as nat
        } else {
            0
        }
    }

    pub open spec fn rank_of(self, k: u32) -> nat {
        self.rank_at(k as int)
    }

    /// Every kind enqueues only kinds of lower rank, so no chain of handlers
    /// re-enqueues a kind: the reaction graph is acyclic and every cascade
    /// runs down to kinds with no reaction.
    pub open spec fn well_behaved(self) -> bool {
        forall|k: u32, i: int|
            0 <= i < self.emits_of(k).len() ==> self.rank_of(#[trigger] self.emits_of(k)[i])
                < self.rank_of(k)
    }

    /// Tells whether the handlers are well behaved.
    pub fn check_well_behaved(&self) -> (r: bool)
        ensures
            r == self.well_behaved(),
    {
        let mut k: usize = 0;
        while k < self.reactions.len() && k <= u32::MAX as usize
            invariant
                0 <= k <= self.reactions@.len(),
                k <= u32::MAX as int + 1,
                forall|kk: u32, i: int|
                    (kk as int) < k && 0 <= i < self.emits_of(kk).len() ==> self.rank_of(
                        #[trigger] self.emits_of(kk)[i],
                    ) < self.rank_of(kk),
            decreases self.reactions@.len() - k,
        {
            let emits = &self.reactions[k].emits;
            let rank = self.reactions[k].rank;
            let mut i: usize = 0;
            while i < emits.len()
                invariant
                    0 <= i <= emits@.len(),
                    k < self.reactions@.len(),
                    k <= u32::MAX,
                    emits@ == self.reactions@[k as int].emits@,
                    rank == self.reactions@[k as int].rank,
                    forall|j: int| 0 <= j < i ==> self.rank_at(emits@[j] as int) < rank,
                decreases emits@.len() - i,
            {
                let j = emits[i] as usize;
                let rj = if j < self.reactions.len() {
                    self.reactions[j].rank
                } else {
                    0
                };
                if rj >= rank {
                    assert(self.emits_of(k as u32)[i as int] == emits@[i as int]);
                    return false;
                }
                i = i + 1;
            }
            assert forall|i: int| 0 <= i < self.emits_of(k as u32).len() implies self.rank_of(
                #[trigger] self.emits_of(k as u32)[i],
            ) < self.rank_of(k as u32) by {
                assert(self.emits_of(k as u32)[i] == emits@[i]);
            }
            k = k + 1;
        }
        true
    }

    /// The events that dispatching `e` enqueues.
    pub open spec fn children(self, e: UiEvent) -> Seq<UiEvent> {
        self.emits_of(e.kind).map_values(|j: u32| UiEvent { kind: j, target: e.target })
    }

    /// Everything dispatching the events of `q`, in order, enqueues.
    pub open spec fn emitted(self, q: Seq<UiEvent>) -> Seq<UiEvent>
        decreases q.len(),
    {
        if q.len() == 0 {
            Seq::empty()
        } else {
            self.emitted(q.drop_last()) + self.children(q.last())
        }
    }

    /// The flags after dispatching one event of kind `k`.
    pub open spec fn mark(self, f: Invalidation, k: u32) -> Invalidation {
        if (k as int) < self.reactions@.len() {
            let r = self.reactions@[k as int];
            Invalidation {
                needs_restyle: f.needs_restyle || r.restyle,
                needs_relayout: f.needs_relayout || r.relayout,
                needs_redraw: f.needs_redraw || r.redraw,
                needs_tree_update: f.needs_tree_update || r.tree_changed,
            }
        } else {
            f
        }
    }

    /// The flags after dispatching the events of `q`, in order.
    pub open spec fn marked(self, f: Invalidation, q: Seq<UiEvent>) -> Invalidation
        decreases q.len(),
    {
        if q.len() == 0 {
            f
        } else {
            self.mark(self.marked(f, q.drop_last()), q.last().kind)
        }
    }

    /// How many dispatches an event of kind `k` causes, itself included.
    pub open spec fn weight(self, k: u32) -> nat
        decreases self.rank_of(k), 1nat, 0nat,
    {
        1 + self.weight_sum(self.emits_of(k), k)
    }

    pub open spec fn weight_sum(self, rs: Seq<u32>, k: u32) -> nat
        decreases self.rank_of(k), 0nat, rs.len(),
    {
        if rs.len() == 0 {
            0
        } else {
            (if self.rank_of(rs.last()) < self.rank_of(k) {
                self.weight(rs.last())
            } else {
                0
            }) + self.weight_sum(rs.drop_last(), k)
        }
    }

    /// How many dispatches it takes to settle the events of `q`.
    pub open spec fn work(self, q: Seq<UiEvent>) -> nat
        decreases q.len(),
    {
        if q.len() == 0 {
            0
        } else {
            self.work(q.drop_last()) + self.weight(q.last().kind)
        }
    }

    pub proof fn lemma_work_append(self, a: Seq<UiEvent>, b: Seq<UiEvent>)
        ensures
            self.work(a + b) == self.work(a) + self.work(b),
        decreases b.len(),
    {
        if b.len() > 0 {
            assert((a + b).drop_last() =~= a + b.drop_last());
            self.lemma_work_append(a, b.drop_last());
        } else {
            assert(a + b =~= a);
        }
    }

    proof fn lemma_work_emits(self, rs: Seq<u32>, k: u32, t: Target)
        requires
            forall|i: int| 0 <= i < rs.len() ==> self.rank_of(rs[i]) < self.rank_of(k),
        ensures
            self.work(rs.map_values(|j: u32| UiEvent { kind: j, target: t }))
                == self.weight_sum(rs, k),
        decreases rs.len(),
    {
        let m = rs.map_values(|j: u32| UiEvent { kind: j, target: t });
        if rs.len() > 0 {
            assert(m.drop_last() =~= rs.drop_last().map_values(
                |j: u32| UiEvent { kind: j, target: t },
            ));
            self.lemma_work_emits(rs.drop_last(), k, t);
        }
    }

    /// Dispatching `q` leaves work that is smaller by one per event.
    pub proof fn lemma_emitted_work(self, q: Seq<UiEvent>)
        requires
            self.well_behaved(),
        ensures
            self.work(self.emitted(q)) + q.len() == self.work(q),
        decreases q.len(),
    {
        if q.len() > 0 {
            let e = q.last();
            self.lemma_emitted_work(q.drop_last());
            self.lemma_work_append(self.emitted(q.drop_last()), self.children(e));
            assert forall|i: int| 0 <= i < self.emits_of(e.kind).len() implies
                self.rank_of(self.emits_of(e.kind)[i]) < self.rank_of(e.kind) by {}
            self.lemma_work_emits(self.emits_of(e.kind), e.kind, e.target);
        }
    }

    /// Every event that settling `q` dispatches, in dispatch order: the
    /// events of `q`, then those they enqueued, and so on to the fixed point.
    /// It is defined for well-behaved handlers.
    pub open spec fn cascade(self, q: Seq<UiEvent>) -> Seq<UiEvent>
        decreases self.work(q),
        when self.well_behaved()
    {
        if q.len() == 0 {
            q
        } else {
            proof {
                self.lemma_emitted_work(q);
            }
            q + self.cascade(self.emitted(q))
        }
    }

    /// Settling `q` with well-behaved handlers takes exactly as many
    /// dispatches as its events weigh: finitely many.
    pub proof fn lemma_cascade_len(self, q: Seq<UiEvent>)
        requires
            self.well_behaved(),
        ensures
            self.cascade(q).len() == self.work(q),
        decreases self.work(q),
    {
        if q.len() > 0 {
            self.lemma_emitted_work(q);
            self.lemma_cascade_len(self.emitted(q));
        } else {
            assert(self.work(q) == 0);
        }
    }

    pub proof fn lemma_marked_append(self, f: Invalidation, a: Seq<UiEvent>, b: Seq<UiEvent>)
        ensures
            self.marked(f, a + b) == self.marked(self.marked(f, a), b),
        decreases b.len(),
    {
        if b.len() > 0 {
            assert((a + b).drop_last() =~= a + b.drop_last());
            self.lemma_marked_append(f, a, b.drop_last());
        } else {
            assert(a + b =~= a);
        }
    }

    /// Dispatching never clears a flag.
    pub proof fn lemma_marked_monotone(self, f: Invalidation, q: Seq<UiEvent>)
        ensures
            f.needs_restyle ==> self.marked(f, q).needs_restyle,
            f.needs_relayout ==> self.marked(f, q).needs_relayout,
            f.needs_redraw ==> self.marked(f, q).needs_redraw,
            f.needs_tree_update ==> self.marked(f, q).needs_tree_update,
        decreases q.len(),
    {
        if q.len() > 0 {
            self.lemma_marked_monotone(f, q.drop_last());
        }
    }
}

/// The ordered buffer of pending UI events.
#[derive(Debug)]
pub struct EventQueue {
    pub pending: Vec<UiEvent>,
}

impl EventQueue {
    pub fn new() -> (r: EventQueue)
        ensures
            r.pending@ == Seq::<UiEvent>::empty(),
    {
        EventQueue { pending: Vec::new() }
    }

    /// Appends an event at the back of the queue.
    pub fn push(&mut self, e: UiEvent)
        ensures
            final(self).pending@ == old(self).pending@.push(e),
    {
        self.pending.push(e);
    }

    pub fn is_empty(&self) -> (r: bool)
        ensures
            r == (self.pending@.len() == 0),
    {
        self.pending.len() == 0
    }

    fn dispatch(&mut self, h: &Handlers, flags: &mut Invalidation, e: UiEvent)
        ensures
            final(self).pending@ == old(self).pending@ + h.children(e),
            *final(flags) == h.mark(*old(flags), e.kind),
    {
        if (e.kind as usize) < h.reactions.len() {
            let r = &h.reactions[e.kind as usize];
            let ghost start = self.pending@;
            assert(h.emits_of(e.kind) == r.emits@);
            let mut i: usize = 0;
            while i < r.emits.len()
                invariant
                    0 <= i <= r.emits@.len(),
                    r == h.reactions@[e.kind as int],
                    h.emits_of(e.kind) == r.emits@,
                    self.pending@ == start + h.children(e).take(i as int),
                decreases r.emits@.len() - i,
            {
                self.pending.push(UiEvent { kind: r.emits[i], target: e.target });
                assert(h.children(e).take(i + 1) =~= h.children(e).take(i as int).push(
                    h.children(e)[i as int],
                ));
                i = i + 1;
            }
            assert(h.children(e).take(i as int) =~= h.children(e));
            flags.needs_restyle = flags.needs_restyle || r.restyle;
            flags.needs_relayout = flags.needs_relayout || r.relayout;
            flags.needs_redraw = flags.needs_redraw || r.redraw;
            flags.needs_tree_update = flags.needs_tree_update || r.tree_changed;
        } else {
            assert(h.children(e) =~= Seq::<UiEvent>::empty());
            assert(old(self).pending@ + h.children(e) =~= old(self).pending@);
        }
    }

    /// Drains the queue once: dispatches every pending event in insertion
    /// order; what the handlers enqueue meanwhile is left pending. Returns
    /// whether at least one event was dispatched.
    pub fn flush(&mut self, h: &Handlers, flags: &mut Invalidation) -> (r: bool)
        ensures
            r == (old(self).pending@.len() > 0),
            final(self).pending@ == h.emitted(old(self).pending@),
            *final(flags) == h.marked(*old(flags), old(self).pending@),
    {
        let mut batch: Vec<UiEvent> = Vec::new();
        std::mem::swap(&mut batch, &mut self.pending);
        let mut i: usize = 0;
        while i < batch.len()
            invariant
                0 <= i <= batch@.len(),
                batch@ == old(self).pending@,
                self.pending@ == h.emitted(batch@.take(i as int)),
                *flags == h.marked(*old(flags), batch@.take(i as int)),
            decreases batch@.len() - i,
        {
            assert(batch@.take(i + 1).drop_last() =~= batch@.take(i as int));
            self.dispatch(h, flags, batch[i]);
            i = i + 1;
        }
        assert(batch@.take(i as int) =~= batch@);
        batch.len() > 0
    }

    /// Flushes until no handler enqueues anything more: the fixed point.
    /// With well-behaved handlers this ends after exactly as many dispatches
    /// as the pending events weigh, and the queue is then empty.
    /// Returns the dispatched events, which are the cascade of what was
    /// pending: the pending events come first, in insertion order.
    pub fn flush_to_fixed_point(&mut self, h: &Handlers, flags: &mut Invalidation) -> (dispatched:
        Ghost<Seq<UiEvent>>)
        requires
            h.well_behaved(),
        ensures
            final(self).pending@.len() == 0,
            dispatched@ == h.cascade(old(self).pending@),
            *final(flags) == h.marked(*old(flags), h.cascade(old(self).pending@)),
            dispatched@.len() >= old(self).pending@.len(),
            dispatched@.subrange(0, old(self).pending@.len() as int) == old(self).pending@,
            old(flags).needs_restyle ==> final(flags).needs_restyle,
            old(flags).needs_relayout ==> final(flags).needs_relayout,
            old(flags).needs_redraw ==> final(flags).needs_redraw,
            old(flags).needs_tree_update ==> final(flags).needs_tree_update,
    {
        let ghost start = self.pending@;
        let ghost start_flags = *flags;
        let ghost mut log: Seq<UiEvent> = Seq::empty();
        assert(log + h.cascade(start) =~= h.cascade(start));
        loop
            invariant
                h.well_behaved(),
                log + h.cascade(self.pending@) == h.cascade(start),
                *flags == h.marked(start_flags, log),
            ensures
                self.pending@.len() == 0,
                log == h.cascade(start),
                *flags == h.marked(start_flags, log),
            decreases h.work(self.pending@),
        {
            let ghost before = self.pending@;
            if !self.flush(h, flags) {
                assert(log + h.cascade(before) =~= log);
                break;
            }
            proof {
                h.lemma_emitted_work(before);
                h.lemma_marked_append(start_flags, log, before);
                assert(log + before + h.cascade(self.pending@) =~= log + h.cascade(before));
                log = log + before;
            }
        }
        proof {
            h.lemma_marked_monotone(start_flags, log);
            if start.len() > 0 {
                assert(log.subrange(0, start.len() as int) =~= start);
            }
        }
        Ghost(log)
    }
}

} // verus!
