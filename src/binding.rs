use vstd::prelude::*;
use crate::event::{EventQueue, UiEvent};

verus! {

/// A reactive binding: when its backing data changes it is marked dirty,
/// and the next data propagation re-evaluates it into an event.
#[derive(Clone, Copy, Debug, PartialEq, Eq, Structural)]
pub struct Binding {
    pub dirty: bool,
    pub event: UiEvent,
}

/// The events that re-evaluating the dirty bindings of `bs` yields, in order.
pub open spec fn dirty_events(bs: Seq<Binding>) -> Seq<UiEvent>
    decreases bs.len(),
{
    if bs.len() == 0 {
        Seq::empty()
    } else if bs.last().dirty {
        dirty_events(bs.drop_last()).push(bs.last().event)
    } else {
        dirty_events(bs.drop_last())
    }
}

/// The bindings after re-evaluation: the same events, none dirty.
pub open spec fn cleaned(bs: Seq<Binding>) -> Seq<Binding> {
    bs.map_values(|b: Binding| Binding { dirty: false, event: b.event })
}

#[derive(Debug)]
pub struct Bindings {
    pub items: Vec<Binding>,
}

impl Bindings {
    pub fn new() -> (r: Bindings)
        ensures
            r.items@ == Seq::<Binding>::empty(),
    {
        Bindings { items: Vec::new() }
    }

    /// Registers a binding that yields `event`; returns its index.
    pub fn add(&mut self, event: UiEvent) -> (r: usize)
        ensures
            final(self).items@ == old(self).items@.push(Binding { dirty: false, event }),
            r == old(self).items@.len(),
    {
        self.items.push(Binding { dirty: false, event });
        self.items.len() - 1
    }

    /// Marks binding `i` dirty; an index past the end is ignored.
    pub fn mark_dirty(&mut self, i: usize)
        ensures
            final(self).items@ == if i < old(self).items@.len() {
                old(self).items@.update(
                    i as int,
                    Binding { dirty: true, event: old(self).items@[i as int].event },
                )
            } else {
                old(self).items@
            },
    {
        if i < self.items.len() {
            let e = self.items[i].event;
            self.items.set(i, Binding { dirty: true, event: e });
        }
    }

    /// Data propagation: appends the event of every dirty binding to the
    /// queue, in binding order, and clears the dirty marks. It does not
    /// flush: the events wait for the next flush.
    pub fn process_data_updates(&mut self, queue: &mut EventQueue)
        ensures
            final(queue).pending@ == old(queue).pending@ + dirty_events(old(self).items@),
            final(self).items@ == cleaned(old(self).items@),
    {
        let ghost start = self.items@;
        let ghost qstart = queue.pending@;
        let mut i: usize = 0;
        while i < self.items.len()
            invariant
                0 <= i <= self.items@.len(),
                self.items@.len() == start.len(),
                forall|j: int| i <= j < start.len() ==> self.items@[j] == start[j],
                forall|j: int| 0 <= j < i ==> self.items@[j] == cleaned(start)[j],
                queue.pending@ == qstart + dirty_events(start.take(i as int)),
            decreases self.items@.len() - i,
        {
            let b = self.items[i];
            assert(start.take(i + 1).drop_last() =~= start.take(i as int));
            if b.dirty {
                queue.push(b.event);
                self.items.set(i, Binding { dirty: false, event: b.event });
            }
            i = i + 1;
        }
        assert(start.take(i as int) =~= start);
        assert(self.items@ =~= cleaned(start));
    }
}

} // verus!
