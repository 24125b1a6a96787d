use vstd::prelude::*;

verus! {

/// An active animation: when it started and how long it runs, in
/// milliseconds of the host clock.
#[derive(Clone, Copy, Debug, PartialEq, Eq, Structural)]
pub struct Animation {
    pub start_ms: u64,
    pub duration_ms: u64,
}

impl Animation {
    /// The animation still has frames to show at `now`.
    pub open spec fn running_at(self, now: u64) -> bool {
        (now as int) < self.start_ms as int + self.duration_ms as int
    }
}

/// The animations still running; completed ones are removed.
#[derive(Debug)]
pub struct AnimationSet {
    pub active: Vec<Animation>,
}

impl AnimationSet {
    pub fn new() -> (r: AnimationSet)
        ensures
            r.active@ == Seq::<Animation>::empty(),
    {
        AnimationSet { active: Vec::new() }
    }

    pub fn add(&mut self, a: Animation)
        ensures
            final(self).active@ == old(self).active@.push(a),
    {
        self.active.push(a);
    }

    pub fn has_active_animations(&self) -> (r: bool)
        ensures
            r == (self.active@.len() > 0),
    {
        self.active.len() > 0
    }

    /// Removes every animation that has completed by `now`, keeping the
    /// others in their order.
    pub fn retire_completed(&mut self, now: u64)
        ensures
            final(self).active@ == old(self).active@.filter(|a: Animation| a.running_at(now)),
    {
        let mut kept: Vec<Animation> = Vec::new();
        let mut i: usize = 0;
        while i < self.active.len()
            invariant
                0 <= i <= self.active@.len(),
                self.active@ == old(self).active@,
                kept@ == self.active@.take(i as int).filter(|a: Animation| a.running_at(now)),
            decreases self.active@.len() - i,
        {
            let a = self.active[i];
            assert(self.active@.take(i + 1).drop_last() =~= self.active@.take(i as int));
            proof {
                reveal(Seq::filter);
            }
            if now < a.start_ms || now - a.start_ms < a.duration_ms {
                kept.push(a);
            }
            i = i + 1;
        }
        assert(self.active@.take(i as int) =~= self.active@);
        self.active = kept;
    }
}

} // verus!
