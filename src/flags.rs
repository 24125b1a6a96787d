use vstd::prelude::*;

verus! {

/// The dirty markers of one window surface. Each is set any number of times
/// and cleared by the stage that resolves it.
#[derive(Clone, Copy, Debug, PartialEq, Eq, Structural)]
pub struct Invalidation {
    pub needs_restyle: bool,
    pub needs_relayout: bool,
    pub needs_redraw: bool,
    /// The shape of the UI tree changed since the last accessibility sync.
    pub needs_tree_update: bool,
}

impl Invalidation {
    pub open spec fn clean() -> Invalidation {
        Invalidation {
            needs_restyle: false,
            needs_relayout: false,
            needs_redraw: false,
            needs_tree_update: false,
        }
    }

    pub fn new() -> (r: Invalidation)
        ensures
            r == Invalidation::clean(),
    {
        Invalidation {
            needs_restyle: false,
            needs_relayout: false,
            needs_redraw: false,
            needs_tree_update: false,
        }
    }

    pub fn need_restyle(&mut self)
        ensures
            *final(self) == (Invalidation { needs_restyle: true, ..*old(self) }),
    {
        self.needs_restyle = true;
    }

    pub fn need_relayout(&mut self)
        ensures
            *final(self) == (Invalidation { needs_relayout: true, ..*old(self) }),
    {
        self.needs_relayout = true;
    }

    pub fn need_redraw(&mut self)
        ensures
            *final(self) == (Invalidation { needs_redraw: true, ..*old(self) }),
    {
        self.needs_redraw = true;
    }

    pub fn need_tree_update(&mut self)
        ensures
            *final(self) == (Invalidation { needs_tree_update: true, ..*old(self) }),
    {
        self.needs_tree_update = true;
    }
}

/// What the host loop does after an iteration.
#[derive(Clone, Copy, Debug, PartialEq, Eq, Structural)]
pub enum ControlFlow {
    /// Run the pipeline again at once, without blocking.
    Poll,
    /// Block until the next outside event.
    Wait,
    /// Leave the loop for good.
    Exit,
}

/// The mode that an iteration starts from: the one the caller configured.
pub open spec fn default_mode(default_should_poll: bool) -> ControlFlow {
    if default_should_poll {
        ControlFlow::Poll
    } else {
        ControlFlow::Wait
    }
}

/// The continuation rule, in priority order: an observed exit, then a poll
/// forced by animations, then events still queued, then the default.
pub open spec fn continuation(
    exit_observed: bool,
    animation_forced: bool,
    queue_nonempty: bool,
    default_should_poll: bool,
) -> ControlFlow {
    if exit_observed {
        ControlFlow::Exit
    } else if animation_forced || queue_nonempty {
        ControlFlow::Poll
    } else {
        default_mode(default_should_poll)
    }
}

/// Chooses the continuation mode of an iteration; `wake` tells whether the
/// host loop must be woken because events are still queued.
pub fn decide_continuation(
    exit_observed: bool,
    animation_forced: bool,
    queue_nonempty: bool,
    default_should_poll: bool,
) -> (r: (ControlFlow, bool))
    ensures
        r.0 == continuation(exit_observed, animation_forced, queue_nonempty, default_should_poll),
        r.1 == (!exit_observed && queue_nonempty),
{
    if exit_observed {
        (ControlFlow::Exit, false)
    } else if queue_nonempty {
        (ControlFlow::Poll, true)
    } else if animation_forced || default_should_poll {
        (ControlFlow::Poll, false)
    } else {
        (ControlFlow::Wait, false)
    }
}

/// Running animations force a poll whatever the configured default, unless
/// an exit was observed.
pub proof fn lemma_animations_force_poll(queue_nonempty: bool, default_should_poll: bool)
    ensures
        continuation(false, true, queue_nonempty, default_should_poll) == ControlFlow::Poll,
{
}

/// Events still queued at the end of an iteration, such as those the idle
/// hook enqueued, force a poll even when the default is to wait and no
/// animation runs.
pub proof fn lemma_queued_events_force_poll(animation_forced: bool, default_should_poll: bool)
    ensures
        continuation(false, animation_forced, true, default_should_poll) == ControlFlow::Poll,
{
}

/// An observed close request makes the decision `Exit`, whatever else holds.
pub proof fn lemma_close_request_exits(
    animation_forced: bool,
    queue_nonempty: bool,
    default_should_poll: bool,
)
    ensures
        continuation(true, animation_forced, queue_nonempty, default_should_poll)
            == ControlFlow::Exit,
{
}

/// With nothing observed, nothing running and nothing queued, the loop
/// takes the configured default.
pub proof fn lemma_idle_takes_default(default_should_poll: bool)
    ensures
        continuation(false, false, false, default_should_poll) == default_mode(
            default_should_poll,
        ),
{
}

} // verus!
