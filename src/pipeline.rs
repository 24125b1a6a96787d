use vstd::prelude::*;
use crate::animation::{Animation, AnimationSet};
use crate::binding::{cleaned, dirty_events, Bindings};
use crate::entity::{live_ids, Entity, EntityArena, EntityError};
use crate::event::{EventQueue, Handlers, Target, UiEvent};
use crate::flags::{continuation, decide_continuation, default_mode, ControlFlow, Invalidation};
use crate::window::{visual_update, Geometry};

verus! {

/// The state of the keyboard modifiers.
#[derive(Clone, Copy, Debug, PartialEq, Eq, Structural)]
pub struct Modifiers {
    pub shift: bool,
    pub alt: bool,
    pub ctrl: bool,
    pub logo: bool,
}

/// A window event from the host platform, already normalized: sizes in
/// device pixels, scale factors in thousandths, input as a UI event kind.
#[derive(Clone, Copy, Debug, PartialEq, Eq, Structural)]
pub enum HostEvent {
    CloseRequested,
    Focused(bool),
    ScaleFactorChanged { scale_milli: u32, width: u32, height: u32 },
    Resized { width: u32, height: u32 },
    ModifiersChanged(Modifiers),
    /// Pointer, wheel, keyboard or character input, delivered from the origin.
    Input(u32),
}

/// A request from an assistive technology, aimed at an accessibility node.
#[derive(Clone, Copy, Debug, PartialEq, Eq, Structural)]
pub struct ActionRequest {
    pub target: u64,
    pub focus: bool,
}

/// An event that reaches the loop through its cross-thread proxy.
#[derive(Clone, Copy, Debug, PartialEq, Eq, Structural)]
pub enum UserEvent {
    Event(UiEvent),
    AccessKitActionRequest(ActionRequest),
}

/// What the host side must do after a window event.
#[derive(Clone, Copy, Debug, PartialEq, Eq, Structural)]
pub enum HostAction {
    Nothing,
    /// Resize the window's drawing surface to this physical size.
    ResizeSurface { width: u32, height: u32 },
    /// Report the new focus to the accessibility adapter, if one is active.
    FocusUpdate(Option<u64>),
}

/// The accessibility snapshot handed to the adapter after the tree's shape
/// changed: every live node, the root, and the focus while the window has it.
#[derive(Debug)]
pub struct TreeSnapshot {
    pub nodes: Vec<u64>,
    pub root: u64,
    pub focus: Option<u64>,
}

/// The kind of the synthetic event that asks for a redraw.
pub const REDRAW_EVENT: u32 = 0;

/// The kind of the event delivered for an accessibility action request.
pub const ACTION_REQUEST_EVENT: u32 = 1;

/// What one iteration asks of the host loop.
pub struct FrameOutcome {
    pub control_flow: ControlFlow,
    /// Ask the platform for one redraw.
    pub request_redraw: bool,
    /// Animations are running: post a redraw event through the proxy.
    pub post_redraw_event: bool,
    /// Events are still queued: wake the host loop.
    pub wake: bool,
    /// Hand this snapshot to the accessibility adapter.
    pub tree_update: Option<TreeSnapshot>,
    /// The events dispatched by this iteration, in order.
    pub dispatched: Ghost<Seq<UiEvent>>,
    /// The event queue as style resolution found it.
    pub queue_at_style: Ghost<Seq<UiEvent>>,
}

/// Runs once per settled iteration, after redraw arbitration and before the
/// continuation decision; it may enqueue events.
pub trait IdleHook {
    fn on_idle(&mut self, queue: &mut EventQueue);
}

/// A hook that does nothing.
pub struct NoIdle;

impl IdleHook for NoIdle {
    fn on_idle(&mut self, queue: &mut EventQueue) {
    }
}

/// The accessibility id of an entity: its index plus one.
pub open spec fn accesskit_id_of(e: Entity) -> int {
    e.index as int + 1
}

pub fn accesskit_id(e: Entity) -> (r: u64)
    ensures
        r == accesskit_id_of(e),
{
    e.index as u64 + 1
}

/// The entity that an accessibility node id stands for, if any.
pub fn entity_of_accesskit_id(id: u64) -> (r: Option<Entity>)
    ensures
        r is Some <==> 1 <= id <= u32::MAX as int + 1,
        r matches Some(e) ==> e.generation == 0 && accesskit_id_of(e) == id,
{
    if id >= 1 && id - 1 <= u32::MAX as u64 {
        Some(Entity::new((id - 1) as u32, 0))
    } else {
        None
    }
}

/// The redraw arbiter: one platform redraw for any number of requests since
/// the last one.
pub fn arbitrate_redraw(flags: &mut Invalidation) -> (r: bool)
    ensures
        r == old(flags).needs_redraw,
        *final(flags) == (Invalidation { needs_redraw: false, ..*old(flags) }),
{
    let r = flags.needs_redraw;
    flags.needs_redraw = false;
    r
}

/// The scheduling state of one window.
pub struct Pipeline {
    pub queue: EventQueue,
    pub handlers: Handlers,
    pub flags: Invalidation,
    pub geometry: Geometry,
    pub animations: AnimationSet,
    pub modifiers: Modifiers,
    pub default_should_poll: bool,
    pub control_flow: ControlFlow,
    /// A close request was observed; the next decision is `Exit`.
    pub exit_requested: bool,
    pub window_has_focus: bool,
    pub focused: Entity,
    pub entities: EntityArena,
    pub bindings: Bindings,
    /// The root's view is a window that can be drawn into.
    pub window_attached: bool,
}

impl Pipeline {
    pub open spec fn wf(&self) -> bool {
        self.geometry.wf() && self.handlers.well_behaved() && self.entities.wf()
    }

    /// The loop has exited: no further iteration does anything.
    pub open spec fn exited(&self) -> bool {
        self.control_flow == ControlFlow::Exit
    }

    pub fn new(handlers: Handlers, width: u32, height: u32, default_should_poll: bool) -> (r:
        Pipeline)
        requires
            handlers.well_behaved(),
        ensures
            r.wf(),
            r.queue.pending@.len() == 0,
            r.handlers == handlers,
            r.flags == Invalidation::clean(),
            r.geometry == Geometry::initial(width, height),
            r.animations.active@.len() == 0,
            r.default_should_poll == default_should_poll,
            r.control_flow == default_mode(default_should_poll),
            !r.exit_requested,
            !r.window_has_focus,
            r.focused.index == 0 && r.focused.generation == 0,
            r.window_attached,
            r.entities.generations@.len() == 1,
            r.bindings.items@.len() == 0,
    {
        Pipeline {
            queue: EventQueue::new(),
            handlers,
            flags: Invalidation::new(),
            geometry: Geometry::new(width, height),
            animations: AnimationSet::new(),
            modifiers: Modifiers { shift: false, alt: false, ctrl: false, logo: false },
            default_should_poll,
            control_flow: if default_should_poll {
                ControlFlow::Poll
            } else {
                ControlFlow::Wait
            },
            exit_requested: false,
            window_has_focus: false,
            focused: Entity::root(),
            entities: EntityArena::new(),
            bindings: Bindings::new(),
            window_attached: true,
        }
    }

    /// Queues an event from the loop's own thread.
    pub fn emit(&mut self, e: UiEvent)
        ensures
            final(self).queue.pending@ == old(self).queue.pending@.push(e),
            final(self).handlers == old(self).handlers,
            final(self).flags == old(self).flags,
            final(self).geometry == old(self).geometry,
            final(self).animations == old(self).animations,
            final(self).modifiers == old(self).modifiers,
            final(self).default_should_poll == old(self).default_should_poll,
            final(self).control_flow == old(self).control_flow,
            final(self).exit_requested == old(self).exit_requested,
            final(self).window_has_focus == old(self).window_has_focus,
            final(self).focused == old(self).focused,
            final(self).entities == old(self).entities,
            final(self).bindings == old(self).bindings,
            final(self).window_attached == old(self).window_attached,
    {
        self.queue.push(e);
    }

    /// Mounts a new node; the tree's shape changes.
    pub fn mount(&mut self) -> (r: Option<Entity>)
        requires
            old(self).wf(),
        ensures
            final(self).wf(),
            r matches Some(e) ==> final(self).entities.is_live(e) && !old(self).entities.is_live(e)
                && final(self).flags == (Invalidation { needs_tree_update: true, ..old(self).flags }),
            r matches Some(e) ==> forall|x: Entity|
                x != e ==> (#[trigger] final(self).entities.is_live(x) == old(self).entities.is_live(x)),
            r is None ==> final(self).flags == old(self).flags && final(self).entities == old(self).entities,
            r is None ==> old(self).entities.generations@.len() == u32::MAX as int + 1,
            final(self).entities.destroyed == old(self).entities.destroyed,
            final(self).queue == old(self).queue,
            final(self).handlers == old(self).handlers,
            final(self).geometry == old(self).geometry,
            final(self).animations == old(self).animations,
            final(self).modifiers == old(self).modifiers,
            final(self).default_should_poll == old(self).default_should_poll,
            final(self).control_flow == old(self).control_flow,
            final(self).exit_requested == old(self).exit_requested,
            final(self).window_has_focus == old(self).window_has_focus,
            final(self).focused == old(self).focused,
            final(self).bindings == old(self).bindings,
            final(self).window_attached == old(self).window_attached,
    {
        let r = self.entities.create();
        if r.is_some() {
            self.flags.need_tree_update();
        }
        r
    }

    /// Unmounts a node; the tree's shape changes, and focus on it moves back
    /// to the root.
    pub fn unmount(&mut self, e: Entity) -> (r: Result<(), EntityError>)
        requires
            old(self).wf(),
        ensures
            final(self).wf(),
            r is Ok ==> !final(self).entities.is_live(e) && final(self).flags == (Invalidation {
                needs_tree_update: true,
                ..old(self).flags
            }) && final(self).focused == if old(self).focused == e {
                Entity { index: 0, generation: 0 }
            } else {
                old(self).focused
            },
            r is Err ==> final(self).flags == old(self).flags && final(self).focused == old(
                self,
            ).focused,
            r == if e.index == 0 && e.generation == 0 {
                Err::<(), EntityError>(EntityError::RootIsPermanent)
            } else if !old(self).entities.is_live(e) {
                Err(EntityError::StaleHandle)
            } else {
                Ok(())
            },
            final(self).queue == old(self).queue,
            final(self).control_flow == old(self).control_flow,
            final(self).exit_requested == old(self).exit_requested,
            r is Ok ==> forall|x: Entity|
                x != e ==> (#[trigger] final(self).entities.is_live(x) == old(self).entities.is_live(x)),
            r is Err ==> final(self).entities == old(self).entities,
            final(self).handlers == old(self).handlers,
            final(self).geometry == old(self).geometry,
            final(self).animations == old(self).animations,
            final(self).modifiers == old(self).modifiers,
            final(self).default_should_poll == old(self).default_should_poll,
            final(self).window_has_focus == old(self).window_has_focus,
            final(self).bindings == old(self).bindings,
            final(self).window_attached == old(self).window_attached,
    {
        let r = self.entities.destroy(e);
        if r.is_ok() {
            self.flags.need_tree_update();
            if self.focused == e {
                self.focused = Entity::root();
            }
        }
        r
    }

    pub fn add_animation(&mut self, a: Animation)
        ensures
            final(self).animations.active@ == old(self).animations.active@.push(a),
            final(self).queue == old(self).queue,
            final(self).handlers == old(self).handlers,
            final(self).flags == old(self).flags,
            final(self).geometry == old(self).geometry,
            final(self).modifiers == old(self).modifiers,
            final(self).default_should_poll == old(self).default_should_poll,
            final(self).control_flow == old(self).control_flow,
            final(self).exit_requested == old(self).exit_requested,
            final(self).window_has_focus == old(self).window_has_focus,
            final(self).focused == old(self).focused,
            final(self).entities == old(self).entities,
            final(self).bindings == old(self).bindings,
            final(self).window_attached == old(self).window_attached,
    {
        self.animations.add(a);
    }
}

impl Pipeline {
    /// Applies a window event. A close request is only recorded: the loop
    /// exits at the next continuation decision. A scale factor of zero is
    /// out of range and keeps the current one.
    pub fn handle_host_event(&mut self, ev: HostEvent) -> (r: HostAction)
        requires
            old(self).wf(),
        ensures
            final(self).wf(),
            final(self).entities == old(self).entities,
            final(self).bindings == old(self).bindings,
            final(self).handlers == old(self).handlers,
            final(self).animations == old(self).animations,
            final(self).default_should_poll == old(self).default_should_poll,
            final(self).control_flow == old(self).control_flow,
            final(self).focused == old(self).focused,
            final(self).window_attached == old(self).window_attached,
            final(self).exit_requested == (old(self).exit_requested || ev
                == HostEvent::CloseRequested),
            final(self).window_has_focus == (match ev {
                HostEvent::Focused(f) => f,
                _ => old(self).window_has_focus,
            }),
            final(self).modifiers == (match ev {
                HostEvent::ModifiersChanged(m) => m,
                _ => old(self).modifiers,
            }),
            final(self).queue.pending@ == (match ev {
                HostEvent::Input(k) => old(self).queue.pending@.push(
                    UiEvent { kind: k, target: Target::Origin },
                ),
                _ => old(self).queue.pending@,
            }),
            final(self).geometry == (match ev {
                HostEvent::Resized { width, height } => old(self).geometry.resized(width, height),
                HostEvent::ScaleFactorChanged { scale_milli, width, height } => {
                    if scale_milli > 0 {
                        old(self).geometry.rescaled(scale_milli, width, height)
                    } else {
                        old(self).geometry.rescaled(old(self).geometry.scale_milli, width, height)
                    }
                },
                _ => old(self).geometry,
            }),
            final(self).flags == (match ev {
                HostEvent::Resized { .. } => Invalidation {
                    needs_restyle: true,
                    needs_relayout: true,
                    needs_redraw: true,
                    ..old(self).flags
                },
                _ => old(self).flags,
            }),
            r == (match ev {
                HostEvent::Resized { width, height } => HostAction::ResizeSurface { width, height },
                HostEvent::Focused(f) => HostAction::FocusUpdate(
                    if f {
                        Some(accesskit_id_of(old(self).focused) as u64)
                    } else {
                        None
                    },
                ),
                _ => HostAction::Nothing,
            }),
    {
        match ev {
            HostEvent::CloseRequested => {
                self.exit_requested = true;
                HostAction::Nothing
            },
            HostEvent::Focused(f) => {
                self.window_has_focus = f;
                if f {
                    HostAction::FocusUpdate(Some(accesskit_id(self.focused)))
                } else {
                    HostAction::FocusUpdate(None)
                }
            },
            HostEvent::ScaleFactorChanged { scale_milli, width, height } => {
                let s = if scale_milli > 0 {
                    scale_milli
                } else {
                    self.geometry.scale_milli
                };
                self.geometry.rescale(s, width, height);
                HostAction::Nothing
            },
            HostEvent::Resized { width, height } => {
                self.geometry.resize(&mut self.flags, width, height);
                HostAction::ResizeSurface { width, height }
            },
            HostEvent::ModifiersChanged(m) => {
                self.modifiers = m;
                HostAction::Nothing
            },
            HostEvent::Input(k) => {
                self.queue.push(UiEvent { kind: k, target: Target::Origin });
                HostAction::Nothing
            },
        }
    }

    /// Applies an event that came through the cross-thread proxy. An action
    /// request for a node that stands for no entity is dropped.
    pub fn handle_user_event(&mut self, ue: UserEvent)
        requires
            old(self).wf(),
        ensures
            final(self).wf(),
            final(self).entities == old(self).entities,
            final(self).bindings == old(self).bindings,
            final(self).modifiers == old(self).modifiers,
            final(self).window_has_focus == old(self).window_has_focus,
            final(self).handlers == old(self).handlers,
            final(self).flags == old(self).flags,
            final(self).geometry == old(self).geometry,
            final(self).animations == old(self).animations,
            final(self).default_should_poll == old(self).default_should_poll,
            final(self).control_flow == old(self).control_flow,
            final(self).exit_requested == old(self).exit_requested,
            final(self).window_attached == old(self).window_attached,
            ue matches UserEvent::Event(e) ==> final(self).queue.pending@
                == old(self).queue.pending@.push(e) && final(self).focused == old(self).focused,
            ue matches UserEvent::AccessKitActionRequest(req) ==> {
                if 1 <= req.target <= u32::MAX as int + 1 {
                    let en = Entity { index: (req.target - 1) as u32, generation: 0 };
                    &&& final(self).queue.pending@ == old(self).queue.pending@.push(
                        UiEvent { kind: ACTION_REQUEST_EVENT, target: Target::Direct(en) },
                    )
                    &&& final(self).focused == if req.focus {
                        en
                    } else {
                        old(self).focused
                    }
                } else {
                    final(self).queue.pending@ == old(self).queue.pending@ && final(self).focused
                        == old(self).focused
                }
            },
    {
        match ue {
            UserEvent::Event(e) => {
                self.queue.push(e);
            },
            UserEvent::AccessKitActionRequest(req) => {
                match entity_of_accesskit_id(req.target) {
                    Some(en) => {
                        if req.focus {
                            self.focused = en;
                        }
                        self.queue.push(
                            UiEvent { kind: ACTION_REQUEST_EVENT, target: Target::Direct(en) },
                        );
                    },
                    None => {},
                }
            },
        }
    }
}

impl Pipeline {
    /// One iteration of the frame pipeline: flush the queue to its fixed
    /// point, propagate dirty bindings into new events and flush those to the
    /// fixed point too, so the queue is empty before style resolution; then
    /// sync accessibility, resolve style, let running animations force
    /// a poll, lay out, arbitrate the redraw, run the idle hook and decide how
    /// the loop continues. Once the loop has exited, nothing runs.
    pub fn run_iteration<H: IdleHook>(&mut self, now_ms: u64, hook: &mut H) -> (r: FrameOutcome)
        requires
            old(self).wf(),
        ensures
            final(self).wf(),
            old(self).exited() ==> *final(hook) == *old(hook),
            old(self).exited() ==> r.control_flow == ControlFlow::Exit && !r.request_redraw
                && !r.post_redraw_event && !r.wake && r.tree_update is None && r.dispatched@.len()
                == 0 && *final(self) == *old(self),
            !old(self).exited() ==> {
                let forced = old(self).animations.active@.filter(
                    |a: Animation| a.running_at(now_ms),
                ).len() > 0;
                let h = old(self).handlers;
                let first = h.cascade(old(self).queue.pending@);
                let second = h.cascade(dirty_events(old(self).bindings.items@));
                let settled = h.marked(h.marked(old(self).flags, first), second);
                &&& r.control_flow == continuation(
                    old(self).exit_requested,
                    forced,
                    final(self).queue.pending@.len() > 0,
                    old(self).default_should_poll,
                )
                &&& final(self).control_flow == r.control_flow
                &&& r.post_redraw_event == forced
                &&& r.wake == (!old(self).exit_requested && final(self).queue.pending@.len() > 0)
                &&& r.dispatched@ == first + second
                &&& r.queue_at_style@.len() == 0
                &&& r.dispatched@.len() >= old(self).queue.pending@.len()
                &&& r.dispatched@.subrange(0, old(self).queue.pending@.len() as int)
                    == old(self).queue.pending@
                &&& r.request_redraw == (settled.needs_redraw || settled.needs_restyle)
                &&& (r.tree_update is Some <==> settled.needs_tree_update)
                &&& r.tree_update matches Some(t) ==> {
                    &&& t.nodes@ == live_ids(old(self).entities.alive@)
                    &&& t.root == 1
                    &&& t.focus == if old(self).window_has_focus {
                        Some(accesskit_id_of(old(self).focused) as u64)
                    } else {
                        None
                    }
                }
                &&& final(self).geometry == if settled.needs_relayout || settled.needs_restyle {
                    old(self).geometry.laid_out()
                } else {
                    old(self).geometry
                }
                &&& final(self).flags == Invalidation::clean()
                &&& final(self).bindings.items@ == cleaned(old(self).bindings.items@)
                &&& final(self).animations.active@ == old(self).animations.active@.filter(
                    |a: Animation| a.running_at(now_ms),
                )
            },
            final(self).handlers == old(self).handlers,
            final(self).default_should_poll == old(self).default_should_poll,
            final(self).exit_requested == old(self).exit_requested,
            final(self).focused == old(self).focused,
            final(self).window_has_focus == old(self).window_has_focus,
            final(self).window_attached == old(self).window_attached,
            final(self).entities == old(self).entities,
    {
        if self.control_flow == ControlFlow::Exit {
            return FrameOutcome {
                control_flow: ControlFlow::Exit,
                request_redraw: false,
                post_redraw_event: false,
                wake: false,
                tree_update: None,
                dispatched: Ghost(Seq::empty()),
                queue_at_style: Ghost(self.queue.pending@),
            };
        }
        self.control_flow = if self.default_should_poll {
            ControlFlow::Poll
        } else {
            ControlFlow::Wait
        };

        let first = self.queue.flush_to_fixed_point(&self.handlers, &mut self.flags);
        self.bindings.process_data_updates(&mut self.queue);
        let second = self.queue.flush_to_fixed_point(&self.handlers, &mut self.flags);
        let ghost queue_at_style = self.queue.pending@;
        let ghost dispatched = first@ + second@;
        assert(dispatched.subrange(0, old(self).queue.pending@.len() as int) =~= first@.subrange(
            0,
            old(self).queue.pending@.len() as int,
        ));

        let tree_update = if self.flags.needs_tree_update {
            self.flags.needs_tree_update = false;
            let focus = if self.window_has_focus {
                Some(accesskit_id(self.focused))
            } else {
                None
            };
            Some(TreeSnapshot { nodes: self.entities.live_node_ids(), root: 1, focus })
        } else {
            None
        };

        if self.flags.needs_restyle {
            self.flags.needs_restyle = false;
            self.flags.needs_relayout = true;
            self.flags.needs_redraw = true;
        }

        self.animations.retire_completed(now_ms);
        let forced = self.animations.has_active_animations();

        visual_update(&mut self.geometry, &mut self.flags);

        let request_redraw = arbitrate_redraw(&mut self.flags);

        hook.on_idle(&mut self.queue);

        let (cf, wake) = decide_continuation(
            self.exit_requested,
            forced,
            !self.queue.is_empty(),
            self.default_should_poll,
        );
        self.control_flow = cf;
        FrameOutcome {
            control_flow: cf,
            request_redraw,
            post_redraw_event: forced,
            wake,
            tree_update,
            dispatched: Ghost(dispatched),
            queue_at_style: Ghost(queue_at_style),
        }
    }
}

/// The flags after `n` independent requests for a redraw.
pub open spec fn redraw_requested(f: Invalidation, n: nat) -> Invalidation
    decreases n,
{
    if n == 0 {
        f
    } else {
        Invalidation { needs_redraw: true, ..redraw_requested(f, (n - 1) as nat) }
    }
}

/// Any number of redraw requests before or during an iteration come to
/// exactly one platform redraw: after the queue settles, both the pending
/// events and those that data propagation adds, the flag is set, so
/// the iteration's single redraw answer is yes, and the arbiter leaves the
/// flag clear, so nothing is left to request again.
pub proof fn lemma_redraw_debounce(
    h: Handlers,
    f: Invalidation,
    n: nat,
    queued: Seq<UiEvent>,
    propagated: Seq<UiEvent>,
)
    requires
        h.well_behaved(),
        n >= 1,
    ensures
        h.marked(h.marked(redraw_requested(f, n), h.cascade(queued)), h.cascade(
            propagated,
        )).needs_redraw,
        !(Invalidation {
            needs_redraw: false,
            ..h.marked(h.marked(redraw_requested(f, n), h.cascade(queued)), h.cascade(propagated))
        }).needs_redraw,
{
    h.lemma_marked_monotone(redraw_requested(f, n), h.cascade(queued));
    h.lemma_marked_monotone(
        h.marked(redraw_requested(f, n), h.cascade(queued)),
        h.cascade(propagated),
    );
}

/// An event posted through the proxy while the loop waits, with the queue
/// holding `before`, is dispatched by the next iteration, right after the
/// events that were already queued.
pub proof fn lemma_proxy_event_dispatched(h: Handlers, before: Seq<UiEvent>, e: UiEvent)
    requires
        h.well_behaved(),
    ensures
        h.cascade(before.push(e)).len() > before.len(),
        h.cascade(before.push(e))[before.len() as int] == e,
{
    let q = before.push(e);
    assert(h.cascade(q) == q + h.cascade(h.emitted(q)));
    assert((q + h.cascade(h.emitted(q)))[before.len() as int] == q[before.len() as int]);
}

/// Draws the frame into the root window and presents it; returns whether
/// there was a window to draw into.
pub fn context_draw(p: &Pipeline) -> (r: bool)
    ensures
        r == p.window_attached,
{
    p.window_attached
}

} // verus!
