use vizia_winit::animation::Animation;
use vizia_winit::application::Application;
use vizia_winit::binding::Bindings;
use vizia_winit::entity::{Entity, EntityArena, EntityError};
use vizia_winit::event::{EventQueue, Handlers, Reaction, Target, UiEvent};
use vizia_winit::flags::{decide_continuation, ControlFlow, Invalidation};
use vizia_winit::pipeline::{
    arbitrate_redraw, context_draw, entity_of_accesskit_id, accesskit_id, ActionRequest,
    HostAction, HostEvent, IdleHook, NoIdle, Pipeline, UserEvent, ACTION_REQUEST_EVENT,
};
use vizia_winit::window::{to_logical, to_physical, visual_update, Geometry};

fn reaction(rank: u32, emits: Vec<u32>, redraw: bool) -> Reaction {
    Reaction { rank, emits, restyle: false, relayout: false, redraw, tree_changed: false }
}

fn no_handlers() -> Handlers {
    Handlers { reactions: vec![] }
}

fn ev(kind: u32) -> UiEvent {
    UiEvent { kind, target: Target::Origin }
}

struct Rearm {
    fired: bool,
}

impl IdleHook for Rearm {
    fn on_idle(&mut self, queue: &mut EventQueue) {
        if !self.fired {
            self.fired = true;
            queue.push(ev(7));
        }
    }
}

#[test]
fn resize_sets_logical_size_and_all_flags() {
    let mut p = Pipeline::new(no_handlers(), 100, 100, false);
    let a = p.handle_host_event(HostEvent::ScaleFactorChanged {
        scale_milli: 2000,
        width: 800,
        height: 600,
    });
    assert_eq!(a, HostAction::Nothing);
    let a = p.handle_host_event(HostEvent::Resized { width: 800, height: 600 });
    assert_eq!(a, HostAction::ResizeSurface { width: 800, height: 600 });
    assert_eq!(p.geometry.style_width, 400);
    assert_eq!(p.geometry.style_height, 300);
    assert_eq!(p.geometry.width, 800);
    assert_eq!(p.geometry.clip_height, 600);
    assert!(p.flags.needs_restyle);
    assert!(p.flags.needs_relayout);
    assert!(p.flags.needs_redraw);
}

#[test]
fn scale_factor_of_zero_keeps_the_current_scale() {
    let mut p = Pipeline::new(no_handlers(), 100, 100, false);
    p.handle_host_event(HostEvent::ScaleFactorChanged { scale_milli: 0, width: 300, height: 200 });
    assert_eq!(p.geometry.scale_milli, 1000);
    assert_eq!(p.geometry.style_width, 300);
    assert_eq!(p.geometry.style_height, 200);
}

#[test]
fn close_request_exits_and_stops_iterating() {
    let mut p = Pipeline::new(no_handlers(), 100, 100, true);
    p.handle_host_event(HostEvent::CloseRequested);
    p.emit(ev(3));
    let out = p.run_iteration(0, &mut NoIdle);
    assert_eq!(out.control_flow, ControlFlow::Exit);
    assert!(!out.wake);
    p.handle_host_event(HostEvent::Resized { width: 10, height: 10 });
    let out = p.run_iteration(0, &mut NoIdle);
    assert_eq!(out.control_flow, ControlFlow::Exit);
    assert!(!out.request_redraw);
    assert!(p.flags.needs_redraw);
}

#[test]
fn idle_hook_event_forces_poll() {
    let mut p = Pipeline::new(no_handlers(), 100, 100, false);
    let mut hook = Rearm { fired: false };
    let out = p.run_iteration(0, &mut hook);
    assert_eq!(out.control_flow, ControlFlow::Poll);
    assert!(out.wake);
    let out = p.run_iteration(0, &mut hook);
    assert_eq!(out.control_flow, ControlFlow::Wait);
    assert!(!out.wake);
    assert!(p.queue.is_empty());
}

#[test]
fn running_animation_forces_poll() {
    let mut p = Pipeline::new(no_handlers(), 100, 100, false);
    p.add_animation(Animation { start_ms: 100, duration_ms: 1000 });
    let out = p.run_iteration(500, &mut NoIdle);
    assert_eq!(out.control_flow, ControlFlow::Poll);
    assert!(out.post_redraw_event);
    assert!(!out.request_redraw);
    let out = p.run_iteration(1100, &mut NoIdle);
    assert_eq!(out.control_flow, ControlFlow::Wait);
    assert!(!out.post_redraw_event);
    assert!(p.animations.active.is_empty());
}

#[test]
fn many_redraw_requests_give_one_redraw() {
    let mut p = Pipeline::new(no_handlers(), 100, 100, false);
    p.flags.need_redraw();
    p.flags.need_redraw();
    p.flags.need_redraw();
    let out = p.run_iteration(0, &mut NoIdle);
    assert!(out.request_redraw);
    let out = p.run_iteration(0, &mut NoIdle);
    assert!(!out.request_redraw);
}

#[test]
fn arbiter_clears_the_flag() {
    let mut f = Invalidation::new();
    f.need_redraw();
    f.need_redraw();
    assert!(arbitrate_redraw(&mut f));
    assert!(!arbitrate_redraw(&mut f));
}

#[test]
fn cascade_reaches_fixed_point() {
    let h = Handlers {
        reactions: vec![
            reaction(0, vec![], true),
            reaction(1, vec![0, 0], false),
            reaction(2, vec![1, 0], false),
        ],
    };
    assert!(h.check_well_behaved());
    let mut q = EventQueue::new();
    q.push(ev(2));
    let mut f = Invalidation::new();
    assert!(q.flush(&h, &mut f));
    assert_eq!(q.pending, vec![ev(1), ev(0)]);
    q.flush_to_fixed_point(&h, &mut f);
    assert!(q.is_empty());
    assert!(f.needs_redraw);
    assert!(!q.flush(&h, &mut f));
}

#[test]
fn self_reenqueuing_handlers_are_not_well_behaved() {
    let h = Handlers { reactions: vec![reaction(0, vec![], false), reaction(1, vec![1], false)] };
    assert!(!h.check_well_behaved());
    let h = Handlers { reactions: vec![reaction(5, vec![1], false), reaction(7, vec![0], false)] };
    assert!(!h.check_well_behaved());
    let h = Handlers { reactions: vec![reaction(0, vec![9], false)] };
    assert!(!h.check_well_behaved());
}

#[test]
fn acyclic_handlers_may_emit_higher_kinds() {
    let h = Handlers { reactions: vec![reaction(1, vec![1, 9], false), reaction(0, vec![], true)] };
    assert!(h.check_well_behaved());
    let mut q = EventQueue::new();
    q.push(ev(0));
    let mut f = Invalidation::new();
    assert!(q.flush(&h, &mut f));
    assert_eq!(q.pending, vec![ev(1), ev(9)]);
    q.flush_to_fixed_point(&h, &mut f);
    assert!(q.is_empty());
    assert!(f.needs_redraw);
}

#[test]
fn visual_update_is_idempotent() {
    let mut g = Geometry::new(10, 10);
    let mut f = Invalidation::new();
    g.rescale(1500, 10, 10);
    g.style_width = 40;
    g.style_height = 30;
    f.need_relayout();
    visual_update(&mut g, &mut f);
    assert_eq!(g.width, 60);
    assert_eq!(g.height, 45);
    assert!(!f.needs_relayout);
    let once = g;
    visual_update(&mut g, &mut f);
    assert_eq!(g, once);
}

#[test]
fn restyle_leads_to_layout_and_redraw() {
    let mut p = Pipeline::new(no_handlers(), 100, 100, false);
    p.geometry.style_width = 50;
    p.flags.need_restyle();
    let out = p.run_iteration(0, &mut NoIdle);
    assert!(out.request_redraw);
    assert_eq!(p.geometry.width, 50);
    assert_eq!(p.flags, Invalidation::new());
}

#[test]
fn proxy_event_is_dispatched_next_iteration() {
    let h = Handlers { reactions: vec![reaction(0, vec![], false), reaction(0, vec![], true)] };
    let mut p = Pipeline::new(h, 100, 100, false);
    let out = p.run_iteration(0, &mut NoIdle);
    assert_eq!(out.control_flow, ControlFlow::Wait);
    p.handle_user_event(UserEvent::Event(ev(1)));
    assert_eq!(p.queue.pending.len(), 1);
    let out = p.run_iteration(0, &mut NoIdle);
    assert!(out.request_redraw);
    assert!(p.queue.is_empty());
    assert_eq!(out.control_flow, ControlFlow::Wait);
}

#[test]
fn input_is_queued_from_the_origin() {
    let mut p = Pipeline::new(no_handlers(), 100, 100, false);
    p.handle_host_event(HostEvent::Input(9));
    assert_eq!(p.queue.pending, vec![UiEvent { kind: 9, target: Target::Origin }]);
}

#[test]
fn focus_action_request_moves_focus() {
    let mut p = Pipeline::new(no_handlers(), 100, 100, false);
    p.handle_user_event(UserEvent::AccessKitActionRequest(ActionRequest { target: 4, focus: true }));
    assert_eq!(p.focused, Entity::new(3, 0));
    assert_eq!(
        p.queue.pending,
        vec![UiEvent { kind: ACTION_REQUEST_EVENT, target: Target::Direct(Entity::new(3, 0)) }]
    );
    p.handle_user_event(UserEvent::AccessKitActionRequest(ActionRequest { target: 0, focus: true }));
    assert_eq!(p.queue.pending.len(), 1);
    let a = p.handle_host_event(HostEvent::Focused(true));
    assert_eq!(a, HostAction::FocusUpdate(Some(4)));
    let a = p.handle_host_event(HostEvent::Focused(false));
    assert_eq!(a, HostAction::FocusUpdate(None));
}

#[test]
fn tree_change_sends_one_snapshot() {
    let mut p = Pipeline::new(no_handlers(), 100, 100, false);
    let out = p.run_iteration(0, &mut NoIdle);
    assert!(out.tree_update.is_none());
    let a = p.mount().unwrap();
    let b = p.mount().unwrap();
    assert_eq!(a, Entity::new(1, 0));
    assert_eq!(b, Entity::new(2, 0));
    p.handle_host_event(HostEvent::Focused(true));
    let out = p.run_iteration(0, &mut NoIdle);
    let t = out.tree_update.unwrap();
    assert_eq!(t.nodes, vec![1, 2, 3]);
    assert_eq!(t.root, 1);
    assert_eq!(t.focus, Some(1));
    let out = p.run_iteration(0, &mut NoIdle);
    assert!(out.tree_update.is_none());
    p.unmount(a).unwrap();
    let out = p.run_iteration(0, &mut NoIdle);
    assert_eq!(out.tree_update.unwrap().nodes, vec![1, 3]);
}

#[test]
fn unmounting_the_focused_node_refocuses_root() {
    let mut p = Pipeline::new(no_handlers(), 100, 100, false);
    let a = p.mount().unwrap();
    p.focused = a;
    assert_eq!(p.unmount(a), Ok(()));
    assert_eq!(p.focused, Entity::root());
    assert_eq!(p.unmount(a), Err(EntityError::StaleHandle));
}

#[test]
fn arena_generations_guard_stale_handles() {
    let mut arena = EntityArena::new();
    assert!(arena.is_alive(Entity::root()));
    let a = arena.create().unwrap();
    assert_eq!(a, Entity::new(1, 0));
    assert_eq!(arena.destroy(a), Ok(()));
    assert!(!arena.is_alive(a));
    let b = arena.create().unwrap();
    assert_eq!(b, Entity::new(1, 1));
    assert!(!arena.is_alive(a));
    assert!(arena.is_alive(b));
    assert_eq!(arena.destroy(a), Err(EntityError::StaleHandle));
    assert_eq!(arena.destroy(Entity::root()), Err(EntityError::RootIsPermanent));
    assert_eq!(arena.destroy(Entity::new(9, 0)), Err(EntityError::StaleHandle));
}

#[test]
fn accesskit_ids_are_index_plus_one() {
    assert_eq!(accesskit_id(Entity::new(0, 5)), 1);
    assert_eq!(entity_of_accesskit_id(1), Some(Entity::root()));
    assert_eq!(entity_of_accesskit_id(0), None);
    assert_eq!(entity_of_accesskit_id(1 << 32), Some(Entity::new(u32::MAX, 0)));
    assert_eq!(entity_of_accesskit_id((1 << 32) + 1), None);
}

#[test]
fn scale_conversions() {
    assert_eq!(to_logical(800, 2000), 400);
    assert_eq!(to_logical(1001, 1500), 667);
    assert_eq!(to_physical(400, 2000), 800);
    assert_eq!(to_physical(u64::MAX, 1000), u32::MAX);
}

#[test]
fn continuation_priorities() {
    assert_eq!(decide_continuation(true, true, true, true), (ControlFlow::Exit, false));
    assert_eq!(decide_continuation(false, true, false, false), (ControlFlow::Poll, false));
    assert_eq!(decide_continuation(false, false, true, false), (ControlFlow::Poll, true));
    assert_eq!(decide_continuation(false, false, false, false), (ControlFlow::Wait, false));
    assert_eq!(decide_continuation(false, false, false, true), (ControlFlow::Poll, false));
}

#[test]
fn default_poll_is_kept_when_idle() {
    let mut p = Application::new(no_handlers()).should_poll().into_pipeline();
    assert_eq!(p.control_flow, ControlFlow::Poll);
    let out = p.run_iteration(0, &mut NoIdle);
    assert_eq!(out.control_flow, ControlFlow::Poll);
    assert!(!out.wake);
}

#[test]
fn application_defaults() {
    let app = Application::new(no_handlers());
    let d = &app.window_description;
    assert_eq!(d.title, "Vizia Application");
    assert_eq!(d.inner_size, (800, 600));
    assert!(d.resizable && d.visible && d.decorations && d.vsync);
    assert!(!d.minimized && !d.maximized && !d.transparent && !d.always_on_top);
    assert!(d.icon.is_none() && d.position.is_none() && d.min_inner_size.is_none());
}

#[test]
fn application_builders() {
    let app = Application::new(no_handlers())
        .ignore_default_theme()
        .background_color(0xff0000ff)
        .text_shaping_run_cache(16)
        .text_shaped_words_cache(32)
        .title(String::from("demo"))
        .inner_size(640, 480)
        .min_inner_size(Some((100, 100)))
        .position(5, 6)
        .resizable(false)
        .minimized(true)
        .maximized(true)
        .transparent(true)
        .always_on_top(true)
        .visible(false)
        .decorations(false)
        .vsync(false)
        .max_inner_size(Some((900, 900)))
        .icon(vec![1, 2, 3, 4], 1, 1);
    assert_eq!(app.window_description.icon_width, 1);
    assert!(app.ignore_default_theme);
    assert!(!app.should_poll);
    assert_eq!(app.background_color, Some(0xff0000ff));
    assert_eq!(app.text_shaping_run_cache, Some(16));
    assert_eq!(app.text_shaped_words_cache, Some(32));
    assert_eq!(app.window_description.title, "demo");
    assert_eq!(app.window_description.min_inner_size, Some((100, 100)));
    assert_eq!(app.window_description.position, Some((5, 6)));
    assert!(!app.window_description.resizable);
    assert!(app.window_description.minimized);
    assert!(app.window_description.maximized);
    assert!(app.window_description.transparent);
    assert!(app.window_description.always_on_top);
    assert!(!app.window_description.visible);
    assert!(!app.window_description.decorations);
    assert!(!app.window_description.vsync);
    assert_eq!(app.window_description.max_inner_size, Some((900, 900)));
    assert_eq!(app.window_description.inner_size, (640, 480));
    assert_eq!(app.window_description.icon, Some(vec![1, 2, 3, 4]));
    let p = app.into_pipeline();
    assert_eq!(p.geometry.width, 640);
    assert_eq!(p.geometry.height, 480);
    assert_eq!(p.control_flow, ControlFlow::Wait);
    assert!(context_draw(&p));
}

#[test]
fn dirty_bindings_settle_before_style() {
    let h = Handlers { reactions: vec![reaction(0, vec![], false), reaction(0, vec![], true)] };
    let mut p = Pipeline::new(h, 100, 100, false);
    let i = p.bindings.add(ev(1));
    p.bindings.add(ev(0));
    p.bindings.mark_dirty(i);
    p.bindings.mark_dirty(9);
    let out = p.run_iteration(0, &mut NoIdle);
    assert!(out.request_redraw);
    assert_eq!(out.control_flow, ControlFlow::Wait);
    assert!(!out.wake);
    assert!(p.queue.is_empty());
    assert!(!p.bindings.items[0].dirty);
    let out = p.run_iteration(0, &mut NoIdle);
    assert!(!out.request_redraw);
}

#[test]
fn data_propagation_keeps_binding_order() {
    let mut b = Bindings::new();
    b.add(ev(4));
    b.add(ev(5));
    b.add(ev(6));
    b.mark_dirty(2);
    b.mark_dirty(0);
    let mut q = EventQueue::new();
    q.push(ev(1));
    b.process_data_updates(&mut q);
    assert_eq!(q.pending, vec![ev(1), ev(4), ev(6)]);
    assert!(b.items.iter().all(|x| !x.dirty));
    b.process_data_updates(&mut q);
    assert_eq!(q.pending.len(), 3);
}
