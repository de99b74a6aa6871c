use boids::{Action, Event, FramePlan, Phase, PhysicalSize, RenderOutcome, State, SurfaceConfig};

fn ready(num_particles: u32, width: u32, height: u32) -> State {
    State::new(num_particles, PhysicalSize::new(width, height), 0)
}

#[test]
fn new_state_is_ready_at_frame_zero() {
    let s = State::new(5120, PhysicalSize::new(1600, 1200), 2);
    assert_eq!(s.phase, Phase::Ready);
    assert_eq!(s.frame, 0);
    assert_eq!(s.num_particles, 5120);
    assert_eq!(s.size(), PhysicalSize::new(1600, 1200));
    assert_eq!(
        s.config,
        SurfaceConfig { format: 2, present_mode: 0, alpha_mode: 0, width: 1600, height: 1200 }
    );
}

#[test]
fn resize_sequence_keeps_last_drawable_size() {
    let mut s = ready(2, 640, 480);
    let a = s.handle(Event::Resized(PhysicalSize::new(800, 600)));
    assert_eq!(a, Action::Configure(s.config));
    s.handle(Event::Configured);
    let before = s;
    assert_eq!(s.handle(Event::Resized(PhysicalSize::new(0, 400))), Action::Nothing);
    assert_eq!(s, before);
    let a = s.handle(Event::Resized(PhysicalSize::new(1024, 768)));
    assert_eq!(s.size(), PhysicalSize::new(1024, 768));
    assert_eq!((s.config.width, s.config.height), (1024, 768));
    assert_eq!(a, Action::Configure(s.config));
    s.handle(Event::Configured);
    assert_eq!(s.phase, Phase::Ready);
}

#[test]
fn resize_twice_is_resize_once() {
    let mut once = ready(8, 100, 100);
    let mut twice = once;
    assert!(once.resize(PhysicalSize::new(300, 200)));
    assert!(twice.resize(PhysicalSize::new(300, 200)));
    assert!(twice.resize(PhysicalSize::new(300, 200)));
    assert_eq!(once, twice);
    assert_eq!(once.config, twice.config);
}

#[test]
fn resize_with_zero_side_is_noop() {
    let mut s = ready(8, 100, 100);
    let before = s;
    assert!(!s.resize(PhysicalSize::new(0, 50)));
    assert!(!s.resize(PhysicalSize::new(50, 0)));
    assert!(!s.resize(PhysicalSize::new(0, 0)));
    assert_eq!(s, before);
}

#[test]
fn render_alternates_buffers() {
    let s = ready(5120, 10, 10);
    let even = s.render(0);
    assert_eq!(
        even,
        FramePlan { compute_binding: 0, workgroups: 80, render_buffer: 1, instances: 5120, vertices: 3 }
    );
    let odd = s.render(1);
    assert_eq!(odd.compute_binding, 1);
    assert_eq!(odd.render_buffer, 0);
    let last = s.render(u64::MAX);
    assert_eq!((last.compute_binding, last.render_buffer), (1, 0));
}

#[test]
fn render_reads_what_compute_wrote() {
    let s = ready(100, 10, 10);
    for t in 0..6u64 {
        let plan = s.render(t);
        let set = boids::binding_set(plan.compute_binding);
        assert_eq!(plan.render_buffer, set.destination);
        assert_ne!(plan.render_buffer, set.source);
        let next = boids::binding_set(s.render(t + 1).compute_binding);
        assert_eq!(next.source, plan.render_buffer);
    }
}

#[test]
fn frame_cycle_advances_counter() {
    let mut s = ready(64, 10, 10);
    assert_eq!(s.handle(Event::Idle), Action::RequestRedraw);
    let a = s.handle(Event::RedrawRequested);
    assert_eq!(a, Action::Render(s.render(0)));
    assert_eq!(s.phase, Phase::Rendering);
    assert_eq!(s.handle(Event::RedrawRequested), Action::Nothing);
    assert_eq!(s.handle(Event::Rendered(RenderOutcome::Presented)), Action::Nothing);
    assert_eq!(s.phase, Phase::Ready);
    assert_eq!(s.frame, 1);
    match s.handle(Event::RedrawRequested) {
        Action::Render(plan) => {
            assert_eq!(plan.compute_binding, 1);
            assert_eq!(plan.render_buffer, 0);
            assert_eq!(plan.workgroups, 1);
        }
        other => panic!("expected a render, got {:?}", other),
    }
}

#[test]
fn out_of_memory_terminates() {
    let mut s = ready(2, 10, 10);
    assert!(matches!(s.handle(Event::RedrawRequested), Action::Render(_)));
    assert_eq!(s.handle(Event::Rendered(RenderOutcome::OutOfMemory)), Action::Exit);
    assert_eq!(s.phase, Phase::Terminated);
    let frozen = s;
    for e in [
        Event::RedrawRequested,
        Event::Idle,
        Event::Resized(PhysicalSize::new(5, 5)),
        Event::Rendered(RenderOutcome::Presented),
        Event::RedrawRequested,
    ] {
        assert_eq!(s.handle(e), Action::Exit);
        assert_eq!(s, frozen);
    }
}

#[test]
fn surface_lost_reconfigures_with_stored_size() {
    let mut s = ready(2, 10, 10);
    s.handle(Event::Resized(PhysicalSize::new(800, 600)));
    s.handle(Event::Configured);
    s.config.width = 1;
    s.handle(Event::RedrawRequested);
    let a = s.handle(Event::Rendered(RenderOutcome::SurfaceLost));
    assert_eq!(s.phase, Phase::ResizePending);
    assert_eq!(s.frame, 1);
    assert_eq!((s.config.width, s.config.height), (800, 600));
    assert_eq!(a, Action::Configure(s.config));
    assert_eq!(s.handle(Event::Configured), Action::Nothing);
    assert_eq!(s.phase, Phase::Ready);
}

#[test]
fn resize_waits_for_configuration() {
    let mut s = ready(2, 10, 10);
    assert!(matches!(s.handle(Event::Resized(PhysicalSize::new(30, 20))), Action::Configure(_)));
    assert_eq!(s.phase, Phase::ResizePending);
    assert_eq!(s.handle(Event::RedrawRequested), Action::Nothing);
    assert_eq!(s.handle(Event::Idle), Action::RequestRedraw);
    assert_eq!(s.handle(Event::Configured), Action::Nothing);
    assert_eq!(s.phase, Phase::Ready);
    assert_eq!(s.handle(Event::Configured), Action::Nothing);
    assert_eq!(s.phase, Phase::Ready);
    assert!(matches!(s.handle(Event::RedrawRequested), Action::Render(_)));
}

#[test]
fn surface_lost_with_zero_size_configures_nothing() {
    let mut s = ready(2, 0, 0);
    s.handle(Event::RedrawRequested);
    assert_eq!(s.handle(Event::Rendered(RenderOutcome::SurfaceLost)), Action::Nothing);
    assert_eq!(s.phase, Phase::Ready);
}

#[test]
fn transient_error_skips_frame_and_advances_counter() {
    let mut s = ready(2, 10, 10);
    s.handle(Event::RedrawRequested);
    assert_eq!(s.handle(Event::Rendered(RenderOutcome::Transient)), Action::SkipFrame);
    assert_eq!(s.phase, Phase::Ready);
    assert_eq!(s.frame, 1);
}

#[test]
fn close_terminates_from_any_phase() {
    let mut ready_state = ready(2, 10, 10);
    assert_eq!(ready_state.handle(Event::Close), Action::Exit);
    assert_eq!(ready_state.phase, Phase::Terminated);
    let mut rendering = ready(2, 10, 10);
    rendering.handle(Event::RedrawRequested);
    assert_eq!(rendering.handle(Event::Close), Action::Exit);
    assert_eq!(rendering.phase, Phase::Terminated);
    assert_eq!(rendering.handle(Event::RedrawRequested), Action::Exit);
}

#[test]
fn stray_render_outcome_is_ignored() {
    let mut s = ready(2, 10, 10);
    let before = s;
    assert_eq!(s.handle(Event::Rendered(RenderOutcome::OutOfMemory)), Action::Nothing);
    assert_eq!(s, before);
}

#[test]
fn frame_counter_wraps_keeping_parity() {
    let mut s = ready(2, 10, 10);
    s.frame = u64::MAX;
    s.handle(Event::RedrawRequested);
    s.handle(Event::Rendered(RenderOutcome::Presented));
    assert_eq!(s.frame, 0);
}

#[test]
fn surface_errors_are_classified() {
    assert_eq!(RenderOutcome::from_surface_error(&wgpu::SurfaceError::Lost), RenderOutcome::SurfaceLost);
    assert_eq!(
        RenderOutcome::from_surface_error(&wgpu::SurfaceError::OutOfMemory),
        RenderOutcome::OutOfMemory
    );
    assert_eq!(RenderOutcome::from_surface_error(&wgpu::SurfaceError::Timeout), RenderOutcome::Transient);
    assert_eq!(RenderOutcome::from_surface_error(&wgpu::SurfaceError::Outdated), RenderOutcome::Transient);
}
