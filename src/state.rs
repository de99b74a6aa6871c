//! The frame orchestrator: a state machine driven by platform events and by
//! the outcome of each render attempt. It decides; the caller performs the
//! returned action on the graphics device and reports back.
use vstd::prelude::*;
use crate::frame::{
    compute_binding_of, frame_plan, lemma_render_reads_compute_output, render_buffer_of,
    spec_binding_set, spec_frame_plan, FramePlan,
};
use crate::surface::{PhysicalSize, SurfaceConfig};

verus! {

/// Phase of the orchestrator. A `State` exists once the graphics context and
/// the simulation resources do, and starts `Ready`. It is `Rendering` while a
/// frame is being drawn and presented, `ResizePending` while a new surface
/// configuration is being applied, and `Terminated` for good after a close
/// signal or a fatal error.
#[derive(Clone, Copy, Debug, PartialEq, Eq, Structural)]
pub enum Phase {
    Ready,
    Rendering,
    ResizePending,
    Terminated,
}

/// How a render attempt ended.
#[derive(Clone, Copy, Debug, PartialEq, Eq, Structural)]
pub enum RenderOutcome {
    /// The frame was submitted and presented.
    Presented,
    /// The surface was lost; it is reconfigured with the stored size.
    SurfaceLost,
    /// The device ran out of memory: fatal.
    OutOfMemory,
    /// Any other acquisition error (timeout, outdated surface): the frame is skipped.
    Transient,
}

/// wgpu's error from acquiring the next surface image (`wgpu::SurfaceError`).
/// Its variants, four without fields, are read from wgpu's own definition.
#[verifier::external_type_specification]
pub struct ExSurfaceError(wgpu::SurfaceError);

impl RenderOutcome {
    /// How a failed acquisition of the next surface image is treated: a lost
    /// surface is rebuilt, running out of memory is fatal, and a timeout or an
    /// outdated surface only skips the frame.
    pub fn from_surface_error(e: &wgpu::SurfaceError) -> (r: RenderOutcome)
        ensures
            r == match *e {
                wgpu::SurfaceError::Lost => RenderOutcome::SurfaceLost,
                wgpu::SurfaceError::OutOfMemory => RenderOutcome::OutOfMemory,
                wgpu::SurfaceError::Timeout => RenderOutcome::Transient,
                wgpu::SurfaceError::Outdated => RenderOutcome::Transient,
            },
    {
        match e {
            wgpu::SurfaceError::Lost => RenderOutcome::SurfaceLost,
            wgpu::SurfaceError::OutOfMemory => RenderOutcome::OutOfMemory,
            wgpu::SurfaceError::Timeout => RenderOutcome::Transient,
            wgpu::SurfaceError::Outdated => RenderOutcome::Transient,
        }
    }
}

/// A signal delivered to the orchestrator.
#[derive(Clone, Copy, Debug, PartialEq, Eq, Structural)]
pub enum Event {
    /// The window is asked to close.
    Close,
    /// The drawable area changed size (also on a scale-factor change).
    Resized(PhysicalSize),
    /// The platform asks for a frame to be drawn.
    RedrawRequested,
    /// The platform has no more events queued.
    Idle,
    /// The configuration that the last `Action::Configure` asked for was applied.
    Configured,
    /// The render attempt that the last `Action::Render` asked for ended.
    Rendered(RenderOutcome),
}

/// What the caller must do after an event.
#[derive(Clone, Copy, Debug, PartialEq, Eq, Structural)]
pub enum Action {
    /// Nothing.
    Nothing,
    /// Leave the event loop.
    Exit,
    /// Apply this configuration to the surface and report it with `Event::Configured`.
    Configure(SurfaceConfig),
    /// Ask the platform for a redraw.
    RequestRedraw,
    /// Acquire the next surface image, record this plan as one submission,
    /// submit, present, and report the outcome with `Event::Rendered`.
    Render(FramePlan),
    /// Report the acquisition error; the frame was skipped.
    SkipFrame,
}

/// Orchestrator state: the stored surface size and configuration, the fixed
/// particle count, the frame counter and the phase.
#[derive(Clone, Copy, Debug, PartialEq, Eq, Structural)]
pub struct State {
    pub size: PhysicalSize,
    pub config: SurfaceConfig,
    pub num_particles: u32,
    pub frame: u64,
    pub phase: Phase,
}

/// The frame counter after one more render attempt. It wraps at 2^64, which
/// keeps its parity in step with the number of attempts.
pub open spec fn next_frame(t: u64) -> u64 {
    if t == u64::MAX { 0 } else { (t + 1) as u64 }
}

impl State {
    /// The particle count is positive.
    pub open spec fn wf(self) -> bool {
        self.num_particles > 0
    }

    /// The state after a resize to `new_size`: size and configuration follow a
    /// drawable size; any other size leaves the state as it was.
    pub open spec fn resized(self, new_size: PhysicalSize) -> State {
        if new_size.is_drawable() {
            State { size: new_size, config: self.config.with_size(new_size), ..self }
        } else {
            self
        }
    }

    /// The transition of a resize to `new_size`: a drawable size is stored and
    /// its configuration handed out for the surface, and a ready orchestrator
    /// then waits for it to be applied; any other size changes nothing.
    pub open spec fn on_resize(self, new_size: PhysicalSize) -> (State, Action) {
        if new_size.is_drawable() {
            let s = self.resized(new_size);
            (
                if self.phase == Phase::Ready { State { phase: Phase::ResizePending, ..s } } else { s },
                Action::Configure(s.config),
            )
        } else {
            (self, Action::Nothing)
        }
    }

    /// The state after a render attempt with the given outcome, and the action
    /// it asks for.
    pub open spec fn after_render(self, outcome: RenderOutcome) -> (State, Action) {
        let s = State { frame: next_frame(self.frame), phase: Phase::Ready, ..self };
        match outcome {
            RenderOutcome::Presented => (s, Action::Nothing),
            RenderOutcome::SurfaceLost => s.on_resize(s.size),
            RenderOutcome::OutOfMemory => (State { phase: Phase::Terminated, ..s }, Action::Exit),
            RenderOutcome::Transient => (s, Action::SkipFrame),
        }
    }

    /// One transition of the orchestrator.
    pub open spec fn next(self, event: Event) -> (State, Action) {
        match self.phase {
            Phase::Terminated => (self, Action::Exit),
            _ => match event {
                Event::Close => (State { phase: Phase::Terminated, ..self }, Action::Exit),
                Event::Resized(sz) => self.on_resize(sz),
                Event::Idle => (self, Action::RequestRedraw),
                Event::Configured => if self.phase == Phase::ResizePending {
                    (State { phase: Phase::Ready, ..self }, Action::Nothing)
                } else {
                    (self, Action::Nothing)
                },
                Event::RedrawRequested => if self.phase == Phase::Ready {
                    (
                        State { phase: Phase::Rendering, ..self },
                        Action::Render(spec_frame_plan(self.num_particles, self.frame as int)),
                    )
                } else {
                    (self, Action::Nothing)
                },
                Event::Rendered(outcome) => if self.phase == Phase::Rendering {
                    self.after_render(outcome)
                } else {
                    (self, Action::Nothing)
                },
            },
        }
    }

    /// A ready orchestrator for `num_particles` particles, a surface of size
    /// `size` and the surface format at index `format`, at frame 0.
    pub fn new(num_particles: u32, size: PhysicalSize, format: usize) -> (r: State)
        requires
            num_particles > 0,
        ensures
            r.wf(),
            r == (State {
                size,
                config: SurfaceConfig::spec_new(format, size),
                num_particles,
                frame: 0,
                phase: Phase::Ready,
            }),
    {
        State {
            size,
            config: SurfaceConfig::new(format, size),
            num_particles,
            frame: 0,
            phase: Phase::Ready,
        }
    }

    /// The stored surface size.
    pub fn size(&self) -> (r: PhysicalSize)
        ensures
            r == self.size,
    {
        self.size
    }

    /// Applies a new size. A size with a zero side changes nothing; any other
    /// is stored and put in the configuration. Returns whether the surface must
    /// be reconfigured with `self.config`.
    pub fn resize(&mut self, new_size: PhysicalSize) -> (r: bool)
        ensures
            *final(self) == old(self).resized(new_size),
            r == new_size.is_drawable(),
    {
        if new_size.width > 0 && new_size.height > 0 {
            self.size = new_size;
            self.config.width = new_size.width;
            self.config.height = new_size.height;
            true
        } else {
            false
        }
    }

    /// The commands of frame `t`.
    pub fn render(&self, t: u64) -> (r: FramePlan)
        ensures
            r == spec_frame_plan(self.num_particles, t as int),
    {
        frame_plan(self.num_particles, t)
    }

    fn apply_resize(&mut self, new_size: PhysicalSize) -> (r: Action)
        ensures
            *final(self) == old(self).on_resize(new_size).0,
            r == old(self).on_resize(new_size).1,
    {
        if self.resize(new_size) {
            if self.phase == Phase::Ready {
                self.phase = Phase::ResizePending;
            }
            Action::Configure(self.config)
        } else {
            Action::Nothing
        }
    }

    fn finish_render(&mut self, outcome: RenderOutcome) -> (r: Action)
        requires
            old(self).phase == Phase::Rendering,
        ensures
            *final(self) == old(self).after_render(outcome).0,
            r == old(self).after_render(outcome).1,
    {
        self.frame = if self.frame == u64::MAX { 0 } else { self.frame + 1 };
        self.phase = Phase::Ready;
        match outcome {
            RenderOutcome::Presented => Action::Nothing,
            RenderOutcome::SurfaceLost => {
                let size = self.size;
                self.apply_resize(size)
            },
            RenderOutcome::OutOfMemory => {
                self.phase = Phase::Terminated;
                Action::Exit
            },
            RenderOutcome::Transient => Action::SkipFrame,
        }
    }

    /// Feeds one event to the orchestrator and returns what the caller must do.
    pub fn handle(&mut self, event: Event) -> (r: Action)
        ensures
            *final(self) == old(self).next(event).0,
            r == old(self).next(event).1,
    {
        if self.phase == Phase::Terminated {
            return Action::Exit;
        }
        match event {
            Event::Close => {
                self.phase = Phase::Terminated;
                Action::Exit
            },
            Event::Resized(sz) => self.apply_resize(sz),
            Event::Idle => Action::RequestRedraw,
            Event::Configured => {
                if self.phase == Phase::ResizePending {
                    self.phase = Phase::Ready;
                }
                Action::Nothing
            },
            Event::RedrawRequested => {
                if self.phase == Phase::Ready {
                    self.phase = Phase::Rendering;
                    Action::Render(self.render(self.frame))
                } else {
                    Action::Nothing
                }
            },
            Event::Rendered(outcome) => {
                if self.phase == Phase::Rendering {
                    self.finish_render(outcome)
                } else {
                    Action::Nothing
                }
            },
        }
    }
}

/// The state reached and the actions asked for when `events` are fed in order.
pub open spec fn run_events(s: State, events: Seq<Event>) -> (State, Seq<Action>)
    decreases events.len(),
{
    if events.len() == 0 {
        (s, Seq::empty())
    } else {
        let (s1, a) = s.next(events[0]);
        let (s2, rest) = run_events(s1, events.drop_first());
        (s2, seq![a].add(rest))
    }
}

/// Ping-pong across the orchestrator: a redraw in the ready state renders
/// frame `t` with binding set `t mod 2` and draws from buffer `(t+1) mod 2`,
/// the one that this dispatch writes; and once the attempt ends in any way but
/// a fatal one (and a configuration it handed out is applied), the next redraw
/// dispatches with that buffer as its source.
pub proof fn lemma_frames_alternate_buffers(s: State, outcome: RenderOutcome)
    requires
        s.phase == Phase::Ready,
        outcome != RenderOutcome::OutOfMemory,
    ensures
        ({
            let (s1, a1) = s.next(Event::RedrawRequested);
            let after = s1.next(Event::Rendered(outcome)).0;
            let s2 = if after.phase == Phase::ResizePending {
                after.next(Event::Configured).0
            } else {
                after
            };
            let (s3, a2) = s2.next(Event::RedrawRequested);
            let p1 = spec_frame_plan(s.num_particles, s.frame as int);
            let p2 = spec_frame_plan(s.num_particles, s2.frame as int);
            &&& a1 == Action::Render(p1)
            &&& p1.compute_binding as int == compute_binding_of(s.frame as int)
            &&& p1.render_buffer as int == render_buffer_of(s.frame as int)
            &&& p1.render_buffer == spec_binding_set(p1.compute_binding as int).destination
            &&& p1.render_buffer != spec_binding_set(p1.compute_binding as int).source
            &&& s2.phase == Phase::Ready
            &&& a2 == Action::Render(p2)
            &&& spec_binding_set(p2.compute_binding as int).source == p1.render_buffer
        }),
{
    lemma_render_reads_compute_output(s.num_particles, s.frame as int);
}

/// Resizing twice in a row to the same size ends in the same state, and so in
/// the same surface configuration, as resizing once; also when each
/// configuration is applied before the next signal.
pub proof fn lemma_resize_idempotent(s: State, size: PhysicalSize)
    ensures
        s.resized(size).resized(size) == s.resized(size),
        s.next(Event::Resized(size)).0.next(Event::Resized(size)).0 == s.next(Event::Resized(size)).0,
        s.next(Event::Resized(size)).0.next(Event::Resized(size)).0.config
            == s.next(Event::Resized(size)).0.config,
        run_events(
            s,
            seq![Event::Resized(size), Event::Configured, Event::Resized(size), Event::Configured],
        ).0 == run_events(s, seq![Event::Resized(size), Event::Configured]).0,
{
    let once = seq![Event::Resized(size), Event::Configured];
    let twice = seq![Event::Resized(size), Event::Configured, Event::Resized(size), Event::Configured];
    lemma_run_resize_configured(s, size);
    let s2 = run_events(s, once).0;
    lemma_run_resize_configured(s2, size);
    let t1 = twice.drop_first();
    let s1 = s.next(Event::Resized(size)).0;
    assert(t1.drop_first() =~= once);
    assert(run_events(s, twice).0 == run_events(s1, t1).0);
    assert(run_events(s1, t1).0 == run_events(s1.next(Event::Configured).0, once).0);
}

/// Feeding a resize signal and then its completion is the same as taking the
/// two transitions one after the other.
proof fn lemma_run_resize_configured(s: State, size: PhysicalSize)
    ensures
        run_events(s, seq![Event::Resized(size), Event::Configured]).0
            == s.next(Event::Resized(size)).0.next(Event::Configured).0,
{
    let once = seq![Event::Resized(size), Event::Configured];
    let s1 = s.next(Event::Resized(size)).0;
    let rest = once.drop_first();
    assert(rest =~= seq![Event::Configured]);
    assert(rest.drop_first() =~= Seq::<Event>::empty());
    assert(run_events(s, once).0 == run_events(s1, rest).0);
    assert(run_events(s1, rest).0 == run_events(s1.next(Event::Configured).0, rest.drop_first()).0);
}

/// A resize with a zero width or height changes neither the stored size nor
/// the configuration, and asks for no reconfiguration.
pub proof fn lemma_undrawable_resize_is_noop(s: State, size: PhysicalSize)
    requires
        size.width == 0 || size.height == 0,
    ensures
        s.resized(size) == s,
        s.next(Event::Resized(size)).0 == s,
        s.phase != Phase::Terminated ==> s.next(Event::Resized(size)).1 == Action::Nothing,
        s.on_resize(size) == (s, Action::Nothing),
{
}

/// Running out of memory during a render attempt terminates the orchestrator,
/// and from then on every event, in any number, leaves it terminated and asks
/// for nothing but leaving the loop: no frame is rendered or submitted again.
pub proof fn lemma_out_of_memory_is_fatal(s: State, later: Seq<Event>)
    requires
        s.phase == Phase::Rendering,
    ensures
        s.next(Event::Rendered(RenderOutcome::OutOfMemory)).0.phase == Phase::Terminated,
        s.next(Event::Rendered(RenderOutcome::OutOfMemory)).1 == Action::Exit,
        run_events(s.next(Event::Rendered(RenderOutcome::OutOfMemory)).0, later).0.phase
            == Phase::Terminated,
        forall|i: int|
            0 <= i < later.len() ==> run_events(
                s.next(Event::Rendered(RenderOutcome::OutOfMemory)).0,
                later,
            ).1[i] == Action::Exit,
{
    lemma_terminated_stays(s.next(Event::Rendered(RenderOutcome::OutOfMemory)).0, later);
}

/// A terminated orchestrator stays terminated under any sequence of events and
/// answers each of them with `Action::Exit`.
pub proof fn lemma_terminated_stays(s: State, events: Seq<Event>)
    requires
        s.phase == Phase::Terminated,
    ensures
        run_events(s, events).0 == s,
        run_events(s, events).1.len() == events.len(),
        forall|i: int| 0 <= i < events.len() ==> run_events(s, events).1[i] == Action::Exit,
    decreases events.len(),
{
    if events.len() > 0 {
        lemma_terminated_stays(s, events.drop_first());
        let rest = run_events(s, events.drop_first()).1;
        assert forall|i: int| 0 <= i < events.len() implies run_events(s, events).1[i]
            == Action::Exit by {
            if i > 0 {
                assert(run_events(s, events).1[i] == rest[i - 1]);
            }
        }
    }
}

} // verus!
