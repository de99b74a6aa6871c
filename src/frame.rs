//! Roles of the two particle buffers and the work recorded for one frame.
use vstd::prelude::*;

verus! {

/// Invocations in one workgroup of the simulation kernel.
pub const WORKGROUP_SIZE: u32 = 64;

/// Vertices of the triangle drawn for each particle.
pub const SHAPE_VERTICES: u32 = 3;

/// Buffer roles of one resource-binding set: the kernel reads every particle
/// from `source` and writes each particle's new state to `destination`.
#[derive(Clone, Copy, Debug, PartialEq, Eq, Structural)]
pub struct BindingSet {
    pub source: usize,
    pub destination: usize,
}

/// The binding set `i` of the pair: it reads buffer `i` and writes the other.
pub open spec fn spec_binding_set(i: int) -> BindingSet {
    BindingSet { source: i as usize, destination: ((i + 1) % 2) as usize }
}

pub fn binding_set(i: usize) -> (r: BindingSet)
    requires
        i < 2,
    ensures
        r == spec_binding_set(i as int),
{
    BindingSet { source: i, destination: (i + 1) % 2 }
}

/// Index of the binding set that frame `t` dispatches the kernel with.
pub open spec fn compute_binding_of(t: int) -> int {
    t % 2
}

/// Index of the buffer that frame `t` draws from.
pub open spec fn render_buffer_of(t: int) -> int {
    (t + 1) % 2
}

/// Number of workgroups that cover `n` particles.
pub open spec fn workgroups_for(n: int) -> int {
    (n + WORKGROUP_SIZE - 1) / (WORKGROUP_SIZE as int)
}

/// Number of workgroups of `WORKGROUP_SIZE` invocations needed to cover
/// `num_particles` particles, rounded up.
pub fn workgroup_count(num_particles: u32) -> (r: u32)
    ensures
        r as int == workgroups_for(num_particles as int),
        r as int * (WORKGROUP_SIZE as int) >= num_particles as int,
        (r as int - 1) * (WORKGROUP_SIZE as int) < num_particles as int,
{
    let q = num_particles / WORKGROUP_SIZE;
    let r: u32 = if num_particles % WORKGROUP_SIZE == 0 { q } else { q + 1 };
    assert(r as int == workgroups_for(num_particles as int)) by (nonlinear_arith)
        requires
            q == num_particles / 64,
            r == if num_particles % 64 == 0 { q } else { (q + 1) as u32 },
    {}
    r
}

/// The commands of one frame, in the order of one submission: a compute
/// dispatch of `workgroups` workgroups with binding set `compute_binding`, then
/// a render pass that clears the target to black and draws `instances`
/// instances of a `vertices`-vertex shape from buffer `render_buffer`.
#[derive(Clone, Copy, Debug, PartialEq, Eq, Structural)]
pub struct FramePlan {
    pub compute_binding: usize,
    pub workgroups: u32,
    pub render_buffer: usize,
    pub instances: u32,
    pub vertices: u32,
}

/// The plan of frame `t` for `num_particles` particles.
pub open spec fn spec_frame_plan(num_particles: u32, t: int) -> FramePlan {
    FramePlan {
        compute_binding: compute_binding_of(t) as usize,
        workgroups: workgroups_for(num_particles as int) as u32,
        render_buffer: render_buffer_of(t) as usize,
        instances: num_particles,
        vertices: SHAPE_VERTICES,
    }
}

pub fn frame_plan(num_particles: u32, t: u64) -> (r: FramePlan)
    ensures
        r == spec_frame_plan(num_particles, t as int),
{
    let parity = (t % 2) as usize;
    FramePlan {
        compute_binding: parity,
        workgroups: workgroup_count(num_particles),
        render_buffer: (parity + 1) % 2,
        instances: num_particles,
        vertices: SHAPE_VERTICES,
    }
}

/// Ping-pong: in every frame the render pass reads the buffer that the compute
/// dispatch of the same frame wrote, never the one it read; and the next frame
/// reads, as its source, exactly that buffer.
pub proof fn lemma_render_reads_compute_output(num_particles: u32, t: int)
    requires
        t >= 0,
    ensures
        ({
            let plan = spec_frame_plan(num_particles, t);
            let set = spec_binding_set(plan.compute_binding as int);
            &&& plan.compute_binding < 2
            &&& plan.render_buffer < 2
            &&& plan.render_buffer == set.destination
            &&& plan.render_buffer != set.source
            &&& spec_binding_set(compute_binding_of(t + 1)).source == plan.render_buffer
        }),
{
}

} // verus!
