//! Decision logic of a GPU flocking simulation: the choice of the presentable
//! surface configuration, the ping-pong roles of the two particle buffers, and
//! the frame orchestrator that sequences compute, render, resize and recovery.
pub mod frame;
pub mod state;
pub mod surface;

pub use frame::{binding_set, frame_plan, workgroup_count, BindingSet, FramePlan};
pub use state::{Action, Event, Phase, RenderOutcome, State};
pub use surface::{first_srgb_index, surface_format_index, PhysicalSize, SurfaceConfig};
