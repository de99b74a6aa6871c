//! Presentable surface: its size and the configuration derived from the
//! capabilities that the surface reports.
use vstd::prelude::*;

verus! {

#[verifier::external_type_specification]
#[verifier::external_body]
pub struct ExTextureFormat(wgpu::TextureFormat);

/// Whether a texture format is sRGB-encoded, as wgpu reports it.
pub uninterp spec fn srgb_encoded(f: wgpu::TextureFormat) -> bool;

/// Relies on `wgpu::TextureFormat::is_srgb`, which depends on the format alone
/// (it compares the format with its sRGB-suffix-free counterpart).
pub assume_specification[ wgpu::TextureFormat::is_srgb ](f: &wgpu::TextureFormat) -> (r: bool)
    ensures
        r == srgb_encoded(*f),
;

/// Size of the window's drawable area, in physical pixels.
#[derive(Clone, Copy, Debug, PartialEq, Eq, Structural)]
pub struct PhysicalSize {
    pub width: u32,
    pub height: u32,
}

impl PhysicalSize {
    pub fn new(width: u32, height: u32) -> (r: PhysicalSize)
        ensures
            r.width == width,
            r.height == height,
    {
        PhysicalSize { width, height }
    }

    /// Both sides are non-zero: a size that the surface can be configured with.
    pub open spec fn is_drawable(self) -> bool {
        self.width > 0 && self.height > 0
    }
}

/// Configuration of the presentable surface. `format`, `present_mode` and
/// `alpha_mode` are indices into the lists that the surface's capability query
/// reported; the surface is always used as a render target.
#[derive(Clone, Copy, Debug, PartialEq, Eq, Structural)]
pub struct SurfaceConfig {
    pub format: usize,
    pub present_mode: usize,
    pub alpha_mode: usize,
    pub width: u32,
    pub height: u32,
}

impl SurfaceConfig {
    /// The configuration for the format at index `format` and the given size,
    /// with the first reported present mode and alpha mode.
    pub open spec fn spec_new(format: usize, size: PhysicalSize) -> SurfaceConfig {
        SurfaceConfig { format, present_mode: 0, alpha_mode: 0, width: size.width, height: size.height }
    }

    pub fn new(format: usize, size: PhysicalSize) -> (r: SurfaceConfig)
        ensures
            r == SurfaceConfig::spec_new(format, size),
    {
        SurfaceConfig { format, present_mode: 0, alpha_mode: 0, width: size.width, height: size.height }
    }

    /// This configuration with its size replaced.
    pub open spec fn with_size(self, size: PhysicalSize) -> SurfaceConfig {
        SurfaceConfig { width: size.width, height: size.height, ..self }
    }
}

/// `i` is the first index whose flag is set.
pub open spec fn is_first_set(flags: Seq<bool>, i: int) -> bool {
    &&& 0 <= i < flags.len()
    &&& flags[i]
    &&& forall|j: int| 0 <= j < i ==> !flags[j]
}

/// The format chosen from a list whose sRGB flags are `flags`: the first
/// sRGB-encoded one, else the first one.
pub open spec fn is_chosen_format(flags: Seq<bool>, i: int) -> bool {
    if exists|k: int| 0 <= k < flags.len() && flags[k] {
        is_first_set(flags, i)
    } else {
        i == 0
    }
}

/// The sRGB flags of a list of formats.
pub open spec fn srgb_flags(formats: Seq<wgpu::TextureFormat>) -> Seq<bool> {
    formats.map_values(|f: wgpu::TextureFormat| srgb_encoded(f))
}

/// Index of the first set flag, or 0 when none is set.
pub fn first_srgb_index(flags: &Vec<bool>) -> (r: usize)
    requires
        flags.len() > 0,
    ensures
        r < flags.len(),
        is_chosen_format(flags@, r as int),
{
    let mut i: usize = 0;
    while i < flags.len()
        invariant
            i <= flags.len(),
            forall|j: int| 0 <= j < i ==> !flags@[j],
        decreases flags.len() - i,
    {
        if flags[i] {
            return i;
        }
        i += 1;
    }
    0
}

/// Index of the surface format to use among those the surface reports: the
/// first sRGB-encoded one, else the first.
pub fn surface_format_index(formats: &Vec<wgpu::TextureFormat>) -> (r: usize)
    requires
        formats.len() > 0,
    ensures
        r < formats.len(),
        is_chosen_format(srgb_flags(formats@), r as int),
{
    let mut flags: Vec<bool> = Vec::new();
    let mut i: usize = 0;
    while i < formats.len()
        invariant
            i <= formats.len(),
            flags@ == srgb_flags(formats@.take(i as int)),
        decreases formats.len() - i,
    {
        let s = formats[i].is_srgb();
        flags.push(s);
        proof {
            assert(formats@.take(i + 1) == formats@.take(i as int).push(formats@[i as int]));
        }
        i += 1;
    }
    proof {
        assert(formats@.take(formats.len() as int) == formats@);
    }
    first_srgb_index(&flags)
}

} // verus!
