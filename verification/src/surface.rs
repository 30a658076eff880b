//! Choosing how the presentable surface is configured.

use crate::gpu::TextureUsages;
use vstd::prelude::*;

verus! {

/// The graphics library's texture format. Its values are carried and compared,
/// never taken apart.
#[verifier::external_type_specification]
#[verifier::external_body]
pub struct ExTextureFormat(wgpu::TextureFormat);

/// What `wgpu::TextureFormat::is_srgb` answers for a format.
pub uninterp spec fn srgb_encoded(format: wgpu::TextureFormat) -> bool;

/// What `wgpu::TextureFormat::add_srgb_suffix` returns for a format.
pub uninterp spec fn srgb_suffixed(format: wgpu::TextureFormat) -> wgpu::TextureFormat;

/// Calls `wgpu::TextureFormat::is_srgb`, a pure function of the format. The
/// answer is not spelled out here: it is named `srgb_encoded`.
#[verifier::external_body]
fn is_srgb(format: &wgpu::TextureFormat) -> (srgb: bool)
    ensures
        srgb == srgb_encoded(*format),
{
    format.is_srgb()
}

/// Calls `wgpu::TextureFormat::add_srgb_suffix`, a pure function of the
/// format. The format that comes back is named `srgb_suffixed`.
#[verifier::external_body]
fn add_srgb_suffix(format: &wgpu::TextureFormat) -> (suffixed: wgpu::TextureFormat)
    ensures
        suffixed == srgb_suffixed(*format),
{
    format.add_srgb_suffix()
}

/// How finished frames reach the display.
#[derive(Copy, Clone, Debug, PartialEq, Eq)]
pub enum PresentMode {
    AutoVsync,
    AutoNoVsync,
    Fifo,
    FifoRelaxed,
    Immediate,
    Mailbox,
}

/// How the surface's alpha channel is composited.
#[derive(Copy, Clone, Debug, PartialEq, Eq)]
pub enum CompositeAlphaMode {
    Auto,
    Opaque,
    PreMultiplied,
    PostMultiplied,
    Inherit,
}

/// What a surface offers on the chosen adapter, each list in the order reported.
#[derive(Debug, PartialEq, Eq)]
pub struct SurfaceCapabilities {
    pub formats: Vec<wgpu::TextureFormat>,
    pub present_modes: Vec<PresentMode>,
    pub alpha_modes: Vec<CompositeAlphaMode>,
}

/// The configuration of the presentable surface.
#[derive(Debug, PartialEq, Eq)]
pub struct SurfaceConfiguration {
    pub usage: TextureUsages,
    pub format: wgpu::TextureFormat,
    pub width: u32,
    pub height: u32,
    pub present_mode: PresentMode,
    pub alpha_mode: CompositeAlphaMode,
    pub view_formats: Vec<wgpu::TextureFormat>,
}

impl SurfaceConfiguration {
    /// This is the configuration chosen from `capabilities` for a window of
    /// `width` by `height` pixels.
    pub open spec fn is_configured_from(
        &self,
        capabilities: SurfaceCapabilities,
        width: u32,
        height: u32,
    ) -> bool {
        &&& self.usage == TextureUsages::spec_render_attachment()
        &&& self.format == capabilities.formats@[preferred_index(srgb_flags(capabilities.formats@))]
        &&& self.width == width
        &&& self.height == height
        &&& self.present_mode == preferred_present_mode(capabilities.present_modes@)
        &&& self.alpha_mode == capabilities.alpha_modes@[0]
        &&& self.view_formats@ == seq![srgb_suffixed(self.format)]
    }
}

/// `i` is the position to prefer among `flags`: that of the first flag that is
/// set, or the front when none is.
pub open spec fn is_preferred_index(flags: Seq<bool>, i: int) -> bool {
    &&& 0 <= i < flags.len()
    &&& forall|j: int| 0 <= j < i ==> !flags[j]
    &&& flags[i] || (i == 0 && forall|j: int| 0 <= j < flags.len() ==> !flags[j])
}

/// The position to prefer among `flags`.
pub open spec fn preferred_index(flags: Seq<bool>) -> int {
    choose|i: int| is_preferred_index(flags, i)
}

/// For each format, whether it is sRGB-encoded.
pub open spec fn srgb_flags(formats: Seq<wgpu::TextureFormat>) -> Seq<bool> {
    Seq::new(formats.len(), |i: int| srgb_encoded(formats[i]))
}

/// The present mode to use: mailbox where it is offered, else fifo.
pub open spec fn preferred_present_mode(offered: Seq<PresentMode>) -> PresentMode {
    if offered.contains(PresentMode::Mailbox) {
        PresentMode::Mailbox
    } else {
        PresentMode::Fifo
    }
}

/// At most one position is the preferred one.
pub proof fn lemma_preferred_index_unique(flags: Seq<bool>, i: int, j: int)
    requires
        is_preferred_index(flags, i),
        is_preferred_index(flags, j),
    ensures
        i == j,
{
    if i < j {
        assert(!flags[i]);
    } else if j < i {
        assert(!flags[j]);
    }
}

/// Finds the position to prefer: the first set flag, or the front.
pub fn choose_preferred(flags: &Vec<bool>) -> (index: usize)
    requires
        flags.len() > 0,
    ensures
        is_preferred_index(flags@, index as int),
        index as int == preferred_index(flags@),
{
    let mut i: usize = 0;
    while i < flags.len()
        invariant
            0 <= i <= flags.len(),
            forall|j: int| 0 <= j < i ==> !flags@[j],
        decreases flags.len() - i,
    {
        if flags[i] {
            proof {
                assert(is_preferred_index(flags@, i as int));
                lemma_preferred_index_unique(flags@, i as int, preferred_index(flags@));
            }
            return i;
        }
        i += 1;
    }
    proof {
        assert(is_preferred_index(flags@, 0));
        lemma_preferred_index_unique(flags@, 0, preferred_index(flags@));
    }
    0
}

/// Whether mailbox presentation is among the offered modes.
pub fn offers_mailbox(offered: &Vec<PresentMode>) -> (found: bool)
    ensures
        found == offered@.contains(PresentMode::Mailbox),
{
    let mut i: usize = 0;
    while i < offered.len()
        invariant
            0 <= i <= offered.len(),
            forall|j: int| 0 <= j < i ==> offered@[j] != PresentMode::Mailbox,
        decreases offered.len() - i,
    {
        match offered[i] {
            PresentMode::Mailbox => {
                return true;
            },
            _ => {},
        }
        i += 1;
    }
    false
}

/// Configures the surface for a window of `width` by `height` pixels from what
/// the surface offers: the first sRGB format, else the first format; mailbox
/// presentation, else fifo; the first alpha mode; rendering as the only use;
/// and the sRGB-suffixed format as the one extra view format.
pub fn create_surface_configuration(
    capabilities: &SurfaceCapabilities,
    width: u32,
    height: u32,
) -> (config: SurfaceConfiguration)
    requires
        capabilities.formats.len() > 0,
        capabilities.alpha_modes.len() > 0,
    ensures
        config.is_configured_from(*capabilities, width, height),
{
    let mut flags: Vec<bool> = Vec::new();
    let mut i: usize = 0;
    while i < capabilities.formats.len()
        invariant
            0 <= i <= capabilities.formats.len(),
            flags@.len() == i,
            forall|j: int| 0 <= j < i ==> flags@[j] == srgb_encoded(capabilities.formats@[j]),
        decreases capabilities.formats.len() - i,
    {
        flags.push(is_srgb(&capabilities.formats[i]));
        i += 1;
    }
    assert(flags@ =~= srgb_flags(capabilities.formats@));
    let format = capabilities.formats[choose_preferred(&flags)];
    let present_mode = if offers_mailbox(&capabilities.present_modes) {
        PresentMode::Mailbox
    } else {
        PresentMode::Fifo
    };
    let mut view_formats: Vec<wgpu::TextureFormat> = Vec::new();
    view_formats.push(add_srgb_suffix(&format));
    SurfaceConfiguration {
        usage: TextureUsages::render_attachment(),
        format,
        width,
        height,
        present_mode,
        alpha_mode: capabilities.alpha_modes[0],
        view_formats,
    }
}

} // verus!
