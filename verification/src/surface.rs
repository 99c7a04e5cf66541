use vstd::prelude::*;

verus! {

/// Client-area size in physical pixels.
#[derive(Clone, Copy, Debug, PartialEq, Eq, Structural)]
pub struct WindowSize {
    pub width: u32,
    pub height: u32,
}

impl WindowSize {
    /// Both dimensions strictly positive: the only sizes a surface may be
    /// configured with.
    pub open spec fn is_positive(self) -> bool {
        self.width > 0 && self.height > 0
    }
}

/// A pixel format as the platform advertises it: an opaque identifier and
/// whether the format is gamma-correct (sRGB).
#[derive(Clone, Copy, Debug, PartialEq, Eq, Structural)]
pub struct FormatInfo {
    pub id: u32,
    pub srgb: bool,
}

/// The capabilities the platform advertises for a surface: the supported
/// pixel formats, presentation modes and alpha compositing modes, each list
/// in the platform's preference order. Modes are carried as opaque
/// identifiers; the lifecycle manager only ever selects among them.
#[derive(Debug)]
pub struct SurfaceCaps {
    pub formats: Vec<FormatInfo>,
    pub present_modes: Vec<u32>,
    pub alpha_modes: Vec<u32>,
}

impl SurfaceCaps {
    /// A capability set a configuration can be derived from: at least one
    /// entry in each list.
    pub open spec fn wf(self) -> bool {
        self.formats@.len() > 0 && self.present_modes@.len() > 0 && self.alpha_modes@.len() > 0
    }
}

/// Holds exactly when `idx` points at the format the lifecycle manager
/// chooses from `formats`: the first sRGB entry when one exists, the
/// platform's first advertised entry otherwise.
pub open spec fn is_preferred_format(formats: Seq<FormatInfo>, idx: int) -> bool {
    &&& 0 <= idx < formats.len()
    &&& (formats[idx].srgb ==> (forall|i: int| 0 <= i < idx ==> !formats[i].srgb))
    &&& (!formats[idx].srgb ==> idx == 0 && (forall|i: int| 0 <= i < formats.len() ==> !formats[i].srgb))
}

/// The format the lifecycle manager chooses: the first sRGB entry when one
/// exists, the first entry overall otherwise.
pub open spec fn preferred_format(formats: Seq<FormatInfo>) -> FormatInfo
    recommends
        formats.len() > 0,
    decreases formats.len(),
{
    if formats.len() <= 1 {
        formats[0]
    } else if formats[0].srgb {
        formats[0]
    } else {
        let rest = preferred_format(formats.drop_first());
        if rest.srgb {
            rest
        } else {
            formats[0]
        }
    }
}

proof fn lemma_preferred_is_first_srgb(s: Seq<FormatInfo>, j: int)
    requires
        0 <= j < s.len(),
        s[j].srgb,
        forall|i: int| 0 <= i < j ==> !s[i].srgb,
    ensures
        preferred_format(s) == s[j],
    decreases j,
{
    if j > 0 {
        lemma_preferred_is_first_srgb(s.drop_first(), j - 1);
    }
}

proof fn lemma_preferred_none_srgb(s: Seq<FormatInfo>)
    requires
        s.len() > 0,
        forall|i: int| 0 <= i < s.len() ==> !s[i].srgb,
    ensures
        preferred_format(s) == s[0],
    decreases s.len(),
{
    if s.len() > 1 {
        assert(forall|i: int| 0 <= i < s.drop_first().len() ==> !s.drop_first()[i].srgb);
        lemma_preferred_none_srgb(s.drop_first());
    }
}

/// Picks the pixel format to use: the first gamma-correct (sRGB) format
/// when the platform offers one, otherwise the platform's first advertised
/// format.
pub fn select_format(formats: &Vec<FormatInfo>) -> (idx: usize)
    requires
        formats@.len() > 0,
    ensures
        is_preferred_format(formats@, idx as int),
        formats@[idx as int] == preferred_format(formats@),
{
    let n = formats.len();
    let mut j: usize = 0;
    while j < n
        invariant
            n == formats@.len(),
            j <= n,
            forall|i: int| 0 <= i < j ==> !formats@[i].srgb,
        decreases n - j,
    {
        if formats[j].srgb {
            proof {
                lemma_preferred_is_first_srgb(formats@, j as int);
            }
            return j;
        }
        j = j + 1;
    }
    proof {
        lemma_preferred_none_srgb(formats@);
    }
    0
}

/// Describes the presentable surface: pixel format, size in physical
/// pixels, presentation mode and alpha compositing mode.
#[derive(Clone, Copy, Debug, PartialEq, Eq, Structural)]
pub struct SurfaceConfig {
    pub format: FormatInfo,
    pub width: u32,
    pub height: u32,
    pub present_mode: u32,
    pub alpha_mode: u32,
}

impl SurfaceConfig {
    /// The same configuration with its size replaced.
    pub open spec fn with_size(self, size: WindowSize) -> SurfaceConfig {
        SurfaceConfig { width: size.width, height: size.height, ..self }
    }

    /// Derives the initial configuration from the advertised capabilities
    /// and the window's startup size: the preferred (sRGB if offered, else
    /// first) pixel format, the platform's first presentation mode, the
    /// platform's first alpha mode, and the given size.
    pub fn from_caps(caps: &SurfaceCaps, size: WindowSize) -> (c: SurfaceConfig)
        requires
            caps.wf(),
        ensures
            c.format == preferred_format(caps.formats@),
            exists|idx: int|
                is_preferred_format(caps.formats@, idx) && c.format == caps.formats@[idx],
            c.width == size.width,
            c.height == size.height,
            c.present_mode == caps.present_modes@[0],
            c.alpha_mode == caps.alpha_modes@[0],
    {
        let fi = select_format(&caps.formats);
        let c = SurfaceConfig {
            format: caps.formats[fi],
            width: size.width,
            height: size.height,
            present_mode: caps.present_modes[0],
            alpha_mode: caps.alpha_modes[0],
        };
        proof {
            let chosen = fi as int;
            assert(is_preferred_format(caps.formats@, chosen) && c.format == caps.formats@[chosen]);
        }
        c
    }
}

} // verus!
