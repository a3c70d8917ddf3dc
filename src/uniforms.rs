//! Per-frame values of the standard uniforms: host-derived defaults, each
//! group of which an override may replace.
//!
//! Values are held in integer units: sizes in pixels, the pixel aspect ratio
//! in thousandths, time in microseconds, frames as a count.
use vstd::prelude::*;

verus! {

/// Pixel aspect ratio used when the host reports none (1.0).
pub const UNIT_PIXEL_RATIO_MILLI: u32 = 1000;

/// The resolution uniform: viewport width and height in pixels, and the
/// pixel aspect ratio in thousandths.
#[derive(Clone, Copy, Debug, PartialEq, Eq, Structural)]
pub struct ResolutionUniform {
    pub width: u32,
    pub height: u32,
    pub pixel_aspect_ratio_milli: u32,
}

/// Values pinned from outside; each present group replaces the host value.
#[derive(Clone, Copy, Debug, PartialEq, Eq, Structural)]
pub struct Uniforms {
    pub resolution: Option<ResolutionUniform>,
    pub time_us: Option<u64>,
    pub frame: Option<u64>,
}

/// What the host reports of the drawing surface.
#[derive(Clone, Copy, Debug, PartialEq, Eq, Structural)]
pub struct Viewport {
    pub width: u32,
    pub height: u32,
    /// Device pixel ratio in thousandths, when the host knows it.
    pub device_pixel_ratio_milli: Option<u32>,
}

/// Host-derived values for one frame.
#[derive(Clone, Copy, Debug, PartialEq, Eq, Structural)]
pub struct HostDefaults {
    /// Time since the session started, in microseconds.
    pub elapsed_us: u64,
    /// Frames drawn so far in the session.
    pub frame_count: u64,
    pub viewport: Viewport,
}

/// The values uploaded for one frame.
#[derive(Clone, Copy, Debug, PartialEq, Eq, Structural)]
pub struct FrameUniforms {
    pub resolution: ResolutionUniform,
    pub time_us: u64,
    pub frame: u64,
}

/// Resolution taken from the viewport, with a unit pixel ratio when the
/// host reports none.
pub open spec fn viewport_resolution(v: Viewport) -> ResolutionUniform {
    ResolutionUniform {
        width: v.width,
        height: v.height,
        pixel_aspect_ratio_milli: match v.device_pixel_ratio_milli {
            Some(r) => r,
            None => UNIT_PIXEL_RATIO_MILLI,
        },
    }
}

/// Each group is the override when present and the host value otherwise.
pub open spec fn resolved(d: HostDefaults, o: Uniforms) -> FrameUniforms {
    FrameUniforms {
        resolution: match o.resolution {
            Some(r) => r,
            None => viewport_resolution(d.viewport),
        },
        time_us: match o.time_us {
            Some(t) => t,
            None => d.elapsed_us,
        },
        frame: match o.frame {
            Some(f) => f,
            None => d.frame_count,
        },
    }
}

impl Uniforms {
    /// No group pinned: every value comes from the host.
    pub fn none() -> (r: Uniforms)
        ensures
            r.resolution.is_none(),
            r.time_us.is_none(),
            r.frame.is_none(),
    {
        Uniforms { resolution: None, time_us: None, frame: None }
    }
}

/// Resolution reported by the host for `v`.
pub fn resolve_viewport(v: &Viewport) -> (r: ResolutionUniform)
    ensures
        r == viewport_resolution(*v),
{
    let ratio = match v.device_pixel_ratio_milli {
        Some(r) => r,
        None => UNIT_PIXEL_RATIO_MILLI,
    };
    ResolutionUniform { width: v.width, height: v.height, pixel_aspect_ratio_milli: ratio }
}

/// The values to upload for one frame: per group, the override if present,
/// the host value otherwise.
pub fn resolve(defaults: &HostDefaults, overrides: &Uniforms) -> (r: FrameUniforms)
    ensures
        r == resolved(*defaults, *overrides),
{
    let resolution = match overrides.resolution {
        Some(r) => r,
        None => resolve_viewport(&defaults.viewport),
    };
    let time_us = match overrides.time_us {
        Some(t) => t,
        None => defaults.elapsed_us,
    };
    let frame = match overrides.frame {
        Some(f) => f,
        None => defaults.frame_count,
    };
    FrameUniforms { resolution, time_us, frame }
}

/// For every combination of present and absent groups, each present
/// override is used as given and each absent one falls back to the host.
pub proof fn lemma_override_precedence(d: HostDefaults, o: Uniforms)
    ensures
        o.resolution.is_some() ==> resolved(d, o).resolution == o.resolution.unwrap(),
        o.resolution.is_none() ==> resolved(d, o).resolution == viewport_resolution(d.viewport),
        o.time_us.is_some() ==> resolved(d, o).time_us == o.time_us.unwrap(),
        o.time_us.is_none() ==> resolved(d, o).time_us == d.elapsed_us,
        o.frame.is_some() ==> resolved(d, o).frame == o.frame.unwrap(),
        o.frame.is_none() ==> resolved(d, o).frame == d.frame_count,
{
}

} // verus!
