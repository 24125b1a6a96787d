use vstd::prelude::*;
use crate::flags::Invalidation;

verus! {

/// A physical length in device pixels turned into logical pixels, for a
/// scale factor given in thousandths (2000 stands for a factor of 2).
pub open spec fn logical_of(physical: u32, scale_milli: u32) -> int {
    (physical as int * 1000) / (scale_milli as int)
}

/// A logical length turned into device pixels; lengths past the largest
/// `u32` resolve to that largest value.
pub open spec fn physical_of(logical: u64, scale_milli: u32) -> u32 {
    let p = (logical as int * scale_milli as int) / 1000;
    if p > u32::MAX as int {
        u32::MAX
    } else {
        p as u32
    }
}

pub fn to_logical(physical: u32, scale_milli: u32) -> (r: u64)
    requires
        scale_milli > 0,
    ensures
        r == logical_of(physical, scale_milli),
{
    (physical as u64 * 1000) / (scale_milli as u64)
}

pub fn to_physical(logical: u64, scale_milli: u32) -> (r: u32)
    ensures
        r == physical_of(logical, scale_milli),
{
    assert(logical as int * scale_milli as int <= u64::MAX as int * u32::MAX as int)
        by (nonlinear_arith);
    let p: u128 = (logical as u128 * scale_milli as u128) / 1000;
    if p > u32::MAX as u128 {
        u32::MAX
    } else {
        p as u32
    }
}

/// The root window's geometry: the size that its style asks for, in
/// logical pixels, and the size and clip region computed from it, in
/// device pixels.
#[derive(Clone, Copy, Debug, PartialEq, Eq, Structural)]
pub struct Geometry {
    /// Device pixels per logical pixel, in thousandths; never zero.
    pub scale_milli: u32,
    pub style_width: u64,
    pub style_height: u64,
    pub width: u32,
    pub height: u32,
    pub clip_width: u32,
    pub clip_height: u32,
}

impl Geometry {
    pub open spec fn wf(self) -> bool {
        self.scale_milli > 0
    }

    /// A window of the given physical size at a scale factor of one.
    pub open spec fn initial(width: u32, height: u32) -> Geometry {
        Geometry {
            scale_milli: 1000,
            style_width: width as u64,
            style_height: height as u64,
            width,
            height,
            clip_width: width,
            clip_height: height,
        }
    }

    pub fn new(width: u32, height: u32) -> (r: Geometry)
        ensures
            r.wf(),
            r == Geometry::initial(width, height),
            r.scale_milli == 1000,
            r.style_width == width,
            r.style_height == height,
            r.width == width,
            r.height == height,
            r.clip_width == width,
            r.clip_height == height,
    {
        Geometry {
            scale_milli: 1000,
            style_width: width as u64,
            style_height: height as u64,
            width,
            height,
            clip_width: width,
            clip_height: height,
        }
    }

    /// The geometry after the host reports a new physical size.
    pub open spec fn resized(self, width: u32, height: u32) -> Geometry {
        Geometry {
            scale_milli: self.scale_milli,
            style_width: logical_of(width, self.scale_milli) as u64,
            style_height: logical_of(height, self.scale_milli) as u64,
            width,
            height,
            clip_width: width,
            clip_height: height,
        }
    }

    /// Applies a new physical size: the root's style takes the logical size,
    /// its cached size and clip region the physical one, and restyle,
    /// relayout and redraw are all requested.
    pub fn resize(&mut self, flags: &mut Invalidation, width: u32, height: u32)
        requires
            old(self).wf(),
        ensures
            *final(self) == old(self).resized(width, height),
            final(self).wf(),
            *final(flags) == (Invalidation {
                needs_restyle: true,
                needs_relayout: true,
                needs_redraw: true,
                ..*old(flags)
            }),
    {
        self.style_width = to_logical(width, self.scale_milli);
        self.style_height = to_logical(height, self.scale_milli);
        self.width = width;
        self.height = height;
        self.clip_width = width;
        self.clip_height = height;
        flags.need_restyle();
        flags.need_relayout();
        flags.need_redraw();
    }

    /// The geometry after the host reports a new scale factor together with
    /// the new physical size.
    pub open spec fn rescaled(self, scale_milli: u32, width: u32, height: u32) -> Geometry {
        Geometry {
            scale_milli,
            style_width: logical_of(width, scale_milli) as u64,
            style_height: logical_of(height, scale_milli) as u64,
            width,
            height,
            ..self
        }
    }

    pub fn rescale(&mut self, scale_milli: u32, width: u32, height: u32)
        requires
            scale_milli > 0,
        ensures
            *final(self) == old(self).rescaled(scale_milli, width, height),
            final(self).wf(),
    {
        self.scale_milli = scale_milli;
        self.width = width;
        self.height = height;
        self.style_width = to_logical(width, scale_milli);
        self.style_height = to_logical(height, scale_milli);
    }

    /// The geometry laid out again from the style.
    pub open spec fn laid_out(self) -> Geometry {
        let w = physical_of(self.style_width, self.scale_milli);
        let h = physical_of(self.style_height, self.scale_milli);
        Geometry { width: w, height: h, clip_width: w, clip_height: h, ..self }
    }
}

/// The geometry and flags after the visual update stage.
pub open spec fn visual_update_result(g: Geometry, f: Invalidation) -> (Geometry, Invalidation) {
    if f.needs_relayout {
        (g.laid_out(), Invalidation { needs_relayout: false, ..f })
    } else {
        (g, f)
    }
}

/// The visual update stage: consumes `needs_relayout` by laying the root out
/// again from its style.
pub fn visual_update(g: &mut Geometry, flags: &mut Invalidation)
    ensures
        (*final(g), *final(flags)) == visual_update_result(*old(g), *old(flags)),
        old(g).wf() ==> final(g).wf(),
{
    if flags.needs_relayout {
        let w = to_physical(g.style_width, g.scale_milli);
        let h = to_physical(g.style_height, g.scale_milli);
        g.width = w;
        g.height = h;
        g.clip_width = w;
        g.clip_height = h;
        flags.needs_relayout = false;
    }
}

/// Laying out twice with no invalidation in between gives the geometry of
/// laying out once, field for field.
pub proof fn lemma_visual_update_idempotent(g: Geometry, f: Invalidation)
    ensures
        visual_update_result(visual_update_result(g, f).0, visual_update_result(g, f).1).0
            == visual_update_result(g, f).0,
        !visual_update_result(g, f).1.needs_relayout,
{
}

} // verus!
