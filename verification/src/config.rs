//! Run configuration: the fill color for the staging payload, the alpha
//! policy and blend mode for composition, the warm-up frame count that
//! bounds content production, and the reference-space choice.

use vstd::prelude::*;

verus! {

/// RGBA fill color, one byte per channel, in memory order.
#[derive(Clone, Copy, Debug, PartialEq, Eq, Structural)]
pub struct FillColor {
    pub red: u8,
    pub green: u8,
    pub blue: u8,
    pub alpha: u8,
}

/// Channel of `c` at byte offset `i` within one pixel (R, G, B, A).
pub open spec fn channel(c: FillColor, i: int) -> u8 {
    if i == 0 {
        c.red
    } else if i == 1 {
        c.green
    } else if i == 2 {
        c.blue
    } else {
        c.alpha
    }
}

/// How the submitted layer is blended with the runtime's environment.
#[derive(Clone, Copy, Debug, PartialEq, Eq, Structural)]
pub enum BlendMode {
    Opaque,
    Additive,
    AlphaBlend,
}

/// The fixed coordinate frame view poses are resolved against.
#[derive(Clone, Copy, Debug, PartialEq, Eq, Structural)]
pub enum ReferenceSpaceKind {
    View,
    Local,
    Stage,
}

/// Flags attached to the submitted composition layer.
#[derive(Clone, Copy, Debug, PartialEq, Eq, Structural)]
pub struct LayerFlags {
    pub blend_texture_source_alpha: bool,
    pub unpremultiplied_alpha: bool,
}

/// The flags owed for a given alpha policy: source alpha is always blended;
/// the unpremultiplied flag is set exactly when the payload is not
/// premultiplied.
pub open spec fn flags_for(premultiplied: bool) -> LayerFlags {
    LayerFlags { blend_texture_source_alpha: true, unpremultiplied_alpha: !premultiplied }
}

/// Compute the layer flags for the configured alpha policy.
pub fn layer_flags(premultiplied: bool) -> (f: LayerFlags)
    ensures
        f == flags_for(premultiplied),
{
    LayerFlags { blend_texture_source_alpha: true, unpremultiplied_alpha: !premultiplied }
}

/// Everything configurable about a run, passed to the loop at construction.
#[derive(Clone, Copy, Debug, PartialEq, Eq, Structural)]
pub struct LoopConfig {
    /// Initial payload written into the staging buffer.
    pub fill_color: FillColor,
    /// Whether the payload's alpha is premultiplied.
    pub premultiplied_alpha: bool,
    /// How many frames produce content before rendering is skipped for good.
    pub warmup_frames: u32,
    /// Coordinate frame for resolving view poses.
    pub reference_space: ReferenceSpaceKind,
    /// Blend mode for composition submission.
    pub blend_mode: BlendMode,
}

} // verus!
