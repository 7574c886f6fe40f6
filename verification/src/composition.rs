//! Composition layout: the per-frame projection-layer description the loop
//! hands to the runtime. The structural content — two sub-image views, one
//! per eye, each covering the full recommended image rectangle — is built
//! here; the pose and field-of-view payloads are resolved by the runtime
//! and attached outside this crate.

use vstd::prelude::*;
use crate::config::{flags_for, BlendMode, LayerFlags, LoopConfig};

verus! {

/// An image rectangle within a swapchain image.
#[derive(Clone, Copy, Debug, PartialEq, Eq, Structural)]
pub struct ImageRect {
    pub x: i32,
    pub y: i32,
    pub width: i32,
    pub height: i32,
}

/// One sub-image view of the projection layer: which array layer of the
/// swapchain it samples, and which rectangle of that layer.
#[derive(Clone, Copy, Debug, PartialEq, Eq, Structural)]
pub struct SubImageView {
    pub array_index: u32,
    pub rect: ImageRect,
}

/// The per-frame projection layer handed to the runtime: display time,
/// blend policy, and one sub-image view per eye.
#[derive(Debug)]
pub struct LayerPlan {
    pub display_time: i64,
    pub blend_mode: BlendMode,
    pub flags: LayerFlags,
    pub views: Vec<SubImageView>,
}

/// The rectangle covering a full recommended image.
pub open spec fn full_rect(width: u32, height: u32) -> ImageRect {
    ImageRect { x: 0, y: 0, width: width as i32, height: height as i32 }
}

/// What every submitted layer must look like: the frame's predicted display
/// time, the configured blend policy, and exactly two sub-image views —
/// the left eye at array index 0, the right eye at array index 1, each
/// covering the full recommended rectangle.
pub open spec fn layer_ok(
    l: LayerPlan,
    config: LoopConfig,
    width: u32,
    height: u32,
    display_time: i64,
) -> bool {
    &&& l.display_time == display_time
    &&& l.blend_mode == config.blend_mode
    &&& l.flags == flags_for(config.premultiplied_alpha)
    &&& l.views@.len() == 2
    &&& l.views@[0] == (SubImageView { array_index: 0, rect: full_rect(width, height) })
    &&& l.views@[1] == (SubImageView { array_index: 1, rect: full_rect(width, height) })
}

/// Build the projection layer for one frame.
pub fn compose_layer(config: &LoopConfig, width: u32, height: u32, display_time: i64) -> (l:
    LayerPlan)
    requires
        width <= 0x7fff_ffff,
        height <= 0x7fff_ffff,
    ensures
        layer_ok(l, *config, width, height, display_time),
{
    let rect = ImageRect { x: 0, y: 0, width: width as i32, height: height as i32 };
    let mut views: Vec<SubImageView> = Vec::new();
    views.push(SubImageView { array_index: 0, rect });
    views.push(SubImageView { array_index: 1, rect });
    LayerPlan {
        display_time,
        blend_mode: config.blend_mode,
        flags: crate::config::layer_flags(config.premultiplied_alpha),
        views,
    }
}

} // verus!
