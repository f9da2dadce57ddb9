//! Descriptions of render targets: the surfaces that are drawn onto.

use crate::color32::ColorBits;
use crate::math::URect;
use vstd::prelude::*;

verus! {

#[derive(Copy, Clone, Debug)]
pub struct RenderTarget {
    pub clear_color: Option<ColorBits>,
    pub viewport: URect,
}

impl RenderTarget {
    #[must_use]
    pub fn with_clear_color(viewport: URect, clear_color: ColorBits) -> (target: Self)
        ensures
            target.clear_color == Some(clear_color),
            target.viewport == viewport,
    {
        Self { clear_color: Some(clear_color), viewport }
    }
}

} // verus!
