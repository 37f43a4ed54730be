//! Framebuffers: their targets and attachments, and the rectangles and
//! masks of a copy from one framebuffer to another.

pub mod constants;

pub use constants::FramebufferBinding;

use vstd::prelude::*;

use crate::codes;

verus! {

/// A rectangle of pixels, by its lower left corner and its size.
#[derive(Debug, Clone, Copy, PartialEq, Eq)]
pub struct Viewport {
    pub position: (u32, u32),
    pub size: (u32, u32),
}

/// A rectangle of pixels, by its lower left and its upper right corner.
#[derive(Debug, Clone, Copy, PartialEq, Eq)]
pub struct BlitRectangle {
    pub min: (i32, i32),
    pub max: (i32, i32),
}

/// A place of a framebuffer that an image is attached to.
#[derive(Debug, Clone, Copy, PartialEq, Eq)]
pub enum FramebufferAttachment {
    Color(u32),
    Depth,
    DepthStencil,
}

impl FramebufferAttachment {
    /// The number that WebGL2 knows the attachment by. The colour
    /// attachments are numbered upwards from the first.
    pub open spec fn code(self) -> int {
        match self {
            FramebufferAttachment::Color(index) => codes::COLOR_ATTACHMENT0 + index,
            FramebufferAttachment::Depth => codes::DEPTH_ATTACHMENT as int,
            FramebufferAttachment::DepthStencil => codes::DEPTH_STENCIL_ATTACHMENT as int,
        }
    }

    /// The number of the attachment; none for a colour attachment whose
    /// number would not fit.
    pub fn value(self) -> (code: Option<u32>)
        ensures
            code == if self.code() <= u32::MAX {
                Some(self.code() as u32)
            } else {
                None
            },
    {
        match self {
            FramebufferAttachment::Color(index) => {
                if index <= u32::MAX - codes::COLOR_ATTACHMENT0 {
                    Some(codes::COLOR_ATTACHMENT0 + index)
                } else {
                    None
                }
            },
            FramebufferAttachment::Depth => Some(codes::DEPTH_ATTACHMENT),
            FramebufferAttachment::DepthStencil => Some(codes::DEPTH_STENCIL_ATTACHMENT),
        }
    }
}

/// What the library keeps of a framebuffer: the target that it is bound to,
/// if it is bound.
#[derive(Debug, Clone, Copy)]
pub struct Framebuffer {
    pub target: Option<FramebufferBinding>,
}

impl Framebuffer {
    /// A framebuffer that is not bound.
    pub fn new() -> (framebuffer: Self)
        ensures
            framebuffer.target is None,
    {
        Framebuffer { target: None }
    }

    /// Takes note that the framebuffer is bound to `target`. The answer
    /// holds the target at which the context is to unbind the framebuffer
    /// first, where it was bound, and then the target at which the context
    /// is to bind it.
    pub fn bind(&mut self, target: FramebufferBinding) -> (targets: (
        Option<FramebufferBinding>,
        FramebufferBinding,
    ))
        ensures
            targets.0 == old(self).target,
            targets.1 == target,
            final(self).target == Some(target),
    {
        let before = self.unbind();
        self.target = Some(target);
        (before, target)
    }

    /// Takes note that the framebuffer is bound no longer, and gives the
    /// target at which the context is to unbind it: the one that it was
    /// bound to.
    pub fn unbind(&mut self) -> (target: Option<FramebufferBinding>)
        ensures
            target == old(self).target,
            final(self).target is None,
    {
        let target = self.target;
        self.target = None;
        target
    }
}

/// The bit of a buffer in a mask, if the buffer takes part.
pub open spec fn mask_bit(takes_part: bool, bit: u32) -> u32 {
    if takes_part {
        bit
    } else {
        0
    }
}

/// The mask of the buffers that take part in a clear or in a copy.
pub open spec fn buffer_mask(color: bool, depth: bool, stencil: bool) -> u32 {
    mask_bit(color, codes::COLOR_BUFFER_BIT) | mask_bit(depth, codes::DEPTH_BUFFER_BIT) | mask_bit(
        stencil,
        codes::STENCIL_BUFFER_BIT,
    )
}

/// Puts together the mask of the buffers that take part in a clear or in a
/// copy. The mask is 0 exactly where no buffer takes part.
pub fn framebuffer_mask(color: bool, depth: bool, stencil: bool) -> (mask: u32)
    ensures
        mask == buffer_mask(color, depth, stencil),
        mask == 0 <==> !color && !depth && !stencil,
{
    let mut mask: u32 = 0;
    if color {
        mask = mask | codes::COLOR_BUFFER_BIT;
    }
    if depth {
        mask = mask | codes::DEPTH_BUFFER_BIT;
    }
    if stencil {
        mask = mask | codes::STENCIL_BUFFER_BIT;
    }
    assert(0u32 | 0x4000u32 == 0x4000u32 && 0u32 | 0x0100u32 == 0x0100u32 && 0u32 | 0x0400u32
        == 0x0400u32 && 0x4000u32 | 0x0100u32 == 0x4100u32 && 0x4000u32 | 0x0400u32 == 0x4400u32
        && 0x0100u32 | 0x0400u32 == 0x0500u32 && 0x4100u32 | 0x0400u32 == 0x4500u32 && 0u32 | 0u32
        == 0u32 && 0x4000u32 | 0u32 == 0x4000u32 && 0x0100u32 | 0u32 == 0x0100u32 && 0x4100u32
        | 0u32 == 0x4100u32) by (bit_vector);
    mask
}

/// Casts the two elements of a vector of `u32` to `i32`, as
/// `glam::UVec2::as_ivec2` does. For elements that an `i32` can hold, which
/// is all that is asked for here, the cast keeps the number.
#[verifier::external_body]
fn as_ivec2(vector: (u32, u32)) -> (cast: (i32, i32))
    requires
        vector.0 <= i32::MAX,
        vector.1 <= i32::MAX,
    ensures
        cast.0 == vector.0,
        cast.1 == vector.1,
{
    let cast = glam::UVec2::new(vector.0, vector.1).as_ivec2();
    (cast.x, cast.y)
}

/// Adds two vectors of `i32` element by element, as the `+` of
/// `glam::IVec2` does. The sums are sums of `i32`, so the inputs on which
/// one of them overflows are left out.
#[verifier::external_body]
fn add_ivec2(left: (i32, i32), right: (i32, i32)) -> (sum: (i32, i32))
    requires
        i32::MIN <= left.0 + right.0 <= i32::MAX,
        i32::MIN <= left.1 + right.1 <= i32::MAX,
    ensures
        sum.0 == left.0 + right.0,
        sum.1 == left.1 + right.1,
{
    let sum = glam::IVec2::new(left.0, left.1) + glam::IVec2::new(right.0, right.1);
    (sum.x, sum.y)
}

impl Viewport {
    /// Whether both corners of the rectangle have coordinates that a copy
    /// can be given.
    pub open spec fn fits(self) -> bool {
        &&& self.position.0 + self.size.0 <= i32::MAX
        &&& self.position.1 + self.size.1 <= i32::MAX
    }

    /// The corners of the rectangle, as a copy between framebuffers takes
    /// them: the position, and the position moved on by the size. There are
    /// none where a coordinate would not fit.
    pub fn corners(&self) -> (rectangle: Option<BlitRectangle>)
        ensures
            match rectangle {
                Some(corners) => {
                    &&& self.fits()
                    &&& corners.min.0 == self.position.0
                    &&& corners.min.1 == self.position.1
                    &&& corners.max.0 == self.position.0 + self.size.0
                    &&& corners.max.1 == self.position.1 + self.size.1
                },
                None => !self.fits(),
            },
    {
        let limit: u32 = 0x7FFF_FFFF;
        if self.position.0 > limit || self.position.1 > limit || self.size.0 > limit
            - self.position.0 || self.size.1 > limit - self.position.1 {
            return None;
        }
        let min = as_ivec2(self.position);
        let max = add_ivec2(min, as_ivec2(self.size));
        Some(BlitRectangle { min, max })
    }
}

} // verus!
