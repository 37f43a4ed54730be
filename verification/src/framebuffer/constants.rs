//! The targets of a framebuffer.

use vstd::prelude::*;
use vstd::std_specs::convert::FromSpecImpl;

use crate::codes;

verus! {

/// A target that a framebuffer is bound to.
#[derive(Clone, Copy, Debug, PartialEq, Eq, Hash, Structural)]
pub struct FramebufferBinding(u32);

#[allow(non_snake_case)]
impl FramebufferBinding {
    #[verifier::type_invariant]
    spec fn is_known(self) -> bool {
        Self::names(self.0)
    }

    /// Whether `code` is the number of a value of this type.
    pub open spec fn names(code: u32) -> bool {
        ||| code == codes::DRAW_FRAMEBUFFER
        ||| code == codes::READ_FRAMEBUFFER
    }

    /// The number that WebGL2 knows the value by.
    pub closed spec fn code(self) -> u32 {
        self.0
    }

    pub fn DRAW_FRAMEBUFFER() -> (value: Self)
        ensures
            value.code() == codes::DRAW_FRAMEBUFFER,
    {
        FramebufferBinding(codes::DRAW_FRAMEBUFFER)
    }

    pub fn READ_FRAMEBUFFER() -> (value: Self)
        ensures
            value.code() == codes::READ_FRAMEBUFFER,
    {
        FramebufferBinding(codes::READ_FRAMEBUFFER)
    }
}

impl From<FramebufferBinding> for u32 {
    fn from(value: FramebufferBinding) -> (code: u32) {
        value.0
    }
}

impl FromSpecImpl<FramebufferBinding> for u32 {
    open spec fn obeys_from_spec() -> bool {
        true
    }

    open spec fn from_spec(value: FramebufferBinding) -> u32 {
        value.code()
    }
}

} // verus!
