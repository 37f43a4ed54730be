//! The limits of an implementation that a program can ask for.

use vstd::prelude::*;
use vstd::std_specs::convert::FromSpecImpl;

use crate::codes;

verus! {

/// A limit of the implementation that can be asked for.
#[derive(Clone, Copy, Debug, PartialEq, Eq, Hash, Structural)]
pub struct DeviceLimit(u32);

#[allow(non_snake_case)]
impl DeviceLimit {
    #[verifier::type_invariant]
    spec fn is_known(self) -> bool {
        Self::names(self.0)
    }

    /// Whether `code` is the number of a value of this type.
    pub open spec fn names(code: u32) -> bool {
        ||| code == codes::MAX_3D_TEXTURE_SIZE
        ||| code == codes::MAX_ARRAY_TEXTURE_LAYERS
        ||| code == codes::MAX_CLIENT_WAIT_TIMEOUT_WEBGL
        ||| code == codes::MAX_COLOR_ATTACHMENTS
        ||| code == codes::MAX_COMBINED_FRAGMENT_UNIFORM_COMPONENTS
        ||| code == codes::MAX_COMBINED_UNIFORM_BLOCKS
        ||| code == codes::MAX_COMBINED_VERTEX_UNIFORM_COMPONENTS
        ||| code == codes::MAX_DRAW_BUFFERS
        ||| code == codes::MAX_ELEMENT_INDEX
        ||| code == codes::MAX_ELEMENTS_INDICES
        ||| code == codes::MAX_ELEMENTS_VERTICES
        ||| code == codes::MAX_FRAGMENT_INPUT_COMPONENTS
        ||| code == codes::MAX_FRAGMENT_UNIFORM_BLOCKS
        ||| code == codes::MAX_FRAGMENT_UNIFORM_COMPONENTS
        ||| code == codes::MAX_PROGRAM_TEXEL_OFFSET
        ||| code == codes::MAX_SAMPLES
        ||| code == codes::MAX_VERTEX_TEXTURE_IMAGE_UNITS
        ||| code == codes::MAX_SERVER_WAIT_TIMEOUT
        ||| code == codes::MAX_TEXTURE_LOD_BIAS
        ||| code == codes::MAX_TRANSFORM_FEEDBACK_INTERLEAVED_COMPONENTS
        ||| code == codes::MAX_TRANSFORM_FEEDBACK_SEPARATE_ATTRIBS
        ||| code == codes::MAX_TRANSFORM_FEEDBACK_SEPARATE_COMPONENTS
        ||| code == codes::MAX_UNIFORM_BLOCK_SIZE
        ||| code == codes::MAX_UNIFORM_BUFFER_BINDINGS
        ||| code == codes::MAX_VARYING_COMPONENTS
        ||| code == codes::MAX_VERTEX_OUTPUT_COMPONENTS
        ||| code == codes::MAX_VERTEX_UNIFORM_BLOCKS
        ||| code == codes::MAX_VERTEX_UNIFORM_COMPONENTS
        ||| code == codes::MIN_PROGRAM_TEXEL_OFFSET
    }

    /// The number that WebGL2 knows the value by.
    pub closed spec fn code(self) -> u32 {
        self.0
    }

    pub fn MAX_3D_TEXTURE_SIZE() -> (value: Self)
        ensures
            value.code() == codes::MAX_3D_TEXTURE_SIZE,
    {
        DeviceLimit(codes::MAX_3D_TEXTURE_SIZE)
    }

    pub fn MAX_ARRAY_TEXTURE_LAYERS() -> (value: Self)
        ensures
            value.code() == codes::MAX_ARRAY_TEXTURE_LAYERS,
    {
        DeviceLimit(codes::MAX_ARRAY_TEXTURE_LAYERS)
    }

    pub fn MAX_CLIENT_WAIT_TIMEOUT_WEBGL() -> (value: Self)
        ensures
            value.code() == codes::MAX_CLIENT_WAIT_TIMEOUT_WEBGL,
    {
        DeviceLimit(codes::MAX_CLIENT_WAIT_TIMEOUT_WEBGL)
    }

    pub fn MAX_COLOR_ATTACHMENTS() -> (value: Self)
        ensures
            value.code() == codes::MAX_COLOR_ATTACHMENTS,
    {
        DeviceLimit(codes::MAX_COLOR_ATTACHMENTS)
    }

    pub fn MAX_COMBINED_FRAGMENT_UNIFORM_COMPONENTS() -> (value: Self)
        ensures
            value.code() == codes::MAX_COMBINED_FRAGMENT_UNIFORM_COMPONENTS,
    {
        DeviceLimit(codes::MAX_COMBINED_FRAGMENT_UNIFORM_COMPONENTS)
    }

    pub fn MAX_COMBINED_UNIFORM_BLOCKS() -> (value: Self)
        ensures
            value.code() == codes::MAX_COMBINED_UNIFORM_BLOCKS,
    {
        DeviceLimit(codes::MAX_COMBINED_UNIFORM_BLOCKS)
    }

    pub fn MAX_COMBINED_VERTEX_UNIFORM_COMPONENTS() -> (value: Self)
        ensures
            value.code() == codes::MAX_COMBINED_VERTEX_UNIFORM_COMPONENTS,
    {
        DeviceLimit(codes::MAX_COMBINED_VERTEX_UNIFORM_COMPONENTS)
    }

    pub fn MAX_DRAW_BUFFERS() -> (value: Self)
        ensures
            value.code() == codes::MAX_DRAW_BUFFERS,
    {
        DeviceLimit(codes::MAX_DRAW_BUFFERS)
    }

    pub fn MAX_ELEMENT_INDEX() -> (value: Self)
        ensures
            value.code() == codes::MAX_ELEMENT_INDEX,
    {
        DeviceLimit(codes::MAX_ELEMENT_INDEX)
    }

    pub fn MAX_ELEMENTS_INDICES() -> (value: Self)
        ensures
            value.code() == codes::MAX_ELEMENTS_INDICES,
    {
        DeviceLimit(codes::MAX_ELEMENTS_INDICES)
    }

    pub fn MAX_ELEMENTS_VERTICES() -> (value: Self)
        ensures
            value.code() == codes::MAX_ELEMENTS_VERTICES,
    {
        DeviceLimit(codes::MAX_ELEMENTS_VERTICES)
    }

    pub fn MAX_FRAGMENT_INPUT_COMPONENTS() -> (value: Self)
        ensures
            value.code() == codes::MAX_FRAGMENT_INPUT_COMPONENTS,
    {
        DeviceLimit(codes::MAX_FRAGMENT_INPUT_COMPONENTS)
    }

    pub fn MAX_FRAGMENT_UNIFORM_BLOCKS() -> (value: Self)
        ensures
            value.code() == codes::MAX_FRAGMENT_UNIFORM_BLOCKS,
    {
        DeviceLimit(codes::MAX_FRAGMENT_UNIFORM_BLOCKS)
    }

    pub fn MAX_FRAGMENT_UNIFORM_COMPONENTS() -> (value: Self)
        ensures
            value.code() == codes::MAX_FRAGMENT_UNIFORM_COMPONENTS,
    {
        DeviceLimit(codes::MAX_FRAGMENT_UNIFORM_COMPONENTS)
    }

    pub fn MAX_PROGRAM_TEXEL_OFFSET() -> (value: Self)
        ensures
            value.code() == codes::MAX_PROGRAM_TEXEL_OFFSET,
    {
        DeviceLimit(codes::MAX_PROGRAM_TEXEL_OFFSET)
    }

    pub fn MAX_SAMPLES() -> (value: Self)
        ensures
            value.code() == codes::MAX_SAMPLES,
    {
        DeviceLimit(codes::MAX_SAMPLES)
    }

    pub fn MAX_VERTEX_TEXTURE_IMAGE_UNITS() -> (value: Self)
        ensures
            value.code() == codes::MAX_VERTEX_TEXTURE_IMAGE_UNITS,
    {
        DeviceLimit(codes::MAX_VERTEX_TEXTURE_IMAGE_UNITS)
    }

    pub fn MAX_SERVER_WAIT_TIMEOUT() -> (value: Self)
        ensures
            value.code() == codes::MAX_SERVER_WAIT_TIMEOUT,
    {
        DeviceLimit(codes::MAX_SERVER_WAIT_TIMEOUT)
    }

    pub fn MAX_TEXTURE_LOD_BIAS() -> (value: Self)
        ensures
            value.code() == codes::MAX_TEXTURE_LOD_BIAS,
    {
        DeviceLimit(codes::MAX_TEXTURE_LOD_BIAS)
    }

    pub fn MAX_TRANSFORM_FEEDBACK_INTERLEAVED_COMPONENTS() -> (value: Self)
        ensures
            value.code() == codes::MAX_TRANSFORM_FEEDBACK_INTERLEAVED_COMPONENTS,
    {
        DeviceLimit(codes::MAX_TRANSFORM_FEEDBACK_INTERLEAVED_COMPONENTS)
    }

    pub fn MAX_TRANSFORM_FEEDBACK_SEPARATE_ATTRIBS() -> (value: Self)
        ensures
            value.code() == codes::MAX_TRANSFORM_FEEDBACK_SEPARATE_ATTRIBS,
    {
        DeviceLimit(codes::MAX_TRANSFORM_FEEDBACK_SEPARATE_ATTRIBS)
    }

    pub fn MAX_TRANSFORM_FEEDBACK_SEPARATE_COMPONENTS() -> (value: Self)
        ensures
            value.code() == codes::MAX_TRANSFORM_FEEDBACK_SEPARATE_COMPONENTS,
    {
        DeviceLimit(codes::MAX_TRANSFORM_FEEDBACK_SEPARATE_COMPONENTS)
    }

    pub fn MAX_UNIFORM_BLOCK_SIZE() -> (value: Self)
        ensures
            value.code() == codes::MAX_UNIFORM_BLOCK_SIZE,
    {
        DeviceLimit(codes::MAX_UNIFORM_BLOCK_SIZE)
    }

    pub fn MAX_UNIFORM_BUFFER_BINDINGS() -> (value: Self)
        ensures
            value.code() == codes::MAX_UNIFORM_BUFFER_BINDINGS,
    {
        DeviceLimit(codes::MAX_UNIFORM_BUFFER_BINDINGS)
    }

    pub fn MAX_VARYING_COMPONENTS() -> (value: Self)
        ensures
            value.code() == codes::MAX_VARYING_COMPONENTS,
    {
        DeviceLimit(codes::MAX_VARYING_COMPONENTS)
    }

    pub fn MAX_VERTEX_OUTPUT_COMPONENTS() -> (value: Self)
        ensures
            value.code() == codes::MAX_VERTEX_OUTPUT_COMPONENTS,
    {
        DeviceLimit(codes::MAX_VERTEX_OUTPUT_COMPONENTS)
    }

    pub fn MAX_VERTEX_UNIFORM_BLOCKS() -> (value: Self)
        ensures
            value.code() == codes::MAX_VERTEX_UNIFORM_BLOCKS,
    {
        DeviceLimit(codes::MAX_VERTEX_UNIFORM_BLOCKS)
    }

    pub fn MAX_VERTEX_UNIFORM_COMPONENTS() -> (value: Self)
        ensures
            value.code() == codes::MAX_VERTEX_UNIFORM_COMPONENTS,
    {
        DeviceLimit(codes::MAX_VERTEX_UNIFORM_COMPONENTS)
    }

    pub fn MIN_PROGRAM_TEXEL_OFFSET() -> (value: Self)
        ensures
            value.code() == codes::MIN_PROGRAM_TEXEL_OFFSET,
    {
        DeviceLimit(codes::MIN_PROGRAM_TEXEL_OFFSET)
    }

    /// The number that WebGL2 knows the value by.
    pub fn value(self) -> (code: u32)
        ensures
            code == self.code(),
            Self::names(code),
    {
        proof {
            use_type_invariant(&self);
        }
        self.0
    }
}

impl From<DeviceLimit> for u32 {
    fn from(value: DeviceLimit) -> (code: u32) {
        value.0
    }
}

impl FromSpecImpl<DeviceLimit> for u32 {
    open spec fn obeys_from_spec() -> bool {
        true
    }

    open spec fn from_spec(value: DeviceLimit) -> u32 {
        value.code()
    }
}

} // verus!
