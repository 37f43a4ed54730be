//! Ordered dithering with a 4x4 threshold matrix.

use vstd::prelude::*;

use crate::webgl2_shader_definition::data_type::WebGLDataType;
use crate::webgl2_shader_definition::model::FunctionDefinition;

verus! {

pub const NAME: &'static str = "dither_fn";

pub const PARAMS: &'static str = "vec2 screen_position_px, float in_value";

pub const FN: &'static str = r#"
vec2 uv = screen_position_px;
float DITHER_THRESHOLDS[16] =
float[16](
    1.0 / 17.0,  9.0 / 17.0,  3.0 / 17.0, 11.0 / 17.0,
    13.0 / 17.0,  5.0 / 17.0, 15.0 / 17.0,  7.0 / 17.0,
    4.0 / 17.0, 12.0 / 17.0,  2.0 / 17.0, 10.0 / 17.0,
    16.0 / 17.0,  8.0 / 17.0, 14.0 / 17.0,  6.0 / 17.0
);
uint index = uint(mod(uv.x, 4.0)) * 4u + uint(mod(uv.y, 4.0));
return in_value - DITHER_THRESHOLDS[index];"#;

pub const RETURN_TYPE: WebGLDataType = WebGLDataType::Float;

/// The function `dither_fn`, which lowers a value by the threshold that
/// belongs to a pixel's place in the matrix.
pub fn definition() -> (function: FunctionDefinition)
    ensures
        function@ == FunctionDefinition::inline_view(NAME@, RETURN_TYPE, PARAMS@, FN@),
{
    FunctionDefinition::inline(NAME, RETURN_TYPE, PARAMS, FN)
}

} // verus!
