//! The displacement of a point on a Gerstner wave.

use vstd::prelude::*;

use crate::webgl2_shader_definition::data_type::WebGLDataType;
use crate::webgl2_shader_definition::model::FunctionDefinition;

verus! {

pub const NAME: &'static str = "gerstner_waves";

pub const PARAMS: &'static str =
    "vec3 position, vec2 wave_axis, float wavelength, float time, float steepness";

pub const FN: &'static str = r#"
float w_pos = dot(position, vec3(wave_axis.x, 0.0, wave_axis.y));
float k = 2.0 * 3.1416 / wavelength;
float f = k * (w_pos - time);
float a = steepness / k;
return vec2(a * cos(f), a * sin(f));
"#;

pub const RETURN_TYPE: WebGLDataType = WebGLDataType::Vec2;

/// The function `gerstner_waves`, which gives the displacement along the
/// wave's axis and upwards.
pub fn definition() -> (function: FunctionDefinition)
    ensures
        function@ == FunctionDefinition::inline_view(NAME@, RETURN_TYPE, PARAMS@, FN@),
{
    FunctionDefinition::inline(NAME, RETURN_TYPE, PARAMS, FN)
}

} // verus!
