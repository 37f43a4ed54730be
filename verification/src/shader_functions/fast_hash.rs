//! A cheap hash of a position, for noise that need not be good.

use vstd::prelude::*;

use crate::webgl2_shader_definition::data_type::WebGLDataType;
use crate::webgl2_shader_definition::model::FunctionDefinition;

verus! {

pub const NAME: &'static str = "fast_hash";

pub const PARAMS: &'static str = "vec2 v";

pub const FN: &'static str = r#"
v = (1./4320.) * v + vec2(0.25,0.);
float state = fract( dot( v * v, vec2(3571)));
return fract( state * state * (3571. * 2.));
"#;

pub const RETURN_TYPE: WebGLDataType = WebGLDataType::Float;

/// The function `fast_hash`, which maps a position to a value in `[0, 1)`.
pub fn definition() -> (function: FunctionDefinition)
    ensures
        function@ == FunctionDefinition::inline_view(NAME@, RETURN_TYPE, PARAMS@, FN@),
{
    FunctionDefinition::inline(NAME, RETURN_TYPE, PARAMS, FN)
}

} // verus!
