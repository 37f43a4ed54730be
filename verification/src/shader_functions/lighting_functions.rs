//! Physically based lighting with the Cook-Torrance reflectance model.

use vstd::prelude::*;

use crate::webgl2_shader_definition::data_type::WebGLDataType;
use crate::webgl2_shader_definition::model::{
    view_each, FunctionDefinition, FunctionDefinitionView,
};

verus! {

pub const FRESNEL_SCHLICK_NAME: &'static str = "fresnelSchlick";

pub const FRESNEL_SCHLICK_PARAMS: &'static str = "float cosTheta, vec3 F0";

pub const FRESNEL_SCHLICK_FN: &'static str =
    r#"return F0 + (1.0 - F0) * pow(clamp(1.0 - cosTheta, 0.0, 1.0), 5.0);"#;

pub const DISTRIBUTION_GGX_NAME: &'static str = "DistributionGGX";

pub const DISTRIBUTION_GGX_PARAMS: &'static str = "vec3 N, vec3 H, float _roughness";

pub const DISTRIBUTION_GGX_FN: &'static str = r#"
float a      = _roughness*_roughness;
float a2     = a*a;
float NdotH  = max(dot(N, H), 0.0);
float NdotH2 = NdotH*NdotH;

float num   = a2;
float denom = (NdotH2 * (a2 - 1.0) + 1.0);
denom = 3.141592 * denom * denom;

return num / denom;"#;

pub const GEOMETRY_SCHLICK_GGX_NAME: &'static str = "GeometrySchlickGGX";

pub const GEOMETRY_SCHLICK_GGX_PARAMS: &'static str = "float NdotV, float _roughness";

pub const GEOMETRY_SCHLICK_GGX_FN: &'static str = r#"
float r = (_roughness + 1.0);
float k = (r*r) / 8.0;

float num   = NdotV;
float denom = NdotV * (1.0 - k) + k;

return num / denom;
			"#;

pub const GEOMETRY_SMITH_NAME: &'static str = "GeometrySmith";

pub const GEOMETRY_SMITH_PARAMS: &'static str = "vec3 N, vec3 V, vec3 L, float _roughness";

pub const GEOMETRY_SMITH_FN: &'static str = r#"
float NdotV = max(dot(N, V), 0.0);
float NdotL = max(dot(N, L), 0.0);
float ggx2  = GeometrySchlickGGX(NdotV, _roughness);
float ggx1  = GeometrySchlickGGX(NdotL, _roughness);

return ggx1 * ggx2;"#;

pub const PBR_LIGHTING_NAME: &'static str = "PBRLighting";

pub const PBR_LIGHTING_PARAMS: &'static str =
    "vec3 normal, vec3 cam_pos, vec3 world_pos, vec3 w_pos_to_light, vec3 _albedo, float _metallic, float _roughness, vec3 _radiance";

pub const PBR_LIGHTING_FN: &'static str = r#"
vec3 N = normal;
vec3 V = normalize(cam_pos - world_pos);

vec3 F0 = vec3(0.04); 
F0 = mix(F0, _albedo, _metallic);

vec3 L = normalize(w_pos_to_light);
vec3 H = normalize(V + L);      

float NDF = DistributionGGX(N, H, _roughness);        
float G   = GeometrySmith(N, V, L, _roughness);      
vec3 F    = fresnelSchlick(max(dot(H, V), 0.0), F0);       

vec3 kS = F;
vec3 kD = vec3(1.0) - kS;
kD *= 1.0 - _metallic;	  

vec3 numerator    = NDF * G * F;
float denominator = 4.0 * max(dot(N, V), 0.0) * max(dot(N, L), 0.0) + 0.0001;
vec3 specular     = numerator / denominator;  

float NdotL = max(dot(N, L), 0.0);                
vec3 Lo = (kD * _albedo / 3.141592 + specular) * _radiance * NdotL;
return Lo;"#;

/// The five lighting functions, each before the functions that call it:
/// the Fresnel term, the normal distribution, the geometry term for one
/// direction, the geometry term for both, and the lighting function that
/// puts them together.
pub open spec fn pbr_functions() -> Seq<FunctionDefinitionView> {
    seq![
        FunctionDefinition::inline_view(
            FRESNEL_SCHLICK_NAME@,
            WebGLDataType::Vec3,
            FRESNEL_SCHLICK_PARAMS@,
            FRESNEL_SCHLICK_FN@,
        ),
        FunctionDefinition::inline_view(
            DISTRIBUTION_GGX_NAME@,
            WebGLDataType::Float,
            DISTRIBUTION_GGX_PARAMS@,
            DISTRIBUTION_GGX_FN@,
        ),
        FunctionDefinition::inline_view(
            GEOMETRY_SCHLICK_GGX_NAME@,
            WebGLDataType::Float,
            GEOMETRY_SCHLICK_GGX_PARAMS@,
            GEOMETRY_SCHLICK_GGX_FN@,
        ),
        FunctionDefinition::inline_view(
            GEOMETRY_SMITH_NAME@,
            WebGLDataType::Float,
            GEOMETRY_SMITH_PARAMS@,
            GEOMETRY_SMITH_FN@,
        ),
        FunctionDefinition::inline_view(
            PBR_LIGHTING_NAME@,
            WebGLDataType::Vec3,
            PBR_LIGHTING_PARAMS@,
            PBR_LIGHTING_FN@,
        ),
    ]
}

/// The lighting functions, in an order in which they can be declared.
pub fn get_pbr_functions() -> (functions: Vec<FunctionDefinition>)
    ensures
        view_each(functions@) == pbr_functions(),
{
    let mut functions = Vec::new();

    let fresnel_schlick = FunctionDefinition::inline(
        FRESNEL_SCHLICK_NAME,
        WebGLDataType::Vec3,
        FRESNEL_SCHLICK_PARAMS,
        FRESNEL_SCHLICK_FN,
    );
    functions.push(fresnel_schlick);

    let distribution_ggx = FunctionDefinition::inline(
        DISTRIBUTION_GGX_NAME,
        WebGLDataType::Float,
        DISTRIBUTION_GGX_PARAMS,
        DISTRIBUTION_GGX_FN,
    );
    functions.push(distribution_ggx);

    let geometry_schlick_ggx = FunctionDefinition::inline(
        GEOMETRY_SCHLICK_GGX_NAME,
        WebGLDataType::Float,
        GEOMETRY_SCHLICK_GGX_PARAMS,
        GEOMETRY_SCHLICK_GGX_FN,
    );
    functions.push(geometry_schlick_ggx);

    let geometry_smith = FunctionDefinition::inline(
        GEOMETRY_SMITH_NAME,
        WebGLDataType::Float,
        GEOMETRY_SMITH_PARAMS,
        GEOMETRY_SMITH_FN,
    );
    functions.push(geometry_smith);

    let light_function = FunctionDefinition::inline(
        PBR_LIGHTING_NAME,
        WebGLDataType::Vec3,
        PBR_LIGHTING_PARAMS,
        PBR_LIGHTING_FN,
    );
    functions.push(light_function);

    assert(view_each(functions@) =~= pbr_functions());
    functions
}

} // verus!
