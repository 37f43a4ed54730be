//! The attributes that a rendering context is asked for.

use vstd::prelude::*;
use vstd::string::*;

verus! {

/// `true` or `false`.
pub open spec fn bool_text(value: bool) -> Seq<char> {
    if value {
        "true"@
    } else {
        "false"@
    }
}

/// The attributes of a context as a JSON object with the members
/// `xrCompatible`, `antialias`, `depth` and `stencil`.
pub open spec fn context_attributes_text(
    xr_compatible: bool,
    antialias: bool,
    depth: bool,
    stencil: bool,
) -> Seq<char> {
    "{\"xrCompatible\":"@ + bool_text(xr_compatible) + ", \"antialias\": "@ + bool_text(antialias)
        + ", \"depth\": "@ + bool_text(depth) + ", \"stencil\": "@ + bool_text(stencil) + "}"@
}

fn bool_str(value: bool) -> (text: &'static str)
    ensures
        text@ == bool_text(value),
{
    if value {
        "true"
    } else {
        "false"
    }
}

/// Writes down the attributes that a context is created with.
pub fn context_attributes(
    xr_compatible: bool,
    antialias: bool,
    depth: bool,
    stencil: bool,
) -> (text: String)
    ensures
        text@ == context_attributes_text(xr_compatible, antialias, depth, stencil),
{
    let mut text = String::from_str("{\"xrCompatible\":");
    text.append(bool_str(xr_compatible));
    text.append(", \"antialias\": ");
    text.append(bool_str(antialias));
    text.append(", \"depth\": ");
    text.append(bool_str(depth));
    text.append(", \"stencil\": ");
    text.append(bool_str(stencil));
    text.append("}");
    text
}

} // verus!
