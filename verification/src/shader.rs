//! Shader variants of the render pipelines.
//!
//! Each pipeline is compiled from one of a fixed set of shader programs,
//! selected by name.  The programs themselves are opaque GPU artifacts and
//! are compiled by the host; this module only identifies them.

use vstd::prelude::*;

verus! {

/// The shader variant a material selects its pipeline by.
#[derive(Clone, Copy, Debug, PartialEq, Eq, Structural)]
pub enum ShaderType {
    /// The editor ground grid.
    Grid,
    /// Ordinary textured 3D geometry.
    Basic,
    /// 4D geometry.
    Hyper,
}

/// The name under which a shader variant's program is looked up.
pub open spec fn spec_shader_name(t: ShaderType) -> Seq<char> {
    match t {
        ShaderType::Grid => "grid"@,
        ShaderType::Basic => "basic"@,
        ShaderType::Hyper => "hyper"@,
    }
}

impl ShaderType {
    /// The display name of the variant, also used as a material name.
    pub fn name(&self) -> (r: String)
        ensures
            r@ == spec_shader_name(*self),
    {
        match self {
            ShaderType::Grid => String::from_str("grid"),
            ShaderType::Basic => String::from_str("basic"),
            ShaderType::Hyper => String::from_str("hyper"),
        }
    }
}

} // verus!
