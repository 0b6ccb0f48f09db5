//! Shader descriptors: the source text and stage of a module the GPU
//! back end compiles.

use vstd::prelude::*;

verus! {

/// Which pipeline stage a shader runs in.
#[derive(Clone, Copy, PartialEq, Eq, Structural, Debug)]
pub enum ShaderKind {
    Vertex,
    Fragment,
    Compute,
}

/// A shader awaiting compilation: its source text and its stage.
pub struct Shader {
    pub source: String,
    pub kind: ShaderKind,
}

impl Shader {
    /// Wraps shader source text for the given stage.
    pub fn new(source: String, kind: ShaderKind) -> (s: Shader)
        ensures
            s.source@ == source@,
            s.kind == kind,
    {
        Shader { source, kind }
    }

    /// The stage's conventional name; stages the 2D pipeline never binds
    /// answer with a placeholder.
    pub fn get_type(&self) -> (r: String)
        ensures
            self.kind == ShaderKind::Vertex ==> r@ == "vertex"@,
            self.kind == ShaderKind::Fragment ==> r@ == "fragment"@,
            self.kind == ShaderKind::Compute ==> r@ == "N/A"@,
    {
        match self.kind {
            ShaderKind::Vertex => "vertex".to_owned(),
            ShaderKind::Fragment => "fragment".to_owned(),
            ShaderKind::Compute => "N/A".to_owned(),
        }
    }
}

/// A vertex-stage shader.
pub fn vertex_shader(source: String) -> (s: Shader)
    ensures
        s.source@ == source@,
        s.kind == ShaderKind::Vertex,
{
    Shader::new(source, ShaderKind::Vertex)
}

/// A fragment-stage shader.
pub fn fragment_shader(source: String) -> (s: Shader)
    ensures
        s.source@ == source@,
        s.kind == ShaderKind::Fragment,
{
    Shader::new(source, ShaderKind::Fragment)
}

/// A compute-stage shader.
pub fn compute_shader(source: String) -> (s: Shader)
    ensures
        s.source@ == source@,
        s.kind == ShaderKind::Compute,
{
    Shader::new(source, ShaderKind::Compute)
}

} // verus!
