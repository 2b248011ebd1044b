use vstd::prelude::*;

verus! {

/// Why a reference image could not be produced.
#[derive(Clone, Copy, Debug, PartialEq, Eq, Structural)]
pub enum SceneError {
    /// The canvas could not be created.
    Allocation,
    /// The outline could not be finalized into a path.
    Geometry,
    /// The gradient shader could not be constructed.
    Shader,
    /// The canvas could not be serialized as PNG.
    Encoding,
}

impl SceneError {
    /// A short description of the failure, for a caller to print.
    pub fn message(&self) -> (text: &'static str)
        ensures
            text@ == match *self {
                SceneError::Allocation => "failed to allocate pixmap"@,
                SceneError::Geometry => "failed to finish path"@,
                SceneError::Shader => "failed to create gradient shader"@,
                SceneError::Encoding => "failed to encode PNG"@,
            },
    {
        match self {
            SceneError::Allocation => "failed to allocate pixmap",
            SceneError::Geometry => "failed to finish path",
            SceneError::Shader => "failed to create gradient shader",
            SceneError::Encoding => "failed to encode PNG",
        }
    }
}

} // verus!
