//! Shaders: bytecode with a kind.

use crate::engine::pipeline::ShaderType;
use vstd::prelude::*;

verus! {

/// The function at which a shader starts.
#[derive(Clone, Copy, Debug, PartialEq, Eq, Structural)]
pub enum EntryPoint {
    /// The function named `main`.
    Main,
}

/// A shader's place in a pipeline. The stage is a Vulkan bit mask.
#[derive(Clone, Copy, Debug, PartialEq, Eq, Structural)]
pub struct ShaderStage {
    pub stage: u32,
    pub entry_point: EntryPoint,
}

/// What a shader module is created from.
#[derive(Clone, Copy, Debug, PartialEq, Eq, Structural)]
pub struct ShaderModuleInfo {
    /// The length of the bytecode in bytes.
    pub code_size: usize,
}

/// A shader: its bytecode, as it was read, and its kind. The bytecode is not
/// looked into.
#[derive(Debug)]
pub struct Shader {
    pub code: Vec<u8>,
    pub shader_type: ShaderType,
}

impl Shader {
    /// The shader's place in a pipeline: the stage of its kind, starting at
    /// `main`.
    pub open spec fn stage(self) -> ShaderStage {
        ShaderStage { stage: self.shader_type.stage_bits(), entry_point: EntryPoint::Main }
    }

    /// Makes a shader of the given kind from bytecode.
    pub fn load(bytes: Vec<u8>, shader_type: ShaderType) -> (shader: Shader)
        ensures
            shader.code == bytes,
            shader.shader_type == shader_type,
    {
        Shader { code: bytes, shader_type }
    }

    /// Says what the shader's module is created from.
    pub fn create_module(&self) -> (info: ShaderModuleInfo)
        ensures
            info.code_size == self.code@.len(),
    {
        ShaderModuleInfo { code_size: self.code.len() }
    }

    /// Gives the shader's place in a pipeline.
    pub fn create_stage(&self) -> (stage: ShaderStage)
        ensures
            stage == self.stage(),
    {
        ShaderStage { stage: self.shader_type.to_vulkan(), entry_point: EntryPoint::Main }
    }
}

} // verus!
