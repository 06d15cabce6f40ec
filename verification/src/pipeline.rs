//! Root signature and pipeline state.
//!
//! Both are compiled-in configuration: the root signature only opts in
//! to input-assembler input layouts, and the pipeline state couples the
//! two precompiled shader stages the shader collaborator supplies. The
//! descriptor plumbing (blend, rasterizer, and depth-stencil settings)
//! belongs to the platform shell; what the library checks and records
//! is the part the frame loop depends on — that both shader stages are
//! actually present, a condition the design treats as fatal at startup.

use vstd::prelude::*;
use crate::error::RenderError;

verus! {

/// The root signature: no bound resources, input-assembler layout allowed.
#[derive(Clone, Copy, PartialEq, Eq, Structural, Debug)]
pub struct RootSignature {
    /// The signature permits an input-assembler input layout, which the
    /// vertex buffer binding requires.
    pub allows_input_assembler_layout: bool,
}

/// Build the fixed root signature the pipeline uses.
pub fn create_root_signature() -> (r: RootSignature)
    ensures
        r.allows_input_assembler_layout,
{
    RootSignature { allows_input_assembler_layout: true }
}

/// A created pipeline state: which shader bytecode sizes it was built
/// from. Immutable once created.
#[derive(Clone, Copy, PartialEq, Eq, Structural, Debug)]
pub struct PipelineState {
    /// Size in bytes of the vertex-stage bytecode.
    pub vs_size: usize,
    /// Size in bytes of the pixel-stage bytecode.
    pub ps_size: usize,
}

/// Create the pipeline state from the two precompiled shader blobs.
/// An absent (empty) stage is a fatal startup condition and fails with
/// `MissingShader`; with both stages present, creation succeeds.
pub fn create_pipeline_state(vs_bytecode: &Vec<u8>, ps_bytecode: &Vec<u8>) -> (r: Result<
    PipelineState,
    RenderError,
>)
    ensures
        match r {
            Ok(p) => {
                &&& vs_bytecode@.len() > 0
                &&& ps_bytecode@.len() > 0
                &&& p.vs_size == vs_bytecode@.len()
                &&& p.ps_size == ps_bytecode@.len()
            },
            Err(e) => {
                &&& e == RenderError::MissingShader
                &&& (vs_bytecode@.len() == 0 || ps_bytecode@.len() == 0)
            },
        },
{
    if vs_bytecode.len() == 0 || ps_bytecode.len() == 0 {
        Err(RenderError::MissingShader)
    } else {
        Ok(PipelineState { vs_size: vs_bytecode.len(), ps_size: ps_bytecode.len() })
    }
}

} // verus!
