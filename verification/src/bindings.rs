//! The boundary with the native engine: the flat records it reads, the calls
//! it offers and what it answers.

use vstd::prelude::*;

verus! {

/// Flat form of the compiler options.
#[derive(Debug, Copy, Clone, PartialEq, Eq, Structural)]
pub struct ScHlslCompilerOptions {
    pub shader_model: i32,
    pub point_size_compat: bool,
    pub point_coord_compat: bool,
    pub vertex_invert_y: bool,
    pub vertex_transform_clip_space: bool,
    pub force_storage_buffer_as_uav: bool,
    pub nonwritable_uav_texture_as_srv: bool,
    pub flatten_matrix_vertex_input_semantics: bool,
    pub force_zero_initialized_variables: bool,
}

/// Flat form of one register assignment.
#[derive(Debug, Copy, Clone, PartialEq, Eq, Structural)]
pub struct ScHlslResourceBindingSpaceRegister {
    pub register_space: u32,
    pub register_binding: u32,
}

/// Flat form of a resource binding; `stage` is a stage code.
#[derive(Debug, Copy, Clone, PartialEq, Eq, Structural)]
pub struct ScHlslResourceBinding {
    pub stage: i32,
    pub desc_set: u32,
    pub binding: u32,
    pub cbv: ScHlslResourceBindingSpaceRegister,
    pub uav: ScHlslResourceBindingSpaceRegister,
    pub srv: ScHlslResourceBindingSpaceRegister,
    pub sampler: ScHlslResourceBindingSpaceRegister,
}

/// One group of root constants. The library hands it through unread.
#[derive(Debug, Copy, Clone, PartialEq, Eq, Structural)]
pub struct ScHlslRootConstant {
    pub start: u32,
    pub end: u32,
    pub binding: u32,
    pub space: u32,
}

/// A call for the embedder to make into the native engine, with what is
/// handed to it. Texts are byte buffers that end in a zero byte and hold no
/// other; the embedder keeps each buffer alive until the call has returned.
#[derive(Debug, Clone, PartialEq, Eq)]
pub enum NativeCall {
    /// Construct an HLSL compiler on the words of a module.
    HlslNew { words: Vec<u32> },
    /// Select the entry point by name and stage code.
    SetEntryPoint { name: Vec<u8>, stage: i32 },
    /// Set the compiler options.
    HlslSetOptions { options: ScHlslCompilerOptions },
    /// Set the layout of the root constants.
    HlslSetRootConstantLayout { layout: Vec<ScHlslRootConstant> },
    /// Give the input at `location` the semantic name `semantic`.
    HlslAddVertexAttributeRemap { location: u32, semantic: Vec<u8> },
    /// Add a resource binding.
    HlslAddResourceBinding { binding: ScHlslResourceBinding },
    /// Generate the source text.
    Compile,
    /// Release the compiler.
    Delete,
}

/// What a [`NativeCall`] is, with its buffers as sequences.
pub enum NativeCallView {
    HlslNew { words: Seq<u32> },
    SetEntryPoint { name: Seq<u8>, stage: i32 },
    HlslSetOptions { options: ScHlslCompilerOptions },
    HlslSetRootConstantLayout { layout: Seq<ScHlslRootConstant> },
    HlslAddVertexAttributeRemap { location: u32, semantic: Seq<u8> },
    HlslAddResourceBinding { binding: ScHlslResourceBinding },
    Compile,
    Delete,
}

impl View for NativeCall {
    type V = NativeCallView;

    open spec fn view(&self) -> NativeCallView {
        match self {
            NativeCall::HlslNew { words } => NativeCallView::HlslNew { words: words@ },
            NativeCall::SetEntryPoint { name, stage } => NativeCallView::SetEntryPoint {
                name: name@,
                stage: *stage,
            },
            NativeCall::HlslSetOptions { options } => NativeCallView::HlslSetOptions {
                options: *options,
            },
            NativeCall::HlslSetRootConstantLayout { layout } => {
                NativeCallView::HlslSetRootConstantLayout { layout: layout@ }
            },
            NativeCall::HlslAddVertexAttributeRemap { location, semantic } => {
                NativeCallView::HlslAddVertexAttributeRemap {
                    location: *location,
                    semantic: semantic@,
                }
            },
            NativeCall::HlslAddResourceBinding { binding } => {
                NativeCallView::HlslAddResourceBinding { binding: *binding }
            },
            NativeCall::Compile => NativeCallView::Compile,
            NativeCall::Delete => NativeCallView::Delete,
        }
    }
}

/// What the native engine answered to a call.
#[derive(Debug, Clone, PartialEq, Eq)]
pub enum NativeReply {
    /// The call succeeded. `output` is the text that it gave back: the
    /// generated source after [`NativeCall::Compile`], empty after any other.
    Success { output: String },
    /// The call failed, with the engine's message (empty where it gave none).
    Failure { message: String },
}

/// What a [`NativeReply`] is, with its text as a sequence of characters.
pub enum NativeReplyView {
    Success { output: Seq<char> },
    Failure { message: Seq<char> },
}

impl View for NativeReply {
    type V = NativeReplyView;

    open spec fn view(&self) -> NativeReplyView {
        match self {
            NativeReply::Success { output } => NativeReplyView::Success { output: output@ },
            NativeReply::Failure { message } => NativeReplyView::Failure { message: message@ },
        }
    }
}

} // verus!
