//! The HLSL target: its options, its binding descriptors, and the operations
//! of a session that translates to it.

use crate::bindings::{
    NativeCall, NativeCallView, ScHlslCompilerOptions, ScHlslResourceBinding,
    ScHlslResourceBindingSpaceRegister,
};
use crate::error::{ErrorCode, ErrorCodeView};
use crate::spirv::{Ast, Awaiting, AwaitingView, ExecutionModel, Module, Phase, Session, Step, StepView};
use crate::text::{bounded_form, nul_terminated, representable};
use vstd::prelude::*;
use vstd::slice::slice_to_vec;

pub use crate::bindings::ScHlslRootConstant as RootConstant;

verus! {

/// A register assignment: a register space and an index in it.
#[derive(Debug, Copy, Clone, PartialEq, Eq, Structural)]
pub struct HlslResourceBindingSpaceRegister {
    pub register_space: u32,
    pub register_binding: u32,
}

impl HlslResourceBindingSpaceRegister {
    /// The flat form of the assignment.
    pub open spec fn raw(self) -> ScHlslResourceBindingSpaceRegister {
        ScHlslResourceBindingSpaceRegister {
            register_space: self.register_space,
            register_binding: self.register_binding,
        }
    }

    /// The assignment that a flat form stands for.
    pub open spec fn of_raw(raw: ScHlslResourceBindingSpaceRegister) -> Self {
        HlslResourceBindingSpaceRegister {
            register_space: raw.register_space,
            register_binding: raw.register_binding,
        }
    }

    /// Converts the assignment to its flat form.
    pub fn to_raw(self) -> (raw: ScHlslResourceBindingSpaceRegister)
        ensures
            raw == self.raw(),
    {
        ScHlslResourceBindingSpaceRegister {
            register_space: self.register_space,
            register_binding: self.register_binding,
        }
    }

    /// Reads an assignment back from its flat form.
    pub fn from_raw(raw: ScHlslResourceBindingSpaceRegister) -> (register: Self)
        ensures
            register == Self::of_raw(raw),
    {
        HlslResourceBindingSpaceRegister {
            register_space: raw.register_space,
            register_binding: raw.register_binding,
        }
    }
}

/// Where the resource at a descriptor set and binding of one stage goes in
/// HLSL: one register assignment for each of the four kinds of view.
#[derive(Debug, Clone, PartialEq, Eq, Structural)]
pub struct HlslResourceBinding {
    pub stage: ExecutionModel,
    pub desc_set: u32,
    pub binding: u32,
    pub cbv: HlslResourceBindingSpaceRegister,
    pub uav: HlslResourceBindingSpaceRegister,
    pub srv: HlslResourceBindingSpaceRegister,
    pub sampler: HlslResourceBindingSpaceRegister,
}

impl HlslResourceBinding {
    /// The flat form of the binding: the stage by its code, every other
    /// field as it is.
    pub open spec fn raw(self) -> ScHlslResourceBinding {
        ScHlslResourceBinding {
            stage: self.stage.raw_code() as i32,
            desc_set: self.desc_set,
            binding: self.binding,
            cbv: self.cbv.raw(),
            uav: self.uav.raw(),
            srv: self.srv.raw(),
            sampler: self.sampler.raw(),
        }
    }

    /// The binding that a flat form stands for, if its stage code names an
    /// execution model.
    pub open spec fn of_raw(raw: ScHlslResourceBinding) -> Option<HlslResourceBinding> {
        match ExecutionModel::of_raw_code(raw.stage as int) {
            Some(stage) => Some(
                HlslResourceBinding {
                    stage,
                    desc_set: raw.desc_set,
                    binding: raw.binding,
                    cbv: HlslResourceBindingSpaceRegister::of_raw(raw.cbv),
                    uav: HlslResourceBindingSpaceRegister::of_raw(raw.uav),
                    srv: HlslResourceBindingSpaceRegister::of_raw(raw.srv),
                    sampler: HlslResourceBindingSpaceRegister::of_raw(raw.sampler),
                },
            ),
            None => None,
        }
    }

    /// Converts the binding to its flat form.
    pub fn to_raw(&self) -> (raw: ScHlslResourceBinding)
        ensures
            raw == self.raw(),
    {
        ScHlslResourceBinding {
            stage: self.stage.as_raw(),
            desc_set: self.desc_set,
            binding: self.binding,
            cbv: self.cbv.to_raw(),
            uav: self.uav.to_raw(),
            srv: self.srv.to_raw(),
            sampler: self.sampler.to_raw(),
        }
    }

    /// Reads a binding back from its flat form: `None` where the stage code
    /// names no execution model.
    pub fn from_raw(raw: &ScHlslResourceBinding) -> (binding: Option<HlslResourceBinding>)
        ensures
            binding == Self::of_raw(*raw),
    {
        match ExecutionModel::from_raw(raw.stage) {
            Some(stage) => Some(
                HlslResourceBinding {
                    stage,
                    desc_set: raw.desc_set,
                    binding: raw.binding,
                    cbv: HlslResourceBindingSpaceRegister::from_raw(raw.cbv),
                    uav: HlslResourceBindingSpaceRegister::from_raw(raw.uav),
                    srv: HlslResourceBindingSpaceRegister::from_raw(raw.srv),
                    sampler: HlslResourceBindingSpaceRegister::from_raw(raw.sampler),
                },
            ),
            None => None,
        }
    }

    /// The flat form keeps every field: descriptor set, binding and the
    /// eight register fields stand in it unchanged, the stage by its code,
    /// and the binding is read back from it whole.
    pub proof fn lemma_raw_round_trip(binding: HlslResourceBinding)
        ensures
            binding.raw().stage == binding.stage.raw_code(),
            binding.raw().desc_set == binding.desc_set,
            binding.raw().binding == binding.binding,
            binding.raw().cbv.register_space == binding.cbv.register_space,
            binding.raw().cbv.register_binding == binding.cbv.register_binding,
            binding.raw().uav.register_space == binding.uav.register_space,
            binding.raw().uav.register_binding == binding.uav.register_binding,
            binding.raw().srv.register_space == binding.srv.register_space,
            binding.raw().srv.register_binding == binding.srv.register_binding,
            binding.raw().sampler.register_space == binding.sampler.register_space,
            binding.raw().sampler.register_binding == binding.sampler.register_binding,
            Self::of_raw(binding.raw()) == Some(binding),
    {
    }
}

/// Gives the vertex input at `location` the semantic name `semantic`.
#[derive(Debug, Clone, PartialEq, Eq)]
pub struct HlslVertexAttributeRemap {
    pub location: u32,
    pub semantic: String,
}

/// A HLSL target. It marks the sessions that translate to HLSL, as in
/// `Ast<Target>`, and carries nothing.
#[derive(Debug, Copy, Clone, PartialEq, Eq, Structural)]
pub enum Target {
    Hlsl,
}

/// A HLSL shader model version.
#[allow(non_snake_case, non_camel_case_types)]
#[derive(Copy, Clone, Debug, Hash, PartialEq, Eq, Structural)]
#[non_exhaustive]
pub enum ShaderModel {
    V3_0,
    V4_0,
    V4_0L9_0,
    V4_0L9_1,
    V4_0L9_3,
    V4_1,
    V5_0,
    V5_1,
    V6_0,
}

impl ShaderModel {
    /// The code that the native engine knows the shader model by. The engine
    /// does not tell the feature levels of version 4.0 apart: they share the
    /// code of 4.0.
    pub open spec fn raw_code(self) -> int {
        match self {
            ShaderModel::V3_0 => 30,
            ShaderModel::V4_0 => 40,
            ShaderModel::V4_0L9_0 => 40,
            ShaderModel::V4_0L9_1 => 40,
            ShaderModel::V4_0L9_3 => 40,
            ShaderModel::V4_1 => 41,
            ShaderModel::V5_0 => 50,
            ShaderModel::V5_1 => 51,
            ShaderModel::V6_0 => 60,
        }
    }

    /// Converts the shader model to its code.
    pub fn as_raw(self) -> (raw: i32)
        ensures
            raw == self.raw_code(),
    {
        match self {
            ShaderModel::V3_0 => 30,
            ShaderModel::V4_0 => 40,
            ShaderModel::V4_0L9_0 => 40,
            ShaderModel::V4_0L9_1 => 40,
            ShaderModel::V4_0L9_3 => 40,
            ShaderModel::V4_1 => 41,
            ShaderModel::V5_0 => 50,
            ShaderModel::V5_1 => 51,
            ShaderModel::V6_0 => 60,
        }
    }

    /// The code of every shader model is one of 30, 40, 41, 50, 51 and 60,
    /// and two shader models share a code exactly when both are version 4.0,
    /// at whatever feature level.
    pub proof fn lemma_raw_code_documented(a: ShaderModel, b: ShaderModel)
        ensures
            set![30int, 40, 41, 50, 51, 60].contains(a.raw_code()),
            a.raw_code() == 40 <==> (a == ShaderModel::V4_0 || a == ShaderModel::V4_0L9_0 || a
                == ShaderModel::V4_0L9_1 || a == ShaderModel::V4_0L9_3),
            a.raw_code() == b.raw_code() <==> (a == b || (a.raw_code() == 40 && b.raw_code()
                == 40)),
    {
    }
}

/// How vertex positions are transformed on the way out.
#[derive(Debug, Clone, PartialEq, Eq, Structural)]
pub struct CompilerVertexOptions {
    pub invert_y: bool,
    pub transform_clip_space: bool,
}

impl Default for CompilerVertexOptions {
    fn default() -> (options: CompilerVertexOptions)
        ensures
            options == (CompilerVertexOptions { invert_y: false, transform_clip_space: false }),
    {
        CompilerVertexOptions { invert_y: false, transform_clip_space: false }
    }
}

/// HLSL compiler options.
#[non_exhaustive]
#[derive(Debug, Clone, PartialEq, Eq)]
pub struct CompilerOptions {
    pub shader_model: ShaderModel,
    /// Support point size builtin but ignore the value.
    pub point_size_compat: bool,
    /// Support point coordinate builtin but ignore the value.
    pub point_coord_compat: bool,
    pub vertex: CompilerVertexOptions,
    pub force_storage_buffer_as_uav: bool,
    pub nonwritable_uav_texture_as_srv: bool,
    /// Whether to force all uninitialized variables to be initialized to zero.
    pub force_zero_initialized_variables: bool,
    /// If matrices are used as IO variables, flatten the attribute declaration to use
    /// TEXCOORD{N,N+1,N+2,...} rather than TEXCOORDN_{0,1,2,3}.
    /// If add_vertex_attribute_remap is used and this feature is used,
    /// the semantic name will be queried once per active location.
    pub flatten_matrix_vertex_input_semantics: bool,
    /// The name and execution model of the entry point to use. If no entry
    /// point is specified, then the first entry point found will be used.
    pub entry_point: Option<(String, ExecutionModel)>,
}

impl CompilerOptions {
    /// The flat form of the options: the shader model by its code, each
    /// toggle as it is, the vertex options side by side with the rest. The
    /// entry point is no part of it.
    pub open spec fn raw(self) -> ScHlslCompilerOptions {
        ScHlslCompilerOptions {
            shader_model: self.shader_model.raw_code() as i32,
            point_size_compat: self.point_size_compat,
            point_coord_compat: self.point_coord_compat,
            vertex_invert_y: self.vertex.invert_y,
            vertex_transform_clip_space: self.vertex.transform_clip_space,
            force_storage_buffer_as_uav: self.force_storage_buffer_as_uav,
            nonwritable_uav_texture_as_srv: self.nonwritable_uav_texture_as_srv,
            flatten_matrix_vertex_input_semantics: self.flatten_matrix_vertex_input_semantics,
            force_zero_initialized_variables: self.force_zero_initialized_variables,
        }
    }

    /// Converts the options to their flat form.
    pub fn to_raw(&self) -> (raw: ScHlslCompilerOptions)
        ensures
            raw == self.raw(),
    {
        ScHlslCompilerOptions {
            shader_model: self.shader_model.as_raw(),
            point_size_compat: self.point_size_compat,
            point_coord_compat: self.point_coord_compat,
            vertex_invert_y: self.vertex.invert_y,
            vertex_transform_clip_space: self.vertex.transform_clip_space,
            force_storage_buffer_as_uav: self.force_storage_buffer_as_uav,
            nonwritable_uav_texture_as_srv: self.nonwritable_uav_texture_as_srv,
            flatten_matrix_vertex_input_semantics: self.flatten_matrix_vertex_input_semantics,
            force_zero_initialized_variables: self.force_zero_initialized_variables,
        }
    }
}

impl Default for CompilerOptions {
    fn default() -> (options: CompilerOptions)
        ensures
            options.shader_model == ShaderModel::V3_0,
            !options.point_size_compat,
            !options.point_coord_compat,
            !options.vertex.invert_y,
            !options.vertex.transform_clip_space,
            !options.force_storage_buffer_as_uav,
            !options.nonwritable_uav_texture_as_srv,
            !options.force_zero_initialized_variables,
            !options.flatten_matrix_vertex_input_semantics,
            options.entry_point is None,
    {
        CompilerOptions {
            shader_model: ShaderModel::V3_0,
            point_size_compat: false,
            point_coord_compat: false,
            vertex: CompilerVertexOptions::default(),
            force_storage_buffer_as_uav: false,
            nonwritable_uav_texture_as_srv: false,
            force_zero_initialized_variables: false,
            flatten_matrix_vertex_input_semantics: false,
            entry_point: None,
        }
    }
}

impl Ast<Target> {
    /// Begins a session on a module: hands back the session, with its
    /// compiler still to be constructed, and the call that constructs it on
    /// the module's words.
    pub fn parse(module: &Module) -> (started: (Ast<Target>, Step))
        ensures
            started.0@ == (Session { phase: Phase::Unborn, awaiting: AwaitingView::Construction }),
            started.1@ == StepView::Call(NativeCallView::HlslNew { words: module.words@ }),
    {
        let words = slice_to_vec(module.words);
        (Ast::under_construction(), Step::Call(NativeCall::HlslNew { words }))
    }

    /// Set HLSL compiler specific compilation settings.
    ///
    /// Where an entry point is named, it is selected first, and the options
    /// are set once the engine has accepted it. A name that holds the
    /// terminator character fails at once with [`ErrorCode::Unhandled`]: no
    /// call is made and the session is left as it was.
    pub fn set_compiler_options(&mut self, options: &CompilerOptions) -> (step: Step)
        requires
            old(self)@.ready(),
        ensures
            match options.entry_point {
                Some((name, model)) => if representable(name@) {
                    &&& step@ == StepView::Call(
                        NativeCallView::SetEntryPoint {
                            name: bounded_form(name@),
                            stage: model.raw_code() as i32,
                        },
                    )
                    &&& final(self)@ == (Session {
                        phase: old(self)@.phase,
                        awaiting: AwaitingView::Selection {
                            then: NativeCallView::HlslSetOptions { options: options.raw() },
                        },
                    })
                } else {
                    &&& step@ == StepView::Failed(ErrorCodeView::Unhandled)
                    &&& final(self)@ == old(self)@
                },
                None => {
                    &&& step@ == StepView::Call(
                        NativeCallView::HlslSetOptions { options: options.raw() },
                    )
                    &&& final(self)@ == (Session {
                        phase: old(self)@.phase,
                        awaiting: AwaitingView::Configuration,
                    })
                },
            },
    {
        let set_options = NativeCall::HlslSetOptions { options: options.to_raw() };
        match &options.entry_point {
            Some((name, model)) => match nul_terminated(name.as_str()) {
                Ok(name_raw) => {
                    let stage = model.as_raw();
                    self.await_reply(Awaiting::Selection { then: set_options });
                    Step::Call(NativeCall::SetEntryPoint { name: name_raw, stage })
                },
                Err(error) => Step::Failed(error),
            },
            None => {
                self.await_reply(Awaiting::Configuration);
                Step::Call(set_options)
            },
        }
    }

    /// Sets the layout of the root constants: the groups go to the engine in
    /// the order given.
    pub fn set_root_constant_layout(&mut self, layout: Vec<RootConstant>) -> (step: Step)
        requires
            old(self)@.ready(),
        ensures
            step@ == StepView::Call(NativeCallView::HlslSetRootConstantLayout { layout: layout@ }),
            final(self)@ == (Session {
                phase: old(self)@.phase,
                awaiting: AwaitingView::Adjustment,
            }),
    {
        self.await_reply(Awaiting::Adjustment);
        Step::Call(NativeCall::HlslSetRootConstantLayout { layout })
    }

    /// Overrides the semantic name of one vertex input.
    ///
    /// A semantic name that holds the terminator character fails at once
    /// with [`ErrorCode::Unhandled`]: no call is made and the session is left
    /// as it was.
    pub fn add_vertex_attribute_remap(&mut self, remap: &HlslVertexAttributeRemap) -> (step: Step)
        requires
            old(self)@.ready(),
        ensures
            if representable(remap.semantic@) {
                &&& step@ == StepView::Call(
                    NativeCallView::HlslAddVertexAttributeRemap {
                        location: remap.location,
                        semantic: bounded_form(remap.semantic@),
                    },
                )
                &&& final(self)@ == (Session {
                    phase: old(self)@.phase,
                    awaiting: AwaitingView::Adjustment,
                })
            } else {
                &&& step@ == StepView::Failed(ErrorCodeView::Unhandled)
                &&& final(self)@ == old(self)@
            },
    {
        match nul_terminated(remap.semantic.as_str()) {
            Ok(semantic) => {
                self.await_reply(Awaiting::Adjustment);
                Step::Call(
                    NativeCall::HlslAddVertexAttributeRemap { location: remap.location, semantic },
                )
            },
            Err(error) => Step::Failed(error),
        }
    }

    /// Adds a resource binding. Nothing is refused on this side: the binding
    /// goes to the engine in its flat form, whatever was added before.
    pub fn add_resource_binding(&mut self, resource_binding: &HlslResourceBinding) -> (step: Step)
        requires
            old(self)@.ready(),
        ensures
            step@ == StepView::Call(
                NativeCallView::HlslAddResourceBinding { binding: resource_binding.raw() },
            ),
            final(self)@ == (Session {
                phase: old(self)@.phase,
                awaiting: AwaitingView::Adjustment,
            }),
    {
        self.await_reply(Awaiting::Adjustment);
        Step::Call(NativeCall::HlslAddResourceBinding { binding: resource_binding.to_raw() })
    }
}

} // verus!
