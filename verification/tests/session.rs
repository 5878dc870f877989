use spirv_cross::bindings::{NativeCall, NativeReply, ScHlslCompilerOptions, ScHlslRootConstant};
use spirv_cross::hlsl::{
    CompilerOptions, HlslResourceBinding, HlslResourceBindingSpaceRegister,
    HlslVertexAttributeRemap, RootConstant, ShaderModel, Target,
};
use spirv_cross::spirv::{Ast, ExecutionModel, Module, Phase, Step};
use spirv_cross::ErrorCode;

/// The header of a SPIR-V module and nothing after it.
const MINIMAL_MODULE: [u32; 5] = [0x0723_0203, 0x0001_0000, 0, 1, 0];

const GENERATED: &str = "void vert_main()\n{\n}\n\nvoid main()\n{\n    vert_main();\n}\n";

fn success() -> NativeReply {
    NativeReply::Success { output: String::new() }
}

fn failure(message: &str) -> NativeReply {
    NativeReply::Failure { message: String::from(message) }
}

/// A session whose compiler the engine has constructed.
fn created() -> Ast<Target> {
    let (mut ast, step) = Ast::<Target>::parse(&Module::from_words(&MINIMAL_MODULE));
    assert!(matches!(step, Step::Call(NativeCall::HlslNew { .. })));
    assert_eq!(ast.resume(success()), Step::Done);
    ast
}

/// Plays an engine that accepts every call: performs the calls of one
/// operation, notes them in `log`, and hands back how the operation ended.
fn run(ast: &mut Ast<Target>, first: Step, log: &mut Vec<NativeCall>) -> Step {
    let mut step = first;
    for _ in 0..8 {
        match step {
            Step::Call(call) => {
                let reply = match call {
                    NativeCall::Compile => NativeReply::Success { output: String::from(GENERATED) },
                    _ => success(),
                };
                log.push(call);
                step = ast.resume(reply);
            }
            ended => return ended,
        }
    }
    panic!("the operation did not end");
}

fn register(space: u32, index: u32) -> HlslResourceBindingSpaceRegister {
    HlslResourceBindingSpaceRegister { register_space: space, register_binding: index }
}

fn binding_at(desc_set: u32, binding: u32) -> HlslResourceBinding {
    HlslResourceBinding {
        stage: ExecutionModel::Vertex,
        desc_set,
        binding,
        cbv: register(0, binding),
        uav: register(1, binding),
        srv: register(2, binding),
        sampler: register(3, binding),
    }
}

fn flat_options(shader_model: i32) -> ScHlslCompilerOptions {
    ScHlslCompilerOptions {
        shader_model,
        point_size_compat: false,
        point_coord_compat: false,
        vertex_invert_y: false,
        vertex_transform_clip_space: false,
        force_storage_buffer_as_uav: false,
        nonwritable_uav_texture_as_srv: false,
        flatten_matrix_vertex_input_semantics: false,
        force_zero_initialized_variables: false,
    }
}

#[test]
fn parse_hands_the_words_to_the_engine() {
    let (ast, step) = Ast::<Target>::parse(&Module::from_words(&MINIMAL_MODULE));
    assert_eq!(step, Step::Call(NativeCall::HlslNew { words: MINIMAL_MODULE.to_vec() }));
    assert_eq!(ast.phase(), Phase::Unborn);
    assert!(ast.awaits_reply());
    assert!(!ast.is_ready());
    assert!(!ast.has_been_compiled());
}

#[test]
fn parse_of_an_empty_module_hands_no_words() {
    let (_, step) = Ast::<Target>::parse(&Module::from_words(&[]));
    assert_eq!(step, Step::Call(NativeCall::HlslNew { words: vec![] }));
}

#[test]
fn accepted_module_gives_a_created_session() {
    let ast = created();
    assert_eq!(ast.phase(), Phase::Created);
    assert!(ast.is_ready());
    assert!(!ast.awaits_reply());
}

#[test]
fn refused_module_gives_the_engines_message_and_no_compiler() {
    let (mut ast, _) = Ast::<Target>::parse(&Module::from_words(&[1, 2, 3]));
    let step = ast.resume(failure("invalid SPIR-V"));
    assert_eq!(step, Step::Failed(ErrorCode::CompilationError(String::from("invalid SPIR-V"))));
    assert_eq!(ast.phase(), Phase::Unborn);
    assert!(!ast.is_ready());
    assert!(!ast.awaits_reply());
    assert_eq!(ast.release(), None);
}

#[test]
fn options_without_entry_point_take_one_call() {
    let mut ast = created();
    let mut options = CompilerOptions::default();
    options.shader_model = ShaderModel::V4_0L9_3;
    options.vertex.invert_y = true;
    let step = ast.set_compiler_options(&options);
    let mut expected = flat_options(40);
    expected.vertex_invert_y = true;
    assert_eq!(step, Step::Call(NativeCall::HlslSetOptions { options: expected }));
    assert!(ast.awaits_reply());
    assert_eq!(ast.phase(), Phase::Created);
    assert_eq!(ast.resume(success()), Step::Done);
    assert_eq!(ast.phase(), Phase::Configured);
    assert!(ast.is_ready());
}

#[test]
fn entry_point_is_selected_before_the_options_are_set() {
    let mut ast = created();
    let mut options = CompilerOptions::default();
    options.shader_model = ShaderModel::V5_1;
    options.entry_point = Some((String::from("main"), ExecutionModel::Fragment));
    let step = ast.set_compiler_options(&options);
    assert_eq!(step, Step::Call(NativeCall::SetEntryPoint { name: b"main\0".to_vec(), stage: 4 }));
    assert_eq!(ast.phase(), Phase::Created);
    let step = ast.resume(success());
    assert_eq!(step, Step::Call(NativeCall::HlslSetOptions { options: flat_options(51) }));
    assert_eq!(ast.phase(), Phase::Created);
    assert!(ast.awaits_reply());
    assert_eq!(ast.resume(success()), Step::Done);
    assert_eq!(ast.phase(), Phase::Configured);
    assert!(ast.is_ready());
}

#[test]
fn entry_point_name_with_a_terminator_fails_before_any_call() {
    let mut ast = created();
    let mut options = CompilerOptions::default();
    options.entry_point = Some((String::from("ma\0in"), ExecutionModel::Vertex));
    let step = ast.set_compiler_options(&options);
    assert_eq!(step, Step::Failed(ErrorCode::Unhandled));
    assert!(!ast.awaits_reply());
    assert!(ast.is_ready());
    assert_eq!(ast.phase(), Phase::Created);
}

#[test]
fn entry_point_that_the_engine_refuses_ends_the_operation() {
    let mut ast = created();
    let mut options = CompilerOptions::default();
    options.entry_point = Some((String::from("missing"), ExecutionModel::GlCompute));
    let step = ast.set_compiler_options(&options);
    assert_eq!(
        step,
        Step::Call(NativeCall::SetEntryPoint { name: b"missing\0".to_vec(), stage: 5 })
    );
    let step = ast.resume(failure("no such entry point"));
    assert_eq!(
        step,
        Step::Failed(ErrorCode::CompilationError(String::from("no such entry point")))
    );
    assert!(!ast.awaits_reply());
    assert_eq!(ast.phase(), Phase::Created);
}

#[test]
fn options_that_the_engine_refuses_leave_the_phase() {
    let mut ast = created();
    let step = ast.set_compiler_options(&CompilerOptions::default());
    assert!(matches!(step, Step::Call(NativeCall::HlslSetOptions { .. })));
    assert_eq!(
        ast.resume(failure("option conflict")),
        Step::Failed(ErrorCode::CompilationError(String::from("option conflict")))
    );
    assert_eq!(ast.phase(), Phase::Created);
    assert!(ast.is_ready());
}

#[test]
fn engine_failure_without_message_is_still_no_local_error() {
    let mut ast = created();
    let _ = ast.add_resource_binding(&binding_at(0, 0));
    let step = ast.resume(failure(""));
    assert_eq!(step, Step::Failed(ErrorCode::CompilationError(String::new())));
    assert_ne!(step, Step::Failed(ErrorCode::Unhandled));
}

#[test]
fn compile_with_shader_model_5_0_gives_the_generated_source() {
    let mut log = Vec::new();
    let mut ast = created();
    let mut options = CompilerOptions::default();
    options.shader_model = ShaderModel::V5_0;
    let first = ast.set_compiler_options(&options);
    assert_eq!(run(&mut ast, first, &mut log), Step::Done);
    let first = ast.compile();
    let ended = run(&mut ast, first, &mut log);
    assert_eq!(
        log,
        vec![NativeCall::HlslSetOptions { options: flat_options(50) }, NativeCall::Compile]
    );
    match ended {
        Step::Source(source) => {
            assert!(!source.is_empty());
            assert!(source.contains("void main()"));
            assert_eq!(source, GENERATED);
        }
        other => panic!("no source text: {:?}", other),
    }
    assert!(ast.has_been_compiled());
    assert_eq!(ast.phase(), Phase::Compiled);
}

#[test]
fn compile_after_default_options_hands_the_engines_text_through() {
    let mut ast = created();
    let _ = ast.set_compiler_options(&CompilerOptions::default());
    assert_eq!(ast.resume(success()), Step::Done);
    assert_eq!(ast.compile(), Step::Call(NativeCall::Compile));
    let step = ast.resume(NativeReply::Success { output: String::from("float4 x;") });
    assert_eq!(step, Step::Source(String::from("float4 x;")));
}

#[test]
fn compile_is_recorded_at_the_request() {
    let mut ast = created();
    assert!(!ast.has_been_compiled());
    assert_eq!(ast.compile(), Step::Call(NativeCall::Compile));
    assert!(ast.has_been_compiled());
    assert!(ast.awaits_reply());
}

#[test]
fn compile_may_come_before_any_option() {
    let mut log = Vec::new();
    let mut ast = created();
    let first = ast.compile();
    assert_eq!(run(&mut ast, first, &mut log), Step::Source(String::from(GENERATED)));
    assert_eq!(log, vec![NativeCall::Compile]);
}

#[test]
fn compile_may_be_repeated() {
    let mut log = Vec::new();
    let mut ast = created();
    let first = ast.compile();
    assert_eq!(run(&mut ast, first, &mut log), Step::Source(String::from(GENERATED)));
    let again = ast.compile();
    assert_eq!(run(&mut ast, again, &mut log), Step::Source(String::from(GENERATED)));
    assert_eq!(log, vec![NativeCall::Compile, NativeCall::Compile]);
    assert_eq!(ast.phase(), Phase::Compiled);
}

#[test]
fn failed_compile_gives_the_engines_message() {
    let mut ast = created();
    let _ = ast.compile();
    let step = ast.resume(failure("unsupported construct"));
    assert_eq!(
        step,
        Step::Failed(ErrorCode::CompilationError(String::from("unsupported construct")))
    );
    assert!(ast.has_been_compiled());
    assert!(ast.is_ready());
}

#[test]
fn options_after_a_compile_leave_the_session_compiled() {
    let mut log = Vec::new();
    let mut ast = created();
    let first = ast.compile();
    let _ = run(&mut ast, first, &mut log);
    let first = ast.set_compiler_options(&CompilerOptions::default());
    assert_eq!(run(&mut ast, first, &mut log), Step::Done);
    assert_eq!(ast.phase(), Phase::Compiled);
}

#[test]
fn root_constant_layout_goes_out_in_order() {
    let mut ast = created();
    let layout: Vec<RootConstant> = vec![
        ScHlslRootConstant { start: 0, end: 16, binding: 0, space: 0 },
        ScHlslRootConstant { start: 16, end: 48, binding: 1, space: 2 },
        ScHlslRootConstant { start: 0, end: 16, binding: 0, space: 0 },
    ];
    let step = ast.set_root_constant_layout(layout.clone());
    assert_eq!(step, Step::Call(NativeCall::HlslSetRootConstantLayout { layout }));
    assert_eq!(ast.resume(success()), Step::Done);
    assert_eq!(ast.phase(), Phase::Created);
}

#[test]
fn empty_root_constant_layout_is_handed_on() {
    let mut ast = created();
    let step = ast.set_root_constant_layout(Vec::new());
    assert_eq!(step, Step::Call(NativeCall::HlslSetRootConstantLayout { layout: vec![] }));
}

#[test]
fn root_constant_layout_that_the_engine_refuses_fails() {
    let mut ast = created();
    let _ = ast.set_root_constant_layout(vec![ScHlslRootConstant {
        start: 8,
        end: 4,
        binding: 0,
        space: 0,
    }]);
    assert_eq!(
        ast.resume(failure("bad layout")),
        Step::Failed(ErrorCode::CompilationError(String::from("bad layout")))
    );
    assert!(ast.is_ready());
}

#[test]
fn vertex_attribute_remap_carries_location_and_bounded_name() {
    let mut ast = created();
    let remap = HlslVertexAttributeRemap { location: 3, semantic: String::from("POSITION") };
    let step = ast.add_vertex_attribute_remap(&remap);
    assert_eq!(
        step,
        Step::Call(NativeCall::HlslAddVertexAttributeRemap {
            location: 3,
            semantic: b"POSITION\0".to_vec(),
        })
    );
    assert_eq!(ast.resume(success()), Step::Done);
    assert!(ast.is_ready());
}

#[test]
fn semantic_name_with_a_terminator_fails_before_any_call() {
    let mut ast = created();
    let remap = HlslVertexAttributeRemap { location: 0, semantic: String::from("POS\0ITION") };
    assert_eq!(ast.add_vertex_attribute_remap(&remap), Step::Failed(ErrorCode::Unhandled));
    assert!(!ast.awaits_reply());
    assert!(ast.is_ready());
    assert_eq!(ast.phase(), Phase::Created);
}

#[test]
fn resource_binding_goes_out_in_flat_form() {
    let mut ast = created();
    let binding = binding_at(2, 5);
    let step = ast.add_resource_binding(&binding);
    assert_eq!(step, Step::Call(NativeCall::HlslAddResourceBinding { binding: binding.to_raw() }));
    match step {
        Step::Call(NativeCall::HlslAddResourceBinding { binding: raw }) => {
            assert_eq!(raw.stage, 0);
            assert_eq!(raw.desc_set, 2);
            assert_eq!(raw.binding, 5);
            assert_eq!((raw.cbv.register_space, raw.cbv.register_binding), (0, 5));
            assert_eq!((raw.uav.register_space, raw.uav.register_binding), (1, 5));
            assert_eq!((raw.srv.register_space, raw.srv.register_binding), (2, 5));
            assert_eq!((raw.sampler.register_space, raw.sampler.register_binding), (3, 5));
        }
        other => panic!("no binding call: {:?}", other),
    }
}

#[test]
fn two_bindings_at_one_descriptor_set_succeed_independently() {
    let mut log = Vec::new();
    let mut ast = created();
    let first = binding_at(0, 1);
    let second = binding_at(0, 2);
    let step = ast.add_resource_binding(&first);
    assert_eq!(run(&mut ast, step, &mut log), Step::Done);
    let step = ast.add_resource_binding(&second);
    assert_eq!(run(&mut ast, step, &mut log), Step::Done);
    assert_eq!(
        log,
        vec![
            NativeCall::HlslAddResourceBinding { binding: first.to_raw() },
            NativeCall::HlslAddResourceBinding { binding: second.to_raw() },
        ]
    );
    assert_eq!(ast.phase(), Phase::Created);
    assert!(ast.is_ready());
}

#[test]
fn refused_binding_does_not_disturb_the_next() {
    let mut ast = created();
    let _ = ast.add_resource_binding(&binding_at(0, 1));
    assert_eq!(
        ast.resume(failure("conflicting binding")),
        Step::Failed(ErrorCode::CompilationError(String::from("conflicting binding")))
    );
    let second = binding_at(0, 2);
    assert_eq!(
        ast.add_resource_binding(&second),
        Step::Call(NativeCall::HlslAddResourceBinding { binding: second.to_raw() })
    );
    assert_eq!(ast.resume(success()), Step::Done);
}

#[test]
fn release_hands_the_delete_call_once() {
    let mut ast = created();
    assert_eq!(ast.release(), Some(NativeCall::Delete));
    assert_eq!(ast.phase(), Phase::Released);
    assert!(!ast.is_ready());
    assert_eq!(ast.release(), None);
    assert_eq!(ast.phase(), Phase::Released);
}

#[test]
fn release_before_construction_has_nothing_to_release() {
    let (mut ast, _) = Ast::<Target>::parse(&Module::from_words(&MINIMAL_MODULE));
    assert_eq!(ast.release(), None);
    assert_eq!(ast.phase(), Phase::Unborn);
    assert!(ast.awaits_reply());
}

#[test]
fn release_ends_a_call_under_way() {
    let mut ast = created();
    let _ = ast.compile();
    assert!(ast.awaits_reply());
    assert_eq!(ast.release(), Some(NativeCall::Delete));
    assert!(!ast.awaits_reply());
    assert_eq!(ast.phase(), Phase::Released);
}
