use magma::vulkan::flags::ShaderStageFlags;
use magma::vulkan::pipeline::{
    shader_stage_from_bits, EmptyPushConstant, EmptyVertex, ShaderBuilderError, ShaderStage, UniformBuffer, Vertex,
    VertexAttributeDescription, VertexInputRate,
};
use magma::vulkan::shader::{
    shader_stage_of_code, attribute_format_of, check_vertex_attributes, input_offsets_fit, MissingShader, PipelineBuilder, PipelineError, PipelineStage,
    Shader, ShaderDefinitionError, ShaderError, ShaderInputVariable, REFLECT_FORMAT_R32G32B32_SFLOAT,
    REFLECT_FORMAT_R32G32_SFLOAT, REFLECT_STORAGE_CLASS_INPUT,
};

fn op(opcode: u32, operands: &[u32]) -> Vec<u32> {
    let mut words = vec![((operands.len() as u32 + 1) << 16) | opcode];
    words.extend_from_slice(operands);
    words
}

fn string_words(s: &str) -> Vec<u32> {
    let mut bytes = s.as_bytes().to_vec();
    bytes.push(0);
    while bytes.len() % 4 != 0 {
        bytes.push(0);
    }
    bytes.chunks(4).map(|c| u32::from_le_bytes([c[0], c[1], c[2], c[3]])).collect()
}

/// A vertex shader `main` with a vec3 input at location 0 and a vec2 input
/// at location 1; `execution_model` 0 is the vertex stage, 4 the fragment one.
fn spirv_module(execution_model: u32) -> Vec<u32> {
    let mut code = vec![0x0723_0203, 0x0001_0000, 0, 12, 0];
    code.extend(op(17, &[1]));
    code.extend(op(14, &[0, 1]));
    let mut entry = vec![execution_model, 1];
    entry.extend(string_words("main"));
    entry.extend([2, 3]);
    code.extend(op(15, &entry));
    if execution_model == 4 {
        code.extend(op(16, &[1, 7]));
    }
    let mut name = vec![2];
    name.extend(string_words("inPosition"));
    code.extend(op(5, &name));
    let mut name = vec![3];
    name.extend(string_words("inUv"));
    code.extend(op(5, &name));
    code.extend(op(71, &[2, 30, 0]));
    code.extend(op(71, &[3, 30, 1]));
    code.extend(op(19, &[4]));
    code.extend(op(33, &[5, 4]));
    code.extend(op(22, &[6, 32]));
    code.extend(op(23, &[7, 6, 3]));
    code.extend(op(23, &[8, 6, 2]));
    code.extend(op(32, &[9, 1, 7]));
    code.extend(op(32, &[10, 1, 8]));
    code.extend(op(59, &[9, 2, 1]));
    code.extend(op(59, &[10, 3, 1]));
    code.extend(op(54, &[4, 1, 0, 5]));
    code.extend(op(248, &[11]));
    code.extend(op(253, &[]));
    code.extend(op(56, &[]));
    code
}

fn attr(location: u32, format: i32, offset: u32) -> VertexAttributeDescription {
    VertexAttributeDescription { location, binding: 0, format, offset }
}

fn input(name: &str, location: u32, format: u32, component_count: u32) -> ShaderInputVariable {
    ShaderInputVariable {
        name: name.to_string(),
        location,
        storage_class: REFLECT_STORAGE_CLASS_INPUT,
        decoration_bits: 0,
        format,
        component_count,
    }
}

fn matching_attributes() -> Vec<VertexAttributeDescription> {
    vec![attr(0, 106, 0), attr(1, 103, 12)]
}

#[test]
fn shader_reflects_entry_point_and_stage() {
    let shader = Shader::new("shaders/simple.vert.spv", spirv_module(0)).unwrap();
    assert_eq!(shader.entry_point, "main");
    assert_eq!(shader.flags, ShaderStageFlags::vertex());
    assert_eq!(shader.file_path, "shaders/simple.vert.spv");
    assert_eq!(shader.code, spirv_module(0));
}

#[test]
fn fragment_shader_stage_is_reflected() {
    let shader = Shader::new("frag.spv", spirv_module(4)).unwrap();
    assert_eq!(shader.flags, ShaderStageFlags::fragment());
}

#[test]
fn malformed_code_cannot_be_parsed() {
    assert!(matches!(Shader::new("bad.spv", vec![1, 2, 3]), Err(ShaderError::CantParseSpv(_))));
}

#[test]
fn shader_from_reflection() {
    let s = Shader::from_reflected("a.spv", vec![7], Ok("main".to_string()), Ok(16)).unwrap();
    assert_eq!((s.entry_point.as_str(), s.flags.bits, s.code), ("main", 16, vec![7]));
    assert!(matches!(
        Shader::from_reflected("a.spv", vec![], Err("bad magic".to_string()), Ok(1)),
        Err(ShaderError::CantParseSpv(m)) if m == "bad magic"
    ));
    assert!(matches!(
        Shader::from_reflected("a.spv", vec![], Ok("main".to_string()), Err("no stage".to_string())),
        Err(ShaderError::CantParseSpv(m)) if m == "no stage"
    ));
    assert!(matches!(
        Shader::from_reflected("a.spv", vec![], Ok("main".to_string()), Ok(0x40)),
        Err(ShaderError::InvalidDefinition(ShaderDefinitionError::InvalidShaderStage))
    ));
}

fn reflected_inputs() -> Result<Vec<ShaderInputVariable>, String> {
    Ok(vec![input("inPosition", 0, REFLECT_FORMAT_R32G32B32_SFLOAT, 3), input("inUv", 1, REFLECT_FORMAT_R32G32_SFLOAT, 2)])
}

#[test]
fn vertex_input_checks_reflected_inputs() {
    let shader = Shader::new("simple.vert.spv", spirv_module(0)).unwrap();
    assert!(matches!(shader.check_vertex_input(&reflected_inputs(), &matching_attributes()), Some(Ok(()))));
    assert!(matches!(
        shader.check_vertex_input(&reflected_inputs(), &vec![attr(0, 106, 0)]),
        Some(Err(ShaderError::InvalidDefinition(ShaderDefinitionError::InputCountMismatch { shader: 2, vertex: 1 })))
    ));
    assert!(matches!(
        shader.check_vertex_input(&reflected_inputs(), &vec![attr(0, 106, 0), attr(1, 106, 12)]),
        Some(Err(ShaderError::InvalidDefinition(ShaderDefinitionError::MismatchedAttribute { location: 1 })))
    ));
    assert!(matches!(
        shader.check_vertex_input(&Err("entry point not found".to_string()), &matching_attributes()),
        Some(Err(ShaderError::CantParseSpv(m))) if m == "entry point not found"
    ));
    let huge = Ok(vec![input("a", 0, REFLECT_FORMAT_R32G32B32_SFLOAT, 0x4000_0000), input("b", 1, REFLECT_FORMAT_R32G32_SFLOAT, 2)]);
    assert!(shader.check_vertex_input(&huge, &matching_attributes()).is_none());
}

#[test]
fn attribute_formats_of_reflected_formats() {
    assert_eq!(attribute_format_of(REFLECT_FORMAT_R32G32B32_SFLOAT), Some(106));
    assert_eq!(attribute_format_of(REFLECT_FORMAT_R32G32_SFLOAT), Some(103));
    assert_eq!(attribute_format_of(2), Some(99));
    assert_eq!(attribute_format_of(1), None);
}

#[test]
fn vertex_attribute_check_outcomes() {
    let vars = vec![input("pos", 0, REFLECT_FORMAT_R32G32B32_SFLOAT, 3), input("uv", 1, REFLECT_FORMAT_R32G32_SFLOAT, 2)];
    assert!(input_offsets_fit(&vars));
    assert!(check_vertex_attributes(&vars, &matching_attributes()).is_ok());
    assert!(matches!(
        check_vertex_attributes(&vars, &vec![attr(0, 106, 0), attr(2, 103, 12)]),
        Err(ShaderError::InvalidDefinition(ShaderDefinitionError::MissingAttribute { attribute })) if attribute == attr(1, 103, 12)
    ));
    let unsigned = vec![input("id", 0, 1, 1)];
    assert!(matches!(
        check_vertex_attributes(&unsigned, &vec![]),
        Err(ShaderError::InvalidDefinition(ShaderDefinitionError::UnsupportedInputFormat { name, format: 1 })) if name == "id"
    ));
    let mut builtin = input("gl_VertexIndex", 5, 1, 1);
    builtin.decoration_bits = 0x10;
    assert!(check_vertex_attributes(&vec![builtin], &vec![]).is_ok());
    let huge = vec![input("a", 0, REFLECT_FORMAT_R32G32B32_SFLOAT, 0x4000_0000), input("b", 1, REFLECT_FORMAT_R32G32_SFLOAT, 2)];
    assert!(!input_offsets_fit(&huge));
}

#[test]
fn pipeline_checks() {
    let vert = || Shader::new("simple.vert.spv", spirv_module(0)).unwrap();
    let frag = || Shader::new("frag.spv", spirv_module(4)).unwrap();
    assert!(matches!(PipelineBuilder::new().check(None, None), Some(Err(PipelineError::MissingRenderPass))));
    let attrs = matching_attributes();
    let inputs = reflected_inputs();
    let no_vertex = PipelineBuilder::new().attach_shader(frag()).render_pass(3);
    assert_eq!(no_vertex.render_pass, Some(3));
    assert_eq!(no_vertex.vertex_shader_index(), None);
    assert!(matches!(no_vertex.check(Some((&attrs, &inputs)), None), Some(Err(PipelineError::MissingShader(MissingShader::VertexShader)))));
    assert!(matches!(no_vertex.check(None, None), Some(Err(PipelineError::MissingShader(MissingShader::VertexShader)))));
    assert!(!PipelineBuilder::new().has_fragment_shader());
    assert!(no_vertex.has_fragment_shader());
    let vertex_only = PipelineBuilder::new().attach_shader(vert()).render_pass(3);
    assert!(matches!(vertex_only.check(None, None), Some(Ok(()))));
    let both = PipelineBuilder::new().attach_shader(frag()).attach_shader(vert()).render_pass(3);
    assert_eq!(both.vertex_shader_index(), Some(1));
    assert!(matches!(both.check(Some((&attrs, &inputs)), Some(ShaderStageFlags::all_graphics())), Some(Err(PipelineError::MissingShader(MissingShader::PushConstantStages { .. })))));
    let vertex_and_fragment = ShaderStageFlags::from_bits(0x11).unwrap();
    assert!(matches!(both.check(Some((&attrs, &inputs)), Some(vertex_and_fragment)), Some(Ok(()))));
    let one = vec![attr(0, 106, 0)];
    assert!(matches!(
        both.check(Some((&one, &inputs)), None),
        Some(Err(PipelineError::ShaderError(ShaderError::InvalidDefinition(ShaderDefinitionError::InputCountMismatch { .. }))))
    ));
    match both.check(None, Some(ShaderStageFlags::from_bits(0x31).unwrap())) {
        Some(Err(PipelineError::MissingShader(MissingShader::PushConstantStages { required, missing }))) => {
            assert_eq!(required.bits, 0x31);
            assert_eq!(missing, ShaderStageFlags::compute());
        }
        other => panic!("unexpected {:?}", other),
    }
}

#[test]
fn pipeline_build_plans_stages_and_push_constants() {
    let vert = || Shader::new("simple.vert.spv", spirv_module(0)).unwrap();
    let frag = || Shader::new("frag.spv", spirv_module(4)).unwrap();
    let attrs = matching_attributes();
    let inputs = reflected_inputs();
    assert!(matches!(PipelineBuilder::new().build(None, None), Some(Err(PipelineError::MissingRenderPass))));
    let both = PipelineBuilder::new().attach_shader(frag()).attach_shader(vert()).render_pass(9);
    let vertex_and_fragment = ShaderStageFlags::from_bits(0x11).unwrap();
    match both.build(Some((&attrs, &inputs)), Some((vertex_and_fragment, 64))) {
        Some(Ok(plan)) => {
            assert_eq!(plan.stages, vec![PipelineStage { shader: 0, stage_bits: 0x10 }, PipelineStage { shader: 1, stage_bits: 0x1 }]);
            assert_eq!(plan.push_constant_range, Some((0x11, 0, 64)));
            assert_eq!(plan.render_pass, 9);
        }
        other => panic!("unexpected {:?}", other),
    }
    match both.build(None, None) {
        Some(Ok(plan)) => {
            assert_eq!(plan.stages.len(), 2);
            assert_eq!(plan.push_constant_range, None);
        }
        other => panic!("unexpected {:?}", other),
    }
    assert!(matches!(
        both.build(None, Some((ShaderStageFlags::all_graphics(), 16))),
        Some(Err(PipelineError::MissingShader(MissingShader::PushConstantStages { .. })))
    ));
    let no_vertex = PipelineBuilder::new().attach_shader(frag()).render_pass(9);
    assert!(matches!(no_vertex.build(None, None), Some(Err(PipelineError::MissingShader(MissingShader::VertexShader)))));
}

#[test]
fn stages_and_empty_types() {
    assert_eq!(ShaderStage::Vertex.to_raw(), 1);
    assert_eq!(ShaderStage::Fragment.to_raw(), 16);
    assert_eq!(ShaderStage::Compute.to_raw(), 32);
    assert_eq!(shader_stage_from_bits(0x11).unwrap(), ShaderStage::Vertex);
    assert_eq!(shader_stage_from_bits(0x10).unwrap(), ShaderStage::Fragment);
    assert_eq!(shader_stage_from_bits(0x20).unwrap(), ShaderStage::Compute);
    assert!(matches!(shader_stage_from_bits(0x8), Err(ShaderBuilderError::UnsupportedShaderStage)));
    assert_eq!(VertexInputRate::Vertex.to_raw(), 0);
    assert_eq!(VertexInputRate::Instance.to_raw(), 1);
    assert!(EmptyVertex::get_attribute_descriptions().is_empty());
    assert!(EmptyVertex::get_binding_descriptions().is_empty());
    assert_eq!(EmptyPushConstant {}.as_bytes(), &[0u8]);
    assert!(EmptyPushConstant::stage().is_empty());
    assert!(EmptyPushConstant::get_field_descriptions().is_empty());
}

#[test]
fn shader_stage_reflected_from_code() {
    assert_eq!(shader_stage_of_code(&spirv_module(0)).unwrap(), ShaderStage::Vertex);
    assert_eq!(shader_stage_of_code(&spirv_module(4)).unwrap(), ShaderStage::Fragment);
    assert!(matches!(shader_stage_of_code(&vec![0, 0]), Err(ShaderBuilderError::CantParseSpv(_))));
}
