//! Shaders: their reflected entry point, stage and vertex inputs, and the
//! check that a vertex type matches the inputs of a vertex shader.
use vstd::prelude::*;
use crate::vulkan::error::VulkanError;
use crate::vulkan::flags::ShaderStageFlags;
use crate::vulkan::pipeline::{
    is_vk_format_32, shader_stage_from_bits, stage_of_bits, vk_format_components, vk_format_type, NumericType,
    ShaderBuilderError, ShaderStage, VertexAttributeDescription,
};

verus! {

/// Positions of the reflected formats of interface variables (in the order
/// undefined, then unsigned, signed and float for one to four components).
pub const REFLECT_FORMAT_R32_SINT: u32 = 2;
pub const REFLECT_FORMAT_R32_SFLOAT: u32 = 3;
pub const REFLECT_FORMAT_R32G32_SINT: u32 = 5;
pub const REFLECT_FORMAT_R32G32_SFLOAT: u32 = 6;
pub const REFLECT_FORMAT_R32G32B32_SINT: u32 = 8;
pub const REFLECT_FORMAT_R32G32B32_SFLOAT: u32 = 9;
pub const REFLECT_FORMAT_R32G32B32A32_SINT: u32 = 11;
pub const REFLECT_FORMAT_R32G32B32A32_SFLOAT: u32 = 12;
/// Position of the input storage class among the reflected storage classes.
pub const REFLECT_STORAGE_CLASS_INPUT: u32 = 2;

/// An interface variable of a shader entry point, as reflected.
#[derive(Debug)]
pub struct ShaderInputVariable {
    pub name: String,
    pub location: u32,
    /// Position of the storage class among the reflected storage classes
    pub storage_class: u32,
    /// Raw bits of the decorations
    pub decoration_bits: u32,
    /// Position of the format among the reflected formats
    pub format: u32,
    /// Number of components of the variable's vector type
    pub component_count: u32,
}

/// What an interface variable holds, with its name as characters.
pub struct InputVariableView {
    pub name: Seq<char>,
    pub location: u32,
    pub storage_class: u32,
    pub decoration_bits: u32,
    pub format: u32,
    pub component_count: u32,
}

impl View for ShaderInputVariable {
    type V = InputVariableView;

    open spec fn view(&self) -> InputVariableView {
        InputVariableView {
            name: self.name@,
            location: self.location,
            storage_class: self.storage_class,
            decoration_bits: self.decoration_bits,
            format: self.format,
            component_count: self.component_count,
        }
    }
}

/// The views of a list of interface variables.
pub open spec fn variables_view(vars: Seq<ShaderInputVariable>) -> Seq<InputVariableView> {
    vars.map_values(|v: ShaderInputVariable| v@)
}

/// The entry point name of a SPIR-V module, or the error of parsing it.
pub uninterp spec fn spirv_entry_point(code: Seq<u32>) -> Result<Seq<char>, Seq<char>>;

/// The raw shader stage bits of a SPIR-V module, or the error of parsing it.
pub uninterp spec fn spirv_stage_bits(code: Seq<u32>) -> Result<u32, Seq<char>>;

/// Parses a SPIR-V module with `spirv_reflect::ShaderModule::load_u32_data`
/// and reads its entry point name with `get_entry_point_name`. The contract
/// names the result, a function of the code alone.
#[verifier::external_body]
fn reflect_entry_point(code: &Vec<u32>) -> (r: Result<String, String>)
    ensures
        match r {
            Ok(s) => spirv_entry_point(code@) == Ok::<Seq<char>, Seq<char>>(s@),
            Err(e) => spirv_entry_point(code@) == Err::<Seq<char>, Seq<char>>(e@),
        },
{
    let module = spirv_reflect::ShaderModule::load_u32_data(code.as_slice()).map_err(|e| e.to_string())?;
    Ok(module.get_entry_point_name())
}

/// Parses a SPIR-V module with `spirv_reflect::ShaderModule::load_u32_data`
/// and reads its shader stage with `get_shader_stage`, as raw bits. The
/// contract names the result, a function of the code alone.
#[verifier::external_body]
fn reflect_stage_bits(code: &Vec<u32>) -> (r: Result<u32, String>)
    ensures
        match r {
            Ok(b) => spirv_stage_bits(code@) == Ok::<u32, Seq<char>>(b),
            Err(e) => spirv_stage_bits(code@) == Err::<u32, Seq<char>>(e@),
        },
{
    let module = spirv_reflect::ShaderModule::load_u32_data(code.as_slice()).map_err(|e| e.to_string())?;
    Ok(module.get_shader_stage().bits())
}

/// The stage of a shader module, reflected from its SPIR-V code: vertex,
/// fragment or compute, tested in that order.
pub fn shader_stage_of_code(code: &Vec<u32>) -> (r: Result<ShaderStage, ShaderBuilderError>)
    ensures
        match spirv_stage_bits(code@) {
            Err(e) => r matches Err(ShaderBuilderError::CantParseSpv(m)) && m@ == e,
            Ok(bits) => match stage_of_bits(bits) {
                Some(s) => r matches Ok(t) && t == s,
                None => r matches Err(ShaderBuilderError::UnsupportedShaderStage),
            },
        },
{
    match reflect_stage_bits(code) {
        Err(e) => Err(ShaderBuilderError::CantParseSpv(e)),
        Ok(bits) => shader_stage_from_bits(bits),
    }
}

/// What is wrong with a shader's definition
#[derive(Debug)]
pub enum ShaderDefinitionError {
    /// The reflected stage bits name no known stage
    InvalidShaderStage,
    /// An input variable has a type that cannot be a vertex attribute
    UnsupportedInputFormat { name: String, format: u32 },
    /// The shader has `shader` inputs but the vertex type `vertex` attributes
    InputCountMismatch { shader: usize, vertex: usize },
    /// The vertex attribute at this location differs from the shader input
    MismatchedAttribute { location: u32 },
    /// No vertex attribute has the location of this shader input
    MissingAttribute { attribute: VertexAttributeDescription },
}

/// Possible errors of a shader
#[derive(Debug)]
pub enum ShaderError {
    /// The shader file could not be found
    FileNotFound,
    /// Failed to read the contents of the file
    CantRead,
    /// Failed to parse the shader SPIR-V
    CantParseSpv(String),
    /// The shader's stage is not supported
    UnsupportedShaderStage,
    /// Failed to create a Vulkan shader module
    BuildFail(VulkanError),
    /// The shader's definition is invalid
    InvalidDefinition(ShaderDefinitionError),
}

/// Whether an interface variable is a plain input, one that is a vertex attribute.
pub open spec fn is_plain_input(v: InputVariableView) -> bool {
    v.storage_class == REFLECT_STORAGE_CLASS_INPUT && v.decoration_bits == 0
}

/// The raw `VkFormat` of a reflected format that can be a vertex attribute:
/// 32-bit signed integers or floats of one to four components.
pub open spec fn attribute_format(format: u32) -> Option<i32> {
    if format == REFLECT_FORMAT_R32_SINT { Some(99i32) }
    else if format == REFLECT_FORMAT_R32G32_SINT { Some(102i32) }
    else if format == REFLECT_FORMAT_R32G32B32_SINT { Some(105i32) }
    else if format == REFLECT_FORMAT_R32G32B32A32_SINT { Some(108i32) }
    else if format == REFLECT_FORMAT_R32_SFLOAT { Some(100i32) }
    else if format == REFLECT_FORMAT_R32G32_SFLOAT { Some(103i32) }
    else if format == REFLECT_FORMAT_R32G32B32_SFLOAT { Some(106i32) }
    else if format == REFLECT_FORMAT_R32G32B32A32_SFLOAT { Some(109i32) }
    else { None }
}

/// Whether a reflected format is one of the twelve of 32-bit components:
/// one to four components, each as unsigned integers, signed integers and
/// floats, at positions 1 to 12 in that order.
pub open spec fn is_reflect_format_32(format: u32) -> bool {
    1 <= format <= 12
}

/// The number of components of such a reflected format.
pub open spec fn reflect_format_components(format: u32) -> int {
    (format - 1) / 3 + 1
}

/// The numeric type of the components of such a reflected format.
pub open spec fn reflect_format_type(format: u32) -> NumericType {
    let k = (format - 1) % 3;
    if k == 0 { NumericType::Unsigned } else if k == 1 { NumericType::Signed } else { NumericType::Float }
}

/// A reflected input of signed-integer or float components is a vertex
/// attribute of the `VkFormat` with as many components of the same numeric
/// type; unsigned and other formats are not vertex attributes.
pub proof fn lemma_attribute_format_keeps_components(format: u32)
    ensures
        attribute_format(format) is Some <==> is_reflect_format_32(format)
            && reflect_format_type(format) != NumericType::Unsigned,
        attribute_format(format) matches Some(v) ==> is_vk_format_32(v)
            && vk_format_components(v) == reflect_format_components(format)
            && vk_format_type(v) == reflect_format_type(format),
{
}

/// The raw `VkFormat` of a reflected format that can be a vertex attribute.
pub fn attribute_format_of(format: u32) -> (r: Option<i32>)
    ensures
        r == attribute_format(format),
        r is Some <==> is_reflect_format_32(format) && reflect_format_type(format) != NumericType::Unsigned,
        r matches Some(v) ==> is_vk_format_32(v) && vk_format_components(v) == reflect_format_components(format)
            && vk_format_type(v) == reflect_format_type(format),
{
    proof {
        lemma_attribute_format_keeps_components(format);
    }
    if format == REFLECT_FORMAT_R32_SINT {
        Some(99)
    } else if format == REFLECT_FORMAT_R32G32_SINT {
        Some(102)
    } else if format == REFLECT_FORMAT_R32G32B32_SINT {
        Some(105)
    } else if format == REFLECT_FORMAT_R32G32B32A32_SINT {
        Some(108)
    } else if format == REFLECT_FORMAT_R32_SFLOAT {
        Some(100)
    } else if format == REFLECT_FORMAT_R32G32_SFLOAT {
        Some(103)
    } else if format == REFLECT_FORMAT_R32G32B32_SFLOAT {
        Some(106)
    } else if format == REFLECT_FORMAT_R32G32B32A32_SFLOAT {
        Some(109)
    } else {
        None
    }
}

/// The vertex attributes the plain inputs from position `i` on stand for,
/// laid out one after the other from `offset` (each component taking four
/// bytes), all on binding 0; or the position of the first plain input whose
/// format cannot be a vertex attribute.
pub open spec fn reflected_attributes(vars: Seq<InputVariableView>, i: int, offset: int) -> Result<Seq<VertexAttributeDescription>, int>
    decreases vars.len() - i,
{
    if i < 0 || i >= vars.len() {
        Ok(Seq::empty())
    } else if !is_plain_input(vars[i]) {
        reflected_attributes(vars, i + 1, offset)
    } else {
        match attribute_format(vars[i].format) {
            None => Err(i),
            Some(f) => match reflected_attributes(vars, i + 1, offset + 4 * vars[i].component_count) {
                Ok(rest) => Ok(seq![VertexAttributeDescription { location: vars[i].location, binding: 0, format: f, offset: offset as u32 }] + rest),
                Err(k) => Err(k),
            },
        }
    }
}

/// Whether the offsets of the attributes laid out from position `i` and
/// `offset` on stay within 32 bits, up to the first unsupported input.
pub open spec fn offsets_fit(vars: Seq<InputVariableView>, i: int, offset: int) -> bool
    decreases vars.len() - i,
{
    if i < 0 || i >= vars.len() {
        true
    } else if !is_plain_input(vars[i]) {
        offsets_fit(vars, i + 1, offset)
    } else {
        match attribute_format(vars[i].format) {
            None => true,
            Some(f) => offset + 4 * vars[i].component_count <= u32::MAX && offsets_fit(vars, i + 1, offset + 4 * vars[i].component_count),
        }
    }
}

/// The first attribute at or after `k` with the location.
pub open spec fn first_at_location(attrs: Seq<VertexAttributeDescription>, location: u32, k: int) -> Option<int>
    decreases attrs.len() - k,
{
    if k < 0 || k >= attrs.len() {
        None
    } else if attrs[k].location == location {
        Some(k)
    } else {
        first_at_location(attrs, location, k + 1)
    }
}

/// Where `first_at_location` lands, it lands on an attribute in range with
/// the location.
proof fn lemma_first_at_location(attrs: Seq<VertexAttributeDescription>, location: u32, k: int)
    ensures
        first_at_location(attrs, location, k) matches Some(j) ==> 0 <= j < attrs.len() && attrs[j].location == location,
    decreases attrs.len() - k,
{
    if k < 0 || k >= attrs.len() {
    } else if attrs[k].location == location {
    } else {
        lemma_first_at_location(attrs, location, k + 1);
    }
}

/// The outcome of matching the shader's attributes from position `i` on
/// with the vertex type's: for each in order, the first vertex attribute at
/// its location must exist and equal it.
pub open spec fn attributes_match(descs: Seq<VertexAttributeDescription>, attrs: Seq<VertexAttributeDescription>, i: int) -> Result<(), ShaderDefinitionError>
    decreases descs.len() - i,
{
    if i < 0 || i >= descs.len() {
        Ok(())
    } else {
        match first_at_location(attrs, descs[i].location, 0) {
            None => Err(ShaderDefinitionError::MissingAttribute { attribute: descs[i] }),
            Some(k) => if attrs[k] != descs[i] {
                Err(ShaderDefinitionError::MismatchedAttribute { location: descs[i].location })
            } else {
                attributes_match(descs, attrs, i + 1)
            },
        }
    }
}

/// What checking the reflected inputs against the vertex type's attributes
/// answers, for results that hold no name.
pub open spec fn vertex_check_outcome(vars: Seq<InputVariableView>, attrs: Seq<VertexAttributeDescription>, r: Result<(), ShaderError>) -> bool {
    match reflected_attributes(vars, 0, 0) {
        Err(i) => r matches Err(ShaderError::InvalidDefinition(ShaderDefinitionError::UnsupportedInputFormat { name, format }))
            && name@ == vars[i].name && format == vars[i].format,
        Ok(descs) => if descs.len() != attrs.len() {
            r matches Err(ShaderError::InvalidDefinition(ShaderDefinitionError::InputCountMismatch { shader, vertex }))
                && shader == descs.len() && vertex == attrs.len()
        } else {
            match attributes_match(descs, attrs, 0) {
                Ok(()) => r is Ok,
                Err(ShaderDefinitionError::MissingAttribute { attribute }) =>
                    r matches Err(ShaderError::InvalidDefinition(ShaderDefinitionError::MissingAttribute { attribute: a })) && a == attribute,
                Err(ShaderDefinitionError::MismatchedAttribute { location }) =>
                    r matches Err(ShaderError::InvalidDefinition(ShaderDefinitionError::MismatchedAttribute { location: l })) && l == location,
                Err(_) => false,
            }
        },
    }
}

/// Finds the first vertex attribute with the location.
fn find_at_location(attrs: &Vec<VertexAttributeDescription>, location: u32) -> (r: Option<usize>)
    ensures
        match first_at_location(attrs@, location, 0) {
            Some(k) => r == Some(k as usize),
            None => r is None,
        },
{
    let mut k: usize = 0;
    while k < attrs.len()
        invariant
            k <= attrs.len(),
            first_at_location(attrs@, location, 0) == first_at_location(attrs@, location, k as int),
        decreases attrs.len() - k,
    {
        if attrs[k].location == location {
            return Some(k);
        }
        k = k + 1;
    }
    None
}

/// Checks that the offsets of the reflected attributes fit in 32 bits.
pub fn input_offsets_fit(vars: &Vec<ShaderInputVariable>) -> (r: bool)
    ensures
        r == offsets_fit(variables_view(vars@), 0, 0),
{
    let ghost vs = variables_view(vars@);
    let mut offset: u64 = 0;
    let mut i: usize = 0;
    while i < vars.len()
        invariant
            vs == variables_view(vars@),
            i <= vars.len(),
            offset <= u32::MAX,
            offsets_fit(vs, 0, 0) == offsets_fit(vs, i as int, offset as int),
        decreases vars.len() - i,
    {
        let v = &vars[i];
        assert(vs[i as int] == v@);
        if v.storage_class == REFLECT_STORAGE_CLASS_INPUT && v.decoration_bits == 0 {
            match attribute_format_of(v.format) {
                None => {
                    return true;
                },
                Some(_) => {
                    let next = offset + 4 * (v.component_count as u64);
                    if next > 0xffff_ffffu64 {
                        return false;
                    }
                    offset = next;
                },
            }
        }
        i = i + 1;
    }
    true
}

/// Checks the reflected inputs of a vertex shader against the attributes of
/// a vertex type: each plain input must be a 32-bit signed or float vector of
/// one to four components; the inputs, laid out one after the other, must be
/// as many as the attributes, and each must equal the first attribute at its
/// location.
pub fn check_vertex_attributes(vars: &Vec<ShaderInputVariable>, attrs: &Vec<VertexAttributeDescription>) -> (r: Result<(), ShaderError>)
    requires
        offsets_fit(variables_view(vars@), 0, 0),
    ensures
        vertex_check_outcome(variables_view(vars@), attrs@, r),
{
    let ghost vs = variables_view(vars@);
    let mut descs: Vec<VertexAttributeDescription> = Vec::new();
    let mut offset: u32 = 0;
    let mut i: usize = 0;
    while i < vars.len()
        invariant
            vs == variables_view(vars@),
            i <= vars.len(),
            offsets_fit(vs, i as int, offset as int),
            match reflected_attributes(vs, i as int, offset as int) {
                Ok(rest) => reflected_attributes(vs, 0, 0) == Ok::<Seq<VertexAttributeDescription>, int>(descs@ + rest),
                Err(k) => reflected_attributes(vs, 0, 0) == Err::<Seq<VertexAttributeDescription>, int>(k),
            },
        decreases vars.len() - i,
    {
        let v = &vars[i];
        assert(vs[i as int] == v@);
        if v.storage_class == REFLECT_STORAGE_CLASS_INPUT && v.decoration_bits == 0 {
            match attribute_format_of(v.format) {
                None => {
                    return Err(ShaderError::InvalidDefinition(ShaderDefinitionError::UnsupportedInputFormat {
                        name: v.name.clone(),
                        format: v.format,
                    }));
                },
                Some(format) => {
                    let d = VertexAttributeDescription { location: v.location, binding: 0, format, offset };
                    let ghost before = descs@;
                    descs.push(d);
                    proof {
                        match reflected_attributes(vs, i + 1, offset + 4 * v.component_count) {
                            Ok(rest) => {
                                assert(before + (seq![d] + rest) == descs@ + rest);
                            },
                            Err(k) => {},
                        }
                    }
                    offset = offset + v.component_count * 4;
                },
            }
        }
        i = i + 1;
    }
    assert(descs@ + Seq::<VertexAttributeDescription>::empty() == descs@);
    if descs.len() != attrs.len() {
        return Err(ShaderError::InvalidDefinition(ShaderDefinitionError::InputCountMismatch {
            shader: descs.len(),
            vertex: attrs.len(),
        }));
    }
    let mut j: usize = 0;
    while j < descs.len()
        invariant
            vs == variables_view(vars@),
            j <= descs.len(),
            reflected_attributes(vs, 0, 0) == Ok::<Seq<VertexAttributeDescription>, int>(descs@),
            descs.len() == attrs.len(),
            attributes_match(descs@, attrs@, 0) == attributes_match(descs@, attrs@, j as int),
        decreases descs.len() - j,
    {
        let d = descs[j];
        proof {
            lemma_first_at_location(attrs@, d.location, 0);
        }
        match find_at_location(attrs, d.location) {
            Some(k) => {
                if attrs[k] != d {
                    return Err(ShaderError::InvalidDefinition(ShaderDefinitionError::MismatchedAttribute { location: d.location }));
                }
            },
            None => {
                return Err(ShaderError::InvalidDefinition(ShaderDefinitionError::MissingAttribute { attribute: d }));
            },
        }
        j = j + 1;
    }
    Ok(())
}

/// A shader: the file it came from, its stages, its entry point and its
/// SPIR-V code.
pub struct Shader {
    pub file_path: &'static str,
    pub flags: ShaderStageFlags,
    pub entry_point: String,
    pub code: Vec<u32>,
}

impl Shader {
    /// Creates a shader from the SPIR-V code read from `file_path`: its entry
    /// point and stage are reflected from the code.
    pub fn new(file_path: &'static str, code: Vec<u32>) -> (r: Result<Shader, ShaderError>)
        ensures
            match spirv_entry_point(code@) {
                Err(e) => r matches Err(ShaderError::CantParseSpv(m)) && m@ == e,
                Ok(name) => match spirv_stage_bits(code@) {
                    Err(e) => r matches Err(ShaderError::CantParseSpv(m)) && m@ == e,
                    Ok(bits) => if bits & !ShaderStageFlags::all_bits() != 0 {
                        r matches Err(ShaderError::InvalidDefinition(ShaderDefinitionError::InvalidShaderStage))
                    } else {
                        r matches Ok(s) && s.file_path == file_path && s.flags.bits == bits
                            && s.entry_point@ == name && s.code@ == code@
                    },
                },
            },
    {
        let entry_point = reflect_entry_point(&code);
        let stage_bits = reflect_stage_bits(&code);
        Self::from_reflected(file_path, code, entry_point, stage_bits)
    }

    /// Creates a shader from its SPIR-V code and what was reflected from it:
    /// its entry point name and its raw stage bits, or the errors of parsing
    /// the code, of which the entry point's comes first.
    pub fn from_reflected(
        file_path: &'static str,
        code: Vec<u32>,
        entry_point: Result<String, String>,
        stage_bits: Result<u32, String>,
    ) -> (r: Result<Shader, ShaderError>)
        ensures
            match entry_point {
                Err(e) => r matches Err(ShaderError::CantParseSpv(m)) && m@ == e@,
                Ok(name) => match stage_bits {
                    Err(e) => r matches Err(ShaderError::CantParseSpv(m)) && m@ == e@,
                    Ok(bits) => if bits & !ShaderStageFlags::all_bits() != 0 {
                        r matches Err(ShaderError::InvalidDefinition(ShaderDefinitionError::InvalidShaderStage))
                    } else {
                        r matches Ok(s) && s.file_path == file_path && s.flags.bits == bits
                            && s.entry_point@ == name@ && s.code@ == code@
                    },
                },
            },
    {
        let entry_point = match entry_point {
            Ok(n) => n,
            Err(e) => {
                return Err(ShaderError::CantParseSpv(e));
            },
        };
        let bits = match stage_bits {
            Ok(b) => b,
            Err(e) => {
                return Err(ShaderError::CantParseSpv(e));
            },
        };
        let flags = match ShaderStageFlags::from_bits(bits) {
            Some(f) => f,
            None => {
                return Err(ShaderError::InvalidDefinition(ShaderDefinitionError::InvalidShaderStage));
            },
        };
        Ok(Shader { file_path, flags, entry_point, code })
    }

    /// Checks the shader's inputs, as reflected from its code for its entry
    /// point (or the error of reflecting them), against the attributes of a
    /// vertex type (see [check_vertex_attributes]).
    ///
    /// `None` where the attribute offsets would not fit in 32 bits.
    pub fn check_vertex_input(
        &self,
        inputs: &Result<Vec<ShaderInputVariable>, String>,
        attrs: &Vec<VertexAttributeDescription>,
    ) -> (r: Option<Result<(), ShaderError>>)
        ensures
            vertex_input_outcome(*inputs, attrs@, r),
    {
        match inputs {
            Err(e) => Some(Err(ShaderError::CantParseSpv(e.clone()))),
            Ok(vars) => {
                if input_offsets_fit(vars) {
                    Some(check_vertex_attributes(vars, attrs))
                } else {
                    None
                }
            },
        }
    }
}

/// What checking a vertex shader's reflected inputs (or the error of
/// reflecting them) against a vertex type's attributes answers.
pub open spec fn vertex_input_outcome(
    inputs: Result<Vec<ShaderInputVariable>, String>,
    attrs: Seq<VertexAttributeDescription>,
    r: Option<Result<(), ShaderError>>,
) -> bool {
    match inputs {
        Err(e) => r matches Some(Err(ShaderError::CantParseSpv(m))) && m@ == e@,
        Ok(vars) => {
            let vs = variables_view(vars@);
            if offsets_fit(vs, 0, 0) {
                r matches Some(res) && vertex_check_outcome(vs, attrs, res)
            } else {
                r is None
            }
        },
    }
}

/// The shader stages a pipeline's push constants need a shader for.
#[derive(Clone, Copy, Debug, PartialEq, Eq, Structural)]
pub enum MissingShader {
    /// The vertex type is not empty, yet no vertex shader is attached
    VertexShader,
    /// The push constant type requires `required` stages, of which `missing`
    /// have no shader attached
    PushConstantStages { required: ShaderStageFlags, missing: ShaderStageFlags },
}

/// Errors of creating a pipeline
#[derive(Debug)]
pub enum PipelineError {
    /// Can't create a pipeline with no shaders
    NoShaders,
    /// Failed to create the pipeline layout
    CantCreateLayout(VulkanError),
    /// No render pass was set for the pipeline
    MissingRenderPass,
    /// Failed to create the Vulkan pipeline
    CantCreatePipeline(VulkanError),
    /// A shader the pipeline needs is missing
    MissingShader(MissingShader),
    /// A shader is invalid
    ShaderError(ShaderError),
}

/// The first shader at or after `k` whose stages contain the vertex stage.
pub open spec fn first_vertex_shader(shaders: Seq<Shader>, k: int) -> Option<int>
    decreases shaders.len() - k,
{
    if k < 0 || k >= shaders.len() {
        None
    } else if shaders[k].flags.bits & 0x1 == 0x1 {
        Some(k)
    } else {
        first_vertex_shader(shaders, k + 1)
    }
}

/// The stages of `required` left without a shader, after removing the stages
/// of each shader from position `k` on that shares a stage with `stage`.
pub open spec fn remaining_stages(shaders: Seq<Shader>, stage: u32, required: u32, k: int) -> u32
    decreases shaders.len() - k,
{
    if k < 0 || k >= shaders.len() {
        required
    } else if shaders[k].flags.bits & stage != 0 {
        remaining_stages(shaders, stage, required & !shaders[k].flags.bits, k + 1)
    } else {
        remaining_stages(shaders, stage, required, k + 1)
    }
}

/// Where `first_vertex_shader` lands, it lands on a shader in range.
proof fn lemma_first_vertex_shader(shaders: Seq<Shader>, k: int)
    ensures
        first_vertex_shader(shaders, k) matches Some(j) ==> 0 <= j < shaders.len() && shaders[j].flags.bits & 0x1 == 0x1,
    decreases shaders.len() - k,
{
    if k < 0 || k >= shaders.len() {
    } else if shaders[k].flags.bits & 0x1 == 0x1 {
    } else {
        lemma_first_vertex_shader(shaders, k + 1);
    }
}

/// Whether some shader is for the fragment stage: a fragment shader needs
/// a vertex shader beside it.
pub open spec fn has_fragment_shader(shaders: Seq<Shader>) -> bool {
    exists|i: int| 0 <= i < shaders.len() && (#[trigger] shaders[i]).flags.bits & 0x10 == 0x10
}

/// What checking a builder before its pipeline is created answers (see
/// [PipelineBuilder::check]).
pub open spec fn pipeline_check_outcome(
    b: &PipelineBuilder,
    vertex_input: Option<(&Vec<VertexAttributeDescription>, &Result<Vec<ShaderInputVariable>, String>)>,
    push_constant_stage: Option<ShaderStageFlags>,
    r: Option<Result<(), PipelineError>>,
) -> bool {
    &&& (b.render_pass is None ==> r matches Some(Err(PipelineError::MissingRenderPass)))
    &&& (b.render_pass is Some && first_vertex_shader(b.shaders@, 0) is None
        && (vertex_input is Some || has_fragment_shader(b.shaders@))
        ==> r matches Some(Err(PipelineError::MissingShader(MissingShader::VertexShader))))
    &&& b.render_pass is Some && !(first_vertex_shader(b.shaders@, 0) is None
        && (vertex_input is Some || has_fragment_shader(b.shaders@))) ==> match vertex_input {
        Some((attrs, inputs)) => if exists|res: Option<Result<(), ShaderError>>| vertex_input_outcome(*inputs, attrs@, res) && res is None {
            r is None
        } else if exists|res: Option<Result<(), ShaderError>>| vertex_input_outcome(*inputs, attrs@, res) && res matches Some(Err(_)) {
            r matches Some(Err(PipelineError::ShaderError(e))) && vertex_input_outcome(*inputs, attrs@, Some(Err(e)))
        } else {
            push_check_outcome(b.shaders@, push_constant_stage, r)
        },
        None => push_check_outcome(b.shaders@, push_constant_stage, r),
    }
}

/// One shader stage of a pipeline: the attached shader it is made of, by
/// position, and that shader's raw stage flags.
#[derive(Clone, Copy, Debug, PartialEq, Eq, Structural)]
pub struct PipelineStage {
    pub shader: usize,
    pub stage_bits: u32,
}

/// What a graphics pipeline is made of once its builder's checks pass.
#[derive(Debug)]
pub struct PipelinePlan {
    /// One stage per attached shader, in the order attached
    pub stages: Vec<PipelineStage>,
    /// The push constant range as (raw stage flags, offset, size), for a
    /// push constant type that is not empty
    pub push_constant_range: Option<(u32, u32, u32)>,
    /// Raw handle of the render pass
    pub render_pass: u64,
}

/// The stages a push constant type is bound to, if it is not empty.
pub open spec fn push_stage_of(push_constant: Option<(ShaderStageFlags, u32)>) -> Option<ShaderStageFlags> {
    match push_constant {
        Some((stage, _)) => Some(stage),
        None => None,
    }
}

/// The plan of a builder's pipeline: a stage for each attached shader in
/// order, the builder's render pass, and a push constant range at offset 0
/// spanning the push constant type, bound to its stages.
pub open spec fn planned(b: &PipelineBuilder, push_constant: Option<(ShaderStageFlags, u32)>, plan: PipelinePlan) -> bool {
    &&& plan.stages@.len() == b.shaders@.len()
    &&& forall|i: int| 0 <= i < plan.stages@.len() ==> (#[trigger] plan.stages@[i]).shader == i
        && plan.stages@[i].stage_bits == b.shaders@[i].flags.bits
    &&& b.render_pass == Some(plan.render_pass)
    &&& plan.push_constant_range == match push_constant {
        Some((stage, size)) => Some((stage.bits, 0u32, size)),
        None => None,
    }
}

/// Collects the shaders and render pass a graphics pipeline is made of.
pub struct PipelineBuilder {
    pub shaders: Vec<Shader>,
    /// Raw handle of the render pass
    pub render_pass: Option<u64>,
}

impl PipelineBuilder {
    /// A builder with no shaders and no render pass.
    pub fn new() -> (b: PipelineBuilder)
        ensures
            b.shaders@.len() == 0,
            b.render_pass is None,
    {
        PipelineBuilder { shaders: Vec::new(), render_pass: None }
    }

    /// Attaches a shader.
    pub fn attach_shader(self, shader: Shader) -> (b: PipelineBuilder)
        ensures
            b.shaders@ == self.shaders@.push(shader),
            b.render_pass == self.render_pass,
    {
        let mut s = self;
        s.shaders.push(shader);
        s
    }

    /// Sets the render pass the pipeline is for.
    pub fn render_pass(self, render_pass: u64) -> (b: PipelineBuilder)
        ensures
            b.shaders@ == self.shaders@,
            b.render_pass == Some(render_pass),
    {
        let mut s = self;
        s.render_pass = Some(render_pass);
        s
    }

    /// Whether some attached shader is for the fragment stage.
    pub fn has_fragment_shader(&self) -> (r: bool)
        ensures
            r == has_fragment_shader(self.shaders@),
    {
        let mut k: usize = 0;
        while k < self.shaders.len()
            invariant
                k <= self.shaders.len(),
                forall|m: int| 0 <= m < k ==> (#[trigger] self.shaders@[m]).flags.bits & 0x10 != 0x10,
            decreases self.shaders.len() - k,
        {
            if self.shaders[k].flags.bits & 0x10 == 0x10 {
                return true;
            }
            k = k + 1;
        }
        false
    }

    /// The position of the first attached shader for the vertex stage: the
    /// one whose inputs a vertex type must match.
    pub fn vertex_shader_index(&self) -> (r: Option<usize>)
        ensures
            match first_vertex_shader(self.shaders@, 0) {
                Some(k) => r == Some(k as usize),
                None => r is None,
            },
            r matches Some(k) ==> k < self.shaders.len() && self.shaders@[k as int].flags.bits & 0x1 == 0x1,
    {
        proof {
            lemma_first_vertex_shader(self.shaders@, 0);
        }
        let mut k: usize = 0;
        while k < self.shaders.len()
            invariant
                k <= self.shaders.len(),
                first_vertex_shader(self.shaders@, 0) == first_vertex_shader(self.shaders@, k as int),
            decreases self.shaders.len() - k,
        {
            if self.shaders[k].flags.bits & 0x1 == 0x1 {
                return Some(k);
            }
            k = k + 1;
        }
        None
    }

    /// Checks, before the pipeline is created, that it has a render pass;
    /// that a vertex shader is attached where a fragment shader is or where
    /// the vertex type has attributes; that where its vertex type has attributes (`vertex_input` is `Some`,
    /// with the attributes and the inputs reflected from the vertex shader
    /// that [Self::vertex_shader_index] names), a vertex shader exists and its
    /// inputs match them; and that where its push constant type is not empty
    /// (`push_constant_stage` is `Some`), every stage it requires has a shader.
    ///
    /// `None` where the vertex shader's attribute offsets would not fit in 32 bits.
    pub fn check(
        &self,
        vertex_input: Option<(&Vec<VertexAttributeDescription>, &Result<Vec<ShaderInputVariable>, String>)>,
        push_constant_stage: Option<ShaderStageFlags>,
    ) -> (r: Option<Result<(), PipelineError>>)
        ensures
            pipeline_check_outcome(self, vertex_input, push_constant_stage, r),
    {
        if self.render_pass.is_none() {
            return Some(Err(PipelineError::MissingRenderPass));
        }
        if self.vertex_shader_index().is_none() && (vertex_input.is_some() || self.has_fragment_shader()) {
            return Some(Err(PipelineError::MissingShader(MissingShader::VertexShader)));
        }
        match vertex_input {
            Some((attrs, inputs)) => {
                let found = self.vertex_shader_index();
                match found {
                    None => {
                        return Some(Err(PipelineError::MissingShader(MissingShader::VertexShader)));
                    },
                    Some(j) => {
                        let outcome = self.shaders[j].check_vertex_input(inputs, attrs);
                        proof {
                            if exists|res: Option<Result<(), ShaderError>>| vertex_input_outcome(*inputs, attrs@, res) && res is None {
                                let res = choose|res: Option<Result<(), ShaderError>>| vertex_input_outcome(*inputs, attrs@, res) && res is None;
                                lemma_input_outcome_unique_kind(*inputs, attrs@, res, outcome);
                            }
                            if exists|res: Option<Result<(), ShaderError>>| vertex_input_outcome(*inputs, attrs@, res) && res matches Some(Err(_)) {
                                let res = choose|res: Option<Result<(), ShaderError>>| vertex_input_outcome(*inputs, attrs@, res) && res matches Some(Err(_));
                                lemma_input_outcome_unique_kind(*inputs, attrs@, res, outcome);
                            }
                        }
                        match outcome {
                            None => {
                                return None;
                            },
                            Some(Err(e)) => {
                                return Some(Err(PipelineError::ShaderError(e)));
                            },
                            Some(Ok(())) => {},
                        }
                    },
                }
            },
            None => {},
        }
        Some(self.check_push_constant_stages(push_constant_stage))
    }

    /// Checks the builder (see [Self::check]) and, where the checks pass,
    /// plans its pipeline: one stage per attached shader in order, its
    /// render pass, and for a push constant type that is not empty
    /// (`push_constant` is `Some`, with its stages and size in bytes) a push
    /// constant range over the whole type.
    ///
    /// `None` where the vertex shader's attribute offsets would not fit in 32 bits.
    pub fn build(
        &self,
        vertex_input: Option<(&Vec<VertexAttributeDescription>, &Result<Vec<ShaderInputVariable>, String>)>,
        push_constant: Option<(ShaderStageFlags, u32)>,
    ) -> (r: Option<Result<PipelinePlan, PipelineError>>)
        ensures
            r is None ==> pipeline_check_outcome(self, vertex_input, push_stage_of(push_constant), None),
            r matches Some(Err(e)) ==> pipeline_check_outcome(self, vertex_input, push_stage_of(push_constant), Some(Err(e))),
            r matches Some(Ok(plan)) ==> pipeline_check_outcome(self, vertex_input, push_stage_of(push_constant), Some(Ok(())))
                && planned(self, push_constant, plan),
    {
        let push_stage = match push_constant {
            Some((stage, _)) => Some(stage),
            None => None,
        };
        match self.check(vertex_input, push_stage) {
            None => None,
            Some(Err(e)) => Some(Err(e)),
            Some(Ok(())) => {
                let render_pass = match self.render_pass {
                    Some(rp) => rp,
                    None => {
                        return Some(Err(PipelineError::MissingRenderPass));
                    },
                };
                let mut stages: Vec<PipelineStage> = Vec::new();
                let mut i: usize = 0;
                while i < self.shaders.len()
                    invariant
                        i <= self.shaders.len(),
                        stages@.len() == i,
                        forall|k: int| 0 <= k < i ==> (#[trigger] stages@[k]).shader == k
                            && stages@[k].stage_bits == self.shaders@[k].flags.bits,
                    decreases self.shaders.len() - i,
                {
                    stages.push(PipelineStage { shader: i, stage_bits: self.shaders[i].flags.bits });
                    i = i + 1;
                }
                let push_constant_range = match push_constant {
                    Some((stage, size)) => Some((stage.bits, 0u32, size)),
                    None => None,
                };
                Some(Ok(PipelinePlan { stages, push_constant_range, render_pass }))
            },
        }
    }

    /// Checks that every stage the push constants require has a shader: the
    /// stages of the shaders that share a stage with them are removed from
    /// the required ones, and any left are missing.
    fn check_push_constant_stages(&self, push_constant_stage: Option<ShaderStageFlags>) -> (r: Result<(), PipelineError>)
        ensures
            push_check_outcome(self.shaders@, push_constant_stage, Some(r)),
    {
        match push_constant_stage {
            None => Ok(()),
            Some(stage) => {
                let mut required = stage;
                let mut k: usize = 0;
                while k < self.shaders.len()
                    invariant
                        k <= self.shaders.len(),
                        remaining_stages(self.shaders@, stage.bits, stage.bits, 0)
                            == remaining_stages(self.shaders@, stage.bits, required.bits, k as int),
                    decreases self.shaders.len() - k,
                {
                    let flags = self.shaders[k].flags;
                    if flags.intersects(stage) {
                        required.remove(flags);
                    }
                    k = k + 1;
                }
                if !required.is_empty() {
                    Err(PipelineError::MissingShader(MissingShader::PushConstantStages { required: stage, missing: required }))
                } else {
                    Ok(())
                }
            },
        }
    }
}

/// What the push constant check answers: success for an empty push constant
/// type, else an error naming the stages left without a shader, if any.
pub open spec fn push_check_outcome(shaders: Seq<Shader>, push_constant_stage: Option<ShaderStageFlags>, r: Option<Result<(), PipelineError>>) -> bool {
    match push_constant_stage {
        None => r matches Some(Ok(())),
        Some(stage) => {
            let left = remaining_stages(shaders, stage.bits, stage.bits, 0);
            if left != 0 {
                r matches Some(Err(PipelineError::MissingShader(MissingShader::PushConstantStages { required, missing })))
                    && required == stage && missing.bits == left
            } else {
                r matches Some(Ok(()))
            }
        },
    }
}

/// The vertex input check answers the same way (no answer, success or
/// failure) for every result that meets its outcome.
proof fn lemma_input_outcome_unique_kind(
    inputs: Result<Vec<ShaderInputVariable>, String>,
    attrs: Seq<VertexAttributeDescription>,
    a: Option<Result<(), ShaderError>>,
    b: Option<Result<(), ShaderError>>,
)
    requires
        vertex_input_outcome(inputs, attrs, a),
        vertex_input_outcome(inputs, attrs, b),
    ensures
        a is None <==> b is None,
        a matches Some(Ok(())) <==> b matches Some(Ok(())),
{
}

} // verus!
