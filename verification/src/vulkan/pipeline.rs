//! Vertex layouts, uniform buffers, shaders and the checks a graphics
//! pipeline makes of them before it is created.
use vstd::prelude::*;
use crate::vulkan::error::VulkanError;
use crate::vulkan::flags::{bits_contain, bits_intersect, ShaderStageFlags};

verus! {

/// How often vertex attributes advance
#[derive(Clone, Copy, Debug, PartialEq, Eq, Structural)]
pub enum VertexInputRate {
    Vertex,
    Instance,
}

impl VertexInputRate {
    /// The raw `VkVertexInputRate`.
    pub fn to_raw(self) -> (r: i32)
        ensures
            r == (match self {
                VertexInputRate::Vertex => 0i32,
                VertexInputRate::Instance => 1i32,
            }),
    {
        match self {
            VertexInputRate::Vertex => 0,
            VertexInputRate::Instance => 1,
        }
    }
}

/// The numeric type of the components of a format.
#[derive(Clone, Copy, Debug, PartialEq, Eq, Structural)]
pub enum NumericType {
    Unsigned,
    Signed,
    Float,
}

/// Whether a raw `VkFormat` is one of the twelve formats of 32-bit
/// components: R32, R32G32, R32G32B32 and R32G32B32A32, each as unsigned
/// integers, signed integers and floats, numbered 98 to 109 in that order.
pub open spec fn is_vk_format_32(v: i32) -> bool {
    98 <= v <= 109
}

/// The number of 32-bit components of such a `VkFormat`.
pub open spec fn vk_format_components(v: i32) -> int {
    (v - 98) / 3 + 1
}

/// The numeric type of the components of such a `VkFormat`.
pub open spec fn vk_format_type(v: i32) -> NumericType {
    let k = (v - 98) % 3;
    if k == 0 { NumericType::Unsigned } else if k == 1 { NumericType::Signed } else { NumericType::Float }
}

/// Describes one attribute of a vertex
#[derive(Clone, Copy, Debug, PartialEq, Eq, Structural)]
pub struct VertexAttributeDescription {
    pub location: u32,
    pub binding: u32,
    /// Raw `VkFormat`
    pub format: i32,
    pub offset: u32,
}

/// Describes how vertices are laid out in a buffer
#[derive(Clone, Copy, Debug, PartialEq, Eq, Structural)]
pub struct VertexBindingDescription {
    pub binding: u32,
    pub stride: u32,
    pub input_rate: VertexInputRate,
}

/// A vertex type: the attributes of its fields and how it is laid out.
pub trait Vertex {
    fn get_attribute_descriptions() -> Vec<VertexAttributeDescription>;
    fn get_binding_descriptions() -> Vec<VertexBindingDescription>;
}

/// The vertex type of a pipeline that takes no vertex input.
pub struct EmptyVertex {}

impl Vertex for EmptyVertex {
    fn get_attribute_descriptions() -> (r: Vec<VertexAttributeDescription>)
        ensures
            r@ == Seq::<VertexAttributeDescription>::empty(),
    {
        Vec::new()
    }

    fn get_binding_descriptions() -> (r: Vec<VertexBindingDescription>)
        ensures
            r@ == Seq::<VertexBindingDescription>::empty(),
    {
        Vec::new()
    }
}

/// Describes one field of a uniform buffer
#[derive(Clone, Copy, Debug, PartialEq, Eq, Structural)]
pub struct UboFieldDescription {
    pub size: usize,
}

/// A uniform buffer or push constant type: its bytes, the shader stages it
/// is for, and its fields.
pub trait UniformBuffer {
    fn as_bytes(&self) -> &[u8];
    fn stage() -> ShaderStageFlags;
    fn get_field_descriptions() -> Vec<UboFieldDescription>;
}

/// The push constant type of a pipeline that takes no push constants.
pub struct EmptyPushConstant {}

impl UniformBuffer for EmptyPushConstant {
    fn as_bytes(&self) -> (r: &[u8])
        ensures
            r@ == seq![0u8],
    {
        let r: &[u8] = &[0u8];
        assert(r@ =~= seq![0u8]);
        r
    }

    fn stage() -> (r: ShaderStageFlags)
        ensures
            r.bits == 0,
    {
        ShaderStageFlags::empty()
    }

    fn get_field_descriptions() -> (r: Vec<UboFieldDescription>)
        ensures
            r@ == Seq::<UboFieldDescription>::empty(),
    {
        Vec::new()
    }
}

/// Shader stages a shader module may be for
#[derive(Clone, Copy, Debug, PartialEq, Eq, Structural)]
pub enum ShaderStage {
    Vertex,
    Fragment,
    Compute,
}

impl ShaderStage {
    /// The raw `VkShaderStageFlags` of the stage.
    pub fn to_raw(self) -> (r: u32)
        ensures
            r == (match self {
                ShaderStage::Vertex => 0x1u32,
                ShaderStage::Fragment => 0x10u32,
                ShaderStage::Compute => 0x20u32,
            }),
    {
        match self {
            ShaderStage::Vertex => 0x1,
            ShaderStage::Fragment => 0x10,
            ShaderStage::Compute => 0x20,
        }
    }
}

/// The stage a shader module is for, from its reflected stage bits: vertex,
/// fragment or compute, tested in that order.
pub open spec fn stage_of_bits(bits: u32) -> Option<ShaderStage> {
    if bits_contain(bits, 0x1) {
        Some(ShaderStage::Vertex)
    } else if bits_contain(bits, 0x10) {
        Some(ShaderStage::Fragment)
    } else if bits_contain(bits, 0x20) {
        Some(ShaderStage::Compute)
    } else {
        None
    }
}

/// Errors of building a shader module
#[derive(Debug)]
pub enum ShaderBuilderError {
    /// The shader file could not be found
    FileNotFound,
    /// Failed to read the contents of the file
    CantRead,
    /// Failed to parse the shader SPIR-V
    CantParseSpv(String),
    /// The shader's stage is not supported
    UnsupportedShaderStage,
    /// Failed to create a Vulkan shader module
    BuildFail(VulkanError),
}

/// The stage a shader module is for, from its reflected stage bits.
pub fn shader_stage_from_bits(bits: u32) -> (r: Result<ShaderStage, ShaderBuilderError>)
    ensures
        match stage_of_bits(bits) {
            Some(s) => r matches Ok(t) && t == s,
            None => r matches Err(ShaderBuilderError::UnsupportedShaderStage),
        },
{
    if bits & 0x1 == 0x1 {
        Ok(ShaderStage::Vertex)
    } else if bits & 0x10 == 0x10 {
        Ok(ShaderStage::Fragment)
    } else if bits & 0x20 == 0x20 {
        Ok(ShaderStage::Compute)
    } else {
        Err(ShaderBuilderError::UnsupportedShaderStage)
    }
}

} // verus!
