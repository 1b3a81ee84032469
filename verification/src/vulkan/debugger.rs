//! Validation layers and the check that the Vulkan library provides them.
use vstd::prelude::*;
use crate::vulkan::error::VulkanError;
use crate::vulkan::utils::{contains_required, missing_names, names_view};

verus! {

/// Errors of the debugger
#[derive(Debug)]
pub enum DebuggerError {
    /// Failed to create the Vulkan debug messenger
    CantCreate(VulkanError),
    /// The Vulkan library lacks these required validation layers
    MissingValidationLayers(Vec<String>),
    /// Another Vulkan error
    Other(VulkanError),
}

/// Vulkan/LunarG validation layers that can be enabled for debugging
#[derive(Clone, Copy, Debug, PartialEq, Eq, Structural)]
pub enum DebugLayer {
    /// The main Khronos validation layer
    KhronosValidation,
    /// Prints API calls, parameters, and values
    ApiDump,
}

/// The Vulkan name of a validation layer.
pub open spec fn layer_name(l: DebugLayer) -> Seq<char> {
    match l {
        DebugLayer::KhronosValidation => "VK_LAYER_KHRONOS_validation"@,
        DebugLayer::ApiDump => "VK_LAYER_LUNARG_api_dump"@,
    }
}

/// The Vulkan names of a list of validation layers.
pub open spec fn layer_names(ls: Seq<DebugLayer>) -> Seq<Seq<char>> {
    ls.map_values(|l: DebugLayer| layer_name(l))
}

impl DebugLayer {
    /// The Vulkan name of the layer.
    pub fn name(&self) -> (s: String)
        ensures
            s@ == layer_name(*self),
    {
        match self {
            DebugLayer::KhronosValidation => "VK_LAYER_KHRONOS_validation".to_owned(),
            DebugLayer::ApiDump => "VK_LAYER_LUNARG_api_dump".to_owned(),
        }
    }
}

/// Checks that the Vulkan library supports every required validation layer,
/// given the names of the layers it supports. The missing ones are named in
/// the order they were required.
pub fn check_validation_layers(supported: &Vec<String>, required_layers: &[DebugLayer]) -> (r: Result<(), DebuggerError>)
    ensures
        r is Ok <==> missing_names(names_view(supported@), layer_names(required_layers@)).len() == 0,
        r matches Err(e) ==> e matches DebuggerError::MissingValidationLayers(names)
            && names_view(names@) == missing_names(names_view(supported@), layer_names(required_layers@)),
{
    let mut required: Vec<String> = Vec::new();
    let mut i: usize = 0;
    while i < required_layers.len()
        invariant
            i <= required_layers.len(),
            names_view(required@) == layer_names(required_layers@.take(i as int)),
        decreases required_layers.len() - i,
    {
        let n = required_layers[i].name();
        let ghost before = required@;
        required.push(n);
        assert(names_view(required@) =~= names_view(before).push(layer_name(required_layers@[i as int])));
        assert(layer_names(required_layers@.take(i + 1)) =~= layer_names(required_layers@.take(i as int)).push(
            layer_name(required_layers@[i as int]),
        ));
        i = i + 1;
    }
    assert(required_layers@.take(i as int) == required_layers@);
    let (is_missing, missing) = contains_required(supported, &required);
    if is_missing {
        Err(DebuggerError::MissingValidationLayers(missing))
    } else {
        Ok(())
    }
}

} // verus!
