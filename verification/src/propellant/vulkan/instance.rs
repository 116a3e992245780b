//! Choices made when the Vulkan instance is created.
use vstd::prelude::*;
use vstd::string::StringExecFns;

use crate::propellant::vulkan::physical_devices::{contains_name, names_contain};

verus! {

/// The name of the Khronos validation layer.
pub open spec fn spec_validation_layer_name() -> Seq<char> {
    "VK_LAYER_KHRONOS_validation"@
}

/// The validation layer is enabled in debug builds, when the loader offers
/// it.
pub open spec fn spec_use_validation_layer(debug_build: bool, available_layers: Seq<String>) -> bool {
    debug_build && names_contain(available_layers, spec_validation_layer_name())
}

/// Decides whether the instance enables the Khronos validation layer,
/// given whether this is a debug build and the names of the layers the
/// loader offers. A debug build without the layer goes on without it.
pub fn use_validation_layer(debug_build: bool, available_layers: &[String]) -> (used: bool)
    ensures
        used == spec_use_validation_layer(debug_build, available_layers@),
{
    if !debug_build {
        return false;
    }
    let name = String::from_str("VK_LAYER_KHRONOS_validation");
    contains_name(available_layers, &name)
}

} // verus!
