//! The logical device: what it is created from.

use crate::engine::names::swapchain_extension_name;
use vstd::prelude::*;

verus! {

/// An extension of the device.
#[derive(Clone, Copy, Debug, PartialEq, Eq, Structural)]
pub enum DeviceExtension {
    Swapchain,
}

impl DeviceExtension {
    /// The name by which Vulkan knows the extension.
    pub open spec fn name_text(self) -> Seq<char> {
        match self {
            DeviceExtension::Swapchain => "VK_KHR_swapchain"@,
        }
    }

    /// Gives the name by which Vulkan knows the extension.
    pub fn name(&self) -> (name: String)
        ensures
            name@ == self.name_text(),
    {
        match self {
            DeviceExtension::Swapchain => swapchain_extension_name(),
        }
    }
}

/// What the logical device is created from. It takes one queue from one queue
/// family, at the highest priority, and switches on every feature that the
/// adapter has.
#[derive(Debug)]
pub struct Device {
    pub queue_family_index: u32,
    pub queue_count: u32,
    /// The priority of the queue, from 0 to 1.
    pub queue_priority: u32,
    /// The names of the validation layers to enable.
    pub enabled_layers: Vec<Vec<u8>>,
    pub enabled_extensions: Vec<DeviceExtension>,
    pub enables_adapter_features: bool,
}

impl Device {
    /// Describes the device for a queue family, with the given layers and the
    /// swapchain extension.
    pub fn new(layer_names: Vec<Vec<u8>>, queue_index: u32) -> (device: Device)
        ensures
            device.queue_family_index == queue_index,
            device.queue_count == 1,
            device.queue_priority == 1,
            device.enabled_layers == layer_names,
            device.enabled_extensions@ == seq![DeviceExtension::Swapchain],
            device.enables_adapter_features,
    {
        let mut enabled_extensions: Vec<DeviceExtension> = Vec::new();
        enabled_extensions.push(DeviceExtension::Swapchain);
        assert(enabled_extensions@ =~= seq![DeviceExtension::Swapchain]);
        Device {
            queue_family_index: queue_index,
            queue_count: 1,
            queue_priority: 1,
            enabled_layers: layer_names,
            enabled_extensions,
            enables_adapter_features: true,
        }
    }
}

} // verus!
