//! The Vulkan instance: what it is created from.

use crate::engine::names::{
    debug_report_extension_name,
    macos_surface_extension_name,
    surface_extension_name,
    win32_surface_extension_name,
    xlib_surface_extension_name,
};
use vstd::prelude::*;

verus! {

/// An extension of the instance.
#[derive(Clone, Copy, Debug, PartialEq, Eq, Structural)]
pub enum InstanceExtension {
    /// Presentation surfaces.
    Surface,
    /// Surfaces of Xlib windows.
    XlibSurface,
    /// Surfaces of macOS views.
    MacOsSurface,
    /// Surfaces of Win32 windows.
    Win32Surface,
    /// Reports from the validation layers.
    DebugReport,
}

impl InstanceExtension {
    /// The name by which Vulkan knows the extension.
    pub open spec fn name_text(self) -> Seq<char> {
        match self {
            InstanceExtension::Surface => "VK_KHR_surface"@,
            InstanceExtension::XlibSurface => "VK_KHR_xlib_surface"@,
            InstanceExtension::MacOsSurface => "VK_MVK_macos_surface"@,
            InstanceExtension::Win32Surface => "VK_KHR_win32_surface"@,
            InstanceExtension::DebugReport => "VK_EXT_debug_report"@,
        }
    }

    /// Gives the name by which Vulkan knows the extension.
    pub fn name(&self) -> (name: String)
        ensures
            name@ == self.name_text(),
    {
        match self {
            InstanceExtension::Surface => surface_extension_name(),
            InstanceExtension::XlibSurface => xlib_surface_extension_name(),
            InstanceExtension::MacOsSurface => macos_surface_extension_name(),
            InstanceExtension::Win32Surface => win32_surface_extension_name(),
            InstanceExtension::DebugReport => debug_report_extension_name(),
        }
    }
}

/// What the instance is created from.
#[derive(Debug)]
pub struct InstanceInfo {
    pub application_name: Vec<u8>,
    pub application_version: u32,
    pub engine_name: Vec<u8>,
    pub engine_version: u32,
    /// The version of Vulkan asked for, packed as [`make_version`] packs it.
    pub api_version: u32,
    /// The names of the validation layers to enable.
    pub enabled_layers: Vec<Vec<u8>>,
    pub enabled_extensions: Vec<InstanceExtension>,
}

/// A version number packed into 32 bits: the patch level in the lowest twelve,
/// the minor version in the ten above them, the major version in the rest.
pub open spec fn packed_version(major: u32, minor: u32, patch: u32) -> u32 {
    (major << 22) | (minor << 12) | patch
}

/// Packs a version number into 32 bits.
pub fn make_version(major: u32, minor: u32, patch: u32) -> (version: u32)
    ensures
        version == packed_version(major, minor, patch),
{
    (major << 22) | (minor << 12) | patch
}

/// Where each part is small enough for its bits, packing is arithmetic, and the
/// parts can be read back.
pub proof fn packed_version_is_positional(major: u32, minor: u32, patch: u32)
    requires
        major < 0x400,
        minor < 0x400,
        patch < 0x1000,
    ensures
        packed_version(major, minor, patch) == major * 0x40_0000 + minor * 0x1000 + patch,
        packed_version(major, minor, patch) >> 22 == major,
        (packed_version(major, minor, patch) >> 12) & 0x3ff == minor,
        packed_version(major, minor, patch) & 0xfff == patch,
{
    assert(major < 0x400 && minor < 0x400 && patch < 0x1000 ==> ((major << 22) | (minor << 12)
        | patch) == major * 0x40_0000 + minor * 0x1000 + patch) by (bit_vector);
    assert(major < 0x400 && minor < 0x400 && patch < 0x1000 ==> ((major << 22) | (minor << 12)
        | patch) >> 22 == major) by (bit_vector);
    assert(major < 0x400 && minor < 0x400 && patch < 0x1000 ==> (((major << 22) | (minor << 12)
        | patch) >> 12) & 0x3ff == minor) by (bit_vector);
    assert(major < 0x400 && minor < 0x400 && patch < 0x1000 ==> ((major << 22) | (minor << 12)
        | patch) & 0xfff == patch) by (bit_vector);
}

/// The version of Vulkan that the renderer asks for: 1.0.36.
pub open spec fn api_version() -> u32 {
    packed_version(1, 0, 36)
}

/// Says what the instance is created from: the names given, versions of zero,
/// Vulkan 1.0.36, and the layers and extensions in the order given.
pub fn create_instance(
    app_name: Vec<u8>,
    engine_name: Vec<u8>,
    layer_names: Vec<Vec<u8>>,
    extension_names: Vec<InstanceExtension>,
) -> (info: InstanceInfo)
    ensures
        info.application_name == app_name,
        info.application_version == 0,
        info.engine_name == engine_name,
        info.engine_version == 0,
        info.api_version == api_version(),
        info.enabled_layers == layer_names,
        info.enabled_extensions == extension_names,
{
    InstanceInfo {
        application_name: app_name,
        application_version: 0,
        engine_name,
        engine_version: 0,
        api_version: make_version(1, 0, 36),
        enabled_layers: layer_names,
        enabled_extensions: extension_names,
    }
}

} // verus!
