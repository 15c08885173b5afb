//! The names of Vulkan extensions, as `ash` gives them.
//!
//! Nothing in this file is proved. Each function asks `ash` for the name of one
//! extension, and its contract repeats the name that the source of `ash` holds.

use vstd::prelude::*;

verus! {

/// The name of the extension for presentation surfaces: what
/// `ash::extensions::Surface::name` returns, `VK_KHR_surface`.
#[verifier::external_body]
pub(crate) fn surface_extension_name() -> (name: String)
    ensures
        name@ == "VK_KHR_surface"@,
{
    ash::extensions::Surface::name().to_string_lossy().into_owned()
}

/// The name of the extension for surfaces of Xlib windows: what
/// `ash::extensions::XlibSurface::name` returns, `VK_KHR_xlib_surface`.
#[verifier::external_body]
pub(crate) fn xlib_surface_extension_name() -> (name: String)
    ensures
        name@ == "VK_KHR_xlib_surface"@,
{
    ash::extensions::XlibSurface::name().to_string_lossy().into_owned()
}

/// The name of the extension for surfaces of macOS views: what
/// `ash::extensions::MacOSSurface::name` returns, `VK_MVK_macos_surface`.
#[verifier::external_body]
pub(crate) fn macos_surface_extension_name() -> (name: String)
    ensures
        name@ == "VK_MVK_macos_surface"@,
{
    ash::extensions::MacOSSurface::name().to_string_lossy().into_owned()
}

/// The name of the extension for surfaces of Win32 windows: what
/// `ash::extensions::Win32Surface::name` returns, `VK_KHR_win32_surface`.
#[verifier::external_body]
pub(crate) fn win32_surface_extension_name() -> (name: String)
    ensures
        name@ == "VK_KHR_win32_surface"@,
{
    ash::extensions::Win32Surface::name().to_string_lossy().into_owned()
}

/// The name of the extension for debug reports: what
/// `ash::extensions::DebugReport::name` returns, `VK_EXT_debug_report`.
#[verifier::external_body]
pub(crate) fn debug_report_extension_name() -> (name: String)
    ensures
        name@ == "VK_EXT_debug_report"@,
{
    ash::extensions::DebugReport::name().to_string_lossy().into_owned()
}

/// The name of the device extension for swapchains: what
/// `ash::extensions::Swapchain::name` returns, `VK_KHR_swapchain`.
#[verifier::external_body]
pub(crate) fn swapchain_extension_name() -> (name: String)
    ensures
        name@ == "VK_KHR_swapchain"@,
{
    ash::extensions::Swapchain::name().to_string_lossy().into_owned()
}

} // verus!
