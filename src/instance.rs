//! The driver connection and the capabilities it must offer.
use vstd::prelude::*;

use crate::error::AppError;

verus! {

/// The windowing platform the surface comes from.
#[derive(Clone, Copy, Debug, PartialEq, Eq, Structural)]
pub enum Platform {
    Wayland,
    MacOs,
}

/// Severity of a diagnostics message.
#[derive(Clone, Copy, Debug, PartialEq, Eq, Structural)]
pub enum Severity {
    Verbose,
    Info,
    Warning,
    Error,
}

/// The level a diagnostics message is logged at.
#[derive(Clone, Copy, Debug, PartialEq, Eq, Structural)]
pub enum LogLevel {
    Info,
    Warn,
    Error,
}

pub open spec fn names(v: Seq<String>) -> Seq<Seq<char>> {
    v.map_values(|s: String| s@)
}

pub open spec fn instance_extensions_spec(p: Platform, enable_diagnostics: bool) -> Seq<Seq<char>> {
    let base = match p {
        Platform::Wayland => seq!["VK_KHR_surface"@, "VK_KHR_wayland_surface"@],
        Platform::MacOs => seq![
            "VK_KHR_surface"@,
            "VK_EXT_metal_surface"@,
            "VK_KHR_portability_enumeration"@,
        ],
    };
    if enable_diagnostics {
        base.push("VK_EXT_debug_utils"@)
    } else {
        base
    }
}

pub open spec fn device_extensions_spec(p: Platform) -> Seq<Seq<char>> {
    let base = seq![
        "VK_KHR_swapchain"@,
        "VK_KHR_spirv_1_4"@,
        "VK_KHR_synchronization2"@,
        "VK_KHR_dynamic_rendering"@,
    ];
    match p {
        Platform::Wayland => base,
        Platform::MacOs => base.push("VK_KHR_portability_subset"@),
    }
}

pub open spec fn layers_spec(enable_diagnostics: bool) -> Seq<Seq<char>> {
    if enable_diagnostics {
        seq!["VK_LAYER_KHRONOS_validation"@]
    } else {
        seq![]
    }
}

/// Every required name is among the available ones.
pub open spec fn all_available(required: Seq<String>, available: Seq<String>) -> bool {
    forall|i: int| 0 <= i < required.len() ==> names(available).contains(#[trigger] required[i]@)
}

pub open spec fn log_level_spec(s: Severity) -> Option<LogLevel> {
    match s {
        Severity::Verbose => None,
        Severity::Info => Some(LogLevel::Info),
        Severity::Warning => Some(LogLevel::Warn),
        Severity::Error => Some(LogLevel::Error),
    }
}

/// The instance extensions the platform's surface needs, and the
/// diagnostics extension when diagnostics are on.
pub fn required_instance_extensions(p: Platform, enable_diagnostics: bool) -> (r: Vec<String>)
    ensures
        names(r@) == instance_extensions_spec(p, enable_diagnostics),
{
    let mut r: Vec<String> = Vec::new();
    r.push("VK_KHR_surface".to_owned());
    match p {
        Platform::Wayland => {
            r.push("VK_KHR_wayland_surface".to_owned());
        },
        Platform::MacOs => {
            r.push("VK_EXT_metal_surface".to_owned());
            r.push("VK_KHR_portability_enumeration".to_owned());
        },
    }
    if enable_diagnostics {
        r.push("VK_EXT_debug_utils".to_owned());
    }
    assert(names(r@) =~= instance_extensions_spec(p, enable_diagnostics));
    r
}

/// The device extensions the renderer uses.
pub fn required_device_extensions(p: Platform) -> (r: Vec<String>)
    ensures
        names(r@) == device_extensions_spec(p),
{
    let mut r: Vec<String> = Vec::new();
    r.push("VK_KHR_swapchain".to_owned());
    r.push("VK_KHR_spirv_1_4".to_owned());
    r.push("VK_KHR_synchronization2".to_owned());
    r.push("VK_KHR_dynamic_rendering".to_owned());
    match p {
        Platform::Wayland => {},
        Platform::MacOs => {
            r.push("VK_KHR_portability_subset".to_owned());
        },
    }
    assert(names(r@) =~= device_extensions_spec(p));
    r
}

/// The validation layer when diagnostics are on, else none.
pub fn required_layers(enable_diagnostics: bool) -> (r: Vec<String>)
    ensures
        names(r@) == layers_spec(enable_diagnostics),
{
    let mut r: Vec<String> = Vec::new();
    if enable_diagnostics {
        r.push("VK_LAYER_KHRONOS_validation".to_owned());
    }
    assert(names(r@) =~= layers_spec(enable_diagnostics));
    r
}

fn is_available(name: &String, available: &Vec<String>) -> (r: bool)
    ensures
        r == names(available@).contains(name@),
{
    let mut i: usize = 0;
    while i < available.len()
        invariant
            0 <= i <= available@.len(),
            forall|j: int| 0 <= j < i ==> available@[j]@ != name@,
        decreases available.len() - i,
    {
        if available[i] == *name {
            assert(names(available@)[i as int] == name@);
            return true;
        }
        i = i + 1;
    }
    proof {
        if names(available@).contains(name@) {
            let k = choose|k: int| 0 <= k < names(available@).len() && names(available@)[k] == name@;
            assert(available@[k]@ == name@);
        }
    }
    false
}

/// Whether every required name is available.
pub fn all_supported(required: &Vec<String>, available: &Vec<String>) -> (r: bool)
    ensures
        r == all_available(required@, available@),
{
    let mut i: usize = 0;
    while i < required.len()
        invariant
            0 <= i <= required@.len(),
            forall|j: int| 0 <= j < i ==> names(available@).contains(#[trigger] required@[j]@),
        decreases required.len() - i,
    {
        if !is_available(&required[i], available) {
            return false;
        }
        i = i + 1;
    }
    true
}

/// Fails unless every required layer is available.
pub fn check_layers(required: &Vec<String>, available: &Vec<String>) -> (r: Result<(), AppError>)
    ensures
        r.is_ok() <==> all_available(required@, available@),
        r.is_err() ==> r == Err::<(), AppError>(AppError::MissingLayer),
{
    if all_supported(required, available) {
        Ok(())
    } else {
        Err(AppError::MissingLayer)
    }
}

/// Fails unless every required extension is available.
pub fn check_extensions(required: &Vec<String>, available: &Vec<String>) -> (r: Result<
    (),
    AppError,
>)
    ensures
        r.is_ok() <==> all_available(required@, available@),
        r.is_err() ==> r == Err::<(), AppError>(AppError::MissingExtension),
{
    if all_supported(required, available) {
        Ok(())
    } else {
        Err(AppError::MissingExtension)
    }
}

/// The level a diagnostics message of severity `s` is logged at; verbose
/// messages are not logged.
pub fn log_level(s: Severity) -> (r: Option<LogLevel>)
    ensures
        r == log_level_spec(s),
{
    match s {
        Severity::Verbose => None,
        Severity::Info => Some(LogLevel::Info),
        Severity::Warning => Some(LogLevel::Warn),
        Severity::Error => Some(LogLevel::Error),
    }
}

/// The connection to the driver, with the surface loader and, when
/// diagnostics are on, the messenger that receives the driver's messages.
pub struct InstanceContext {
    pub entry: ash::Entry,
    pub instance: ash::Instance,
    pub surface_loader: ash::khr::surface::Instance,
    pub debug_utils_loader: Option<ash::ext::debug_utils::Instance>,
    pub debug_messenger: Option<ash::vk::DebugUtilsMessengerEXT>,
}

impl InstanceContext {
    pub fn new(
        entry: ash::Entry,
        instance: ash::Instance,
        surface_loader: ash::khr::surface::Instance,
        debug_utils_loader: Option<ash::ext::debug_utils::Instance>,
        debug_messenger: Option<ash::vk::DebugUtilsMessengerEXT>,
    ) -> (r: InstanceContext)
        ensures
            r.entry == entry,
            r.instance == instance,
            r.surface_loader == surface_loader,
            r.debug_utils_loader == debug_utils_loader,
            r.debug_messenger == debug_messenger,
    {
        InstanceContext { entry, instance, surface_loader, debug_utils_loader, debug_messenger }
    }

    pub fn entry(&self) -> (r: &ash::Entry)
        ensures
            *r == self.entry,
    {
        &self.entry
    }

    pub fn instance(&self) -> (r: &ash::Instance)
        ensures
            *r == self.instance,
    {
        &self.instance
    }

    pub fn surface_loader(&self) -> (r: &ash::khr::surface::Instance)
        ensures
            *r == self.surface_loader,
    {
        &self.surface_loader
    }

    /// Whether the diagnostics messenger is set up.
    pub fn diagnostics_enabled(&self) -> (r: bool)
        ensures
            r == self.debug_messenger.is_some(),
    {
        self.debug_messenger.is_some()
    }
}

} // verus!
