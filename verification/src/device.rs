//! Physical-device selection: validate each candidate adapter against
//! the renderer's requirements, pick the first that qualifies, and
//! derive its maximum usable multisample count.

use vstd::prelude::*;

use crate::queue::{has_graphics_family, has_present_family, QueueFamilyIndices, QueueFamilyInfo};

verus! {

/// Everything the selection logic reads about one candidate adapter.
#[derive(Clone, Debug)]
pub struct PhysicalDeviceInfo {
    /// What each of the adapter's queue families supports.
    pub queue_families: Vec<QueueFamilyInfo>,
    /// The adapter's available device-extension names, as byte strings.
    pub extension_names: Vec<Vec<u8>>,
    /// How many surface formats the adapter offers for the surface.
    pub format_count: usize,
    /// How many present modes the adapter offers for the surface.
    pub present_mode_count: usize,
    pub supports_sampler_anisotropy: bool,
    /// Bitmask of sample counts the adapter's color framebuffers support.
    pub color_sample_counts: u32,
    /// Bitmask of sample counts the adapter's depth framebuffers support.
    pub depth_sample_counts: u32,
}

/// Why device selection can fail.
#[derive(Clone, Copy, Debug, PartialEq, Eq, Structural)]
pub enum DeviceError {
    /// A candidate lacks a graphics or a present queue family.
    MissingQueueFamilies,
    /// A candidate lacks a required device extension.
    MissingExtensions,
    /// A candidate offers no surface formats or no present modes.
    SwapchainSupportError,
    /// A candidate lacks sampler anisotropy.
    FeatureError,
    /// No candidate qualifies.
    NoSuitableDevice,
}

impl DeviceError {
    /// A short description of the error.
    pub fn message(&self) -> (r: &'static str)
        ensures
            (*self == DeviceError::MissingQueueFamilies
                ==> r@ =~= "missing required queue families"@),
            (*self == DeviceError::MissingExtensions
                ==> r@ =~= "missing required device extensions"@),
            (*self == DeviceError::SwapchainSupportError
                ==> r@ =~= "insufficient swapchain support"@),
            (*self == DeviceError::FeatureError ==> r@ =~= "no sampler anisotropy"@),
            (*self == DeviceError::NoSuitableDevice
                ==> r@ =~= "no suitable physical device"@),
    {
        match self {
            DeviceError::MissingQueueFamilies => "missing required queue families",
            DeviceError::MissingExtensions => "missing required device extensions",
            DeviceError::SwapchainSupportError => "insufficient swapchain support",
            DeviceError::FeatureError => "no sampler anisotropy",
            DeviceError::NoSuitableDevice => "no suitable physical device",
        }
    }
}

/// The byte string of the one device extension the renderer requires:
/// the swapchain extension's name.
pub open spec fn required_extension_bytes() -> Seq<u8> {
    seq![
        86u8, 75u8, 95u8, 75u8, 72u8, 82u8, 95u8, 115u8, 119u8, 97u8, 112u8, 99u8, 104u8, 97u8,
        105u8, 110u8,
    ]
}

/// Builds the required device-extension name, `VK_KHR_swapchain`, as
/// bytes.
pub fn required_device_extension() -> (r: Vec<u8>)
    ensures
        r@ == required_extension_bytes(),
{
    proof {
        reveal_strlit("VK_KHR_swapchain");
    }
    let s: &str = "VK_KHR_swapchain";
    let b = s.as_bytes();
    let v = vstd::slice::slice_to_vec(b);
    proof {
        assert(vstd::string::is_ascii(s));
        assert(v@ =~= required_extension_bytes());
    }
    v
}

/// Whether two byte strings are equal.
fn bytes_equal(a: &Vec<u8>, b: &Vec<u8>) -> (r: bool)
    ensures
        r <==> a@ == b@,
{
    if a.len() != b.len() {
        return false;
    }
    let n = a.len();
    for i in 0..n
        invariant
            n == a@.len(),
            a@.len() == b@.len(),
            forall|j: int| 0 <= j < i ==> a@[j] == b@[j],
    {
        if a[i] != b[i] {
            return false;
        }
    }
    proof {
        assert(a@ =~= b@);
    }
    true
}

/// Whether the available extension names include the required one.
pub open spec fn has_required_extension(available: Seq<Vec<u8>>) -> bool {
    exists|i: int| 0 <= i < available.len() && available[i]@ == required_extension_bytes()
}

/// Checks that the required device extension is available.
pub fn check_physical_device_extensions(available: &Vec<Vec<u8>>) -> (r: Result<(), DeviceError>)
    ensures
        match r {
            Ok(()) => has_required_extension(available@),
            Err(e) => {
                &&& e == DeviceError::MissingExtensions
                &&& !has_required_extension(available@)
            },
        },
{
    let required = required_device_extension();
    let n = available.len();
    for i in 0..n
        invariant
            n == available@.len(),
            required@ == required_extension_bytes(),
            forall|j: int| 0 <= j < i ==> available@[j]@ != required_extension_bytes(),
    {
        if bytes_equal(&available[i], &required) {
            return Ok(());
        }
    }
    Err(DeviceError::MissingExtensions)
}

/// Whether a candidate adapter meets every requirement.
pub open spec fn device_suitable(dev: PhysicalDeviceInfo) -> bool {
    &&& has_graphics_family(dev.queue_families@)
    &&& has_present_family(dev.queue_families@)
    &&& has_required_extension(dev.extension_names@)
    &&& dev.format_count > 0
    &&& dev.present_mode_count > 0
    &&& dev.supports_sampler_anisotropy
}

/// Validates one candidate adapter, reporting the first failed
/// requirement: queue families, then extensions, then swapchain support,
/// then sampler anisotropy.
pub fn check_physical_device(dev: &PhysicalDeviceInfo) -> (r: Result<(), DeviceError>)
    requires
        dev.queue_families@.len() <= u32::MAX,
    ensures
        match r {
            Ok(()) => device_suitable(*dev),
            Err(e) => {
                &&& !device_suitable(*dev)
                &&& (match e {
                    DeviceError::MissingQueueFamilies => !has_graphics_family(dev.queue_families@)
                        || !has_present_family(dev.queue_families@),
                    DeviceError::MissingExtensions => !has_required_extension(
                        dev.extension_names@,
                    ),
                    DeviceError::SwapchainSupportError => dev.format_count == 0
                        || dev.present_mode_count == 0,
                    DeviceError::FeatureError => !dev.supports_sampler_anisotropy,
                    DeviceError::NoSuitableDevice => false,
                })
            },
        },
{
    if let Err(_) = QueueFamilyIndices::get(&dev.queue_families) {
        return Err(DeviceError::MissingQueueFamilies);
    }
    check_physical_device_extensions(&dev.extension_names)?;
    if dev.format_count == 0 || dev.present_mode_count == 0 {
        return Err(DeviceError::SwapchainSupportError);
    }
    if !dev.supports_sampler_anisotropy {
        return Err(DeviceError::FeatureError);
    }
    Ok(())
}

/// The largest multisample count the bitmask `counts` offers, out of the
/// powers of two from 64 down, defaulting to single sampling.
pub open spec fn max_msaa_samples(counts: u32) -> u32 {
    if counts & 64u32 != 0 {
        64u32
    } else if counts & 32u32 != 0 {
        32u32
    } else if counts & 16u32 != 0 {
        16u32
    } else if counts & 8u32 != 0 {
        8u32
    } else if counts & 4u32 != 0 {
        4u32
    } else if counts & 2u32 != 0 {
        2u32
    } else {
        1u32
    }
}

/// Picks the adapter's maximum usable multisample count: the largest
/// count both its color and depth framebuffers support.
pub fn get_max_msaa_samples(color_sample_counts: u32, depth_sample_counts: u32) -> (r: u32)
    ensures
        r == max_msaa_samples(color_sample_counts & depth_sample_counts),
{
    let counts = color_sample_counts & depth_sample_counts;
    if counts & 64 != 0 {
        64
    } else if counts & 32 != 0 {
        32
    } else if counts & 16 != 0 {
        16
    } else if counts & 8 != 0 {
        8
    } else if counts & 4 != 0 {
        4
    } else if counts & 2 != 0 {
        2
    } else {
        1
    }
}

/// The adapter that was picked, and the multisample count to render at.
#[derive(Clone, Copy, Debug, PartialEq, Eq, Structural)]
pub struct SelectedDevice {
    /// Index of the chosen adapter in the candidate list.
    pub index: usize,
    pub msaa_samples: u32,
}

/// Picks the first candidate adapter that meets every requirement,
/// together with its maximum usable multisample count; fails only when
/// no candidate qualifies.
pub fn pick_physical_device(devices: &Vec<PhysicalDeviceInfo>) -> (r: Result<
    SelectedDevice,
    DeviceError,
>)
    requires
        forall|d: int| 0 <= d < devices@.len()
            ==> (#[trigger] devices@[d].queue_families)@.len() <= u32::MAX,
    ensures
        match r {
            Ok(sel) => {
                &&& (sel.index as int) < devices@.len()
                &&& device_suitable(devices@[sel.index as int])
                &&& (forall|d: int| 0 <= d < sel.index
                    ==> !device_suitable(#[trigger] devices@[d]))
                &&& sel.msaa_samples == max_msaa_samples(
                    devices@[sel.index as int].color_sample_counts
                        & devices@[sel.index as int].depth_sample_counts,
                )
            },
            Err(e) => {
                &&& e == DeviceError::NoSuitableDevice
                &&& (forall|d: int| 0 <= d < devices@.len()
                    ==> !device_suitable(#[trigger] devices@[d]))
            },
        },
{
    let n = devices.len();
    for d in 0..n
        invariant
            n == devices@.len(),
            forall|j: int| 0 <= j < devices@.len()
                ==> (#[trigger] devices@[j].queue_families)@.len() <= u32::MAX,
            forall|j: int| 0 <= j < d ==> !device_suitable(#[trigger] devices@[j]),
    {
        if let Ok(()) = check_physical_device(&devices[d]) {
            let msaa_samples = get_max_msaa_samples(
                devices[d].color_sample_counts,
                devices[d].depth_sample_counts,
            );
            return Ok(SelectedDevice { index: d, msaa_samples });
        }
    }
    Err(DeviceError::NoSuitableDevice)
}

} // verus!
