//! Device selection: queue-family lookup, device-extension checks, and the
//! suitability test that picks the physical GPU at startup.
//!
//! The caller queries the driver and hands the reported facts over as plain
//! values: one capability mask and one presentation-support flag per queue
//! family, the offered device extensions as identifiers, and the counts the
//! surface reports.  The functions here make every selection decision.

use vstd::prelude::*;
use crate::error::RenderError;

verus! {

/// Bit set in a queue family's capability mask when the family supports
/// graphics work.
pub const GRAPHICS_QUEUE_BIT: u32 = 1;

/// Whether a queue family's capability mask includes graphics support.
pub open spec fn supports_graphics(flags: u32) -> bool {
    flags & GRAPHICS_QUEUE_BIT != 0
}

/// The queue families the renderer uses: one that accepts graphics work and
/// one that can present to the surface (possibly the same family).
#[derive(Clone, Copy, Debug, PartialEq, Eq, Structural)]
pub struct QueueFamilyIndices {
    pub graphics: u32,
    pub present: u32,
}

/// Facts reported about one candidate physical device, gathered by the
/// caller from the driver's query calls.
#[derive(Debug)]
pub struct DeviceFacts {
    /// Capability mask of each queue family, in family order.
    pub queue_flags: Vec<u32>,
    /// Whether each queue family can present to the surface, in family order.
    pub present_support: Vec<bool>,
    /// Identifiers of the device extensions the device offers.
    pub available_extensions: Vec<u64>,
    /// Number of surface formats the device reports for the surface.
    pub format_count: usize,
    /// Number of present modes the device reports for the surface.
    pub present_mode_count: usize,
    /// Whether the device supports sampler anisotropy.
    pub sampler_anisotropy: bool,
}

impl DeviceFacts {
    /// The two per-family tables describe the same families.
    pub open spec fn wf(self) -> bool {
        &&& self.queue_flags@.len() == self.present_support@.len()
        &&& self.queue_flags@.len() <= u32::MAX
    }

    /// Some queue family supports graphics.
    pub open spec fn has_graphics_family(self) -> bool {
        exists|i: int| 0 <= i < self.queue_flags@.len() && supports_graphics(self.queue_flags@[i])
    }

    /// Some queue family can present to the surface.
    pub open spec fn has_present_family(self) -> bool {
        exists|i: int| 0 <= i < self.present_support@.len() && self.present_support@[i]
    }

    /// Every required extension appears among the offered ones.
    pub open spec fn has_extensions(self, required: Seq<u64>) -> bool {
        forall|i: int| 0 <= i < required.len() ==> self.available_extensions@.contains(required[i])
    }

    /// The whole suitability requirement: both queue families, all required
    /// extensions, at least one surface format and present mode, and
    /// sampler anisotropy.
    pub open spec fn suitable(self, required: Seq<u64>) -> bool {
        &&& self.has_graphics_family()
        &&& self.has_present_family()
        &&& self.has_extensions(required)
        &&& self.format_count > 0
        &&& self.present_mode_count > 0
        &&& self.sampler_anisotropy
    }
}

impl QueueFamilyIndices {
    /// Selects the queue families to use on a device: the first family whose
    /// capability mask includes graphics, and the first family that can
    /// present to the surface.  Fails with `MissingQueueFamily` exactly when
    /// either kind of family is absent.
    pub fn select(queue_flags: &Vec<u32>, present_support: &Vec<bool>) -> (r: Result<
        QueueFamilyIndices,
        RenderError,
    >)
        requires
            queue_flags@.len() == present_support@.len(),
            queue_flags@.len() <= u32::MAX,
        ensures
            match r {
                Ok(q) => {
                    &&& q.graphics < queue_flags@.len()
                    &&& supports_graphics(queue_flags@[q.graphics as int])
                    &&& forall|j: int| 0 <= j < q.graphics ==> !supports_graphics(queue_flags@[j])
                    &&& q.present < present_support@.len()
                    &&& present_support@[q.present as int]
                    &&& forall|j: int| 0 <= j < q.present ==> !present_support@[j]
                },
                Err(e) => {
                    &&& e == RenderError::MissingQueueFamily
                    &&& {
                        ||| forall|i: int|
                            0 <= i < queue_flags@.len() ==> !supports_graphics(queue_flags@[i])
                        ||| forall|i: int| 0 <= i < present_support@.len() ==> !present_support@[i]
                    }
                },
            },
    {
        let n = queue_flags.len();
        let mut graphics: Option<u32> = None;
        let mut i: usize = 0;
        while i < n
            invariant
                n == queue_flags@.len() <= u32::MAX,
                i <= n,
                match graphics {
                    Some(g) => {
                        &&& g < i
                        &&& supports_graphics(queue_flags@[g as int])
                        &&& forall|j: int| 0 <= j < g ==> !supports_graphics(queue_flags@[j])
                    },
                    None => forall|j: int| 0 <= j < i ==> !supports_graphics(queue_flags@[j]),
                },
            decreases n - i,
        {
            if graphics.is_none() && (queue_flags[i] & GRAPHICS_QUEUE_BIT) != 0 {
                graphics = Some(i as u32);
            }
            i += 1;
        }

        let mut present: Option<u32> = None;
        let mut i: usize = 0;
        while i < n
            invariant
                n == present_support@.len() <= u32::MAX,
                i <= n,
                match present {
                    Some(p) => {
                        &&& p < i
                        &&& present_support@[p as int]
                        &&& forall|j: int| 0 <= j < p ==> !present_support@[j]
                    },
                    None => forall|j: int| 0 <= j < i ==> !present_support@[j],
                },
            decreases n - i,
        {
            if present.is_none() && present_support[i] {
                present = Some(i as u32);
            }
            i += 1;
        }

        match (graphics, present) {
            (Some(g), Some(p)) => Ok(QueueFamilyIndices { graphics: g, present: p }),
            _ => Err(RenderError::MissingQueueFamily),
        }
    }

    /// The distinct queue family indices, graphics first: the device is
    /// created with one queue per entry.
    pub fn unique_families(&self) -> (r: Vec<u32>)
        ensures
            self.graphics == self.present ==> r@ =~= seq![self.graphics],
            self.graphics != self.present ==> r@ =~= seq![self.graphics, self.present],
    {
        let mut r: Vec<u32> = Vec::new();
        r.push(self.graphics);
        if self.present != self.graphics {
            r.push(self.present);
        }
        r
    }
}

/// Whether `v` holds `x`.
fn contains_u64(v: &Vec<u64>, x: u64) -> (r: bool)
    ensures
        r == v@.contains(x),
{
    let mut i: usize = 0;
    while i < v.len()
        invariant
            i <= v@.len(),
            forall|j: int| 0 <= j < i ==> v@[j] != x,
        decreases v@.len() - i,
    {
        if v[i] == x {
            return true;
        }
        i += 1;
    }
    false
}

/// Checks that every required device extension appears among the
/// available ones; fails with `MissingRequiredExtension` exactly when one
/// is absent.
pub fn check_physical_device_extensions(available: &Vec<u64>, required: &Vec<u64>) -> (r: Result<
    (),
    RenderError,
>)
    ensures
        r is Ok <==> (forall|i: int|
            0 <= i < required@.len() ==> available@.contains(required@[i])),
        r is Err ==> r == Err::<(), RenderError>(RenderError::MissingRequiredExtension),
{
    let mut i: usize = 0;
    while i < required.len()
        invariant
            i <= required@.len(),
            forall|j: int| 0 <= j < i ==> available@.contains(required@[j]),
        decreases required@.len() - i,
    {
        if !contains_u64(available, required[i]) {
            return Err(RenderError::MissingRequiredExtension);
        }
        i += 1;
    }
    Ok(())
}

/// The sample count to render at, given the mask of counts the device
/// supports for both color and depth framebuffers: the largest supported
/// count, and single-sampling when none of the multisample bits is set.
pub open spec fn chosen_msaa_samples(counts: u32) -> u32 {
    if counts & 64 != 0 {
        64
    } else if counts & 32 != 0 {
        32
    } else if counts & 16 != 0 {
        16
    } else if counts & 8 != 0 {
        8
    } else if counts & 4 != 0 {
        4
    } else if counts & 2 != 0 {
        2
    } else {
        1
    }
}

/// Picks the multisample count from the device's supported-count mask.
pub fn max_msaa_samples(counts: u32) -> (r: u32)
    ensures
        r == chosen_msaa_samples(counts),
{
    if counts & 64 != 0 {
        64
    } else if counts & 32 != 0 {
        32
    } else if counts & 16 != 0 {
        16
    } else if counts & 8 != 0 {
        8
    } else if counts & 4 != 0 {
        4
    } else if counts & 2 != 0 {
        2
    } else {
        1
    }
}

/// The outcome `check_physical_device` owes for a candidate: `Ok` exactly
/// when the device is suitable, and otherwise the error of the first failed
/// requirement, checked in this order: queue families, extensions,
/// swapchain support, sampler anisotropy.
pub open spec fn check_device_spec(facts: DeviceFacts, required: Seq<u64>) -> Result<
    (),
    RenderError,
> {
    if !(facts.has_graphics_family() && facts.has_present_family()) {
        Err(RenderError::MissingQueueFamily)
    } else if !facts.has_extensions(required) {
        Err(RenderError::MissingRequiredExtension)
    } else if !(facts.format_count > 0 && facts.present_mode_count > 0) {
        Err(RenderError::InsufficientSwapchainSupport)
    } else if !facts.sampler_anisotropy {
        Err(RenderError::MissingDeviceFeature)
    } else {
        Ok(())
    }
}

/// Tests one candidate device against every suitability requirement.
pub fn check_physical_device(facts: &DeviceFacts, required: &Vec<u64>) -> (r: Result<
    (),
    RenderError,
>)
    requires
        facts.wf(),
    ensures
        r == check_device_spec(*facts, required@),
        r is Ok <==> facts.suitable(required@),
{
    match QueueFamilyIndices::select(&facts.queue_flags, &facts.present_support) {
        Ok(_) => {},
        Err(_) => {
            return Err(RenderError::MissingQueueFamily);
        },
    }
    match check_physical_device_extensions(&facts.available_extensions, required) {
        Ok(_) => {},
        Err(_) => {
            return Err(RenderError::MissingRequiredExtension);
        },
    }
    if facts.format_count == 0 || facts.present_mode_count == 0 {
        return Err(RenderError::InsufficientSwapchainSupport);
    }
    if !facts.sampler_anisotropy {
        return Err(RenderError::MissingDeviceFeature);
    }
    Ok(())
}

/// Picks the physical device to use: the first candidate, in enumeration
/// order, that satisfies every requirement.  Fails with `NoSuitableGpu`
/// exactly when no candidate does.
pub fn pick_physical_device(devices: &Vec<DeviceFacts>, required: &Vec<u64>) -> (r: Result<
    usize,
    RenderError,
>)
    requires
        forall|i: int| 0 <= i < devices@.len() ==> (#[trigger] devices@[i]).wf(),
    ensures
        match r {
            Ok(i) => {
                &&& i < devices@.len()
                &&& devices@[i as int].suitable(required@)
                &&& forall|j: int| 0 <= j < i ==> !(#[trigger] devices@[j]).suitable(required@)
            },
            Err(e) => {
                &&& e == RenderError::NoSuitableGpu
                &&& forall|j: int|
                    0 <= j < devices@.len() ==> !(#[trigger] devices@[j]).suitable(required@)
            },
        },
{
    let mut i: usize = 0;
    while i < devices.len()
        invariant
            i <= devices@.len(),
            forall|j: int| 0 <= j < devices@.len() ==> (#[trigger] devices@[j]).wf(),
            forall|j: int| 0 <= j < i ==> !(#[trigger] devices@[j]).suitable(required@),
        decreases devices@.len() - i,
    {
        if check_physical_device(&devices[i], required).is_ok() {
            return Ok(i);
        }
        i += 1;
    }
    Err(RenderError::NoSuitableGpu)
}

} // verus!
